use reflow_oven::pid::Pid;

#[test]
fn pid_new_has_no_history() {
    let pid = Pid::new(2_000, 10, 5_000);
    assert_eq!((pid.kp, pid.ki, pid.kd), (2_000, 10, 5_000));
    assert_eq!((pid.setpoint, pid.integral, pid.prev_error), (0, 0, 0));
}

#[test]
fn pid_sums_the_three_terms() {
    let mut pid = Pid::new(2_000, 10, 5_000);
    pid.set_target(25_000);
    // error 1°C over 1 s: P = 2%, I = 0.01 * 1°C·s = 0.01%, D = 5 * 1°C/s = 5%
    assert_eq!(pid.update(24_000, 1_000), 7_010);
    assert_eq!(pid.integral, 1_000_000);
    assert_eq!(pid.prev_error, 1_000);
    // same error again: no derivative, integral doubles
    assert_eq!(pid.update(24_000, 1_000), 2_020);
}

#[test]
fn pid_output_clamped() {
    let mut pid = Pid::new(2_000, 10, 5_000);
    pid.set_target(150_000);
    assert_eq!(pid.update(25_000, 250), 100_000);
    pid.set_target(0);
    pid.reset();
    assert_eq!(pid.update(25_000, 250), 0);
}

#[test]
fn pid_reset_forgets_errors() {
    let mut pid = Pid::new(2_000, 10, 5_000);
    pid.set_target(30_000);
    pid.update(20_000, 250);
    pid.reset();
    assert_eq!((pid.integral, pid.prev_error), (0, 0));
    assert_eq!(pid.setpoint, 30_000);
}

#[test]
fn pid_integral_saturates() {
    let mut pid = Pid::new(0, 0, 0);
    pid.integral = i64::MAX - 5;
    pid.set_target(i32::MAX);
    pid.update(i32::MIN, u32::MAX);
    assert_eq!(pid.integral, i64::MAX);
}
