use reflow_oven::profile::{Phase, Profile, ProfileRunner};

#[test]
fn starts_idle() {
    let runner = ProfileRunner::new(Profile::default());
    assert_eq!(runner.phase, Phase::Idle);
}

#[test]
fn start_enters_preheat() {
    let mut runner = ProfileRunner::new(Profile::default());
    runner.start();
    assert_eq!(runner.phase, Phase::Preheat);
}

#[test]
fn preheat_to_soak_on_target() {
    let mut runner = ProfileRunner::new(Profile::sn63_pb37());
    runner.start();
    runner.update(150_000, 250);
    assert_eq!(runner.phase, Phase::Soak);
}

#[test]
fn ramped_target_increases_gradually() {
    let mut runner = ProfileRunner::new(Profile::sn63_pb37());
    runner.start();
    runner.update(25_000, 250); // ramp = 2°C/s, dt = 0.25 s -> +0.5°C
    assert!((runner.target_temperature() - 500).abs() < 10);
    runner.update(25_000, 250);
    assert!((runner.target_temperature() - 1_000).abs() < 10);
}

#[test]
fn ramped_target_capped_at_phase_target() {
    let mut runner = ProfileRunner::new(Profile::sn63_pb37());
    runner.start();
    // Advance 100 s at 2°C/s = 200°C of ramp, but capped at 150°C
    for _ in 0..400 {
        runner.update(25_000, 250);
    }
    assert!((runner.target_temperature() - 150_000).abs() < 10);
}

#[test]
fn soak_to_reflow_after_duration() {
    let mut runner = ProfileRunner::new(Profile::sn63_pb37());
    runner.start();
    runner.update(150_000, 250); // -> Soak
    // Advance 60 seconds
    for _ in 0..240 {
        runner.update(170_000, 250);
    }
    assert_eq!(runner.phase, Phase::Reflow);
}

#[test]
fn reflow_to_cooling_after_duration() {
    let mut runner = ProfileRunner::new(Profile::sn63_pb37());
    runner.start();
    runner.update(150_000, 250); // -> Soak
    for _ in 0..240 {
        runner.update(170_000, 250);
    } // -> Reflow
    for _ in 0..120 {
        runner.update(210_000, 250);
    } // 30 s -> Cooling
    assert_eq!(runner.phase, Phase::Cooling);
}

#[test]
fn cooling_to_done_on_target() {
    let mut runner = ProfileRunner::new(Profile::sn63_pb37());
    runner.start();
    runner.update(150_000, 250);
    for _ in 0..240 {
        runner.update(170_000, 250);
    }
    for _ in 0..120 {
        runner.update(210_000, 250);
    }
    runner.update(50_000, 250);
    assert_eq!(runner.phase, Phase::Done);
}

#[test]
fn stop_returns_to_idle() {
    let mut runner = ProfileRunner::new(Profile::default());
    runner.start();
    runner.stop();
    assert_eq!(runner.phase, Phase::Idle);
}

#[test]
fn target_temperature_zero_when_idle() {
    let runner = ProfileRunner::new(Profile::sn63_pb37());
    assert_eq!(runner.target_temperature(), 0);
}

#[test]
fn default_profile_is_leaded() {
    assert_eq!(Profile::default(), Profile::sn63_pb37());
    let p = Profile::sn63_pb37();
    assert_eq!(p.preheat_target, 150_000);
    assert_eq!(p.reflow_target, 220_000);
    assert_eq!(p.reflow_duration_s, 30);
    let q = Profile::sn42_bi58();
    assert_eq!(q.preheat_target, 100_000);
    assert_eq!(q.reflow_target, 165_000);
    assert_eq!(q.reflow_ramp, 2_000);
}

#[test]
fn soak_starts_from_measured_temperature_and_ramps() {
    let mut runner = ProfileRunner::new(Profile::sn63_pb37());
    runner.start();
    runner.update(151_000, 250);
    assert_eq!(runner.phase, Phase::Soak);
    assert_eq!(runner.target_temperature(), 151_000);
    assert_eq!(runner.phase_elapsed_ms, 0);
    // soak ramp 0.5°C/s over 0.25 s: +0.125°C
    runner.update(151_000, 250);
    assert_eq!(runner.target_temperature(), 151_125);
    assert_eq!(runner.phase_elapsed_ms, 250);
}

#[test]
fn soak_target_capped_when_entering_above_it() {
    let mut runner = ProfileRunner::new(Profile::sn63_pb37());
    runner.start();
    runner.update(180_000, 250); // enters soak at 180°C, above the soak target
    runner.update(180_000, 250);
    assert_eq!(runner.target_temperature(), 170_000);
}

#[test]
fn cooling_and_done_ask_for_no_heat() {
    let mut runner = ProfileRunner::new(Profile::sn42_bi58());
    runner.start();
    runner.update(100_000, 250);
    for _ in 0..240 {
        runner.update(130_000, 250);
    }
    assert_eq!(runner.phase, Phase::Reflow);
    for _ in 0..120 {
        runner.update(160_000, 250);
    }
    assert_eq!(runner.phase, Phase::Cooling);
    assert_eq!(runner.target_temperature(), 0);
    runner.update(60_000, 250);
    assert_eq!(runner.phase, Phase::Cooling);
    runner.update(50_000, 250);
    assert_eq!(runner.phase, Phase::Done);
    assert_eq!(runner.target_temperature(), 0);
    // a finished run stays finished
    runner.update(300_000, 250);
    assert_eq!(runner.phase, Phase::Done);
}

#[test]
fn idle_runner_ignores_temperature() {
    let mut runner = ProfileRunner::new(Profile::sn63_pb37());
    runner.update(200_000, 250);
    assert_eq!(runner.phase, Phase::Idle);
    assert_eq!(runner.target_temperature(), 0);
}

#[test]
fn time_in_phase_saturates() {
    let mut runner = ProfileRunner::new(Profile::sn63_pb37());
    runner.phase_elapsed_ms = u64::MAX - 100;
    runner.update(25_000, 250);
    assert_eq!(runner.phase_elapsed_ms, u64::MAX);
}

#[test]
fn profile_chosen_by_name() {
    assert_eq!(Profile::for_name(b"sn42bi58"), Profile::sn42_bi58());
    assert_eq!(Profile::for_name(b"sn63pb37"), Profile::sn63_pb37());
    assert_eq!(Profile::for_name(b""), Profile::sn63_pb37());
    assert_eq!(Profile::for_name(b"sn42bi5"), Profile::sn63_pb37());
    assert_eq!(Profile::for_name(b"sn42bi580"), Profile::sn63_pb37());
    assert_eq!(Profile::for_name(&[0xff, 0xfe]), Profile::sn63_pb37());
}

#[test]
fn slow_ramp_over_short_steps_accumulates() {
    let mut runner = ProfileRunner::new(Profile::sn63_pb37());
    runner.start();
    runner.update(151_000, 1); // -> Soak at 151°C
    assert_eq!(runner.phase, Phase::Soak);
    // soak ramp 0.5°C/s: 0.5 m°C per 1 ms step
    runner.update(151_000, 1);
    assert_eq!(runner.target_temperature(), 151_000);
    assert_eq!(runner.ramped_target, 151_000_500);
    runner.update(151_000, 1);
    assert_eq!(runner.target_temperature(), 151_001);
    for _ in 0..1_998 {
        runner.update(151_000, 1);
    }
    // 2000 steps of 1 ms: +1°C
    assert_eq!(runner.target_temperature(), 152_000);
}

#[test]
fn negative_ramped_target_rounds_down() {
    let mut runner = ProfileRunner::new(Profile::sn63_pb37());
    runner.start();
    runner.ramped_target = -1_500;
    assert_eq!(runner.target_temperature(), -2);
}
