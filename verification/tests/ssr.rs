use reflow_oven::ssr::Ssr;

#[test]
fn ssr_duty_clamped() {
    let mut ssr = Ssr::new(2_000);
    assert_eq!(ssr.duty_pct, 0);
    ssr.set_duty(-5);
    assert_eq!(ssr.duty_pct, 0);
    ssr.set_duty(150_000);
    assert_eq!(ssr.duty_pct, 100_000);
    ssr.set_duty(42_500);
    assert_eq!(ssr.duty_pct, 42_500);
}

#[test]
fn ssr_on_time_and_output() {
    let mut ssr = Ssr::new(2_000);
    ssr.set_duty(50_000);
    assert_eq!(ssr.on_time_ms(), 1_000);
    assert!(ssr.output_high(999));
    assert!(!ssr.output_high(1_000));
    assert!(!ssr.cycle_over(1_999));
    assert!(ssr.cycle_over(2_000));
    ssr.set_duty(0);
    assert!(!ssr.output_high(0));
    ssr.set_duty(100_000);
    assert_eq!(ssr.on_time_ms(), 2_000);
}
