use reflow_oven::control::{Command, Controller, CONTROL_PERIOD_MS};
use reflow_oven::profile::{Phase, Profile};
use reflow_oven::web::{History, OvenState};

#[test]
fn idle_oven_stays_off() {
    let mut c = Controller::new();
    let mut h = History::new();
    let mut s = OvenState::default();
    let t = c.step(Some(30_000), CONTROL_PERIOD_MS, &mut h, &mut s);
    assert_eq!(t.duty_pct, 0);
    assert_eq!(t.led, None);
    assert!(!t.over_temperature);
    assert_eq!(c.runner.phase, Phase::Idle);
    assert!(h.points().is_empty());
    assert_eq!(s.temperature, 30_000);
    assert_eq!(s.elapsed_ms, 0);
}

#[test]
fn start_heats_and_records() {
    let mut c = Controller::new();
    let mut h = History::new();
    let mut s = OvenState::default();
    assert!(!c.handle_command(Command::Start, &mut h));
    let t = c.step(Some(25_000), CONTROL_PERIOD_MS, &mut h, &mut s);
    assert_eq!(c.runner.phase, Phase::Preheat);
    assert_eq!(t.led, Some(Phase::Preheat));
    // target 0.5°C below 25°C: negative error, no heat
    assert_eq!(t.duty_pct, 0);
    assert_eq!(c.elapsed_ms, 250);
    assert_eq!(h.points().len(), 1);
    assert_eq!(h.points()[0].t_ms, 250);
    for _ in 0..4 {
        c.step(Some(25_000), CONTROL_PERIOD_MS, &mut h, &mut s);
    }
    // one sample a second
    assert_eq!(h.points().len(), 2);
    assert_eq!(h.points()[1].t_ms, 1_250);
    assert_eq!(s.phase, Phase::Preheat);
    assert_eq!(s.elapsed_ms, 1_250);
    assert_eq!(s.target, 2_500);
}

#[test]
fn over_temperature_cuts_heater() {
    let mut c = Controller::new();
    let mut h = History::new();
    let mut s = OvenState::default();
    c.handle_command(Command::Start, &mut h);
    let t = c.step(Some(260_000), CONTROL_PERIOD_MS, &mut h, &mut s);
    assert!(t.over_temperature);
    assert_eq!(t.duty_pct, 0);
    assert_eq!(c.runner.phase, Phase::Idle);
    assert_eq!(s.duty_pct, 0);
    assert_eq!(s.phase, Phase::Idle);
    // 250°C exactly is still allowed
    c.handle_command(Command::Start, &mut h);
    let t = c.step(Some(250_000), CONTROL_PERIOD_MS, &mut h, &mut s);
    assert!(!t.over_temperature);
    assert_eq!(c.runner.phase, Phase::Soak);
}

#[test]
fn stop_and_profile_commands() {
    let mut c = Controller::new();
    let mut h = History::new();
    let mut s = OvenState::default();
    c.handle_command(Command::Start, &mut h);
    c.step(Some(25_000), CONTROL_PERIOD_MS, &mut h, &mut s);
    assert!(c.handle_command(Command::Stop, &mut h));
    assert_eq!(c.runner.phase, Phase::Idle);
    assert_eq!(h.points().len(), 1);
    c.handle_command(Command::SetProfile(Profile::sn42_bi58()), &mut h);
    assert_eq!(c.runner.profile, Profile::sn42_bi58());
    assert_eq!(c.runner.phase, Phase::Idle);
    c.handle_command(Command::Start, &mut h);
    assert!(h.points().is_empty());
    assert_eq!(c.elapsed_ms, 0);
}

#[test]
fn simulated_run_heats_the_simulated_oven() {
    let mut c = Controller::new();
    let mut h = History::new();
    let mut s = OvenState::default();
    c.handle_command(Command::ToggleSimulate, &mut h);
    assert!(c.simulating);
    c.handle_command(Command::Start, &mut h);
    for _ in 0..200 {
        c.step(None, CONTROL_PERIOD_MS, &mut h, &mut s);
    }
    assert!(s.simulating);
    assert!(c.sim.temperature > 25_000_000_000);
    assert_eq!(s.temperature as i64, c.sim.temperature / 1_000_000);
    assert_eq!(c.sim.duty_pct as u32, s.duty_pct);
}

#[test]
fn failed_reading_counts_as_zero() {
    let mut c = Controller::new();
    let mut h = History::new();
    let mut s = OvenState::default();
    let t = c.step(None, CONTROL_PERIOD_MS, &mut h, &mut s);
    assert_eq!(t.temperature, 0);
}
