use reflow_oven::profile::Phase;
use reflow_oven::web::{History, OvenState};

#[test]
fn oven_state_default_is_idle() {
    let s = OvenState::default();
    assert_eq!(s.phase, Phase::Idle);
    assert_eq!((s.temperature, s.target, s.duty_pct, s.elapsed_ms), (0, 0, 0, 0));
    assert!(!s.simulating);
    assert!(!s.open_door);
}

#[test]
fn history_keeps_latest_600() {
    let mut h = History::new();
    assert!(h.points().is_empty());
    for i in 0..601u64 {
        h.push(i * 1_000, 25_000, 30_000, Phase::Preheat);
    }
    assert_eq!(h.points().len(), 600);
    assert_eq!(h.points()[0].t_ms, 1_000);
    assert_eq!(h.points()[599].t_ms, 600_000);
    h.push(601_000, 26_000, 31_000, Phase::Soak);
    assert_eq!(h.points().len(), 600);
    assert_eq!(h.points()[0].t_ms, 2_000);
    assert_eq!(h.points()[599].temp, 26_000);
    assert_eq!(h.points()[599].phase, Phase::Soak);
    h.clear();
    assert!(h.points().is_empty());
}
