//! The oven's control loop, one step at a time: the loop that owns the
//! hardware hands each command and each temperature reading to a
//! `Controller`, and carries out the duty, LED and logging that it answers.
use vstd::prelude::*;
use crate::pid::{Pid, pid_output, saturate_i64};
use crate::profile::{
    Phase,
    Profile,
    ProfileRunner,
    add_elapsed,
    runner_step,
    sn63_pb37_profile,
    target_of,
};
use crate::sensor::{SimulatedSensor, TemperatureSensor, simulated_next, simulated_reading};
use crate::web::{History, HistoryPoint, OvenState, keep_recent, HISTORY_CAPACITY};

verus! {

/// Above this temperature (m°C) the heater is cut and the run aborted.
pub const MAX_SAFE_TEMP: i32 = 250_000;

/// Length of one control step, ms (the loop runs at ~4 Hz).
pub const CONTROL_PERIOD_MS: u32 = 250;

/// Length of one cycle of the relay's slow PWM, ms.
pub const SSR_PERIOD_MS: u32 = 2_000;

/// Least time between two samples of the history, ms.
pub const HISTORY_INTERVAL_MS: u64 = 1_000;

/// Proportional gain of the oven's controller, in thousandths (2.0).
pub const KP: i32 = 2_000;

/// Integral gain of the oven's controller, in thousandths (0.01).
pub const KI: i32 = 10;

/// Derivative gain of the oven's controller, in thousandths (5.0).
pub const KD: i32 = 5_000;

/// A request from the web interface.
pub enum Command {
    /// Start a run of the current profile.
    Start,
    /// Abort the run.
    Stop,
    /// Switch between the real sensor and the simulated oven.
    ToggleSimulate,
    /// Use another profile (the runner starts over, idle).
    SetProfile(Profile),
}

/// What one control step asks of the hardware.
pub struct Tick {
    /// The temperature that the step used, m°C.
    pub temperature: i32,
    /// The heater duty to apply, thousandths of a percent.
    pub duty_pct: u32,
    /// The temperature was over `MAX_SAFE_TEMP`: the heater is off and the run
    /// aborted.
    pub over_temperature: bool,
    /// The phase changed: show this one on the status LED.
    pub led: Option<Phase>,
}

pub struct Controller {
    pub runner: ProfileRunner,
    pub pid: Pid,
    pub sim: SimulatedSensor,
    pub simulating: bool,
    /// time spent in the active phases of the run, ms
    pub elapsed_ms: u64,
    /// the phase that the LED shows
    pub last_phase: Phase,
}

/// The simulated oven's temperature (n°C) after a step of `dt_ms`.
pub open spec fn simulated_after(c: Controller, dt_ms: int) -> int {
    simulated_next(c.sim.temperature as int, c.sim.ambient as int, c.sim.duty_pct as int, dt_ms)
}

/// The temperature (m°C) that a step uses: the simulated oven's reading, after
/// the step, when simulating; else the reading of the real sensor, or 0 when
/// it failed.
pub open spec fn measured_temp(c: Controller, reading: Option<i32>, dt_ms: int) -> int {
    if c.simulating {
        simulated_reading(simulated_after(c, dt_ms))
    } else {
        match reading {
            Some(t) => t as int,
            None => 0,
        }
    }
}

/// The runner's phase, time in phase and ramped target after a step, before
/// the over-temperature check.
pub open spec fn stepped_runner(c: Controller, temp: int, dt_ms: int) -> (Phase, int, int) {
    runner_step(
        c.runner.profile,
        c.runner.phase,
        c.runner.phase_elapsed_ms as int,
        c.runner.ramped_target as int,
        temp,
        dt_ms,
    )
}

/// The controller's output for a step in which the runner asks for `target`
/// at temperature `temp`.
pub open spec fn pid_duty(c: Controller, target: int, temp: int, dt_ms: int) -> int {
    let error = target - temp;
    pid_output(
        c.pid.kp as int,
        c.pid.ki as int,
        c.pid.kd as int,
        error,
        saturate_i64(c.pid.integral + error * dt_ms),
        c.pid.prev_error as int,
        dt_ms,
    )
}

/// A new sample is due at `elapsed` (ms into the run).
pub open spec fn sample_due(history: Seq<HistoryPoint>, elapsed: int) -> bool {
    history.len() == 0 || elapsed - history.last().t_ms >= HISTORY_INTERVAL_MS
}

/// Every two samples of `s` lie at least `HISTORY_INTERVAL_MS` apart, in the
/// order in which they were taken.
pub open spec fn samples_spaced(s: Seq<HistoryPoint>) -> bool {
    forall|i: int, j: int|
        0 <= i < j < s.len() ==> #[trigger] s[i].t_ms + HISTORY_INTERVAL_MS <= #[trigger] s[j].t_ms
}

proof fn lemma_push_sample(s: Seq<HistoryPoint>, p: HistoryPoint)
    ensures
        keep_recent(s.push(p), HISTORY_CAPACITY as nat).len() > 0,
        keep_recent(s.push(p), HISTORY_CAPACITY as nat).last() == p,
        samples_spaced(s) && (s.len() == 0 || s.last().t_ms + HISTORY_INTERVAL_MS <= p.t_ms)
            ==> samples_spaced(keep_recent(s.push(p), HISTORY_CAPACITY as nat)),
{
    let t = s.push(p);
    let k = keep_recent(t, HISTORY_CAPACITY as nat);
    if samples_spaced(s) && (s.len() == 0 || s.last().t_ms + HISTORY_INTERVAL_MS <= p.t_ms) {
        assert(samples_spaced(t)) by {
            assert forall|i: int, j: int| 0 <= i < j < t.len() implies #[trigger] t[i].t_ms
                + HISTORY_INTERVAL_MS <= #[trigger] t[j].t_ms by {
                if j == s.len() {
                    if i < s.len() - 1 {
                        assert(s[i].t_ms + HISTORY_INTERVAL_MS <= s[s.len() - 1].t_ms);
                    }
                } else {
                    assert(t[i] == s[i] && t[j] == s[j]);
                }
            }
        }
        if t.len() > HISTORY_CAPACITY {
            let off = t.len() - HISTORY_CAPACITY;
            assert forall|i: int, j: int| 0 <= i < j < k.len() implies #[trigger] k[i].t_ms
                + HISTORY_INTERVAL_MS <= #[trigger] k[j].t_ms by {
                assert(k[i] == t[i + off] && k[j] == t[j + off]);
            }
        }
    }
}

impl Controller {
    /// The oven at power-up: leaded profile, idle, real sensor.
    pub fn new() -> (c: Self)
        ensures
            c.runner == (ProfileRunner {
                profile: sn63_pb37_profile(),
                phase: Phase::Idle,
                phase_elapsed_ms: 0,
                ramped_target: 0,
            }),
            c.pid == (Pid { kp: KP, ki: KI, kd: KD, setpoint: 0, integral: 0, prev_error: 0 }),
            c.sim == (SimulatedSensor {
                temperature: 25_000_000_000,
                ambient: 25_000_000_000,
                duty_pct: 0,
            }),
            !c.simulating,
            c.elapsed_ms == 0,
            c.last_phase == Phase::Idle,
    {
        Controller {
            runner: ProfileRunner::new(Profile::default()),
            pid: Pid::new(KP, KI, KD),
            sim: SimulatedSensor::new(),
            simulating: false,
            elapsed_ms: 0,
            last_phase: Phase::Idle,
        }
    }

    /// Carries out a command. Returns whether the heater must be switched off
    /// at once.
    pub fn handle_command(&mut self, cmd: Command, history: &mut History) -> (heater_off: bool)
        ensures
            final(self).last_phase == old(self).last_phase,
            match cmd {
                Command::Start => {
                    &&& final(self).runner == (ProfileRunner {
                        phase: Phase::Preheat,
                        phase_elapsed_ms: 0,
                        ramped_target: 0,
                        ..old(self).runner
                    })
                    &&& final(self).pid == (Pid { integral: 0, prev_error: 0, ..old(self).pid })
                    &&& final(self).sim == (SimulatedSensor {
                        temperature: 25_000_000_000,
                        ambient: 25_000_000_000,
                        duty_pct: 0,
                    })
                    &&& final(self).simulating == old(self).simulating
                    &&& final(self).elapsed_ms == 0
                    &&& final(history)@ == Seq::<HistoryPoint>::empty()
                    &&& !heater_off
                },
                Command::Stop => {
                    &&& final(self).runner == (ProfileRunner {
                        phase: Phase::Idle,
                        phase_elapsed_ms: 0,
                        ramped_target: 0,
                        ..old(self).runner
                    })
                    &&& final(self).pid == (Pid { integral: 0, prev_error: 0, ..old(self).pid })
                    &&& final(self).sim == old(self).sim
                    &&& final(self).simulating == old(self).simulating
                    &&& final(self).elapsed_ms == old(self).elapsed_ms
                    &&& final(history)@ == old(history)@
                    &&& heater_off
                },
                Command::ToggleSimulate => {
                    &&& final(self).runner == old(self).runner
                    &&& final(self).pid == old(self).pid
                    &&& final(self).sim == old(self).sim
                    &&& final(self).simulating == !old(self).simulating
                    &&& final(self).elapsed_ms == old(self).elapsed_ms
                    &&& final(history)@ == old(history)@
                    &&& !heater_off
                },
                Command::SetProfile(p) => {
                    &&& final(self).runner == (ProfileRunner {
                        profile: p,
                        phase: Phase::Idle,
                        phase_elapsed_ms: 0,
                        ramped_target: 0,
                    })
                    &&& final(self).pid == old(self).pid
                    &&& final(self).sim == old(self).sim
                    &&& final(self).simulating == old(self).simulating
                    &&& final(self).elapsed_ms == old(self).elapsed_ms
                    &&& final(history)@ == old(history)@
                    &&& !heater_off
                },
            },
    {
        match cmd {
            Command::Start => {
                self.runner.start();
                self.pid.reset();
                self.sim = SimulatedSensor::new();
                self.elapsed_ms = 0;
                history.clear();
                false
            },
            Command::Stop => {
                self.runner.stop();
                self.pid.reset();
                true
            },
            Command::ToggleSimulate => {
                self.simulating = !self.simulating;
                false
            },
            Command::SetProfile(p) => {
                self.runner = ProfileRunner::new(p);
                false
            },
        }
    }

    /// One step of the control loop, `dt_ms` milliseconds after the last one.
    /// `reading` is the real sensor's temperature (m°C), `None` when it could
    /// not be read; it is not used while simulating. Updates the history and
    /// the state that the web interface shows.
    pub fn step(
        &mut self,
        reading: Option<i32>,
        dt_ms: u32,
        history: &mut History,
        state: &mut OvenState,
    ) -> (tick: Tick)
        requires
            dt_ms > 0,
        ensures
            ({
                let c = *old(self);
                let dt = dt_ms as int;
                let temp = measured_temp(c, reading, dt);
                let (ph, e, r) = stepped_runner(c, temp, dt);
                let over = temp > MAX_SAFE_TEMP;
                let driven = ph.is_active();
                let target = target_of(ph, r);
                let error = target - temp;
                let duty = if over || !driven {
                    0
                } else {
                    pid_duty(c, target, temp, dt)
                };
                let phase = if over {
                    Phase::Idle
                } else {
                    ph
                };
                let elapsed = if phase.is_active() {
                    add_elapsed(c.elapsed_ms as int, dt)
                } else {
                    c.elapsed_ms as int
                };
                let shown_target = if over {
                    0
                } else {
                    target
                };
                &&& tick.temperature == temp
                &&& tick.over_temperature == over
                &&& tick.duty_pct == duty
                &&& final(self).runner.profile == c.runner.profile
                &&& final(self).runner.phase == phase
                &&& final(self).runner.phase_elapsed_ms == if over {
                    0
                } else {
                    e
                }
                &&& final(self).runner.ramped_target == if over {
                    0
                } else {
                    r
                }
                &&& final(self).pid.kp == c.pid.kp
                &&& final(self).pid.ki == c.pid.ki
                &&& final(self).pid.kd == c.pid.kd
                &&& final(self).pid.setpoint == if driven {
                    target
                } else {
                    c.pid.setpoint as int
                }
                &&& final(self).pid.integral == if over {
                    0
                } else if driven {
                    saturate_i64(c.pid.integral + error * dt)
                } else {
                    c.pid.integral as int
                }
                &&& final(self).pid.prev_error == if over {
                    0
                } else if driven {
                    error
                } else {
                    c.pid.prev_error as int
                }
                &&& final(self).simulating == c.simulating
                &&& final(self).sim.ambient == c.sim.ambient
                &&& final(self).sim.temperature == if c.simulating {
                    simulated_after(c, dt)
                } else {
                    c.sim.temperature as int
                }
                &&& final(self).sim.duty_pct == if c.simulating {
                    duty
                } else {
                    c.sim.duty_pct as int
                }
                &&& final(self).elapsed_ms == elapsed
                &&& final(history)@ == if !(phase is Idle) && sample_due(old(history)@, elapsed) {
                    keep_recent(
                        old(history)@.push(
                            HistoryPoint {
                                t_ms: elapsed as u64,
                                temp: temp as i32,
                                target: shown_target as i32,
                                phase,
                            },
                        ),
                        HISTORY_CAPACITY as nat,
                    )
                } else {
                    old(history)@
                }
                &&& *final(state) == (OvenState {
                    temperature: temp as i32,
                    target: shown_target as i32,
                    duty_pct: duty as u32,
                    phase,
                    simulating: c.simulating,
                    elapsed_ms: elapsed as u64,
                    open_door: old(state).open_door,
                })
                &&& tick.led == if phase != c.last_phase {
                    Some(phase)
                } else {
                    None
                }
                &&& final(self).last_phase == phase
            }),
            final(history)@ != old(history)@ ==> {
                &&& final(history)@.len() > 0
                &&& final(history)@.last().t_ms == final(self).elapsed_ms
                &&& old(history)@.len() == 0 || old(history)@.last().t_ms + HISTORY_INTERVAL_MS
                    <= final(self).elapsed_ms
            },
            samples_spaced(old(history)@) ==> samples_spaced(final(history)@),
            tick.over_temperature ==> tick.duty_pct == 0 && final(self).runner.phase == Phase::Idle,
            !final(self).runner.phase.is_active() ==> tick.duty_pct == 0,
            old(self).runner.phase == Phase::Idle ==> final(self).runner.phase == Phase::Idle,
            tick.duty_pct <= 100_000,
    {
        let temp: i32 = if self.simulating {
            self.sim.tick(dt_ms);
            match self.sim.read_celsius() {
                Ok(t) => t,
                Err(_) => 0,
            }
        } else {
            match reading {
                Some(t) => t,
                None => 0,
            }
        };
        self.runner.update(temp, dt_ms);
        let mut duty: u32 = match self.runner.phase {
            Phase::Idle | Phase::Done => 0,
            _ => {
                self.pid.set_target(self.runner.target_temperature());
                self.pid.update(temp, dt_ms)
            },
        };
        let over = temp > MAX_SAFE_TEMP;
        if over {
            duty = 0;
            self.runner.stop();
            self.pid.reset();
        }
        if self.simulating {
            self.sim.set_duty(duty as i32);
        }
        let active = match self.runner.phase {
            Phase::Idle | Phase::Done => false,
            _ => true,
        };
        if active {
            self.elapsed_ms = self.elapsed_ms.saturating_add(dt_ms as u64);
        }
        let target = self.runner.target_temperature();
        let phase = self.runner.phase;
        let recording = match phase {
            Phase::Idle => false,
            _ => true,
        };
        if recording {
            let points = history.points();
            let due = if points.len() == 0 {
                true
            } else {
                let last = points[points.len() - 1].t_ms;
                self.elapsed_ms >= last && self.elapsed_ms - last >= HISTORY_INTERVAL_MS
            };
            let ghost before = history@;
            if due {
                history.push(self.elapsed_ms, temp, target, phase);
                proof {
                    lemma_push_sample(
                        before,
                        HistoryPoint { t_ms: self.elapsed_ms, temp, target, phase },
                    );
                }
            }
        }
        state.temperature = temp;
        state.target = target;
        state.duty_pct = duty;
        state.phase = phase;
        state.simulating = self.simulating;
        state.elapsed_ms = self.elapsed_ms;
        let led = if phase != self.last_phase {
            self.last_phase = phase;
            Some(phase)
        } else {
            None
        };
        Tick { temperature: temp, duty_pct: duty, over_temperature: over, led }
    }
}

} // verus!
