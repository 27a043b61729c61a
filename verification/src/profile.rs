//! Reflow profiles and the state machine that walks through them.
use vstd::prelude::*;
use crate::units::{coarsen, saturate_i32};

verus! {

/// Stage of a reflow run.
#[derive(Clone, Copy, Debug, PartialEq, Eq, Structural)]
pub enum Phase {
    Idle,
    Preheat,
    Soak,
    Reflow,
    Cooling,
    Done,
}

impl Phase {
    /// Position of the phase along a run, from `Idle` (0) to `Done` (5).
    pub open spec fn rank(self) -> nat {
        match self {
            Phase::Idle => 0,
            Phase::Preheat => 1,
            Phase::Soak => 2,
            Phase::Reflow => 3,
            Phase::Cooling => 4,
            Phase::Done => 5,
        }
    }

    /// The heater is driven in this phase.
    pub open spec fn is_active(self) -> bool {
        !(self is Idle) && !(self is Done)
    }
}

/// A solder paste's temperature profile.
#[derive(Clone, Copy, Debug, PartialEq, Eq, Structural)]
pub struct Profile {
    /// m°C
    pub preheat_target: i32,
    /// m°C per second, ramp rate to preheat
    pub preheat_ramp: u32,
    /// m°C
    pub soak_target: i32,
    /// m°C per second, ramp rate during soak
    pub soak_ramp: u32,
    /// seconds at soak temperature
    pub soak_duration_s: u32,
    /// m°C (peak)
    pub reflow_target: i32,
    /// m°C per second, ramp rate to reflow
    pub reflow_ramp: u32,
    /// seconds in reflow
    pub reflow_duration_s: u32,
    /// m°C to reach before the run is done
    pub cooling_target: i32,
}

/// Leaded Sn63/Pb37 (Relife HW21, melting point 183°C).
pub open spec fn sn63_pb37_profile() -> Profile {
    Profile {
        preheat_target: 150_000,
        preheat_ramp: 2_000,
        soak_target: 170_000,
        soak_ramp: 500,
        soak_duration_s: 60,
        reflow_target: 220_000,
        reflow_ramp: 1_500,
        reflow_duration_s: 30,
        cooling_target: 50_000,
    }
}

/// Low-temperature Sn42/Bi58 (melting point 138°C).
pub open spec fn sn42_bi58_profile() -> Profile {
    Profile {
        preheat_target: 100_000,
        preheat_ramp: 2_000,
        soak_target: 130_000,
        soak_ramp: 500,
        soak_duration_s: 60,
        reflow_target: 165_000,
        reflow_ramp: 2_000,
        reflow_duration_s: 30,
        cooling_target: 50_000,
    }
}

impl Profile {
    /// Leaded Sn63/Pb37 (Relife HW21, melting point 183°C).
    pub fn sn63_pb37() -> (p: Self)
        ensures
            p == sn63_pb37_profile(),
    {
        Profile {
            preheat_target: 150_000,
            preheat_ramp: 2_000,
            soak_target: 170_000,
            soak_ramp: 500,
            soak_duration_s: 60,
            reflow_target: 220_000,
            reflow_ramp: 1_500,
            reflow_duration_s: 30,
            cooling_target: 50_000,
        }
    }

    /// Low-temperature Sn42/Bi58 (melting point 138°C).
    pub fn sn42_bi58() -> (p: Self)
        ensures
            p == sn42_bi58_profile(),
    {
        Profile {
            preheat_target: 100_000,
            preheat_ramp: 2_000,
            soak_target: 130_000,
            soak_ramp: 500,
            soak_duration_s: 60,
            reflow_target: 165_000,
            reflow_ramp: 2_000,
            reflow_duration_s: 30,
            cooling_target: 50_000,
        }
    }
}

/// The name by which the web interface asks for the Sn42/Bi58 profile: "sn42bi58".
pub open spec fn sn42_bi58_name() -> Seq<u8> {
    seq![115u8, 110u8, 52u8, 50u8, 98u8, 105u8, 53u8, 56u8]
}

impl Profile {
    /// The profile that the web interface asks for by `name`: Sn42/Bi58 for
    /// "sn42bi58", the leaded Sn63/Pb37 for anything else.
    pub fn for_name(name: &[u8]) -> (p: Self)
        ensures
            p == if name@ == sn42_bi58_name() {
                sn42_bi58_profile()
            } else {
                sn63_pb37_profile()
            },
    {
        let is_sn42 = name.len() == 8 && name[0] == 115 && name[1] == 110 && name[2] == 52
            && name[3] == 50 && name[4] == 98 && name[5] == 105 && name[6] == 53 && name[7] == 56;
        if is_sn42 {
            assert(name@ =~= sn42_bi58_name());
            Self::sn42_bi58()
        } else {
            assert(name@ != sn42_bi58_name()) by {
                if name@ == sn42_bi58_name() {
                    assert(name@.len() == 8);
                    assert(name@[0] == 115u8 && name@[1] == 110u8 && name@[2] == 52u8 && name@[3] == 50u8);
                    assert(name@[4] == 98u8 && name@[5] == 105u8 && name@[6] == 53u8 && name@[7] == 56u8);
                }
            }
            Self::sn63_pb37()
        }
    }
}

impl Default for Profile {
    /// The leaded Sn63/Pb37 profile.
    fn default() -> (p: Self)
        ensures
            p == sn63_pb37_profile(),
    {
        Self::sn63_pb37()
    }
}

/// A ramped target `current` (µ°C) raised at `rate` (m°C per second) over
/// `dt_ms` milliseconds, capped at `cap` (µ°C). The rise `rate·dt` is exact in
/// µ°C, so no fraction of it is lost from step to step.
pub open spec fn ramp_toward(current: int, rate: int, dt_ms: int, cap: int) -> int {
    let raised = current + rate * dt_ms;
    if raised < cap {
        raised
    } else {
        cap
    }
}

/// `elapsed + dt_ms`, saturated at `u64::MAX`.
pub open spec fn add_elapsed(elapsed: int, dt_ms: int) -> int {
    if elapsed + dt_ms > u64::MAX {
        u64::MAX as int
    } else {
        elapsed + dt_ms
    }
}

/// One step of the runner: from its phase, time in phase (ms) and ramped target
/// (µ°C), given the measured temperature (m°C) and the step's length (ms), the
/// new phase, time in phase and ramped target.
pub open spec fn runner_step(
    p: Profile,
    phase: Phase,
    elapsed: int,
    ramped: int,
    temp: int,
    dt_ms: int,
) -> (Phase, int, int) {
    let e = add_elapsed(elapsed, dt_ms);
    match phase {
        Phase::Preheat => {
            if temp >= p.preheat_target {
                (Phase::Soak, 0, temp * 1000)
            } else {
                (Phase::Preheat, e, ramp_toward(ramped, p.preheat_ramp as int, dt_ms, p.preheat_target * 1000))
            }
        },
        Phase::Soak => {
            if e >= p.soak_duration_s * 1000 {
                (Phase::Reflow, 0, temp * 1000)
            } else {
                (Phase::Soak, e, ramp_toward(ramped, p.soak_ramp as int, dt_ms, p.soak_target * 1000))
            }
        },
        Phase::Reflow => {
            let r = ramp_toward(ramped, p.reflow_ramp as int, dt_ms, p.reflow_target * 1000);
            if e >= p.reflow_duration_s * 1000 {
                (Phase::Cooling, 0, r)
            } else {
                (Phase::Reflow, e, r)
            }
        },
        Phase::Cooling => {
            if temp <= p.cooling_target {
                (Phase::Done, e, ramped)
            } else {
                (Phase::Cooling, e, ramped)
            }
        },
        _ => (phase, e, ramped),
    }
}

/// The target temperature (m°C, rounded down) that a runner in `phase` with
/// ramped target `ramped` (µ°C) asks for.
pub open spec fn target_of(phase: Phase, ramped: int) -> int {
    match phase {
        Phase::Idle | Phase::Done | Phase::Cooling => 0,
        _ => saturate_i32(ramped / 1000),
    }
}

/// The phase target (µ°C) that a ramping phase heads for (0 for the others).
pub open spec fn phase_cap(p: Profile, phase: Phase) -> int {
    match phase {
        Phase::Preheat => p.preheat_target * 1000,
        Phase::Soak => p.soak_target * 1000,
        Phase::Reflow => p.reflow_target * 1000,
        _ => 0,
    }
}

/// Executes `ramp_toward`, for a cap given in m°C.
fn ramp(current: i64, rate: u32, dt_ms: u32, cap: i32) -> (r: i64)
    ensures
        r == ramp_toward(current as int, rate as int, dt_ms as int, cap * 1000),
{
    assert((rate as int) * (dt_ms as int) <= 0xffff_ffffu64 * 0xffff_ffffu64) by (nonlinear_arith)
        requires
            rate <= 0xffff_ffffu32,
            dt_ms <= 0xffff_ffffu32,
    ;
    let step: u64 = (rate as u64) * (dt_ms as u64);
    let raised: i128 = current as i128 + step as i128;
    let cap_micro: i64 = cap as i64 * 1000;
    if raised < cap_micro as i128 {
        raised as i64
    } else {
        cap_micro
    }
}

/// Walks a profile phase by phase.
pub struct ProfileRunner {
    pub profile: Profile,
    pub phase: Phase,
    /// Milliseconds spent in the current phase.
    pub phase_elapsed_ms: u64,
    /// The ramped target temperature of the current phase, in millionths of a
    /// degree (µ°C), so that slow ramps over short steps lose nothing.
    pub ramped_target: i64,
}

impl ProfileRunner {
    /// A runner of `profile`, idle.
    pub fn new(profile: Profile) -> (r: Self)
        ensures
            r.profile == profile,
            r.phase == Phase::Idle,
            r.phase_elapsed_ms == 0,
            r.ramped_target == 0,
    {
        Self { profile, phase: Phase::Idle, phase_elapsed_ms: 0, ramped_target: 0 }
    }

    /// Begins a run: preheat, from a target of 0.
    pub fn start(&mut self)
        ensures
            final(self).profile == old(self).profile,
            final(self).phase == Phase::Preheat,
            final(self).phase_elapsed_ms == 0,
            final(self).ramped_target == 0,
    {
        self.phase = Phase::Preheat;
        self.phase_elapsed_ms = 0;
        self.ramped_target = 0;
    }

    /// Aborts a run: back to idle.
    pub fn stop(&mut self)
        ensures
            final(self).profile == old(self).profile,
            final(self).phase == Phase::Idle,
            final(self).phase_elapsed_ms == 0,
            final(self).ramped_target == 0,
    {
        self.phase = Phase::Idle;
        self.phase_elapsed_ms = 0;
        self.ramped_target = 0;
    }

    /// Returns the ramped target temperature for the current phase.
    pub fn target_temperature(&self) -> (t: i32)
        ensures
            t == target_of(self.phase, self.ramped_target as int),
    {
        match self.phase {
            Phase::Idle | Phase::Done | Phase::Cooling => 0,
            _ => coarsen(self.ramped_target, 1000),
        }
    }

    /// Advances the state machine given the current temperature (m°C) and the
    /// step's length (ms).
    pub fn update(&mut self, temp: i32, dt_ms: u32)
        ensures
            final(self).profile == old(self).profile,
            (final(self).phase, final(self).phase_elapsed_ms as int, final(self).ramped_target as int)
                == runner_step(
                old(self).profile,
                old(self).phase,
                old(self).phase_elapsed_ms as int,
                old(self).ramped_target as int,
                temp as int,
                dt_ms as int,
            ),
    {
        self.phase_elapsed_ms = self.phase_elapsed_ms.saturating_add(dt_ms as u64);
        match self.phase {
            Phase::Preheat => {
                self.ramped_target = ramp(
                    self.ramped_target,
                    self.profile.preheat_ramp,
                    dt_ms,
                    self.profile.preheat_target,
                );
                if temp >= self.profile.preheat_target {
                    self.phase = Phase::Soak;
                    self.phase_elapsed_ms = 0;
                    self.ramped_target = temp as i64 * 1000;
                }
            },
            Phase::Soak => {
                self.ramped_target = ramp(
                    self.ramped_target,
                    self.profile.soak_ramp,
                    dt_ms,
                    self.profile.soak_target,
                );
                if self.phase_elapsed_ms >= (self.profile.soak_duration_s as u64) * 1000 {
                    self.phase = Phase::Reflow;
                    self.phase_elapsed_ms = 0;
                    self.ramped_target = temp as i64 * 1000;
                }
            },
            Phase::Reflow => {
                self.ramped_target = ramp(
                    self.ramped_target,
                    self.profile.reflow_ramp,
                    dt_ms,
                    self.profile.reflow_target,
                );
                if self.phase_elapsed_ms >= (self.profile.reflow_duration_s as u64) * 1000 {
                    self.phase = Phase::Cooling;
                    self.phase_elapsed_ms = 0;
                }
            },
            Phase::Cooling => {
                if temp <= self.profile.cooling_target {
                    self.phase = Phase::Done;
                }
            },
            _ => {},
        }
    }
}

/// One update moves a run at most one phase forward, never back; an idle or a
/// finished run stays where it is.
pub proof fn lemma_update_moves_at_most_one_phase_forward(
    p: Profile,
    phase: Phase,
    elapsed: int,
    ramped: int,
    temp: int,
    dt_ms: int,
)
    ensures
        ({
            let next = runner_step(p, phase, elapsed, ramped, temp, dt_ms).0;
            &&& next == phase || next.rank() == phase.rank() + 1
            &&& (phase is Idle || phase is Done) ==> next == phase
        }),
{
}

/// While a run stays in a ramping phase, its target never passes the phase's
/// target, and never falls while below it.
pub proof fn lemma_ramped_target_within_phase_target(
    p: Profile,
    phase: Phase,
    elapsed: int,
    ramped: int,
    temp: int,
    dt_ms: int,
)
    requires
        dt_ms >= 0,
    ensures
        ({
            let (next, _, r) = runner_step(p, phase, elapsed, ramped, temp, dt_ms);
            (phase is Preheat || phase is Soak || phase is Reflow) && next == phase ==> {
                &&& r <= phase_cap(p, phase)
                &&& ramped <= phase_cap(p, phase) ==> ramped <= r
            }
        }),
{
    let rate: int = match phase {
        Phase::Preheat => p.preheat_ramp as int,
        Phase::Soak => p.soak_ramp as int,
        _ => p.reflow_ramp as int,
    };
    assert(rate * dt_ms >= 0) by (nonlinear_arith)
        requires
            rate >= 0,
            dt_ms >= 0,
    ;
}

/// Entering soak or reflow starts the new phase's ramp from the temperature
/// measured at that update, and restarts the phase's clock.
pub proof fn lemma_ramp_restarts_from_measured_temperature(
    p: Profile,
    phase: Phase,
    elapsed: int,
    ramped: int,
    temp: int,
    dt_ms: int,
)
    ensures
        phase is Preheat && temp >= p.preheat_target ==> runner_step(p, phase, elapsed, ramped, temp, dt_ms)
            == (Phase::Soak, 0int, temp * 1000),
        phase is Soak && elapsed + dt_ms >= p.soak_duration_s * 1000 ==> runner_step(
            p,
            phase,
            elapsed,
            ramped,
            temp,
            dt_ms,
        ) == (Phase::Reflow, 0int, temp * 1000),
{
}

/// While a run stays in a ramping phase, its target rises by exactly the
/// phase's ramp rate (m°C/s) times the step (ms), in µ°C, except that it stops
/// at the phase's target.
pub proof fn lemma_ramp_rises_at_phase_rate(
    p: Profile,
    phase: Phase,
    elapsed: int,
    ramped: int,
    temp: int,
    dt_ms: int,
)
    ensures
        ({
            let (next, _, r) = runner_step(p, phase, elapsed, ramped, temp, dt_ms);
            let rate: int = if phase is Preheat {
                p.preheat_ramp as int
            } else if phase is Soak {
                p.soak_ramp as int
            } else {
                p.reflow_ramp as int
            };
            let cap: int = if phase is Preheat {
                p.preheat_target * 1000
            } else if phase is Soak {
                p.soak_target * 1000
            } else {
                p.reflow_target * 1000
            };
            (phase is Preheat || phase is Soak || phase is Reflow) && next == phase ==> {
                &&& r <= cap
                &&& ramped + rate * dt_ms <= cap ==> r == ramped + rate * dt_ms
                &&& ramped + rate * dt_ms > cap ==> r == cap
            }
        }),
{
}

/// Preheat, soak and reflow ask for their ramped target, in m°C rounded down;
/// idle, cooling and done ask for nothing.
pub proof fn lemma_target_follows_ramp(phase: Phase, ramped: int)
    ensures
        (phase is Idle || phase is Cooling || phase is Done) ==> target_of(phase, ramped) == 0,
        (phase is Preheat || phase is Soak || phase is Reflow) && i32::MIN * 1000 <= ramped < (
        i32::MAX + 1) * 1000 ==> target_of(phase, ramped) * 1000 <= ramped < (target_of(phase, ramped)
            + 1) * 1000,
{
    vstd::arithmetic::div_mod::lemma_fundamental_div_mod(ramped, 1000);
    vstd::arithmetic::div_mod::lemma_mod_bound(ramped, 1000);
    if i32::MIN * 1000 <= ramped < (i32::MAX + 1) * 1000 {
        let q = ramped / 1000;
        assert(i32::MIN <= q <= i32::MAX) by (nonlinear_arith)
            requires
                ramped == 1000 * q + ramped % 1000,
                0 <= ramped % 1000 < 1000,
                i32::MIN * 1000 <= ramped < (i32::MAX + 1) * 1000,
        ;
    }
}

/// The reflow phase asks, on the update that enters it, for the temperature
/// measured at that update; so does soak.
pub proof fn lemma_new_phase_asks_for_measured_temperature(
    p: Profile,
    phase: Phase,
    elapsed: int,
    ramped: int,
    temp: int,
    dt_ms: int,
)
    requires
        i32::MIN <= temp <= i32::MAX,
    ensures
        ({
            let (next, _, r) = runner_step(p, phase, elapsed, ramped, temp, dt_ms);
            (phase is Soak && next is Reflow) || (phase is Preheat && next is Soak) ==> target_of(next, r)
                == temp
        }),
{
    let (next, _, r) = runner_step(p, phase, elapsed, ramped, temp, dt_ms);
    if (phase is Soak && next is Reflow) || (phase is Preheat && next is Soak) {
        assert(r == temp * 1000);
        lemma_target_follows_ramp(next, r);
        assert(target_of(next, r) == temp) by (nonlinear_arith)
            requires
                target_of(next, r) * 1000 <= temp * 1000 < (target_of(next, r) + 1) * 1000,
        ;
    }
}

} // verus!
