//! Slow PWM timing for the solid-state relay (period ~1-2s, suitable for
//! thermal loads). The driver that owns the pin and the clock asks this
//! schedule, at each tick, whether a new cycle begins and whether the relay
//! conducts.
use vstd::prelude::*;

verus! {

/// Full duty, 100% in thousandths of a percent.
pub const DUTY_MAX: i32 = 100_000;

/// `pct` clamped to `0 ..= DUTY_MAX`.
pub open spec fn clamp_duty(pct: int) -> int {
    if pct < 0 {
        0
    } else if pct > DUTY_MAX {
        DUTY_MAX as int
    } else {
        pct
    }
}

/// How long the relay conducts in each cycle (ms): `duty/100% · period`,
/// rounded down.
pub open spec fn on_time(duty_pct: int, period_ms: int) -> int {
    duty_pct * period_ms / 100_000
}

pub struct Ssr {
    /// length of one PWM cycle, ms
    pub period_ms: u32,
    /// duty, thousandths of a percent
    pub duty_pct: u32,
}

impl Ssr {
    /// A schedule of cycles of `period_ms` milliseconds, relay off.
    pub fn new(period_ms: u32) -> (s: Self)
        ensures
            s.period_ms == period_ms,
            s.duty_pct == 0,
    {
        Self { period_ms, duty_pct: 0 }
    }

    /// Sets the duty (thousandths of a percent), clamped to 0 ..= 100%.
    pub fn set_duty(&mut self, pct: i32)
        ensures
            final(self).duty_pct == clamp_duty(pct as int),
            final(self).period_ms == old(self).period_ms,
    {
        self.duty_pct = if pct < 0 {
            0
        } else if pct > DUTY_MAX {
            DUTY_MAX as u32
        } else {
            pct as u32
        };
    }

    /// Time in each cycle during which the relay conducts (ms).
    pub fn on_time_ms(&self) -> (t: u64)
        ensures
            t == on_time(self.duty_pct as int, self.period_ms as int),
    {
        assert((self.duty_pct as int) * (self.period_ms as int) <= 0xffff_ffffu64 * 0xffff_ffffu64)
            by (nonlinear_arith)
            requires
                self.duty_pct <= 0xffff_ffffu32,
                self.period_ms <= 0xffff_ffffu32,
        ;
        (self.duty_pct as u64) * (self.period_ms as u64) / 100_000
    }

    /// Whether a cycle that began `elapsed_ms` milliseconds ago is over, so
    /// that a new one begins now.
    pub fn cycle_over(&self, elapsed_ms: u64) -> (over: bool)
        ensures
            over == (elapsed_ms >= self.period_ms),
    {
        elapsed_ms >= self.period_ms as u64
    }

    /// Whether the relay conducts `elapsed_ms` milliseconds into a cycle.
    pub fn output_high(&self, elapsed_ms: u64) -> (high: bool)
        ensures
            high == (elapsed_ms < on_time(self.duty_pct as int, self.period_ms as int)),
    {
        elapsed_ms < self.on_time_ms()
    }
}

/// With a duty of at most 100%, the relay conducts for at most one period per
/// cycle; at 100% for the whole period, at 0% never.
pub proof fn lemma_on_time_within_period(duty_pct: int, period_ms: int)
    requires
        0 <= duty_pct <= DUTY_MAX,
        0 <= period_ms,
    ensures
        0 <= on_time(duty_pct, period_ms) <= period_ms,
        duty_pct == DUTY_MAX ==> on_time(duty_pct, period_ms) == period_ms,
        duty_pct == 0 ==> on_time(duty_pct, period_ms) == 0,
{
    assert(0 <= duty_pct * period_ms <= 100_000 * period_ms) by (nonlinear_arith)
        requires
            0 <= duty_pct <= 100_000,
            0 <= period_ms,
    ;
    assert(duty_pct * period_ms / 100_000 <= period_ms) by (nonlinear_arith)
        requires
            0 <= duty_pct * period_ms <= 100_000 * period_ms,
    ;
    assert(duty_pct * period_ms / 100_000 >= 0) by (nonlinear_arith)
        requires
            0 <= duty_pct * period_ms,
    ;
    if duty_pct == DUTY_MAX {
        assert(100_000 * period_ms / 100_000 == period_ms) by (nonlinear_arith);
    }
}

/// At zero duty the relay never conducts, whatever the clock reads.
pub proof fn lemma_zero_duty_never_conducts(period_ms: int, elapsed_ms: int)
    requires
        0 <= period_ms,
        0 <= elapsed_ms,
    ensures
        !(elapsed_ms < on_time(0, period_ms)),
{
}

/// A higher duty conducts whenever a lower one does: the on-time grows with
/// the duty.
pub proof fn lemma_on_time_grows_with_duty(low: int, high: int, period_ms: int, elapsed_ms: int)
    requires
        0 <= low <= high,
        0 <= period_ms,
    ensures
        on_time(low, period_ms) <= on_time(high, period_ms),
        elapsed_ms < on_time(low, period_ms) ==> elapsed_ms < on_time(high, period_ms),
{
    assert(low * period_ms <= high * period_ms) by (nonlinear_arith)
        requires
            0 <= low <= high,
            0 <= period_ms,
    ;
    vstd::arithmetic::div_mod::lemma_div_is_ordered(low * period_ms, high * period_ms, 100_000);
}

} // verus!
