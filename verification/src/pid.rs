//! A PID controller over fixed-point temperatures.
use vstd::prelude::*;

verus! {

/// Largest output of the controller: 100% in thousandths of a percent.
pub const OUTPUT_MAX: u32 = 100_000;

/// `x` saturated into the range of `i64`.
pub open spec fn saturate_i64(x: int) -> int {
    if x > i64::MAX {
        i64::MAX as int
    } else if x < i64::MIN {
        i64::MIN as int
    } else {
        x
    }
}

/// The controller's output (thousandths of a percent) for gains `kp`, `ki`, `kd`
/// (thousandths), the error `error` (m°C), the accumulated error `integral`
/// (m°C·ms), the previous error `prev_error` (m°C) and the step `dt_ms` (ms):
/// `kp·e + ki·∫e + kd·de/dt`, rounded down and clamped to `0 ..= OUTPUT_MAX`.
///
/// Over the common denominator `1_000_000·dt`, the three terms are
/// `kp·e·1000·dt`, `ki·∫e·dt` and `kd·(e − e_prev)·1_000_000`.
pub open spec fn pid_output(kp: int, ki: int, kd: int, error: int, integral: int, prev_error: int, dt_ms: int) -> int {
    let num = kp * error * 1000 * dt_ms + ki * integral * dt_ms + kd * (error - prev_error) * 1_000_000;
    let den = 1_000_000 * dt_ms;
    if num <= 0 {
        0
    } else if num / den > OUTPUT_MAX {
        OUTPUT_MAX as int
    } else {
        num / den
    }
}

/// `|a·b| <= x·y` when `|a| <= x` and `|b| <= y`.
proof fn lemma_mul_within(a: int, b: int, x: nat, y: nat)
    by (nonlinear_arith)
    requires
        -x <= a <= x,
        -y <= b <= y,
    ensures
        -(x * y) <= a * b <= x * y,
{
}

pub struct Pid {
    /// proportional gain, in thousandths
    pub kp: i32,
    /// integral gain, in thousandths
    pub ki: i32,
    /// derivative gain, in thousandths
    pub kd: i32,
    /// target temperature, m°C
    pub setpoint: i32,
    /// accumulated error, m°C·ms
    pub integral: i64,
    /// error of the previous update, m°C
    pub prev_error: i64,
}

impl Pid {
    /// A controller with the given gains (thousandths), target 0 and no history.
    pub fn new(kp: i32, ki: i32, kd: i32) -> (pid: Self)
        ensures
            pid.kp == kp,
            pid.ki == ki,
            pid.kd == kd,
            pid.setpoint == 0,
            pid.integral == 0,
            pid.prev_error == 0,
    {
        Self { kp, ki, kd, setpoint: 0, integral: 0, prev_error: 0 }
    }

    pub fn set_target(&mut self, setpoint: i32)
        ensures
            *final(self) == (Pid { setpoint, ..*old(self) }),
    {
        self.setpoint = setpoint;
    }

    /// Forgets the accumulated and the previous error.
    pub fn reset(&mut self)
        ensures
            *final(self) == (Pid { integral: 0, prev_error: 0, ..*old(self) }),
    {
        self.integral = 0;
        self.prev_error = 0;
    }

    /// Computes the output (0 ..= 100% in thousandths of a percent) for the
    /// measured temperature (m°C) after a step of `dt_ms` milliseconds.
    pub fn update(&mut self, measured: i32, dt_ms: u32) -> (out: u32)
        requires
            dt_ms > 0,
        ensures
            ({
                let error = old(self).setpoint - measured;
                let integral = saturate_i64(old(self).integral + error * dt_ms);
                &&& final(self).kp == old(self).kp
                &&& final(self).ki == old(self).ki
                &&& final(self).kd == old(self).kd
                &&& final(self).setpoint == old(self).setpoint
                &&& final(self).integral == integral
                &&& final(self).prev_error == error
                &&& out == pid_output(
                    old(self).kp as int,
                    old(self).ki as int,
                    old(self).kd as int,
                    error,
                    integral,
                    old(self).prev_error as int,
                    dt_ms as int,
                )
            }),
            out <= OUTPUT_MAX,
    {
        let error: i64 = self.setpoint as i64 - measured as i64;
        let ghost e = error as int;
        let ghost dt = dt_ms as int;
        proof {
            lemma_mul_within(e, dt, 0x1_0000_0000, 0x1_0000_0000);
        }
        let delta: i128 = (error as i128) * (dt_ms as i128);
        let sum: i128 = self.integral as i128 + delta;
        let integral: i64 = if sum > i64::MAX as i128 {
            i64::MAX
        } else if sum < i64::MIN as i128 {
            i64::MIN
        } else {
            sum as i64
        };
        let ghost kp = self.kp as int;
        let ghost ki = self.ki as int;
        let ghost kd = self.kd as int;
        let ghost ig = integral as int;
        let ghost de = e - self.prev_error as int;
        proof {
            lemma_mul_within(kp, e, 0x8000_0000, 0x1_0000_0000);
            lemma_mul_within(kp * e, 1000, 0x8000_0000 * 0x1_0000_0000, 1000);
            lemma_mul_within(kp * e * 1000, dt, 0x8000_0000 * 0x1_0000_0000 * 1000, 0x1_0000_0000);
            lemma_mul_within(ki, ig, 0x8000_0000, 0x8000_0000_0000_0000);
            lemma_mul_within(ki * ig, dt, 0x8000_0000 * 0x8000_0000_0000_0000, 0x1_0000_0000);
            lemma_mul_within(kd, de, 0x8000_0000, 0x1_0000_0000_0000_0000);
            lemma_mul_within(kd * de, 1_000_000, 0x8000_0000 * 0x1_0000_0000_0000_0000, 1_000_000);
        }
        let p_term: i128 = (self.kp as i128) * (error as i128) * 1000 * (dt_ms as i128);
        let i_term: i128 = (self.ki as i128) * (integral as i128) * (dt_ms as i128);
        let d_term: i128 = (self.kd as i128) * ((error as i128) - (self.prev_error as i128)) * 1_000_000;
        let num: i128 = p_term + i_term + d_term;
        let den: i128 = 1_000_000 * (dt_ms as i128);
        self.integral = integral;
        self.prev_error = error;
        if num <= 0 {
            0
        } else {
            let q: u128 = (num as u128) / (den as u128);
            if q > OUTPUT_MAX as u128 {
                OUTPUT_MAX
            } else {
                q as u32
            }
        }
    }
}

/// `(a·c) / (b·c) == a / b` for `b, c > 0` (division rounding down).
proof fn lemma_div_cancel(a: int, b: int, c: int)
    requires
        b > 0,
        c > 0,
    ensures
        (a * c) / (b * c) == a / b,
{
    let q = a / b;
    let r = a % b;
    vstd::arithmetic::div_mod::lemma_fundamental_div_mod(a, b);
    vstd::arithmetic::div_mod::lemma_mod_bound(a, b);
    assert(a * c == q * (b * c) + r * c && 0 <= r * c < b * c) by (nonlinear_arith)
        requires
            a == b * q + r,
            0 <= r < b,
            c > 0,
    ;
    vstd::arithmetic::div_mod::lemma_fundamental_div_mod_converse(a * c, b * c, q, r * c);
}

/// `x` clamped to the controller's output range `0 ..= OUTPUT_MAX`.
pub open spec fn clamp_output(x: int) -> int {
    if x <= 0 {
        0
    } else if x > OUTPUT_MAX {
        OUTPUT_MAX as int
    } else {
        x
    }
}

proof fn lemma_output_of_quotient(num: int, den: int, a: int, b: int)
    requires
        den > 0,
        b > 0,
        num / den == a / b,
        num <= 0 <==> a <= 0,
    ensures
        ({
            let out = if num <= 0 {
                0
            } else if num / den > OUTPUT_MAX {
                OUTPUT_MAX as int
            } else {
                num / den
            };
            out == clamp_output(a / b)
        }),
{
    if a <= 0 {
        vstd::arithmetic::div_mod::lemma_div_is_ordered(a, 0, b);
    } else {
        vstd::arithmetic::div_mod::lemma_div_is_ordered(0, a, b);
    }
}

/// The derivative term is a rate per second: with no proportional and no
/// integral gain, the output is `kd·(e − e_prev) / dt` in thousandths of a
/// percent (gain in thousandths, errors in m°C, step in ms), rounded down and
/// clamped to 0 ..= 100%. The same change of error over a step four times
/// shorter gives four times the output.
pub proof fn lemma_pid_derivative_term(kd: int, error: int, integral: int, prev_error: int, dt_ms: int)
    requires
        dt_ms > 0,
    ensures
        pid_output(0, 0, kd, error, integral, prev_error, dt_ms) == clamp_output(
            kd * (error - prev_error) / dt_ms,
        ),
{
    let a = kd * (error - prev_error);
    let num = 0 * error * 1000 * dt_ms + 0 * integral * dt_ms + kd * (error - prev_error) * 1_000_000;
    assert(num == a * 1_000_000 && 1_000_000 * dt_ms == dt_ms * 1_000_000) by (nonlinear_arith)
        requires
            num == 0 * error * 1000 * dt_ms + 0 * integral * dt_ms + kd * (error - prev_error)
                * 1_000_000,
            a == kd * (error - prev_error),
    ;
    lemma_div_cancel(a, dt_ms, 1_000_000);
    lemma_output_of_quotient(num, 1_000_000 * dt_ms, a, dt_ms);
}

/// The proportional term: with no integral and no derivative gain, the output
/// is `kp·e / 1000` thousandths of a percent (gain in thousandths, error in
/// m°C), rounded down and clamped, whatever the step.
pub proof fn lemma_pid_proportional_term(kp: int, error: int, integral: int, prev_error: int, dt_ms: int)
    requires
        dt_ms > 0,
    ensures
        pid_output(kp, 0, 0, error, integral, prev_error, dt_ms) == clamp_output(kp * error / 1000),
{
    let a = kp * error;
    let c = 1000 * dt_ms;
    let num = kp * error * 1000 * dt_ms + 0 * integral * dt_ms + 0 * (error - prev_error) * 1_000_000;
    assert(num == a * c && 1_000_000 * dt_ms == 1000 * c && c > 0) by (nonlinear_arith)
        requires
            num == kp * error * 1000 * dt_ms + 0 * integral * dt_ms + 0 * (error - prev_error)
                * 1_000_000,
            a == kp * error,
            c == 1000 * dt_ms,
            dt_ms > 0,
    ;
    lemma_div_cancel(a, 1000, c);
    assert(num <= 0 <==> a <= 0) by (nonlinear_arith)
        requires
            num == a * c,
            c > 0,
    ;
    lemma_output_of_quotient(num, 1_000_000 * dt_ms, a, 1000);
}

/// The integral term: with no proportional and no derivative gain, the output
/// is `ki·∫e / 10^6` thousandths of a percent (gain in thousandths, integral in
/// m°C·ms), rounded down and clamped, whatever the step.
pub proof fn lemma_pid_integral_term(ki: int, error: int, integral: int, prev_error: int, dt_ms: int)
    requires
        dt_ms > 0,
    ensures
        pid_output(0, ki, 0, error, integral, prev_error, dt_ms) == clamp_output(ki * integral / 1_000_000),
{
    let a = ki * integral;
    let num = 0 * error * 1000 * dt_ms + ki * integral * dt_ms + 0 * (error - prev_error) * 1_000_000;
    assert(num == a * dt_ms && 1_000_000 * dt_ms == 1_000_000 * dt_ms) by (nonlinear_arith)
        requires
            num == 0 * error * 1000 * dt_ms + ki * integral * dt_ms + 0 * (error - prev_error)
                * 1_000_000,
            a == ki * integral,
    ;
    lemma_div_cancel(a, 1_000_000, dt_ms);
    assert(num <= 0 <==> a <= 0) by (nonlinear_arith)
        requires
            num == a * dt_ms,
            dt_ms > 0,
    ;
    lemma_output_of_quotient(num, 1_000_000 * dt_ms, a, 1_000_000);
}

} // verus!
