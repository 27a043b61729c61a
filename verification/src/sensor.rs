//! Temperature sensors: decoding of the MAX31855 thermocouple converter, and a
//! simulated oven for running without hardware.
use vstd::prelude::*;
use crate::pid::saturate_i64;
use crate::units::{coarsen, saturate_i32};

verus! {

/// Why a sensor gave no temperature.
#[derive(Clone, Copy, Debug, PartialEq, Eq, Structural)]
pub enum SensorError {
    /// The MAX31855 raised its fault flag; the value holds its three fault bits
    /// (open circuit, short to GND, short to VCC).
    Fault(u8),
}

/// A source of temperature readings in m°C.
pub trait TemperatureSensor {
    fn read_celsius(&mut self) -> Result<i32, SensorError>;
}

/// The value of bits read most significant first.
pub open spec fn bits_value(bits: Seq<bool>) -> nat
    decreases bits.len(),
{
    if bits.len() == 0 {
        0
    } else {
        2 * bits_value(bits.drop_last()) + if bits.last() {
            1nat
        } else {
            0nat
        }
    }
}

/// `2^n`.
pub open spec fn two_pow(n: nat) -> nat
    decreases n,
{
    if n == 0 {
        1
    } else {
        2 * two_pow((n - 1) as nat)
    }
}

proof fn lemma_two_pow_monotonic(m: nat, n: nat)
    requires
        m <= n,
    ensures
        two_pow(m) <= two_pow(n),
    decreases n,
{
    if m < n {
        lemma_two_pow_monotonic(m, (n - 1) as nat);
    }
}

/// The word that the MAX31855 clocks out on its data line, from the 32 levels
/// sampled on successive clock pulses, most significant bit first.
pub fn word_from_bits(bits: &[bool; 32]) -> (word: u32)
    ensures
        word == bits_value(bits@),
{
    let mut data: u32 = 0;
    let mut i: usize = 0;
    proof {
        reveal_with_fuel(two_pow, 32);
        assert(two_pow(31) == 0x8000_0000);
        assert(bits@.take(0) =~= Seq::<bool>::empty());
    }
    while i < 32
        invariant
            i <= 32,
            bits@.len() == 32,
            data == bits_value(bits@.take(i as int)),
            data < two_pow(i as nat),
            two_pow(31) == 0x8000_0000,
        decreases 32 - i,
    {
        proof {
            lemma_two_pow_monotonic(i as nat, 31);
            assert(bits@.take(i + 1).drop_last() =~= bits@.take(i as int));
        }
        let bit = bits[i];
        data = if bit {
            data * 2 + 1
        } else {
            data * 2
        };
        i = i + 1;
    }
    proof {
        assert(bits@.take(32) =~= bits@);
    }
    data
}

/// The fault flag (bit 16) of a MAX31855 word.
pub open spec fn max31855_fault(raw: u32) -> bool {
    raw & 0x1_0000 != 0
}

/// The thermocouple temperature of a MAX31855 word, in m°C: bits 31..18 hold a
/// 14-bit two's complement value in quarters of a degree.
pub open spec fn max31855_temperature(raw: u32) -> int {
    let v = (raw >> 18u32) as int;
    let quarters = if v >= 0x2000 {
        v - 0x4000
    } else {
        v
    };
    quarters * 250
}

/// Decodes a word read from a MAX31855: the thermocouple temperature in m°C
/// (0.25°C resolution), or the fault bits when the fault flag is set.
pub fn decode_max31855(raw: u32) -> (r: Result<i32, SensorError>)
    ensures
        max31855_fault(raw) ==> r == Err::<i32, SensorError>(SensorError::Fault((raw & 7u32) as u8)),
        !max31855_fault(raw) ==> r == Ok::<i32, SensorError>(max31855_temperature(raw) as i32),
        !max31855_fault(raw) ==> -2_048_000 <= max31855_temperature(raw) <= 2_047_750,
{
    if raw & 0x1_0000 != 0 {
        assert(raw & 7u32 <= 7u32) by (bit_vector);
        return Err(SensorError::Fault((raw & 7) as u8));
    }
    let v: u32 = raw >> 18;
    assert(raw >> 18u32 < 0x4000u32) by (bit_vector);
    assert(v & 0x2000u32 != 0u32 <==> v >= 0x2000u32) by (bit_vector)
        requires
            v < 0x4000u32,
    ;
    let quarters: i32 = if v & 0x2000 != 0 {
        v as i32 - 0x4000
    } else {
        v as i32
    };
    Ok(quarters * 250)
}

/// `n / d` rounded toward zero, for `d > 0`.
pub open spec fn div_toward_zero(n: int, d: int) -> int {
    if n >= 0 {
        n / d
    } else {
        -((-n) / d)
    }
}

/// The temperature (n°C) of the simulated oven after `dt_ms` milliseconds: the
/// heater adds 3°C/s at full duty, the oven loses 0.5% per second of its excess
/// over ambient. In n°C and ms, the heater adds exactly `30·duty·dt` and the
/// loss is `5·(T − ambient)·dt / 10^6`: the change is
/// `(30·10^6·duty − 5·(T − ambient))·dt / 10^6`, rounded toward zero, so that
/// only a loss below a billionth of a degree is lost.
pub open spec fn simulated_next(temperature: int, ambient: int, duty: int, dt_ms: int) -> int {
    saturate_i64(
        temperature + div_toward_zero((30_000_000 * duty - 5 * (temperature - ambient)) * dt_ms, 1_000_000),
    )
}

/// What the simulated oven reads at temperature `temperature` (n°C): m°C,
/// rounded down.
pub open spec fn simulated_reading(temperature: int) -> int {
    saturate_i32(temperature / 1_000_000)
}

/// Simulated oven for testing without hardware.
pub struct SimulatedSensor {
    /// billionths of a degree Celsius (n°C)
    pub temperature: i64,
    /// n°C
    pub ambient: i64,
    /// heater duty, thousandths of a percent
    pub duty_pct: i32,
}

impl SimulatedSensor {
    /// An oven at an ambient 25°C, heater off.
    pub fn new() -> (s: Self)
        ensures
            s.temperature == 25_000_000_000,
            s.ambient == 25_000_000_000,
            s.duty_pct == 0,
    {
        Self { temperature: 25_000_000_000, ambient: 25_000_000_000, duty_pct: 0 }
    }

    pub fn set_duty(&mut self, duty: i32)
        ensures
            *final(self) == (SimulatedSensor { duty_pct: duty, ..*old(self) }),
    {
        self.duty_pct = duty;
    }

    /// Lets `dt_ms` milliseconds pass.
    pub fn tick(&mut self, dt_ms: u32)
        ensures
            final(self).temperature == simulated_next(
                old(self).temperature as int,
                old(self).ambient as int,
                old(self).duty_pct as int,
                dt_ms as int,
            ),
            final(self).ambient == old(self).ambient,
            final(self).duty_pct == old(self).duty_pct,
    {
        let t = self.temperature as i128;
        let rate: i128 = 30_000_000 * (self.duty_pct as i128) - 5 * (t - self.ambient as i128);
        assert(-0x10_0000_0000_0000_0000 <= rate <= 0x10_0000_0000_0000_0000);
        assert(-0x10_0000_0000_0000_0000 * 0x1_0000_0000 <= rate * dt_ms <= 0x10_0000_0000_0000_0000
            * 0x1_0000_0000) by (nonlinear_arith)
            requires
                -0x10_0000_0000_0000_0000 <= rate <= 0x10_0000_0000_0000_0000,
                0 <= dt_ms <= 0xffff_ffff,
        ;
        let n: i128 = rate * (dt_ms as i128);
        let change: i128 = if n >= 0 {
            ((n as u128) / 1_000_000) as i128
        } else {
            -((((-n) as u128) / 1_000_000) as i128)
        };
        let next: i128 = t + change;
        self.temperature = if next > i64::MAX as i128 {
            i64::MAX
        } else if next < i64::MIN as i128 {
            i64::MIN
        } else {
            next as i64
        };
    }
}

proof fn lemma_div_toward_zero_ordered(n1: int, n2: int, d: int)
    requires
        n1 <= n2,
        d > 0,
    ensures
        div_toward_zero(n1, d) <= div_toward_zero(n2, d),
{
    if n1 >= 0 {
        vstd::arithmetic::div_mod::lemma_div_is_ordered(n1, n2, d);
    } else if n2 < 0 {
        vstd::arithmetic::div_mod::lemma_div_is_ordered(-n2, -n1, d);
    } else {
        vstd::arithmetic::div_mod::lemma_div_is_ordered(0, -n1, d);
        vstd::arithmetic::div_mod::lemma_div_is_ordered(0, n2, d);
    }
}

proof fn lemma_div_toward_zero_exact(a: int, d: int)
    requires
        d > 0,
    ensures
        div_toward_zero(a * d, d) == a,
{
    if a >= 0 {
        assert(a * d >= 0) by (nonlinear_arith)
            requires
                a >= 0,
                d > 0,
        ;
        vstd::arithmetic::div_mod::lemma_fundamental_div_mod_converse(a * d, d, a, 0);
    } else {
        assert(a * d < 0 && -(a * d) == (-a) * d) by (nonlinear_arith)
            requires
                a < 0,
                d > 0,
        ;
        vstd::arithmetic::div_mod::lemma_fundamental_div_mod_converse(-(a * d), d, -a, 0);
    }
}

/// At ambient temperature only the heater acts: over `dt_ms` milliseconds the
/// oven warms by exactly `30·duty·dt` n°C (3°C/s at full duty, 1.5°C/s at
/// half), as long as that stays within range.
pub proof fn lemma_heating_at_ambient(temperature: int, duty: int, dt_ms: int)
    requires
        i64::MIN <= temperature + 30 * duty * dt_ms <= i64::MAX,
    ensures
        simulated_next(temperature, temperature, duty, dt_ms) == temperature + 30 * duty * dt_ms,
{
    let a = 30 * duty * dt_ms;
    assert((30_000_000 * duty - 5 * (temperature - temperature)) * dt_ms == a * 1_000_000)
        by (nonlinear_arith)
        requires
            a == 30 * duty * dt_ms,
    ;
    lemma_div_toward_zero_exact(a, 1_000_000);
}

/// A higher duty never heats the oven less.
pub proof fn lemma_more_duty_never_heats_less(temperature: int, ambient: int, low: int, high: int, dt_ms: int)
    requires
        low <= high,
        dt_ms >= 0,
    ensures
        simulated_next(temperature, ambient, low, dt_ms) <= simulated_next(temperature, ambient, high, dt_ms),
{
    let n1 = (30_000_000 * low - 5 * (temperature - ambient)) * dt_ms;
    let n2 = (30_000_000 * high - 5 * (temperature - ambient)) * dt_ms;
    assert(n1 <= n2) by (nonlinear_arith)
        requires
            n1 == (30_000_000 * low - 5 * (temperature - ambient)) * dt_ms,
            n2 == (30_000_000 * high - 5 * (temperature - ambient)) * dt_ms,
            low <= high,
            dt_ms >= 0,
    ;
    lemma_div_toward_zero_ordered(n1, n2, 1_000_000);
}

/// With the heater off, an oven at or above ambient does not warm up.
pub proof fn lemma_unheated_oven_does_not_warm(temperature: int, ambient: int, dt_ms: int)
    requires
        temperature >= ambient,
        dt_ms >= 0,
        i64::MIN <= temperature <= i64::MAX,
    ensures
        simulated_next(temperature, ambient, 0, dt_ms) <= temperature,
{
    let n = (30_000_000 * 0 - 5 * (temperature - ambient)) * dt_ms;
    assert(n <= 0) by (nonlinear_arith)
        requires
            n == (30_000_000 * 0 - 5 * (temperature - ambient)) * dt_ms,
            temperature >= ambient,
            dt_ms >= 0,
    ;
    lemma_div_toward_zero_ordered(n, 0, 1_000_000);
}

impl TemperatureSensor for SimulatedSensor {
    /// The simulated temperature; never fails.
    fn read_celsius(&mut self) -> (r: Result<i32, SensorError>)
        ensures
            r == Ok::<i32, SensorError>(simulated_reading(old(self).temperature as int) as i32),
            *final(self) == *old(self),
    {
        Ok(coarsen(self.temperature, 1_000_000))
    }
}

} // verus!
