//! Control logic of a toaster-oven reflow soldering controller.
//!
//! Every quantity is an integer in a fixed unit, so that the arithmetic is
//! exact and its contracts can be stated over mathematical integers:
//!
//! * temperatures are in thousandths of a degree Celsius (m°C), as `i32`;
//! * ramp rates are in m°C per second, as `u32`;
//! * durations of a control step are in milliseconds, as `u32`, and elapsed
//!   times in milliseconds, as `u64`;
//! * heater duty is in thousandths of a percent, from `0` to `100_000`;
//! * controller gains are in thousandths (a gain of `2.0` is `2_000`).
pub mod control;
pub mod led;
pub mod pid;
pub mod profile;
pub mod sensor;
pub mod ssr;
pub mod units;
pub mod web;
