//! Core logic of a multi-channel thermostat: acquisition of tagged ADC
//! conversions over a shared serial bus, a weighted IIR control datapath with
//! output clamping and a hold mode, and a PWM fan actuator with bounds
//! checking.
//!
//! All signal values, filter coefficients and channel weights are Q16.16
//! fixed-point numbers carried in `i32`: the integer `v` stands for the real
//! value `v / 65536`. The fixed-point domain has no non-finite values, so a
//! faulty sensor cannot feed the filter anything the contracts do not cover.

pub mod adc;
pub mod bus;
pub mod datapath;
pub mod fan;
pub mod fixed;
pub mod metadata;
pub mod registers;
