//! Polled drivers for the ATmega4809 two-wire interface and the NAU7802
//! 24-bit ADC that sits on it, together with the register encodings of the
//! chip's clock, port, serial and timer peripherals.
//!
//! The bus controller reaches its registers only through a
//! [`port::TwiPort`] handle, so the bus logic runs unchanged against the
//! chip or against a software model of the bus and the device behind it.

pub mod clock;
pub mod gpio;
pub mod i2c;
pub mod nau7802;
pub mod port;
pub mod pwm;
pub mod spi;
pub mod usart;

use vstd::prelude::*;

use crate::clock::ClockSelect;

verus! {

/// Busy-wait delay, calibrated to the main clock.
pub struct Delay;

impl Delay {
    /// Number of busy-wait iterations that make up one millisecond on the
    /// clock `c`; `None` for the external clock, whose speed is not known.
    pub fn spin_count(c: ClockSelect) -> (r: Option<u16>)
        ensures
            c == ClockSelect::OSC20M ==> r == Some(202u16),
            (c == ClockSelect::OSCULP32K || c == ClockSelect::XOSC32K) ==> r == Some(32u16),
            c == ClockSelect::EXTCLK ==> r is None,
    {
        match c {
            ClockSelect::OSC20M => Some(202),
            ClockSelect::OSCULP32K => Some(32),
            ClockSelect::XOSC32K => Some(32),
            ClockSelect::EXTCLK => None,
        }
    }
}

} // verus!
