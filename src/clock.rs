//! Encodings of the clock controller's main clock select, prescaler and
//! sleep-mode registers.

use vstd::prelude::*;

verus! {

/// Source of the main clock.
#[derive(Debug, Clone, Copy, PartialEq, Eq, Structural)]
pub enum ClockSelect {
    /// 20 MHz internal oscillator.
    OSC20M,
    /// 32.768 kHz internal ultra-low-power oscillator.
    OSCULP32K,
    /// 32.768 kHz external crystal.
    XOSC32K,
    /// External clock.
    EXTCLK,
}

pub open spec fn clock_select_bits(c: ClockSelect) -> u8 {
    match c {
        ClockSelect::OSC20M => 0,
        ClockSelect::OSCULP32K => 1,
        ClockSelect::XOSC32K => 2,
        ClockSelect::EXTCLK => 3,
    }
}

impl ClockSelect {
    /// Value of the `CLKSEL` field.
    pub fn bits(self) -> (r: u8)
        ensures
            r == clock_select_bits(self),
    {
        match self {
            ClockSelect::OSC20M => 0,
            ClockSelect::OSCULP32K => 1,
            ClockSelect::XOSC32K => 2,
            ClockSelect::EXTCLK => 3,
        }
    }

    /// Decodes a value read from `MCLKCTRLA`; `None` for a value that names
    /// no clock.
    pub fn from_bits(v: u8) -> (r: Option<ClockSelect>)
        ensures
            r is Some <==> v <= 3,
            r matches Some(c) ==> clock_select_bits(c) == v,
    {
        if v == 0 {
            Some(ClockSelect::OSC20M)
        } else if v == 1 {
            Some(ClockSelect::OSCULP32K)
        } else if v == 2 {
            Some(ClockSelect::XOSC32K)
        } else if v == 3 {
            Some(ClockSelect::EXTCLK)
        } else {
            None
        }
    }
}

/// Main clock prescaler.
#[derive(Debug, Clone, Copy, PartialEq, Eq, Structural)]
pub enum ClockPrescaler {
    /// Prescaler off: the clock is not divided.
    Disabled,
    D2,
    D4,
    D8,
    D16,
    D32,
    D64,
    D6,
    D10,
    D12,
    D24,
    D48,
}

/// The `PDIV` code of a prescaler; `Disabled` keeps `0xff`, which is never
/// enabled.
pub open spec fn prescaler_div(p: ClockPrescaler) -> u8 {
    match p {
        ClockPrescaler::Disabled => 0xff,
        ClockPrescaler::D2 => 0,
        ClockPrescaler::D4 => 1,
        ClockPrescaler::D8 => 2,
        ClockPrescaler::D16 => 3,
        ClockPrescaler::D32 => 4,
        ClockPrescaler::D64 => 5,
        ClockPrescaler::D6 => 8,
        ClockPrescaler::D10 => 9,
        ClockPrescaler::D12 => 10,
        ClockPrescaler::D24 => 11,
        ClockPrescaler::D48 => 12,
    }
}

impl ClockPrescaler {
    /// The `PDIV` code.
    pub fn div(self) -> (r: u8)
        ensures
            r == prescaler_div(self),
    {
        match self {
            ClockPrescaler::Disabled => 0xff,
            ClockPrescaler::D2 => 0,
            ClockPrescaler::D4 => 1,
            ClockPrescaler::D8 => 2,
            ClockPrescaler::D16 => 3,
            ClockPrescaler::D32 => 4,
            ClockPrescaler::D64 => 5,
            ClockPrescaler::D6 => 8,
            ClockPrescaler::D10 => 9,
            ClockPrescaler::D12 => 10,
            ClockPrescaler::D24 => 11,
            ClockPrescaler::D48 => 12,
        }
    }

    /// Value of `MCLKCTRLB`: the code shifted left once, with the enable bit
    /// set for every prescaler but `Disabled`.
    pub fn ctrl_value(self) -> (r: u8)
        ensures
            r == ((prescaler_div(self) << 1u8) | (if self is Disabled { 0u8 } else { 1u8 })),
    {
        let pen: u8 = match self {
            ClockPrescaler::Disabled => 0,
            _ => 1,
        };
        (self.div() << 1u8) | pen
    }

    /// Decodes a value read from `MCLKCTRLB`: enable bit clear means no
    /// prescaler; otherwise the code above it must name one, else `None` is
    /// returned in the outer option.
    pub fn from_ctrl(v: u8) -> (r: Option<ClockPrescaler>)
        ensures
            v & 1 == 0 ==> r == Some(ClockPrescaler::Disabled),
            v & 1 != 0 ==> (r is Some <==> ((v >> 1u8) <= 5 || (8 <= (v >> 1u8) <= 12))),
            v & 1 != 0 ==> (r matches Some(p) ==> prescaler_div(p) == v >> 1u8),
    {
        if v & 1 == 0 {
            return Some(ClockPrescaler::Disabled);
        }
        let d = v >> 1u8;
        match d {
            0 => Some(ClockPrescaler::D2),
            1 => Some(ClockPrescaler::D4),
            2 => Some(ClockPrescaler::D8),
            3 => Some(ClockPrescaler::D16),
            4 => Some(ClockPrescaler::D32),
            5 => Some(ClockPrescaler::D64),
            8 => Some(ClockPrescaler::D6),
            9 => Some(ClockPrescaler::D10),
            10 => Some(ClockPrescaler::D12),
            11 => Some(ClockPrescaler::D24),
            12 => Some(ClockPrescaler::D48),
            _ => None,
        }
    }
}

/// Sleep mode.
#[derive(Debug, Clone, Copy, PartialEq, Eq, Structural)]
pub enum Sleep {
    Idle,
    Standby,
    PowerOff,
}

pub open spec fn sleep_bits(s: Sleep) -> u8 {
    match s {
        Sleep::Idle => 0,
        Sleep::Standby => 1,
        Sleep::PowerOff => 2,
    }
}

impl Sleep {
    /// Value of the sleep controller's `CTRLA`: the mode above the enable bit.
    pub fn ctrl_value(self) -> (r: u8)
        ensures
            r == 1 + 2 * sleep_bits(self),
    {
        match self {
            Sleep::Idle => 1,
            Sleep::Standby => 3,
            Sleep::PowerOff => 5,
        }
    }
}

} // verus!
