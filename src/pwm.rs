//! Encodings of timer/counter A's waveform output.

use vstd::prelude::*;

verus! {

/// Timer/counter A0 as a waveform generator.
pub struct PWM;

/// Port that carries timer/counter A's waveform outputs.
#[derive(Debug, Clone, Copy, PartialEq, Eq, Structural)]
pub enum PWMPort {
    PORTA,
    PORTB,
    PORTC,
    PORTD,
    PORTE,
    PORTF,
}

/// Waveform generation mode.
#[derive(Debug, Clone, Copy, PartialEq, Eq, Structural)]
pub enum WaveformGenerationMode {
    /// Normal: top at `PER`.
    NORMAL,
    /// Frequency: top at `CMP0`.
    FRQ,
    /// Single-slope PWM.
    SINGLESLOPE,
    /// Dual-slope PWM, update at top.
    DSTOP,
    /// Dual-slope PWM, update at top and bottom.
    DSBOTH,
    /// Dual-slope PWM, update at bottom.
    DSBOTTOM,
}

pub open spec fn port_bits(p: PWMPort) -> u8 {
    match p {
        PWMPort::PORTA => 0,
        PWMPort::PORTB => 1,
        PWMPort::PORTC => 2,
        PWMPort::PORTD => 3,
        PWMPort::PORTE => 4,
        PWMPort::PORTF => 5,
    }
}

pub open spec fn mode_bits(w: WaveformGenerationMode) -> u8 {
    match w {
        WaveformGenerationMode::NORMAL => 0,
        WaveformGenerationMode::FRQ => 1,
        WaveformGenerationMode::SINGLESLOPE => 3,
        WaveformGenerationMode::DSTOP => 5,
        WaveformGenerationMode::DSBOTH => 6,
        WaveformGenerationMode::DSBOTTOM => 7,
    }
}

impl PWMPort {
    /// Value of `PORTMUX.TCAROUTEA`.
    pub fn bits(self) -> (r: u8)
        ensures
            r == port_bits(self),
    {
        match self {
            PWMPort::PORTA => 0,
            PWMPort::PORTB => 1,
            PWMPort::PORTC => 2,
            PWMPort::PORTD => 3,
            PWMPort::PORTE => 4,
            PWMPort::PORTF => 5,
        }
    }
}

impl WaveformGenerationMode {
    /// Value of the `WGMODE` field.
    pub fn bits(self) -> (r: u8)
        ensures
            r == mode_bits(self),
    {
        match self {
            WaveformGenerationMode::NORMAL => 0,
            WaveformGenerationMode::FRQ => 1,
            WaveformGenerationMode::SINGLESLOPE => 3,
            WaveformGenerationMode::DSTOP => 5,
            WaveformGenerationMode::DSBOTH => 6,
            WaveformGenerationMode::DSBOTTOM => 7,
        }
    }
}

impl PWM {
    /// Value of `CTRLB` that enables the three compare outputs in mode `w`.
    pub fn ctrl_b(w: WaveformGenerationMode) -> (r: u8)
        ensures
            r == 0x70 | mode_bits(w),
    {
        0x70u8 | w.bits()
    }

    /// Low and high bytes of a 16-bit register value, in the order they
    /// are written.
    pub fn split16(v: u16) -> (r: (u8, u8))
        ensures
            r.0 == v % 256,
            r.1 == v / 256,
    {
        ((v % 256) as u8, (v / 256) as u8)
    }
}

} // verus!
