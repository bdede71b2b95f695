//! Port pins: which port and pin a pin names, and the values of its
//! registers.

use vstd::prelude::*;

verus! {

/// A pin, by port and number within the port.
#[derive(Debug, Clone, Copy, PartialEq, Eq, Structural)]
pub enum GPIO {
    PORTA(u8),
    PORTB(u8),
    PORTC(u8),
    PORTD(u8),
    PORTE(u8),
    PORTF(u8),
}

/// Input and sense configuration of a pin.
#[derive(Debug, Clone, Copy, PartialEq, Eq, Structural)]
pub enum ISC {
    /// Interrupt disabled, input buffer enabled.
    IntDisable,
    /// Interrupt on both edges.
    BothEdges,
    /// Interrupt on the rising edge.
    Rising,
    /// Interrupt on the falling edge.
    Falling,
    /// Interrupt and digital input buffer disabled.
    InputDisable,
    /// Interrupt on low level.
    Level,
}

pub open spec fn isc_bits(i: ISC) -> u8 {
    match i {
        ISC::IntDisable => 0,
        ISC::BothEdges => 1,
        ISC::Rising => 2,
        ISC::Falling => 3,
        ISC::InputDisable => 4,
        ISC::Level => 5,
    }
}

impl ISC {
    /// Value of the `ISC` field of `PINnCTRL`.
    pub fn val(self) -> (r: u8)
        ensures
            r == isc_bits(self),
    {
        match self {
            ISC::IntDisable => 0,
            ISC::BothEdges => 1,
            ISC::Rising => 2,
            ISC::Falling => 3,
            ISC::InputDisable => 4,
            ISC::Level => 5,
        }
    }
}

pub open spec fn pin_of(g: GPIO) -> u8 {
    match g {
        GPIO::PORTA(p) => p,
        GPIO::PORTB(p) => p,
        GPIO::PORTC(p) => p,
        GPIO::PORTD(p) => p,
        GPIO::PORTE(p) => p,
        GPIO::PORTF(p) => p,
    }
}

pub open spec fn port_base(g: GPIO) -> u16 {
    match g {
        GPIO::PORTA(_) => 0x0400,
        GPIO::PORTB(_) => 0x0420,
        GPIO::PORTC(_) => 0x0440,
        GPIO::PORTD(_) => 0x0460,
        GPIO::PORTE(_) => 0x0480,
        GPIO::PORTF(_) => 0x04a0,
    }
}

impl GPIO {
    /// Pin number within its port.
    pub fn pin(&self) -> (r: u8)
        ensures
            r == pin_of(*self),
    {
        match *self {
            GPIO::PORTA(a) => a,
            GPIO::PORTB(a) => a,
            GPIO::PORTC(a) => a,
            GPIO::PORTD(a) => a,
            GPIO::PORTE(a) => a,
            GPIO::PORTF(a) => a,
        }
    }

    /// Address of the port's register block.
    pub fn base_addr(&self) -> (r: u16)
        ensures
            r == port_base(*self),
    {
        match *self {
            GPIO::PORTA(_) => 0x0400,
            GPIO::PORTB(_) => 0x0420,
            GPIO::PORTC(_) => 0x0440,
            GPIO::PORTD(_) => 0x0460,
            GPIO::PORTE(_) => 0x0480,
            GPIO::PORTF(_) => 0x04a0,
        }
    }

    /// The pin's bit in the port's one-bit-per-pin registers.
    pub fn mask(&self) -> (r: u8)
        requires
            pin_of(*self) < 8,
        ensures
            r == 1u8 << pin_of(*self),
    {
        1u8 << self.pin()
    }

    /// Address of the pin's `PINnCTRL` register.
    pub fn pin_ctrl_addr(&self) -> (r: u16)
        requires
            pin_of(*self) < 8,
        ensures
            r == port_base(*self) + 0x10 + pin_of(*self),
    {
        self.base_addr() + 0x10 + self.pin() as u16
    }
}

/// `PINnCTRL` with the invert bit (7) set to `b`, the other bits kept.
pub fn pin_ctrl_invert_value(old: u8, b: bool) -> (r: u8)
    ensures
        r == ((old & 0x7f) | (if b { 0x80u8 } else { 0u8 })),
{
    let v: u8 = if b { 0x80 } else { 0 };
    (old & 0x7f) | v
}

/// `PINnCTRL` with the pull-up bit (3) set to `b`, the other bits kept.
pub fn pin_ctrl_pullup_value(old: u8, b: bool) -> (r: u8)
    ensures
        r == ((old & 0xf7) | (if b { 0x08u8 } else { 0u8 })),
{
    let v: u8 = if b { 0x08 } else { 0 };
    (old & 0xf7) | v
}

/// `PINnCTRL` with the sense configuration (bits 2:0) set to `isc`, the
/// other bits kept.
pub fn pin_ctrl_isc_value(old: u8, isc: ISC) -> (r: u8)
    ensures
        r == ((old & 0xf8) | isc_bits(isc)),
{
    (old & 0xf8) | isc.val()
}

} // verus!
