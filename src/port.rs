//! The register-level handle through which the bus controller reaches the
//! two-wire interface, and the log of what it did there.

use vstd::prelude::*;

verus! {

/// `CTRLA`: SDA setup and hold times.
pub const REG_CTRLA: u8 = 0x00;
/// `MCTRLA`: master enable, timeout and interrupt enables.
pub const REG_MCTRLA: u8 = 0x03;
/// `MCTRLB`: acknowledge action and master command.
pub const REG_MCTRLB: u8 = 0x04;
/// `MSTATUS`: master status flags and bus state.
pub const REG_MSTATUS: u8 = 0x05;
/// `MBAUD`: baud-rate divisor.
pub const REG_MBAUD: u8 = 0x06;
/// `MADDR`: address byte; writing it starts a transaction.
pub const REG_MADDR: u8 = 0x07;
/// `MDATA`: data byte.
pub const REG_MDATA: u8 = 0x08;

/// A single access to the interface's registers.
#[derive(Debug, Clone, Copy, PartialEq, Eq, Structural)]
pub enum RegOp {
    /// The register at this offset was read and gave this value.
    Read(u8, u8),
    /// This value was written to the register at this offset.
    Write(u8, u8),
    /// `MSTATUS` was polled until `status & mask == value` (mask, value),
    /// and this status ended the wait.
    Wait(u8, u8, u8),
}

/// Access to the registers of one two-wire interface.
///
/// On the chip each method is a volatile access to the block at `0x08A0`; a
/// software model of the bus implements it for tests. Nothing here is taken
/// on trust: the controller records every call and its result, and its
/// contracts are stated over that record for whatever values come back.
pub trait TwiPort {
    /// Reads the register at `offset`.
    fn read_reg(&mut self, offset: u8) -> u8;

    /// Writes `value` to the register at `offset`.
    fn write_reg(&mut self, offset: u8, value: u8);

    /// Polls `MSTATUS` until `status & mask == value` and returns the status
    /// that ended the wait. There is no timeout: a stuck bus waits forever.
    fn wait_status(&mut self, mask: u8, value: u8) -> u8;
}

} // verus!
