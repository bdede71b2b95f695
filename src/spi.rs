//! Serial peripheral interface: its status flags and control values.

use vstd::prelude::*;

verus! {

/// The SPI0 master.
pub struct SPI;

/// Failure of an SPI transfer.
#[derive(Debug, Clone, Copy, PartialEq, Eq, Structural)]
pub enum SPIError {
    ReadOverflow,
    Other,
}

/// Clock polarity and phase.
#[derive(Debug, Clone, Copy, PartialEq, Eq, Structural)]
pub enum Polarity {
    /// Leading edge rising, sample; trailing edge falling, setup.
    P0,
    /// Leading edge rising, setup; trailing edge falling, sample.
    P1,
    /// Leading edge falling, sample; trailing edge rising, setup.
    P2,
    /// Leading edge falling, setup; trailing edge rising, sample.
    P3,
}

pub open spec fn polarity_bits(p: Polarity) -> u8 {
    match p {
        Polarity::P0 => 0,
        Polarity::P1 => 1,
        Polarity::P2 => 2,
        Polarity::P3 => 3,
    }
}

impl Polarity {
    /// Value of the `MODE` field.
    pub fn bits(self) -> (r: u8)
        ensures
            r == polarity_bits(self),
    {
        match self {
            Polarity::P0 => 0,
            Polarity::P1 => 1,
            Polarity::P2 => 2,
            Polarity::P3 => 3,
        }
    }
}

impl SPI {
    /// Value of `CTRLB`: buffer mode on, slave select off, the buffer-write
    /// bit where the transfer waits for receive, and the mode.
    pub fn ctrl_b(wait_for_receive: bool, mode: Polarity) -> (r: u8)
        ensures
            r == (0x84u8 | (if wait_for_receive { 0x40u8 } else { 0u8 }) | polarity_bits(mode)),
    {
        let w: u8 = if wait_for_receive { 0x40 } else { 0 };
        0x84u8 | w | mode.bits()
    }

    /// Value of `CTRLA`: least significant bit first, master, the slowest
    /// prescaler unless `high_speed`, enabled.
    pub fn ctrl_a(high_speed: bool) -> (r: u8)
        ensures
            r == (0x60u8 | (if high_speed { 0u8 } else { 0x06u8 }) | 1u8),
    {
        let p: u8 = if high_speed { 0 } else { 0x06 };
        0x60u8 | p | 1u8
    }
}

/// One snapshot of the `INTFLAGS` register.
#[derive(Debug, Clone, Copy, PartialEq, Eq, Structural)]
pub struct BusStatus(pub u8);

impl BusStatus {
    /// Receive complete.
    pub fn rxcif(&self) -> (r: bool)
        ensures
            r == (self.0 & 0x80 != 0),
    {
        self.0 & 0x80 != 0
    }

    /// Transfer complete.
    pub fn txcif(&self) -> (r: bool)
        ensures
            r == (self.0 & 0x40 != 0),
    {
        self.0 & 0x40 != 0
    }

    /// Data register empty.
    pub fn dreif(&self) -> (r: bool)
        ensures
            r == (self.0 & 0x20 != 0),
    {
        self.0 & 0x20 != 0
    }

    /// Slave select triggered.
    pub fn ssif(&self) -> (r: bool)
        ensures
            r == (self.0 & 0x10 != 0),
    {
        self.0 & 0x10 != 0
    }

    /// Buffer overflow: tested on bits 7 and 0 together.
    pub fn bufovf(&self) -> (r: bool)
        ensures
            r == (self.0 & 0x81 != 0),
    {
        self.0 & 0x81 != 0
    }
}

/// What to do with the receive flag of one poll of a transfer.
#[derive(Debug, Clone, Copy, PartialEq, Eq, Structural)]
pub enum ReceiveAction {
    /// Nothing was received.
    Nothing,
    /// Store the received byte at the next place of the buffer.
    Store,
    /// A byte came with the buffer full: the transfer fails.
    Overrun,
}

/// Progress of a polled full-duplex transfer: the caller polls the status,
/// acts as this says and records it, until it says the transfer is finished.
#[derive(Debug, Clone, Copy, PartialEq, Eq, Structural)]
pub struct Exchange {
    /// Bytes written so far.
    pub written: usize,
    /// Bytes read so far.
    pub read: usize,
}

impl Exchange {
    /// Nothing written or read yet.
    pub fn new() -> (r: Exchange)
        ensures
            r == (Exchange { written: 0, read: 0 }),
    {
        Exchange { written: 0, read: 0 }
    }

    /// The next byte goes out where bytes remain and the data register is
    /// empty.
    pub fn should_write(&self, s: BusStatus, write_len: usize) -> (r: bool)
        ensures
            r == (self.written < write_len && s.0 & 0x20 != 0),
    {
        self.written < write_len && s.dreif()
    }

    /// What a received byte calls for: stored while the buffer has room, an
    /// overrun once it is full.
    pub fn receive_action(&self, s: BusStatus, read_len: usize) -> (r: ReceiveAction)
        ensures
            s.0 & 0x80 == 0 ==> r == ReceiveAction::Nothing,
            s.0 & 0x80 != 0 && self.read < read_len ==> r == ReceiveAction::Store,
            s.0 & 0x80 != 0 && self.read >= read_len ==> r == ReceiveAction::Overrun,
    {
        if !s.rxcif() {
            ReceiveAction::Nothing
        } else if self.read < read_len {
            ReceiveAction::Store
        } else {
            ReceiveAction::Overrun
        }
    }

    /// Accounts for one poll: whether a byte was written and whether one was
    /// stored.
    pub fn record(&mut self, wrote: bool, stored: bool)
        requires
            wrote ==> old(self).written < usize::MAX,
            stored ==> old(self).read < usize::MAX,
        ensures
            final(self).written == old(self).written + (if wrote { 1usize } else { 0usize }),
            final(self).read == old(self).read + (if stored { 1usize } else { 0usize }),
    {
        if wrote {
            self.written = self.written + 1;
        }
        if stored {
            self.read = self.read + 1;
        }
    }

    /// The transfer is over once everything was written and the last byte
    /// has left.
    pub fn finished(&self, s: BusStatus, write_len: usize) -> (r: bool)
        ensures
            r == (s.0 & 0x40 != 0 && self.written == write_len),
    {
        s.txcif() && self.written == write_len
    }
}

} // verus!
