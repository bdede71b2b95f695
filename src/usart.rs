//! Universal synchronous/asynchronous receiver-transmitter: its status flags
//! and frame-format values.

use vstd::prelude::*;

use crate::gpio::GPIO;

verus! {

pub const USART0: u16 = 0x0800;
pub const USART1: u16 = 0x0820;
pub const USART2: u16 = 0x0840;
pub const USART3: u16 = 0x0860;
/// `BAUD` for 9600 baud at the default clock.
pub const BAUD9600: u16 = 1112;

/// The USART whose register block is at `ADDR`, on its alternative pins
/// where `ALT`.
pub struct USART<const ADDR: u16, const ALT: bool>;

/// Communication mode.
#[derive(Debug, Clone, Copy, PartialEq, Eq, Structural)]
pub enum CommunicationMode {
    Asynchronous,
    Synchronous,
    /// Infrared communication.
    IRCOM,
    /// Master SPI.
    MSPI,
}

/// Parity.
#[derive(Debug, Clone, Copy, PartialEq, Eq, Structural)]
pub enum ParityMode {
    Disabled,
    Even,
    Odd,
}

/// Number of stop bits.
#[derive(Debug, Clone, Copy, PartialEq, Eq, Structural)]
pub enum StopBitMode {
    One,
    Two,
}

/// Character size.
#[derive(Debug, Clone, Copy, PartialEq, Eq, Structural)]
pub enum CharacterSize {
    B5,
    B6,
    B7,
    B8,
    /// Nine bits, low byte first.
    B9L,
    /// Nine bits, high byte first.
    B9H,
}

/// Failure of a USART transfer.
#[derive(Debug, Clone, Copy, PartialEq, Eq, Structural)]
pub enum USARTError {
    ReadOverflow,
    Other,
}

pub open spec fn cmode_bits(m: CommunicationMode) -> u8 {
    match m {
        CommunicationMode::Asynchronous => 0,
        CommunicationMode::Synchronous => 1,
        CommunicationMode::IRCOM => 2,
        CommunicationMode::MSPI => 3,
    }
}

pub open spec fn parity_bits(p: ParityMode) -> u8 {
    match p {
        ParityMode::Disabled => 0,
        ParityMode::Even => 2,
        ParityMode::Odd => 3,
    }
}

pub open spec fn stop_bits(s: StopBitMode) -> u8 {
    match s {
        StopBitMode::One => 0,
        StopBitMode::Two => 1,
    }
}

pub open spec fn size_bits(c: CharacterSize) -> u8 {
    match c {
        CharacterSize::B5 => 0,
        CharacterSize::B6 => 1,
        CharacterSize::B7 => 2,
        CharacterSize::B8 => 3,
        CharacterSize::B9L => 6,
        CharacterSize::B9H => 7,
    }
}

/// Value of `CTRLC`: mode in bits 7:6, parity in 5:4, stop bits in 3,
/// character size in 2:0.
pub fn frame_format(m: CommunicationMode, p: ParityMode, s: StopBitMode, w: CharacterSize) -> (r:
    u8)
    ensures
        r == 64 * cmode_bits(m) + 16 * parity_bits(p) + 8 * stop_bits(s) + size_bits(w),
{
    let mb: u8 = match m {
        CommunicationMode::Asynchronous => 0,
        CommunicationMode::Synchronous => 1,
        CommunicationMode::IRCOM => 2,
        CommunicationMode::MSPI => 3,
    };
    let pb: u8 = match p {
        ParityMode::Disabled => 0,
        ParityMode::Even => 2,
        ParityMode::Odd => 3,
    };
    let sb: u8 = match s {
        StopBitMode::One => 0,
        StopBitMode::Two => 1,
    };
    let wb: u8 = match w {
        CharacterSize::B5 => 0,
        CharacterSize::B6 => 1,
        CharacterSize::B7 => 2,
        CharacterSize::B8 => 3,
        CharacterSize::B9L => 6,
        CharacterSize::B9H => 7,
    };
    64 * mb + 16 * pb + 8 * sb + wb
}

impl<const UADDR: u16, const ALT: bool> USART<UADDR, ALT> {
    /// The transmit pin: pin 0 of the USART's port, or pin 4 on the
    /// alternative pins. `None` for an address that is no USART.
    pub fn get_out_pin() -> (r: Option<GPIO>)
        ensures
            r is Some <==> (UADDR == USART0 || UADDR == USART1 || UADDR == USART2 || UADDR
                == USART3),
            UADDR == USART0 ==> r == Some(GPIO::PORTA(if ALT { 4u8 } else { 0u8 })),
            UADDR == USART1 ==> r == Some(GPIO::PORTC(if ALT { 4u8 } else { 0u8 })),
            UADDR == USART2 ==> r == Some(GPIO::PORTF(if ALT { 4u8 } else { 0u8 })),
            UADDR == USART3 ==> r == Some(GPIO::PORTB(if ALT { 4u8 } else { 0u8 })),
    {
        let pin: u8 = if ALT { 4 } else { 0 };
        if UADDR == USART0 {
            Some(GPIO::PORTA(pin))
        } else if UADDR == USART1 {
            Some(GPIO::PORTC(pin))
        } else if UADDR == USART2 {
            Some(GPIO::PORTF(pin))
        } else if UADDR == USART3 {
            Some(GPIO::PORTB(pin))
        } else {
            None
        }
    }

    /// `PORTMUX.USARTROUTEA` with this USART routed to its pins: the route
    /// bit set for the alternative pins, both route bits cleared otherwise.
    /// `None` for an address that is no USART.
    pub fn route_value(cur: u8) -> (r: Option<u8>)
        ensures
            r is Some <==> (UADDR == USART0 || UADDR == USART1 || UADDR == USART2 || UADDR
                == USART3),
            r matches Some(v) ==> v == (if ALT {
                cur | route_bit(UADDR)
            } else {
                cur & !(route_bit(UADDR) | (route_bit(UADDR) << 1u8))
            }),
    {
        let bit: u8 = if UADDR == USART0 {
            0x01
        } else if UADDR == USART1 {
            0x04
        } else if UADDR == USART2 {
            0x10
        } else if UADDR == USART3 {
            0x40
        } else {
            return None;
        };
        if ALT {
            Some(cur | bit)
        } else {
            Some(cur & !(bit | (bit << 1u8)))
        }
    }
}

/// The low route bit of the USART at `addr` in `PORTMUX.USARTROUTEA`.
pub open spec fn route_bit(addr: u16) -> u8 {
    if addr == USART0 {
        0x01
    } else if addr == USART1 {
        0x04
    } else if addr == USART2 {
        0x10
    } else {
        0x40
    }
}

/// One snapshot of the `STATUS` register.
#[derive(Debug, Clone, Copy, PartialEq, Eq, Structural)]
pub struct BusStatus(pub u8);

impl BusStatus {
    /// Receive complete.
    pub fn rxcif(&self) -> (r: bool)
        ensures
            r == (self.0 & 0x80 != 0),
    {
        self.0 & 0x80 != 0
    }

    /// Transmit complete.
    pub fn txcif(&self) -> (r: bool)
        ensures
            r == (self.0 & 0x40 != 0),
    {
        self.0 & 0x40 != 0
    }

    /// Data register empty.
    pub fn dreif(&self) -> (r: bool)
        ensures
            r == (self.0 & 0x20 != 0),
    {
        self.0 & 0x20 != 0
    }

    /// Receive start.
    pub fn rxsif(&self) -> (r: bool)
        ensures
            r == (self.0 & 0x10 != 0),
    {
        self.0 & 0x10 != 0
    }

    /// Inconsistent sync field.
    pub fn isfif(&self) -> (r: bool)
        ensures
            r == (self.0 & 0x08 != 0),
    {
        self.0 & 0x08 != 0
    }

    /// Break detected.
    pub fn bdf(&self) -> (r: bool)
        ensures
            r == (self.0 & 0x02 != 0),
    {
        self.0 & 0x02 != 0
    }

    /// Wait for break: tested on bits 7 and 0 together.
    pub fn wfb(&self) -> (r: bool)
        ensures
            r == (self.0 & 0x81 != 0),
    {
        self.0 & 0x81 != 0
    }
}

/// Polls in a row without a received byte after which a transaction that
/// still waits for a line end gives up.
pub const IDLE_POLL_LIMIT: u16 = 0x2000;
/// The byte that ends a received line.
pub const LINE_END: u8 = 0x0a;

/// Progress of a polled USART transaction that sends a buffer and receives
/// into another: the caller polls the status, sends and receives as this
/// says, records what it did, and stops when it says the transaction is
/// finished.
#[derive(Debug, Clone, Copy, PartialEq, Eq, Structural)]
pub struct Transaction {
    /// Bytes sent so far.
    pub sent: usize,
    /// Bytes received so far.
    pub received: usize,
    /// A line end has been received.
    pub line_done: bool,
    /// Polls in a row that brought no byte.
    pub idle_polls: u16,
}

impl Transaction {
    /// Nothing sent or received yet.
    pub fn new() -> (r: Transaction)
        ensures
            r == (Transaction { sent: 0, received: 0, line_done: false, idle_polls: 0 }),
    {
        Transaction { sent: 0, received: 0, line_done: false, idle_polls: 0 }
    }

    /// The next byte goes out where bytes remain and the data register is
    /// empty.
    pub fn should_send(&self, s: BusStatus, write_len: usize) -> (r: bool)
        ensures
            r == (self.sent < write_len && s.0 & 0x20 != 0),
    {
        self.sent < write_len && s.dreif()
    }

    /// A byte is taken where one was received and the buffer has room.
    pub fn should_receive(&self, s: BusStatus, read_len: usize) -> (r: bool)
        ensures
            r == (s.0 & 0x80 != 0 && self.received < read_len),
    {
        s.rxcif() && self.received < read_len
    }

    /// Accounts for one poll: `sent` tells whether a byte went out, `got` is
    /// the byte taken, if any. A taken byte clears the idle count; a poll
    /// without one adds to it, up to the largest count.
    pub fn record(&mut self, sent: bool, got: Option<u8>)
        requires
            sent ==> old(self).sent < usize::MAX,
            got is Some ==> old(self).received < usize::MAX,
        ensures
            final(self).sent == old(self).sent + (if sent { 1usize } else { 0usize }),
            final(self).received == old(self).received + (if got is Some { 1usize } else { 0usize }),
            final(self).line_done == (old(self).line_done || got == Some(LINE_END)),
            got is Some ==> final(self).idle_polls == 0,
            got is None ==> final(self).idle_polls == (if old(self).idle_polls == u16::MAX {
                u16::MAX
            } else {
                (old(self).idle_polls + 1) as u16
            }),
    {
        if sent {
            self.sent = self.sent + 1;
        }
        match got {
            Some(b) => {
                self.received = self.received + 1;
                if b == LINE_END {
                    self.line_done = true;
                }
                self.idle_polls = 0;
            },
            None => {
                self.idle_polls = self.idle_polls.saturating_add(1);
            },
        }
    }

    /// The transaction is over once everything was sent and the last byte
    /// has left, and either nothing is to be received, a line end came, or
    /// nothing came for `IDLE_POLL_LIMIT` polls.
    pub fn finished(&self, s: BusStatus, write_len: usize, read_len: usize) -> (r: bool)
        ensures
            r == (self.sent >= write_len && s.0 & 0x40 != 0 && (read_len == 0 || self.line_done
                || self.idle_polls >= IDLE_POLL_LIMIT)),
    {
        self.sent >= write_len && s.txcif() && (read_len == 0 || self.line_done || self.idle_polls
            >= IDLE_POLL_LIMIT)
    }
}

} // verus!
