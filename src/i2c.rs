//! Two-wire (I2C) master: the status-register decoder and the transaction
//! state machine that drives the bus one byte at a time.
//!
//! The not-acknowledge flag (`RXACK`, bit 4) and the arbitration-lost flag
//! (`ARBLOST`, bit 3) are read at their own positions, as the `MSTATUS`
//! layout of the TWI gives them. Where both are set, the address phase of a
//! write reports the not-acknowledge and a data byte the lost arbitration.

use vstd::prelude::*;

use crate::port::{
    RegOp, TwiPort, REG_CTRLA, REG_MBAUD, REG_MCTRLA, REG_MCTRLB, REG_MDATA, REG_MADDR, REG_MSTATUS,
};

verus! {

/// Bit of `MSTATUS`: a byte has been received (read interrupt flag).
pub const STATUS_RIF: u8 = 0x80;
/// Bit of `MSTATUS`: a byte or address has been sent (write interrupt flag).
pub const STATUS_WIF: u8 = 0x40;
/// Bit of `MSTATUS`: the master holds the clock low, waiting for software.
pub const STATUS_CLKHOLD: u8 = 0x20;
/// Bit of `MSTATUS`: the slave did not acknowledge the last byte.
pub const STATUS_RXACK: u8 = 0x10;
/// Bit of `MSTATUS`: another master won the bus.
pub const STATUS_ARBLOST: u8 = 0x08;
/// Bit of `MSTATUS`: an illegal bus condition was seen.
pub const STATUS_BUSERR: u8 = 0x04;
/// Two-bit field of `MSTATUS` holding the bus state.
pub const STATUS_BUSSTATE: u8 = 0x03;

/// State of the bus as the bus-state monitor reports it.
#[derive(Debug, Clone, Copy, PartialEq, Eq, Structural)]
pub enum BusState {
    Unknown,
    Idle,
    Owner,
    Busy,
}

/// Direction bit that follows the seven address bits.
#[derive(Debug, Clone, Copy, PartialEq, Eq, Structural)]
pub enum RW {
    DirRead,
    DirWrite,
}

/// Acknowledge of the last byte on the bus.
#[derive(Debug, Clone, Copy, PartialEq, Eq, Structural)]
pub enum CK {
    ACK,
    NACK,
}

/// Terminal outcome of a failed transaction.
#[derive(Debug, Clone, Copy, PartialEq, Eq, Structural)]
pub enum I2CError {
    /// The slave did not acknowledge its address.
    NACK,
    /// The slave did not acknowledge the data byte at this index.
    PartialTransmit(usize),
    /// Another master won the bus.
    ArbLost,
}

/// One snapshot of the `MSTATUS` register.
#[derive(Debug, Clone, Copy, PartialEq, Eq, Structural)]
pub struct BusStatus(pub u8);

pub open spec fn has_bits(v: u8, mask: u8) -> bool {
    v & mask != 0
}

/// The bus state that a status byte encodes; `Err` where the bus-error bit
/// is set.
pub open spec fn bus_state_of(v: u8) -> Result<BusState, ()> {
    if has_bits(v, STATUS_BUSERR) {
        Err(())
    } else if v & STATUS_BUSSTATE == 0 {
        Ok(BusState::Unknown)
    } else if v & STATUS_BUSSTATE == 1 {
        Ok(BusState::Idle)
    } else if v & STATUS_BUSSTATE == 2 {
        Ok(BusState::Owner)
    } else {
        Ok(BusState::Busy)
    }
}

/// The acknowledge that a status byte reports.
pub open spec fn ack_of(v: u8) -> CK {
    if has_bits(v, STATUS_RXACK) {
        CK::NACK
    } else {
        CK::ACK
    }
}

impl BusStatus {
    /// Decodes the bus state. The bus-error bit is looked at first: where it
    /// is set the result is `Err`, whatever the state field holds.
    pub fn get_bus_state(&self) -> (r: Result<BusState, ()>)
        ensures
            r == bus_state_of(self.0),
            r is Err <==> self.0 & STATUS_BUSERR != 0,
    {
        if self.0 & STATUS_BUSERR != 0 {
            return Err(());
        }
        let field: u8 = self.0 & STATUS_BUSSTATE;
        if field == 0 {
            Ok(BusState::Unknown)
        } else if field == 1 {
            Ok(BusState::Idle)
        } else if field == 2 {
            Ok(BusState::Owner)
        } else {
            Ok(BusState::Busy)
        }
    }

    /// True once a byte has been received.
    pub fn rif(&self) -> (r: bool)
        ensures
            r == has_bits(self.0, STATUS_RIF),
    {
        self.0 & STATUS_RIF != 0
    }

    /// True once a byte or an address has been sent.
    pub fn wif(&self) -> (r: bool)
        ensures
            r == has_bits(self.0, STATUS_WIF),
    {
        self.0 & STATUS_WIF != 0
    }

    /// Acknowledge of the last byte: the `RXACK` bit set means not acknowledged.
    pub fn rxack(&self) -> (r: CK)
        ensures
            r == ack_of(self.0),
    {
        if self.0 & STATUS_RXACK != 0 {
            CK::NACK
        } else {
            CK::ACK
        }
    }

    /// True while the master stalls the bus waiting for software.
    pub fn clkhld(&self) -> (r: bool)
        ensures
            r == has_bits(self.0, STATUS_CLKHOLD),
    {
        self.0 & STATUS_CLKHOLD != 0
    }

    /// True where another master won the bus.
    pub fn arblost(&self) -> (r: bool)
        ensures
            r == has_bits(self.0, STATUS_ARBLOST),
    {
        self.0 & STATUS_ARBLOST != 0
    }
}

/// `MSTATUS` mask that covers the bus-error bit and the bus state.
pub const IDLE_MASK: u8 = 0x07;
/// `MSTATUS` bits under `IDLE_MASK` that mean "no bus error, bus idle".
pub const IDLE_VALUE: u8 = 0x01;
/// `MCTRLB` command: repeated start.
pub const CMD_REPSTART: u8 = 0x01;
/// `MCTRLB` command: receive the next byte.
pub const CMD_RECVTRANS: u8 = 0x02;
/// `MCTRLB` command: stop condition.
pub const CMD_STOP: u8 = 0x03;
/// `MCTRLB` acknowledge action bit: answer the next byte with NACK.
pub const ACKACT_NACK: u8 = 0x04;
/// `MCTRLB` acknowledge action: answer the next byte with ACK.
pub const ACKACT_ACK: u8 = 0x00;
/// Default number of `CTRLA` reads that let the bus settle after a read.
pub const DEFAULT_SETTLE_READS: u16 = 100;

/// A finished transaction, as the controller saw it.
pub enum Transfer {
    /// A write of `data` to `address`.
    Write { address: u8, data: Seq<u8>, result: Result<(), I2CError> },
    /// A read from `address`; `data` is what the buffer held afterwards.
    Read { address: u8, data: Seq<u8>, result: Result<(), I2CError> },
}

/// The address byte: seven address bits shifted left, direction in bit 0
/// (0 to write, 1 to read).
pub open spec fn address_byte(address: u8, dir: RW) -> u8 {
    if dir is DirRead {
        ((address & 0x7f) << 1u8) | 1u8
    } else {
        (address & 0x7f) << 1u8
    }
}

/// Operations that switch the master on: read `MCTRLA`, set its enable bit.
pub open spec fn enable_ops(pre: u8) -> Seq<RegOp> {
    seq![RegOp::Read(REG_MCTRLA, pre), RegOp::Write(REG_MCTRLA, pre | 1)]
}

/// Operation that waits for the idle bus.
pub open spec fn idle_wait(s: u8) -> RegOp {
    RegOp::Wait(IDLE_MASK, IDLE_VALUE, s)
}

/// Operation that waits for the write interrupt flag.
pub open spec fn wif_wait(s: u8) -> RegOp {
    RegOp::Wait(STATUS_WIF, STATUS_WIF, s)
}

/// Operation that waits for the read interrupt flag.
pub open spec fn rif_wait(s: u8) -> RegOp {
    RegOp::Wait(STATUS_RIF, STATUS_RIF, s)
}

/// Outcome of the address phase of a write, from the status after it. A
/// not-acknowledge is looked at first, then a lost arbitration; an
/// acknowledged address with the clock held proceeds, and anything else is
/// reported as a lost arbitration.
pub open spec fn address_result(s: u8) -> Result<(), I2CError> {
    if has_bits(s, STATUS_RXACK) {
        Err(I2CError::NACK)
    } else if has_bits(s, STATUS_ARBLOST) {
        Err(I2CError::ArbLost)
    } else if has_bits(s, STATUS_CLKHOLD) {
        Ok(())
    } else {
        Err(I2CError::ArbLost)
    }
}

/// Outcome of sending one data byte, from the status after it: a lost
/// arbitration is looked at first, then a not-acknowledge.
pub open spec fn byte_result(s: u8) -> Result<(), I2CError> {
    if has_bits(s, STATUS_ARBLOST) {
        Err(I2CError::ArbLost)
    } else if has_bits(s, STATUS_RXACK) {
        Err(I2CError::NACK)
    } else {
        Ok(())
    }
}

/// Outcome of step `j` of a write: step 0 is the address, step `j > 0` the
/// data byte at index `j - 1`, whose not-acknowledge names that index.
pub open spec fn write_step_result(j: int, s: u8) -> Result<(), I2CError> {
    if j == 0 {
        address_result(s)
    } else {
        match byte_result(s) {
            Err(I2CError::NACK) => Err(I2CError::PartialTransmit((j - 1) as usize)),
            r => r,
        }
    }
}

/// Operations of step `j` of a write of `data` to `address`, where `s` is the
/// status that ended its wait. The last byte is followed by the stop
/// condition before the wait.
pub open spec fn write_step_ops(address: u8, data: Seq<u8>, j: int, s: u8) -> Seq<RegOp> {
    if j == 0 {
        seq![RegOp::Write(REG_MADDR, address_byte(address, RW::DirWrite)), wif_wait(s)]
    } else if j == data.len() {
        seq![
            RegOp::Write(REG_MDATA, data[j - 1]),
            RegOp::Write(REG_MCTRLB, CMD_STOP),
            wif_wait(s),
        ]
    } else {
        seq![RegOp::Write(REG_MDATA, data[j - 1]), wif_wait(s)]
    }
}

/// Operations of the steps of a write whose waits ended with the statuses `st`.
pub open spec fn write_steps_ops(address: u8, data: Seq<u8>, st: Seq<u8>) -> Seq<RegOp>
    decreases st.len(),
{
    if st.len() == 0 {
        seq![]
    } else {
        write_steps_ops(address, data, st.drop_last()) + write_step_ops(
            address,
            data,
            st.len() - 1,
            st.last(),
        )
    }
}

/// `st` holds the statuses that a write of `n` bytes can see: one per step,
/// every step but the last succeeded, and it stops early only on a failure.
pub open spec fn write_steps_valid(st: Seq<u8>, n: int) -> bool {
    &&& 1 <= st.len() <= n + 1
    &&& forall|j: int| 0 <= j < st.len() - 1 ==> #[trigger] write_step_result(j, st[j]) is Ok
    &&& st.len() < n + 1 ==> write_step_result(st.len() - 1, st.last()) is Err
}

/// Outcome of a write whose steps saw the statuses `st`: that of its last step.
pub open spec fn write_result(st: Seq<u8>) -> Result<(), I2CError> {
    write_step_result(st.len() - 1, st.last())
}

/// Every operation of a write: switch on, wait for the idle bus, the steps,
/// and give `MCTRLA` back its value from before the call.
pub open spec fn write_ops(pre: u8, idle: u8, address: u8, data: Seq<u8>, st: Seq<u8>) -> Seq<
    RegOp,
> {
    enable_ops(pre).push(idle_wait(idle)) + write_steps_ops(address, data, st) + seq![
        RegOp::Write(REG_MCTRLA, pre),
    ]
}


/// What one byte of a read saw: the status read first, the status that ended
/// the wait for the read flag (used only when the first showed neither the
/// read flag nor a lost arbitration), and the data register.
pub type ByteObs = (u8, u8, u8);

/// The status that decides one byte of a read.
pub open spec fn read_byte_status(o: ByteObs) -> u8 {
    if has_bits(o.0, STATUS_ARBLOST) || has_bits(o.0, STATUS_RIF) {
        o.0
    } else {
        o.1
    }
}

/// Outcome of one byte of a read: a lost arbitration fails it, otherwise it
/// gives the data register.
pub open spec fn read_byte_result(o: ByteObs) -> Result<u8, I2CError> {
    if has_bits(read_byte_status(o), STATUS_ARBLOST) {
        Err(I2CError::ArbLost)
    } else {
        Ok(o.2)
    }
}

/// Operations of one byte of a read: read the status, wait for the read flag
/// unless it or a lost arbitration already shows, and unless arbitration was
/// lost, read the data, answer ACK and ask for the next byte.
pub open spec fn read_byte_ops(o: ByteObs) -> Seq<RegOp> {
    let waited = if has_bits(o.0, STATUS_ARBLOST) || has_bits(o.0, STATUS_RIF) {
        Seq::<RegOp>::empty()
    } else {
        seq![rif_wait(o.1)]
    };
    let fetched = if has_bits(read_byte_status(o), STATUS_ARBLOST) {
        Seq::<RegOp>::empty()
    } else {
        seq![
            RegOp::Read(REG_MDATA, o.2),
            RegOp::Write(REG_MCTRLB, ACKACT_ACK),
            RegOp::Write(REG_MCTRLB, CMD_RECVTRANS),
        ]
    };
    seq![RegOp::Read(REG_MSTATUS, o.0)] + waited + fetched
}

/// Operations of the bytes of a read that saw `obs`.
pub open spec fn read_bytes_ops(obs: Seq<ByteObs>) -> Seq<RegOp>
    decreases obs.len(),
{
    if obs.len() == 0 {
        seq![]
    } else {
        read_bytes_ops(obs.drop_last()) + read_byte_ops(obs.last())
    }
}

/// `obs` holds what a read of `n` bytes can see: every byte but the last
/// succeeded, and it stops early only on a failure.
pub open spec fn read_steps_valid(obs: Seq<ByteObs>, n: int) -> bool {
    &&& obs.len() <= n
    &&& forall|j: int| 0 <= j < obs.len() - 1 ==> #[trigger] read_byte_result(obs[j]) is Ok
    &&& obs.len() < n ==> obs.len() > 0 && read_byte_result(obs.last()) is Err
}

/// A read that saw `obs` failed on its last byte.
pub open spec fn read_failed(obs: Seq<ByteObs>) -> bool {
    obs.len() > 0 && read_byte_result(obs.last()) is Err
}

/// Outcome of a read that saw `obs`.
pub open spec fn read_result(obs: Seq<ByteObs>) -> Result<(), I2CError> {
    if read_failed(obs) {
        Err(I2CError::ArbLost)
    } else {
        Ok(())
    }
}

/// Number of bytes a read that saw `obs` stored.
pub open spec fn read_count(obs: Seq<ByteObs>) -> int {
    if read_failed(obs) {
        obs.len() - 1
    } else {
        obs.len() as int
    }
}

/// The buffer after a read that saw `obs`: the bytes it received in front,
/// the rest as they were.
pub open spec fn read_buffer(before: Seq<u8>, obs: Seq<ByteObs>) -> Seq<u8> {
    Seq::new(
        before.len(),
        |j: int|
            if j < read_count(obs) {
                obs[j].2
            } else {
                before[j]
            },
    )
}

/// The reads of `CTRLA` that let the bus settle, with the values they gave.
pub open spec fn settle_ops(xs: Seq<u8>) -> Seq<RegOp> {
    Seq::new(xs.len(), |i: int| RegOp::Read(REG_CTRLA, xs[i]))
}

/// Every operation of a read from `address`: switch on, wait for the idle
/// bus, send the address with the read direction, the bytes, then (unless a
/// byte failed) the stop condition and the settle reads, and give `MCTRLA`
/// back its value from before the call.
pub open spec fn read_ops(
    pre: u8,
    idle: u8,
    address: u8,
    obs: Seq<ByteObs>,
    xs: Seq<u8>,
) -> Seq<RegOp> {
    let tail = if read_failed(obs) {
        seq![RegOp::Write(REG_MCTRLA, pre)]
    } else {
        seq![RegOp::Write(REG_MCTRLB, CMD_STOP)] + settle_ops(xs) + seq![
            RegOp::Write(REG_MCTRLA, pre),
        ]
    };
    enable_ops(pre) + seq![
        idle_wait(idle),
        RegOp::Write(REG_MADDR, address_byte(address, RW::DirRead)),
    ] + read_bytes_ops(obs) + tail
}

/// `CTRLA` at start of day: 500 ns SDA hold, no fast-mode plus.
pub const SETUP_CTRLA: u8 = 0x0c;
/// `MCTRLA` at start of day: 50 us bus timeout, master off.
pub const SETUP_MCTRLA: u8 = 0x04;
/// `MBAUD` at start of day.
pub const SETUP_BAUD: u8 = 0x0b;

/// The register writes of the start-of-day configuration.
pub open spec fn setup_ops() -> Seq<RegOp> {
    seq![
        RegOp::Write(REG_CTRLA, SETUP_CTRLA),
        RegOp::Write(REG_MCTRLA, SETUP_MCTRLA),
        RegOp::Write(REG_MBAUD, SETUP_BAUD),
        RegOp::Write(REG_MCTRLA, SETUP_MCTRLA),
        RegOp::Write(REG_MSTATUS, IDLE_VALUE),
    ]
}

/// The condition that ends the wait for the idle bus is exactly the status
/// decoding to the idle state: every other state, and a bus error, keeps the
/// wait going.
pub proof fn lemma_idle_wait_is_idle_state(v: u8)
    ensures
        (v & IDLE_MASK == IDLE_VALUE) <==> bus_state_of(v) == Ok::<BusState, ()>(BusState::Idle),
{
    assert((v & 0x07u8 == 0x01u8) <==> (v & 0x04u8 == 0u8 && v & 0x03u8 == 1u8)) by (bit_vector);
}

/// A write that meets a not-acknowledge on the data byte at index `k`, not
/// the last one, with arbitration kept, fails with `PartialTransmit(k)`: it
/// sends nothing after that byte, and its last operation gives `MCTRLA` back
/// the value that its first operation read.
pub proof fn lemma_write_nack_is_partial(
    pre: u8,
    idle: u8,
    address: u8,
    data: Seq<u8>,
    st: Seq<u8>,
    k: int,
)
    requires
        write_steps_valid(st, data.len() as int),
        0 <= k < data.len() - 1,
        k + 1 < st.len(),
        has_bits(st[k + 1], STATUS_RXACK),
        !has_bits(st[k + 1], STATUS_ARBLOST),
    ensures
        st.len() == k + 2,
        write_result(st) == Err::<(), I2CError>(I2CError::PartialTransmit(k as usize)),
        write_ops(pre, idle, address, data, st)[0] == RegOp::Read(REG_MCTRLA, pre),
        write_ops(pre, idle, address, data, st).last() == RegOp::Write(REG_MCTRLA, pre),
{
    assert(write_step_result(k + 1, st[k + 1]) is Err);
    if st.len() > k + 2 {
        assert(write_step_result(k + 1, st[k + 1]) is Ok);
    }
}

/// A write of no data performs the address phase alone: switch on, wait for
/// the idle bus, send the address, wait, and switch back; it succeeds
/// exactly when the address is acknowledged with the clock held and
/// arbitration kept.
pub proof fn lemma_write_empty(pre: u8, idle: u8, address: u8, st: Seq<u8>)
    requires
        write_steps_valid(st, 0),
    ensures
        st.len() == 1,
        write_ops(pre, idle, address, Seq::empty(), st) == enable_ops(pre) + seq![
            idle_wait(idle),
            RegOp::Write(REG_MADDR, address_byte(address, RW::DirWrite)),
            wif_wait(st[0]),
            RegOp::Write(REG_MCTRLA, pre),
        ],
        write_result(st) == address_result(st[0]),
        write_result(st) is Ok <==> (!has_bits(st[0], STATUS_RXACK) && !has_bits(
            st[0],
            STATUS_ARBLOST,
        ) && has_bits(st[0], STATUS_CLKHOLD)),
{
    assert(st.drop_last() =~= Seq::<u8>::empty());
    assert(write_steps_ops(address, Seq::empty(), Seq::<u8>::empty()) =~= seq![]);
    assert(write_ops(pre, idle, address, Seq::empty(), st) =~= enable_ops(pre) + seq![
        idle_wait(idle),
        RegOp::Write(REG_MADDR, address_byte(address, RW::DirWrite)),
        wif_wait(st[0]),
        RegOp::Write(REG_MCTRLA, pre),
    ]);
}

/// A read into an empty buffer sends the address and the stop condition,
/// settles and switches back, without touching the data register, and
/// succeeds.
pub proof fn lemma_read_empty(
    pre: u8,
    idle: u8,
    address: u8,
    obs: Seq<ByteObs>,
    xs: Seq<u8>,
)
    requires
        read_steps_valid(obs, 0),
    ensures
        obs.len() == 0,
        read_result(obs) == Ok::<(), I2CError>(()),
        read_buffer(Seq::empty(), obs) == Seq::<u8>::empty(),
        read_ops(pre, idle, address, obs, xs) == enable_ops(pre) + seq![
            idle_wait(idle),
            RegOp::Write(REG_MADDR, address_byte(address, RW::DirRead)),
            RegOp::Write(REG_MCTRLB, CMD_STOP),
        ] + settle_ops(xs) + seq![RegOp::Write(REG_MCTRLA, pre)],
{
    assert(read_bytes_ops(obs) =~= seq![]);
    assert(read_buffer(Seq::empty(), obs) =~= Seq::<u8>::empty());
    assert(read_ops(pre, idle, address, obs, xs) =~= enable_ops(pre) + seq![
        idle_wait(idle),
        RegOp::Write(REG_MADDR, address_byte(address, RW::DirRead)),
        RegOp::Write(REG_MCTRLB, CMD_STOP),
    ] + settle_ops(xs) + seq![RegOp::Write(REG_MCTRLA, pre)]);
}

/// Master of one two-wire bus, reaching its registers through `port`.
///
/// It records every register access it makes and every transaction it
/// finishes (`ops`, `transfers`).
pub struct I2C<P> {
    port: P,
    settle_reads: u16,
    ops_log: Ghost<Seq<RegOp>>,
    transfer_log: Ghost<Seq<Transfer>>,
}

impl<P: TwiPort> I2C<P> {
    /// A controller on `port`, with nothing recorded yet.
    pub fn new(port: P) -> (r: Self)
        ensures
            r.ops() == Seq::<RegOp>::empty(),
            r.transfers() == Seq::<Transfer>::empty(),
            r.settle_reads() == DEFAULT_SETTLE_READS,
    {
        I2C { port, settle_reads: DEFAULT_SETTLE_READS, ops_log: Ghost(Seq::empty()), transfer_log: Ghost(Seq::empty()) }
    }

    /// The register port.
    pub fn port(&self) -> &P {
        &self.port
    }

    /// The register port, to change it; the records stay as they are.
    pub fn port_mut(&mut self) -> (r: &mut P)
        ensures
            final(self).ops() == old(self).ops(),
            final(self).transfers() == old(self).transfers(),
            final(self).settle_reads() == old(self).settle_reads(),
    {
        &mut self.port
    }

    /// Every register access made so far, oldest first.
    pub closed spec fn ops(&self) -> Seq<RegOp> {
        self.ops_log@
    }

    /// Every transaction finished so far, oldest first.
    pub closed spec fn transfers(&self) -> Seq<Transfer> {
        self.transfer_log@
    }

    /// Number of `CTRLA` reads made after the stop condition of a read.
    pub closed spec fn settle_reads(&self) -> u16 {
        self.settle_reads
    }

    fn op_read(&mut self, offset: u8) -> (v: u8)
        ensures
            final(self).ops() == old(self).ops().push(RegOp::Read(offset, v)),
            final(self).transfers() == old(self).transfers(),
            final(self).settle_reads() == old(self).settle_reads(),
    {
        let v = self.port.read_reg(offset);
        self.ops_log = Ghost(self.ops_log@.push(RegOp::Read(offset, v)));
        v
    }

    fn op_write(&mut self, offset: u8, value: u8)
        ensures
            final(self).ops() == old(self).ops().push(RegOp::Write(offset, value)),
            final(self).transfers() == old(self).transfers(),
            final(self).settle_reads() == old(self).settle_reads(),
    {
        self.port.write_reg(offset, value);
        self.ops_log = Ghost(self.ops_log@.push(RegOp::Write(offset, value)));
    }

    fn op_wait(&mut self, mask: u8, value: u8) -> (s: u8)
        ensures
            final(self).ops() == old(self).ops().push(RegOp::Wait(mask, value, s)),
            final(self).transfers() == old(self).transfers(),
            final(self).settle_reads() == old(self).settle_reads(),
    {
        let s = self.port.wait_status(mask, value);
        self.ops_log = Ghost(self.ops_log@.push(RegOp::Wait(mask, value, s)));
        s
    }

    /// One-time start-of-day configuration: SDA hold time, bus timeout with
    /// the master off, the baud-rate divisor, and the bus state forced to
    /// idle, since the chip cannot tell on its own that the bus is idle.
    pub fn setup(&mut self)
        ensures
            final(self).ops() == old(self).ops() + setup_ops(),
            final(self).transfers() == old(self).transfers(),
            final(self).settle_reads() == old(self).settle_reads(),
    {
        self.op_write(REG_CTRLA, SETUP_CTRLA);
        self.op_write(REG_MCTRLA, SETUP_MCTRLA);
        self.op_write(REG_MBAUD, SETUP_BAUD);
        self.op_write(REG_MCTRLA, SETUP_MCTRLA);
        self.op_write(REG_MSTATUS, IDLE_VALUE);
        assert(self.ops() =~= old(self).ops() + setup_ops());
    }

    /// Waits until the bus is idle. Every other state, and a bus error, keeps
    /// it waiting.
    pub fn wait_for_bus(&mut self)
        ensures
            exists|s: u8| final(self).ops() == old(self).ops().push(#[trigger] idle_wait(s)),
            final(self).transfers() == old(self).transfers(),
            final(self).settle_reads() == old(self).settle_reads(),
    {
        let s = self.op_wait(IDLE_MASK, IDLE_VALUE);
        assert(final(self).ops() == old(self).ops().push(idle_wait(s)));
    }

    /// Waits for the write interrupt flag and returns the status that showed it.
    pub fn wait_wif(&mut self) -> (r: BusStatus)
        ensures
            final(self).ops() == old(self).ops().push(wif_wait(r.0)),
            final(self).transfers() == old(self).transfers(),
            final(self).settle_reads() == old(self).settle_reads(),
    {
        BusStatus(self.op_wait(STATUS_WIF, STATUS_WIF))
    }

    /// Waits for the read interrupt flag and returns the status that showed it.
    pub fn wait_rif(&mut self) -> (r: BusStatus)
        ensures
            final(self).ops() == old(self).ops().push(rif_wait(r.0)),
            final(self).transfers() == old(self).transfers(),
            final(self).settle_reads() == old(self).settle_reads(),
    {
        BusStatus(self.op_wait(STATUS_RIF, STATUS_RIF))
    }

    /// Sends one data byte and waits for it to go out.
    pub fn write_byte(&mut self, data: u8) -> (r: Result<(), I2CError>)
        ensures
            exists|s: u8|
                final(self).ops() == old(self).ops() + seq![RegOp::Write(REG_MDATA, data), #[trigger] wif_wait(s)]
                && r == byte_result(s),
            final(self).transfers() == old(self).transfers(),
            final(self).settle_reads() == old(self).settle_reads(),
    {
        self.op_write(REG_MDATA, data);
        let status = self.wait_wif();
        let r = if status.arblost() {
            Err(I2CError::ArbLost)
        } else if status.rxack() == CK::NACK {
            Err(I2CError::NACK)
        } else {
            Ok(())
        };
        assert(final(self).ops() == old(self).ops() + seq![RegOp::Write(REG_MDATA, data), wif_wait(status.0)]);
        r
    }

    /// Sends the last data byte, issues the stop condition, and waits for the
    /// byte to go out.
    pub fn write_last_byte(&mut self, data: u8) -> (r: Result<(), I2CError>)
        ensures
            exists|s: u8|
                final(self).ops() == old(self).ops() + seq![
                    RegOp::Write(REG_MDATA, data),
                    RegOp::Write(REG_MCTRLB, CMD_STOP),
                    #[trigger] wif_wait(s),
                ] && r == byte_result(s),
            final(self).transfers() == old(self).transfers(),
            final(self).settle_reads() == old(self).settle_reads(),
    {
        self.op_write(REG_MDATA, data);
        self.stop();
        let status = self.wait_wif();
        let r = if status.arblost() {
            Err(I2CError::ArbLost)
        } else if status.rxack() == CK::NACK {
            Err(I2CError::NACK)
        } else {
            Ok(())
        };
        assert(final(self).ops() == old(self).ops() + seq![
            RegOp::Write(REG_MDATA, data),
            RegOp::Write(REG_MCTRLB, CMD_STOP),
            wif_wait(status.0),
        ]);
        r
    }

    /// Issues the stop condition.
    pub fn stop(&mut self)
        ensures
            final(self).ops() == old(self).ops().push(RegOp::Write(REG_MCTRLB, CMD_STOP)),
            final(self).transfers() == old(self).transfers(),
            final(self).settle_reads() == old(self).settle_reads(),
    {
        self.op_write(REG_MCTRLB, CMD_STOP);
    }

    fn end_transfer(&mut self, pre: u8, t: Ghost<Transfer>)
        ensures
            final(self).ops() == old(self).ops().push(RegOp::Write(REG_MCTRLA, pre)),
            final(self).transfers() == old(self).transfers().push(t@),
            final(self).settle_reads() == old(self).settle_reads(),
    {
        self.op_write(REG_MCTRLA, pre);
        self.transfer_log = Ghost(self.transfer_log@.push(t@));
    }

    /// Writes `data` to the slave at `address` (seven bits).
    ///
    /// Switches the master on, waits for the idle bus, sends the address with
    /// the write direction, then the bytes; the last byte is followed by the
    /// stop condition. The first failing step ends the transaction: a data
    /// byte that is not acknowledged, the last one included, fails it with
    /// `PartialTransmit` of its index. On every path `MCTRLA` gets back the
    /// value it had before the call.
    pub fn write(&mut self, address: u8, data: &[u8]) -> (r: Result<(), I2CError>)
        ensures
            exists|pre: u8, idle: u8, st: Seq<u8>|
                write_steps_valid(st, data@.len() as int) && r == write_result(st)
                && final(self).ops() == old(self).ops() + #[trigger] write_ops(
                    pre,
                    idle,
                    address,
                    data@,
                    st,
                ),
            final(self).transfers() == old(self).transfers().push(
                Transfer::Write { address, data: data@, result: r },
            ),
            final(self).settle_reads() == old(self).settle_reads(),
    {
        let ghost start = self.ops();
        let pre = self.op_read(REG_MCTRLA);
        self.op_write(REG_MCTRLA, pre | 1);
        let idle = self.op_wait(IDLE_MASK, IDLE_VALUE);
        let ghost head = enable_ops(pre).push(idle_wait(idle));
        assert(self.ops() =~= start + head);
        self.op_write(REG_MADDR, (address & 0x7f) << 1u8);
        let status = self.wait_wif();
        let ghost mut st: Seq<u8> = seq![status.0];
        assert(st.drop_last() =~= Seq::<u8>::empty());
        assert(write_steps_ops(address, data@, Seq::<u8>::empty()) =~= seq![]);
        assert(self.ops() =~= start + head + write_steps_ops(address, data@, st));
        let first = if status.rxack() == CK::NACK {
            Err(I2CError::NACK)
        } else if status.arblost() {
            Err(I2CError::ArbLost)
        } else if status.clkhld() {
            Ok(())
        } else {
            Err(I2CError::ArbLost)
        };
        assert(first == write_step_result(0, status.0));
        if first.is_err() {
            self.end_transfer(pre, Ghost(Transfer::Write { address, data: data@, result: first }));
            assert(self.ops() =~= start + write_ops(pre, idle, address, data@, st));
            return first;
        }
        let n = data.len();
        if n > 0 {
            let last = n - 1;
            let mut i: usize = 0;
            while i < last
                invariant
                    n == data@.len(),
                    last == n - 1,
                    head == enable_ops(pre).push(idle_wait(idle)),
                    start == old(self).ops(),
                    i <= last,
                    st.len() == i + 1,
                    forall|j: int| 0 <= j < st.len() ==> #[trigger] write_step_result(j, st[j]) is Ok,
                    self.ops() == start + head + write_steps_ops(address, data@, st),
                    self.transfers() == old(self).transfers(),
                    self.settle_reads() == old(self).settle_reads(),
                decreases last - i,
            {
                let ghost prev = self.ops();
                let r = self.write_byte(data[i]);
                let ghost s = choose|s: u8|
                    self.ops() == prev + seq![RegOp::Write(REG_MDATA, data@[i as int]), #[trigger] wif_wait(s)]
                    && r == byte_result(s);
                let ghost old_st = st;
                proof {
                    st = st.push(s);
                    assert(st.drop_last() =~= old_st);
                }
                assert(self.ops() =~= start + head + write_steps_ops(address, data@, st));
                match r {
                    Ok(()) => {},
                    Err(e) => {
                        let res = match e {
                            I2CError::NACK => Err(I2CError::PartialTransmit(i)),
                            other => Err(other),
                        };
                        assert(res == write_step_result(st.len() - 1, s));
                        self.end_transfer(pre, Ghost(Transfer::Write { address, data: data@, result: res }));
                        assert(self.ops() =~= start + write_ops(pre, idle, address, data@, st));
                        return res;
                    },
                }
                i = i + 1;
            }
            let ghost prev = self.ops();
            let r = self.write_last_byte(data[last]);
            let ghost s = choose|s: u8|
                self.ops() == prev + seq![
                    RegOp::Write(REG_MDATA, data@[last as int]),
                    RegOp::Write(REG_MCTRLB, CMD_STOP),
                    #[trigger] wif_wait(s),
                ] && r == byte_result(s);
            let ghost old_st = st;
            proof {
                st = st.push(s);
                assert(st.drop_last() =~= old_st);
            }
            let res = match r {
                Err(I2CError::NACK) => Err(I2CError::PartialTransmit(last)),
                other => other,
            };
            assert(res == write_step_result(st.len() - 1, s));
            self.end_transfer(pre, Ghost(Transfer::Write { address, data: data@, result: res }));
            assert(self.ops() =~= start + write_ops(pre, idle, address, data@, st));
            return res;
        }
        self.end_transfer(pre, Ghost(Transfer::Write { address, data: data@, result: first }));
        assert(self.ops() =~= start + write_ops(pre, idle, address, data@, st));
        first
    }

    /// Asks the slave for the next byte.
    pub fn recv_trans(&mut self)
        ensures
            final(self).ops() == old(self).ops().push(RegOp::Write(REG_MCTRLB, CMD_RECVTRANS)),
            final(self).transfers() == old(self).transfers(),
            final(self).settle_reads() == old(self).settle_reads(),
    {
        self.op_write(REG_MCTRLB, CMD_RECVTRANS);
    }

    /// Issues a repeated start condition.
    pub fn rep_start(&mut self)
        ensures
            final(self).ops() == old(self).ops().push(RegOp::Write(REG_MCTRLB, CMD_REPSTART)),
            final(self).transfers() == old(self).transfers(),
            final(self).settle_reads() == old(self).settle_reads(),
    {
        self.op_write(REG_MCTRLB, CMD_REPSTART);
    }

    /// Sets the answer to the next received byte: ACK to go on, NACK to stop.
    pub fn respond(&mut self, c: CK)
        ensures
            final(self).ops() == old(self).ops().push(
                RegOp::Write(REG_MCTRLB, if c == CK::NACK { ACKACT_NACK } else { ACKACT_ACK }),
            ),
            final(self).transfers() == old(self).transfers(),
            final(self).settle_reads() == old(self).settle_reads(),
    {
        let v = match c {
            CK::NACK => ACKACT_NACK,
            CK::ACK => ACKACT_ACK,
        };
        self.op_write(REG_MCTRLB, v);
    }

    /// Reads the status register once.
    pub fn get_bus_status(&mut self) -> (r: BusStatus)
        ensures
            final(self).ops() == old(self).ops().push(RegOp::Read(REG_MSTATUS, r.0)),
            final(self).transfers() == old(self).transfers(),
            final(self).settle_reads() == old(self).settle_reads(),
    {
        BusStatus(self.op_read(REG_MSTATUS))
    }

    /// Receives one byte: waits for the read flag (a lost arbitration ends
    /// the wait with an error), takes the data register, answers ACK and asks
    /// for the next byte.
    pub fn read_byte(&mut self) -> (r: Result<u8, I2CError>)
        ensures
            exists|o: ByteObs|
                final(self).ops() == old(self).ops() + #[trigger] read_byte_ops(o)
                && r == read_byte_result(o),
            final(self).transfers() == old(self).transfers(),
            final(self).settle_reads() == old(self).settle_reads(),
    {
        let first = self.get_bus_status();
        let mut o: Ghost<ByteObs> = Ghost((first.0, 0, 0));
        let status = if first.arblost() || first.rif() {
            first
        } else {
            let s = self.wait_rif();
            o = Ghost((first.0, s.0, 0));
            s
        };
        assert(status.0 == read_byte_status(o@));
        if status.arblost() {
            assert(self.ops() =~= old(self).ops() + read_byte_ops(o@));
            return Err(I2CError::ArbLost);
        }
        let v = self.op_read(REG_MDATA);
        o = Ghost((o@.0, o@.1, v));
        self.respond(CK::ACK);
        self.recv_trans();
        assert(self.ops() =~= old(self).ops() + read_byte_ops(o@));
        Ok(v)
    }

    /// Sets how many `CTRLA` reads follow the stop condition of a read.
    pub fn set_settle_reads(&mut self, n: u16)
        ensures
            final(self).settle_reads() == n,
            final(self).ops() == old(self).ops(),
            final(self).transfers() == old(self).transfers(),
    {
        self.settle_reads = n;
    }

    /// Reads `buf.len()` bytes from the slave at `address` (seven bits).
    ///
    /// Switches the master on, waits for the idle bus, sends the address with
    /// the read direction and receives the bytes, answering each with ACK.
    /// Then it issues the stop condition and reads `CTRLA` `settle_reads`
    /// times to let the bus settle. A lost arbitration ends the transaction at
    /// once. On every path `MCTRLA` gets back the value it had before the call.
    pub fn read_to_buf(&mut self, address: u8, buf: &mut [u8]) -> (r: Result<(), I2CError>)
        ensures
            exists|pre: u8, idle: u8, obs: Seq<ByteObs>, xs: Seq<u8>|
                read_steps_valid(obs, old(buf)@.len() as int)
                && (!read_failed(obs) ==> xs.len() == old(self).settle_reads())
                && r == read_result(obs) && final(buf)@ == read_buffer(old(buf)@, obs)
                && final(self).ops() == old(self).ops() + #[trigger] read_ops(
                    pre,
                    idle,
                    address,
                    obs,
                    xs,
                ),
            final(self).transfers() == old(self).transfers().push(
                Transfer::Read { address, data: final(buf)@, result: r },
            ),
            final(self).settle_reads() == old(self).settle_reads(),
    {
        let ghost start = self.ops();
        let ghost before = buf@;
        let pre = self.op_read(REG_MCTRLA);
        self.op_write(REG_MCTRLA, pre | 1);
        let idle = self.op_wait(IDLE_MASK, IDLE_VALUE);
        self.op_write(REG_MADDR, ((address & 0x7f) << 1u8) | 1u8);
        let ghost head = enable_ops(pre) + seq![
            idle_wait(idle),
            RegOp::Write(REG_MADDR, address_byte(address, RW::DirRead)),
        ];
        let ghost mut obs: Seq<ByteObs> = Seq::empty();
        assert(read_bytes_ops(obs) =~= seq![]);
        assert(self.ops() =~= start + head + read_bytes_ops(obs));
        let n = buf.len();
        let mut i: usize = 0;
        while i < n
            invariant
                n == buf@.len(),
                n == before.len(),
                before == old(buf)@,
                i <= n,
                obs.len() == i,
                forall|j: int| 0 <= j < obs.len() ==> #[trigger] read_byte_result(obs[j]) is Ok,
                !read_failed(obs),
                buf@ == read_buffer(before, obs),
                start == old(self).ops(),
                head == enable_ops(pre) + seq![
                    idle_wait(idle),
                    RegOp::Write(REG_MADDR, address_byte(address, RW::DirRead)),
                ],
                self.ops() == start + head + read_bytes_ops(obs),
                self.transfers() == old(self).transfers(),
                self.settle_reads() == old(self).settle_reads(),
            decreases n - i,
        {
            let ghost prev = self.ops();
            let r = self.read_byte();
            let ghost o = choose|o: ByteObs|
                self.ops() == prev + #[trigger] read_byte_ops(o) && r == read_byte_result(o);
            let ghost old_obs = obs;
            proof {
                obs = obs.push(o);
                assert(obs.drop_last() =~= old_obs);
            }
            assert(self.ops() =~= start + head + read_bytes_ops(obs));
            match r {
                Ok(v) => {
                    buf[i] = v;
                    assert(buf@ =~= read_buffer(before, obs));
                },
                Err(e) => {
                    assert(buf@ =~= read_buffer(before, obs));
                    assert forall|j: int| 0 <= j < obs.len() - 1 implies #[trigger] read_byte_result(
                        obs[j],
                    ) is Ok by {
                        assert(obs[j] == old_obs[j]);
                    }
                    assert(read_steps_valid(obs, n as int));
                    let ghost xs = Seq::<u8>::empty();
                    self.end_transfer(pre, Ghost(Transfer::Read { address, data: buf@, result: Err(e) }));
                    assert(self.ops() =~= start + read_ops(pre, idle, address, obs, xs));
                    return Err(e);
                },
            }
            i = i + 1;
        }
        self.stop();
        let ghost mut xs: Seq<u8> = Seq::empty();
        let ghost mid = self.ops();
        assert(settle_ops(xs) =~= seq![]);
        let count = self.settle_reads;
        let mut k: u16 = 0;
        while k < count
            invariant
                count == self.settle_reads(),
                k <= count,
                xs.len() == k,
                self.ops() == mid + settle_ops(xs),
                self.transfers() == old(self).transfers(),
                self.settle_reads() == old(self).settle_reads(),
            decreases count - k,
        {
            let x = self.op_read(REG_CTRLA);
            proof {
                xs = xs.push(x);
            }
            assert(self.ops() =~= mid + settle_ops(xs));
            k = k + 1;
        }
        self.end_transfer(pre, Ghost(Transfer::Read { address, data: buf@, result: Ok(()) }));
        assert(self.ops() =~= start + read_ops(pre, idle, address, obs, xs));
        Ok(())
    }

    /// Reads `N` bytes from the slave at `address` into a fresh array.
    pub fn read<const N: usize>(&mut self, address: u8) -> (r: Result<[u8; N], I2CError>)
        ensures
            exists|pre: u8, idle: u8, obs: Seq<ByteObs>, xs: Seq<u8>|
                read_steps_valid(obs, N as int)
                && (!read_failed(obs) ==> xs.len() == old(self).settle_reads())
                && (r is Ok <==> read_result(obs) is Ok)
                && (r is Ok ==> r->Ok_0@ == read_buffer(Seq::new(N as nat, |j: int| 0u8), obs))
                && (r is Err ==> r == Err::<[u8; N], I2CError>(read_result(obs)->Err_0))
                && final(self).ops() == old(self).ops() + #[trigger] read_ops(
                    pre,
                    idle,
                    address,
                    obs,
                    xs,
                ),
            final(self).transfers().len() == old(self).transfers().len() + 1,
            final(self).transfers().drop_last() == old(self).transfers(),
            final(self).transfers().last() matches Transfer::Read { address: a, data, result }
                && a == address && data.len() == N && (r is Ok <==> result is Ok)
                && (r is Ok ==> r->Ok_0@ == data) && (r is Err ==> r == Err::<[u8; N], I2CError>(result->Err_0)),
            final(self).settle_reads() == old(self).settle_reads(),
    {
        let mut buf = [0u8; N];
        assert(buf@ =~= Seq::new(N as nat, |j: int| 0u8));
        let res = self.read_to_buf(address, &mut buf);
        assert(self.transfers().drop_last() =~= old(self).transfers());
        match res {
            Ok(()) => Ok(buf),
            Err(e) => Err(e),
        }
    }
}

} // verus!
