//! Driver for the NAU7802 24-bit ADC, built only on the bus controller's
//! write and read transactions.

use vstd::prelude::*;

use crate::i2c::{I2CError, Transfer, I2C};
use crate::port::TwiPort;

verus! {

/// Seven-bit bus address of the NAU7802.
pub const NAU7802_ADDRESS: u8 = 0x2a;
/// Number of times `power_up` looks for the ready bit.
pub const POWER_UP_ATTEMPTS: usize = 100;
/// Field masks (bits kept) and first bits of the multi-bit settings.
pub const LDO_MASK: u8 = 0b1100_0111;
pub const LDO_START_BIT: u8 = 3;
pub const GAIN_MASK: u8 = 0b1111_1000;
pub const GAIN_START_BIT: u8 = 0;
pub const SPS_MASK: u8 = 0b1000_1111;
pub const SPS_START_BIT: u8 = 4;

/// Registers of the device.
#[derive(Debug, Clone, Copy, PartialEq, Eq, Structural)]
pub enum Register {
    PuCtrl,
    Ctrl1,
    Ctrl2,
    Ocal1B2,
    Ocal1B1,
    Ocal1B0,
    Gcal1B3,
    Gcal1B2,
    Gcal1B1,
    Gcal1B0,
    Ocal2B2,
    Ocal2B1,
    Ocal2B0,
    Gcal2B3,
    Gcal2B2,
    Gcal2B1,
    Gcal2B0,
    I2CControl,
    AdcoB2,
    AdcoB1,
    AdcoB0,
    /// Shared by the ADC and OTP bits 32:24.
    Adc,
    OtpB1,
    OtpB0,
    Pga,
    PgaPwr,
    DeviceRev,
}

pub open spec fn register_address(r: Register) -> u8 {
    match r {
        Register::PuCtrl => 0x00,
        Register::Ctrl1 => 0x01,
        Register::Ctrl2 => 0x02,
        Register::Ocal1B2 => 0x03,
        Register::Ocal1B1 => 0x04,
        Register::Ocal1B0 => 0x05,
        Register::Gcal1B3 => 0x06,
        Register::Gcal1B2 => 0x07,
        Register::Gcal1B1 => 0x08,
        Register::Gcal1B0 => 0x09,
        Register::Ocal2B2 => 0x0a,
        Register::Ocal2B1 => 0x0b,
        Register::Ocal2B0 => 0x0c,
        Register::Gcal2B3 => 0x0d,
        Register::Gcal2B2 => 0x0e,
        Register::Gcal2B1 => 0x0f,
        Register::Gcal2B0 => 0x10,
        Register::I2CControl => 0x11,
        Register::AdcoB2 => 0x12,
        Register::AdcoB1 => 0x13,
        Register::AdcoB0 => 0x14,
        Register::Adc => 0x15,
        Register::OtpB1 => 0x16,
        Register::OtpB0 => 0x17,
        Register::Pga => 0x1b,
        Register::PgaPwr => 0x1c,
        Register::DeviceRev => 0x1f,
    }
}

impl Register {
    /// The register's address in the device's map.
    pub fn addr(self) -> (r: u8)
        ensures
            r == register_address(self),
            r <= 0x1f,
    {
        match self {
            Register::PuCtrl => 0x00,
            Register::Ctrl1 => 0x01,
            Register::Ctrl2 => 0x02,
            Register::Ocal1B2 => 0x03,
            Register::Ocal1B1 => 0x04,
            Register::Ocal1B0 => 0x05,
            Register::Gcal1B3 => 0x06,
            Register::Gcal1B2 => 0x07,
            Register::Gcal1B1 => 0x08,
            Register::Gcal1B0 => 0x09,
            Register::Ocal2B2 => 0x0a,
            Register::Ocal2B1 => 0x0b,
            Register::Ocal2B0 => 0x0c,
            Register::Gcal2B3 => 0x0d,
            Register::Gcal2B2 => 0x0e,
            Register::Gcal2B1 => 0x0f,
            Register::Gcal2B0 => 0x10,
            Register::I2CControl => 0x11,
            Register::AdcoB2 => 0x12,
            Register::AdcoB1 => 0x13,
            Register::AdcoB0 => 0x14,
            Register::Adc => 0x15,
            Register::OtpB1 => 0x16,
            Register::OtpB0 => 0x17,
            Register::Pga => 0x1b,
            Register::PgaPwr => 0x1c,
            Register::DeviceRev => 0x1f,
        }
    }
}

/// A way to wait while the device settles.
pub trait Pause {
    /// Busy-waits for `cycles` iterations.
    fn pause(&mut self, cycles: u16);
}

/// A bit index within one register.
pub trait RegisterBits {
    spec fn index(&self) -> u8;

    fn get(&self) -> (r: u8)
        ensures
            r == self.index(),
            r < 8,
    ;
}

/// Bits of `PU_CTRL`.
#[derive(Debug, Clone, Copy, PartialEq, Eq, Structural)]
pub enum PuCtrlBits {
    /// Register reset.
    RR,
    /// Digital power up.
    PUD,
    /// Analog power up.
    PUA,
    /// Power-up ready.
    PUR,
    /// Cycle start.
    CS,
    /// Conversion ready.
    CR,
    /// System clock source select.
    OSCS,
    /// AVDD source select (internal LDO).
    AVDDS,
}

impl RegisterBits for PuCtrlBits {
    open spec fn index(&self) -> u8 {
        match *self {
            PuCtrlBits::RR => 0,
            PuCtrlBits::PUD => 1,
            PuCtrlBits::PUA => 2,
            PuCtrlBits::PUR => 3,
            PuCtrlBits::CS => 4,
            PuCtrlBits::CR => 5,
            PuCtrlBits::OSCS => 6,
            PuCtrlBits::AVDDS => 7,
        }
    }

    fn get(&self) -> (r: u8) {
        match *self {
            PuCtrlBits::RR => 0,
            PuCtrlBits::PUD => 1,
            PuCtrlBits::PUA => 2,
            PuCtrlBits::PUR => 3,
            PuCtrlBits::CS => 4,
            PuCtrlBits::CR => 5,
            PuCtrlBits::OSCS => 6,
            PuCtrlBits::AVDDS => 7,
        }
    }
}

/// Bits of `PGA`.
#[derive(Debug, Clone, Copy, PartialEq, Eq, Structural)]
pub enum PgaRegisterBits {
    ChpDis,
    Inv,
    BypassEn,
    OutEn,
    LdoMode,
    RdOtpSel,
}

impl RegisterBits for PgaRegisterBits {
    open spec fn index(&self) -> u8 {
        match *self {
            PgaRegisterBits::ChpDis => 0,
            PgaRegisterBits::Inv => 3,
            PgaRegisterBits::BypassEn => 4,
            PgaRegisterBits::OutEn => 5,
            PgaRegisterBits::LdoMode => 6,
            PgaRegisterBits::RdOtpSel => 7,
        }
    }

    fn get(&self) -> (r: u8) {
        match *self {
            PgaRegisterBits::ChpDis => 0,
            PgaRegisterBits::Inv => 3,
            PgaRegisterBits::BypassEn => 4,
            PgaRegisterBits::OutEn => 5,
            PgaRegisterBits::LdoMode => 6,
            PgaRegisterBits::RdOtpSel => 7,
        }
    }
}

/// Bits of `PGA_PWR`.
#[derive(Debug, Clone, Copy, PartialEq, Eq, Structural)]
pub enum PgaPwrRegisterBits {
    Curr,
    AdcCurr,
    MstrBiasCurr,
    /// Decoupling capacitor on channel 2.
    CapEn,
}

impl RegisterBits for PgaPwrRegisterBits {
    open spec fn index(&self) -> u8 {
        match *self {
            PgaPwrRegisterBits::Curr => 0,
            PgaPwrRegisterBits::AdcCurr => 2,
            PgaPwrRegisterBits::MstrBiasCurr => 4,
            PgaPwrRegisterBits::CapEn => 7,
        }
    }

    fn get(&self) -> (r: u8) {
        match *self {
            PgaPwrRegisterBits::Curr => 0,
            PgaPwrRegisterBits::AdcCurr => 2,
            PgaPwrRegisterBits::MstrBiasCurr => 4,
            PgaPwrRegisterBits::CapEn => 7,
        }
    }
}

/// Bits of `CTRL2`.
#[derive(Debug, Clone, Copy, PartialEq, Eq, Structural)]
pub enum Ctrl2RegisterBits {
    /// Calibration mode (two bits).
    CalMod,
    /// Calibration start; reads as set while calibration runs.
    Cals,
    /// Calibration error.
    CalError,
    /// Conversion rate (three bits).
    Crs,
    /// Analog input channel select.
    Chs,
}

impl RegisterBits for Ctrl2RegisterBits {
    open spec fn index(&self) -> u8 {
        match *self {
            Ctrl2RegisterBits::CalMod => 0,
            Ctrl2RegisterBits::Cals => 2,
            Ctrl2RegisterBits::CalError => 3,
            Ctrl2RegisterBits::Crs => 4,
            Ctrl2RegisterBits::Chs => 7,
        }
    }

    fn get(&self) -> (r: u8) {
        match *self {
            Ctrl2RegisterBits::CalMod => 0,
            Ctrl2RegisterBits::Cals => 2,
            Ctrl2RegisterBits::CalError => 3,
            Ctrl2RegisterBits::Crs => 4,
            Ctrl2RegisterBits::Chs => 7,
        }
    }
}

/// Output voltage of the internal LDO.
#[derive(Debug, Clone, Copy, PartialEq, Eq, Structural)]
pub enum Ldo {
    L2v4,
    L2v7,
    L3v0,
    L3v3,
    L3v6,
    L3v9,
    L3v2,
    L4v5,
}

pub open spec fn ldo_bits(l: Ldo) -> u8 {
    match l {
        Ldo::L2v4 => 0b111,
        Ldo::L2v7 => 0b110,
        Ldo::L3v0 => 0b101,
        Ldo::L3v3 => 0b100,
        Ldo::L3v6 => 0b011,
        Ldo::L3v9 => 0b010,
        Ldo::L3v2 => 0b001,
        Ldo::L4v5 => 0b000,
    }
}

impl Ldo {
    /// The three-bit code of the voltage.
    pub fn bits(self) -> (r: u8)
        ensures
            r == ldo_bits(self),
            r < 8,
    {
        match self {
            Ldo::L2v4 => 0b111,
            Ldo::L2v7 => 0b110,
            Ldo::L3v0 => 0b101,
            Ldo::L3v3 => 0b100,
            Ldo::L3v6 => 0b011,
            Ldo::L3v9 => 0b010,
            Ldo::L3v2 => 0b001,
            Ldo::L4v5 => 0b000,
        }
    }
}

/// Gain of the programmable amplifier.
#[derive(Debug, Clone, Copy, PartialEq, Eq, Structural)]
pub enum Gain {
    G128,
    G64,
    G32,
    G16,
    G8,
    G4,
    G2,
    G1,
}

pub open spec fn gain_bits(g: Gain) -> u8 {
    match g {
        Gain::G128 => 0b111,
        Gain::G64 => 0b110,
        Gain::G32 => 0b101,
        Gain::G16 => 0b100,
        Gain::G8 => 0b011,
        Gain::G4 => 0b010,
        Gain::G2 => 0b001,
        Gain::G1 => 0b000,
    }
}

impl Gain {
    /// The three-bit code of the gain.
    pub fn bits(self) -> (r: u8)
        ensures
            r == gain_bits(self),
            r < 8,
    {
        match self {
            Gain::G128 => 0b111,
            Gain::G64 => 0b110,
            Gain::G32 => 0b101,
            Gain::G16 => 0b100,
            Gain::G8 => 0b011,
            Gain::G4 => 0b010,
            Gain::G2 => 0b001,
            Gain::G1 => 0b000,
        }
    }
}

/// Conversion rate.
#[derive(Debug, Clone, Copy, PartialEq, Eq, Structural)]
pub enum SamplesPerSecond {
    SPS320,
    SPS80,
    SPS40,
    SPS20,
    SPS10,
}

pub open spec fn sps_bits(s: SamplesPerSecond) -> u8 {
    match s {
        SamplesPerSecond::SPS320 => 0b111,
        SamplesPerSecond::SPS80 => 0b011,
        SamplesPerSecond::SPS40 => 0b010,
        SamplesPerSecond::SPS20 => 0b001,
        SamplesPerSecond::SPS10 => 0b000,
    }
}

impl SamplesPerSecond {
    /// The three-bit code of the rate.
    pub fn bits(self) -> (r: u8)
        ensures
            r == sps_bits(self),
            r < 8,
    {
        match self {
            SamplesPerSecond::SPS320 => 0b111,
            SamplesPerSecond::SPS80 => 0b011,
            SamplesPerSecond::SPS40 => 0b010,
            SamplesPerSecond::SPS20 => 0b001,
            SamplesPerSecond::SPS10 => 0b000,
        }
    }
}

/// State of the analog front-end calibration.
#[derive(Debug, Clone, Copy, PartialEq, Eq, Structural)]
pub enum AfeCalibrationStatus {
    InProgress,
    Failure,
    Success,
}

/// One register access of the driver, as the bus answered it.
pub enum Access {
    /// A read of consecutive registers from `reg`, with the bytes it gave.
    Read { reg: u8, result: Result<Seq<u8>, I2CError> },
    /// A write of `value` to `reg`.
    Write { reg: u8, value: u8, outcome: Result<(), I2CError> },
}

/// `t` is a read from the device whose outcome, with the bytes it left in
/// the buffer, is `result`.
pub open spec fn read_transfer_gives(t: Transfer, result: Result<Seq<u8>, I2CError>) -> bool {
    match t {
        Transfer::Read { address, data, result: rr } => address == NAU7802_ADDRESS && match rr {
            Ok(()) => result == Ok::<Seq<u8>, I2CError>(data),
            Err(e) => result == Err::<Seq<u8>, I2CError>(e),
        },
        _ => false,
    }
}

/// The bus transactions that make up the access `a`: a read is the write of
/// the register address and, if that went through, the read itself; a write
/// is one transaction of the address and the value.
pub open spec fn access_transfers(a: Access, t: Seq<Transfer>) -> bool {
    match a {
        Access::Read { reg, result } => {
            ||| (t.len() == 1 && result is Err && t[0] == Transfer::Write {
                address: NAU7802_ADDRESS,
                data: seq![reg],
                result: Err(result->Err_0),
            })
            ||| (t.len() == 2 && t[0] == Transfer::Write {
                address: NAU7802_ADDRESS,
                data: seq![reg],
                result: Ok(()),
            } && read_transfer_gives(t[1], result))
        },
        Access::Write { reg, value, outcome } => t == seq![
            Transfer::Write { address: NAU7802_ADDRESS, data: seq![reg, value], result: outcome },
        ],
    }
}

/// The one-byte result of a read access (a write access reads nothing and
/// counts as not acknowledged).
pub open spec fn read1_result(a: Access) -> Result<u8, I2CError> {
    match a {
        Access::Read { result: Ok(d), .. } => Ok(d[0]),
        Access::Read { result: Err(e), .. } => Err(e),
        Access::Write { .. } => Err(I2CError::NACK),
    }
}

/// `a` reads one byte of `reg`.
pub open spec fn is_read1(a: Access, reg: u8) -> bool {
    a matches Access::Read { reg: r, result } && r == reg && (result is Ok ==> result->Ok_0.len()
        == 1)
}

/// `acc` is a read-modify-write of `reg` that stores `f` of the value read,
/// with outcome `r`: it stops after the read where the read fails.
pub open spec fn rmw_accesses(
    reg: u8,
    f: spec_fn(u8) -> u8,
    acc: Seq<Access>,
    r: Result<(), I2CError>,
) -> bool {
    &&& acc.len() >= 1
    &&& is_read1(acc[0], reg)
    &&& match read1_result(acc[0]) {
        Err(e) => acc.len() == 1 && r == Err::<(), I2CError>(e),
        Ok(v) => acc.len() == 2 && acc[1] == Access::Write { reg, value: f(v), outcome: r },
    }
}

/// `v` with bit `b` set.
pub open spec fn with_bit(v: u8, b: u8) -> u8 {
    v | (1u8 << b)
}

/// `v` with bit `b` cleared.
pub open spec fn without_bit(v: u8, b: u8) -> u8 {
    v & !(1u8 << b)
}

/// Bit `b` of `v`.
pub open spec fn bit_of(v: u8, b: u8) -> bool {
    v & (1u8 << b) != 0
}

/// `v` with the bits outside `mask` replaced by `x` shifted to `start`.
pub open spec fn with_field(v: u8, mask: u8, start: u8, x: u8) -> u8 {
    (v & mask) | (x << start)
}

/// `acc` sets bit `b` of `reg`, with outcome `r`.
pub open spec fn set_bit_accesses(reg: u8, b: u8, acc: Seq<Access>, r: Result<(), I2CError>) -> bool {
    rmw_accesses(reg, (|v: u8| with_bit(v, b)), acc, r)
}

/// `acc` clears bit `b` of `reg`, with outcome `r`.
pub open spec fn clear_bit_accesses(reg: u8, b: u8, acc: Seq<Access>, r: Result<(), I2CError>) -> bool {
    rmw_accesses(reg, (|v: u8| without_bit(v, b)), acc, r)
}

/// `acc` stores `x` in the field of `reg` outside `mask` that starts at bit
/// `start`, with outcome `r`.
pub open spec fn field_accesses(
    reg: u8,
    mask: u8,
    start: u8,
    x: u8,
    acc: Seq<Access>,
    r: Result<(), I2CError>,
) -> bool {
    rmw_accesses(reg, (|v: u8| with_field(v, mask, start, x)), acc, r)
}

/// Bit `b` of what the read access `a` gave.
pub open spec fn bit_result(a: Access, b: u8) -> Result<bool, I2CError> {
    match read1_result(a) {
        Ok(v) => Ok(bit_of(v, b)),
        Err(e) => Err(e),
    }
}

/// The read access `a` of `PU_CTRL` shows the power-up ready bit.
pub open spec fn shows_ready(a: Access) -> bool {
    bit_result(a, 3) == Ok::<bool, I2CError>(true)
}

/// `polls` are the ready-bit reads of a power-up: reads of `PU_CTRL`, at
/// most the attempt budget of them, none but the last showing the ready bit,
/// and fewer than the budget only where the last shows it.
pub open spec fn ready_polls(polls: Seq<Access>) -> bool {
    &&& polls.len() <= POWER_UP_ATTEMPTS
    &&& forall|i: int| 0 <= i < polls.len() ==> #[trigger] is_read1(polls[i], 0x00)
    &&& forall|i: int| 0 <= i < polls.len() - 1 ==> !#[trigger] shows_ready(polls[i])
    &&& polls.len() < POWER_UP_ATTEMPTS ==> polls.len() > 0 && shows_ready(polls.last())
}

/// A power-up with outcome `r` made of `a1` (set the digital power-up bit of
/// `PU_CTRL`, outcome `r1`), `a2` (set the analog power-up bit, outcome
/// `r2`) and the ready-bit `polls`: it stops at the first failure, and
/// succeeds exactly when a poll shows the ready bit, failing otherwise with
/// `NACK`.
pub open spec fn power_up_steps(
    a1: Seq<Access>,
    r1: Result<(), I2CError>,
    a2: Seq<Access>,
    r2: Result<(), I2CError>,
    polls: Seq<Access>,
    r: Result<(), I2CError>,
) -> bool {
    &&& set_bit_accesses(0x00, 1, a1, r1)
    &&& match r1 {
        Err(e) => a2.len() == 0 && polls.len() == 0 && r == Err::<(), I2CError>(e),
        Ok(()) => set_bit_accesses(0x00, 2, a2, r2) && match r2 {
            Err(e) => polls.len() == 0 && r == Err::<(), I2CError>(e),
            Ok(()) => ready_polls(polls) && (if polls.len() > 0 && shows_ready(polls.last()) {
                r == Ok::<(), I2CError>(())
            } else {
                r == Err::<(), I2CError>(I2CError::NACK)
            }),
        },
    }
}

/// `acc` is one poll of the calibration with outcome `r`: read `CTRL2`; the
/// start bit still set means in progress; otherwise read it again, and the
/// error bit decides between failure and success.
pub open spec fn calibration_accesses(acc: Seq<Access>, r: Result<AfeCalibrationStatus, I2CError>) -> bool {
    &&& acc.len() >= 1
    &&& is_read1(acc[0], 0x02)
    &&& match bit_result(acc[0], 2) {
        Err(e) => acc.len() == 1 && r == Err::<AfeCalibrationStatus, I2CError>(e),
        Ok(true) => acc.len() == 1 && r == Ok::<AfeCalibrationStatus, I2CError>(
            AfeCalibrationStatus::InProgress,
        ),
        Ok(false) => acc.len() == 2 && is_read1(acc[1], 0x02) && match bit_result(acc[1], 3) {
            Err(e) => r == Err::<AfeCalibrationStatus, I2CError>(e),
            Ok(true) => r == Ok::<AfeCalibrationStatus, I2CError>(AfeCalibrationStatus::Failure),
            Ok(false) => r == Ok::<AfeCalibrationStatus, I2CError>(AfeCalibrationStatus::Success),
        },
    }
}

/// Setting the LDO voltage `ldo` with outcome `r`: `a1` stores its code in
/// `CTRL1` (outcome `r1`) and, if that went through, `a2` sets the AVDD
/// source bit of `PU_CTRL`.
pub open spec fn set_ldo_steps(
    ldo: Ldo,
    a1: Seq<Access>,
    r1: Result<(), I2CError>,
    a2: Seq<Access>,
    r: Result<(), I2CError>,
) -> bool {
    &&& field_accesses(0x01, LDO_MASK, LDO_START_BIT, ldo_bits(ldo), a1, r1)
    &&& match r1 {
        Err(e) => a2.len() == 0 && r == Err::<(), I2CError>(e),
        Ok(()) => set_bit_accesses(0x00, 7, a2, r),
    }
}

/// `acc` reads the three output registers one at a time, stopping at the
/// first failure, with outcome `r`: the three bytes in register order.
pub open spec fn sample_accesses(acc: Seq<Access>, r: Result<[u8; 3], I2CError>) -> bool {
    &&& 1 <= acc.len() <= 3
    &&& forall|i: int| 0 <= i < acc.len() ==> #[trigger] is_read1(acc[i], (0x12 + i) as u8)
    &&& forall|i: int| 0 <= i < acc.len() - 1 ==> #[trigger] read1_result(acc[i]) is Ok
    &&& match read1_result(acc.last()) {
        Err(e) => r == Err::<[u8; 3], I2CError>(e),
        Ok(_) => acc.len() == 3 && r is Ok && r->Ok_0@ == seq![
            read1_result(acc[0])->Ok_0,
            read1_result(acc[1])->Ok_0,
            read1_result(acc[2])->Ok_0,
        ],
    }
}

/// The register file of a device that behaves as the NAU7802 does on the
/// bus, after transaction `t`: a successful write to it moves its register
/// pointer to the first byte and stores the bytes after it from there on.
pub open spec fn device_step(regs: Seq<u8>, ptr: int, t: Transfer) -> (Seq<u8>, int) {
    match t {
        Transfer::Write { address, data, result } => if address == NAU7802_ADDRESS && result is Ok
            && data.len() > 0 {
            (
                Seq::new(
                    regs.len(),
                    |i: int|
                        if data[0] <= i < data[0] + data.len() - 1 {
                            data[i - data[0] + 1]
                        } else {
                            regs[i]
                        },
                ),
                data[0] as int,
            )
        } else {
            (regs, ptr)
        },
        Transfer::Read { .. } => (regs, ptr),
    }
}

/// A successful read `t` from the device gives its registers from the
/// pointer on.
pub open spec fn device_answers(regs: Seq<u8>, ptr: int, t: Transfer) -> bool {
    match t {
        Transfer::Read { address, data, result } => (address == NAU7802_ADDRESS && result is Ok)
            ==> forall|i: int|
            0 <= i < data.len() ==> 0 <= ptr + i < regs.len() && #[trigger] data[i] == regs[ptr + i],
        Transfer::Write { .. } => true,
    }
}

/// The transactions `ts` are answered by such a device that starts with the
/// registers `regs` and its pointer at `ptr`.
pub open spec fn device_consistent(regs: Seq<u8>, ptr: int, ts: Seq<Transfer>) -> bool
    decreases ts.len(),
{
    if ts.len() == 0 {
        true
    } else {
        device_answers(regs, ptr, ts[0]) && device_consistent(
            device_step(regs, ptr, ts[0]).0,
            device_step(regs, ptr, ts[0]).1,
            ts.drop_first(),
        )
    }
}

/// Against a device that keeps what is written to its registers, reading
/// register `a` right after writing `v` to it gives `v`, whatever the device
/// held before: `wt` are the transactions of the write, `ra` and `rt` the
/// access and the transactions of the read.
pub proof fn lemma_write_then_read(
    regs: Seq<u8>,
    ptr: int,
    a: u8,
    v: u8,
    wt: Seq<Transfer>,
    ra: Access,
    rt: Seq<Transfer>,
)
    requires
        regs.len() == 32,
        a < 32,
        access_transfers(Access::Write { reg: a, value: v, outcome: Ok(()) }, wt),
        is_read1(ra, a),
        read1_result(ra) is Ok,
        access_transfers(ra, rt),
        device_consistent(regs, ptr, wt + rt),
    ensures
        read1_result(ra) == Ok::<u8, I2CError>(v),
{
    let ts = wt + rt;
    let data = ra->Read_result->Ok_0;
    assert(rt.len() == 2);
    assert(ts.len() == 3 && ts[0] == wt[0] && ts[1] == rt[0] && ts[2] == rt[1]);
    let (regs1, ptr1) = device_step(regs, ptr, ts[0]);
    assert(regs1[a as int] == v);
    assert(device_consistent(regs1, ptr1, ts.drop_first()));
    assert(ts.drop_first().drop_first() =~= seq![ts[2]]);
    assert(ts.drop_first()[0] == ts[1]);
    let (regs2, ptr2) = device_step(regs1, ptr1, ts[1]);
    assert(regs2 =~= regs1);
    assert(ptr2 == a);
    assert(device_consistent(regs2, ptr2, ts.drop_first().drop_first()));
    assert(device_consistent(regs2, ptr2, seq![ts[2]]));
    assert(device_answers(regs2, ptr2, ts[2]));
    assert(data[0] == regs2[a as int]);
}

/// The attempt budget of a power-up, once both power-up bits are set: a poll
/// that shows the ready bit is the last one and the power-up succeeds; where
/// none shows it, exactly `POWER_UP_ATTEMPTS` polls were made and it fails.
pub proof fn lemma_power_up_budget(
    a1: Seq<Access>,
    a2: Seq<Access>,
    polls: Seq<Access>,
    r: Result<(), I2CError>,
)
    requires
        power_up_steps(a1, Ok(()), a2, Ok(()), polls, r),
    ensures
        forall|n: int|
            0 <= n < polls.len() && #[trigger] shows_ready(polls[n]) ==> n == polls.len() - 1 && r
                == Ok::<(), I2CError>(()),
        (forall|n: int| 0 <= n < polls.len() ==> !#[trigger] shows_ready(polls[n])) ==> polls.len()
            == POWER_UP_ATTEMPTS && r == Err::<(), I2CError>(I2CError::NACK),
{
    if forall|n: int| 0 <= n < polls.len() ==> !#[trigger] shows_ready(polls[n]) {
        if polls.len() > 0 {
            assert(!shows_ready(polls[polls.len() - 1]));
        }
    }
}

/// The signed value of a 24-bit sample whose bytes `b` come most
/// significant first.
pub open spec fn sample_int(b: Seq<u8>) -> int {
    let u = b[0] * 65536 + b[1] * 256 + b[2];
    if u >= 0x80_0000 {
        u - 0x100_0000
    } else {
        u
    }
}

/// The signed value of a 24-bit sample, most significant byte first, as
/// `read_unchecked_m` and `read_unchecked_s` return it.
pub fn sample_value(b: [u8; 3]) -> (r: i32)
    ensures
        r == sample_int(b@),
{
    let u: u32 = (b[0] as u32) * 65536 + (b[1] as u32) * 256 + (b[2] as u32);
    if u >= 0x80_0000 {
        (u as i32) - 0x100_0000
    } else {
        u as i32
    }
}

/// `acc` is a power-up with outcome `r`.
pub open spec fn power_up_accesses(acc: Seq<Access>, r: Result<(), I2CError>) -> bool {
    exists|a1: Seq<Access>, r1: Result<(), I2CError>, a2: Seq<Access>, r2: Result<(), I2CError>, polls: Seq<Access>|
        acc == a1 + a2 + polls && #[trigger] power_up_steps(a1, r1, a2, r2, polls, r)
}

/// `acc` sets the LDO voltage `ldo` with outcome `r`.
pub open spec fn ldo_accesses(ldo: Ldo, acc: Seq<Access>, r: Result<(), I2CError>) -> bool {
    exists|a1: Seq<Access>, r1: Result<(), I2CError>, a2: Seq<Access>|
        acc == a1 + a2 && #[trigger] set_ldo_steps(ldo, a1, r1, a2, r)
}

/// Output setting of the ADC register after start-up: clock chopper off.
pub const ADC_CHOPPER_OFF: u8 = 0x30;
/// Busy-wait iterations that the register reset is held for.
pub const RESET_HOLD: u16 = 100;
/// Number of steps of the device set-up.
pub const SETUP_STEPS: usize = 9;

/// Step `k` of the device set-up, as the accesses `seg` with outcome `r`:
/// set and clear the register-reset bit, power up, 80 samples per second,
/// gain 128, LDO at 3.6 V, clock chopper off, the channel-2 decoupling
/// capacitor on, and start the calibration.
pub open spec fn setup_step(k: int, seg: Seq<Access>, r: Result<(), I2CError>) -> bool {
    if k == 0 {
        set_bit_accesses(0x00, 0, seg, r)
    } else if k == 1 {
        clear_bit_accesses(0x00, 0, seg, r)
    } else if k == 2 {
        power_up_accesses(seg, r)
    } else if k == 3 {
        field_accesses(0x02, SPS_MASK, SPS_START_BIT, sps_bits(SamplesPerSecond::SPS80), seg, r)
    } else if k == 4 {
        field_accesses(0x01, GAIN_MASK, GAIN_START_BIT, gain_bits(Gain::G128), seg, r)
    } else if k == 5 {
        ldo_accesses(Ldo::L3v6, seg, r)
    } else if k == 6 {
        seg == seq![Access::Write { reg: 0x15, value: ADC_CHOPPER_OFF, outcome: r }]
    } else if k == 7 {
        set_bit_accesses(0x1c, 7, seg, r)
    } else {
        set_bit_accesses(0x02, 2, seg, r)
    }
}

/// The accesses of consecutive steps, one after another.
pub open spec fn concat(segs: Seq<Seq<Access>>) -> Seq<Access>
    decreases segs.len(),
{
    if segs.len() == 0 {
        seq![]
    } else {
        concat(segs.drop_last()) + segs.last()
    }
}

/// The first steps of the set-up ran, each as `setup_step` says, and all
/// succeeded.
pub open spec fn setup_prefix(segs: Seq<Seq<Access>>, rs: Seq<Result<(), I2CError>>) -> bool {
    &&& segs.len() == rs.len() <= SETUP_STEPS
    &&& forall|k: int| 0 <= k < segs.len() ==> #[trigger] setup_step(k, segs[k], rs[k])
    &&& forall|k: int| 0 <= k < rs.len() ==> #[trigger] rs[k] is Ok
}

/// A set-up with outcome `r` ran the steps `segs` with outcomes `rs`: in
/// order, stopping at the first failure, whose outcome it returns.
pub open spec fn setup_run(segs: Seq<Seq<Access>>, rs: Seq<Result<(), I2CError>>, r: Result<(), I2CError>) -> bool {
    &&& 1 <= segs.len() == rs.len() <= SETUP_STEPS
    &&& forall|k: int| 0 <= k < segs.len() ==> #[trigger] setup_step(k, segs[k], rs[k])
    &&& forall|k: int| 0 <= k < rs.len() - 1 ==> #[trigger] rs[k] is Ok
    &&& segs.len() < SETUP_STEPS ==> rs.last() is Err
    &&& r == rs.last()
}

/// Adding one more step to a run of successful ones.
proof fn lemma_setup_push(
    segs: Seq<Seq<Access>>,
    rs: Seq<Result<(), I2CError>>,
    seg: Seq<Access>,
    r: Result<(), I2CError>,
)
    requires
        setup_prefix(segs, rs),
        segs.len() < SETUP_STEPS,
        setup_step(segs.len() as int, seg, r),
    ensures
        concat(segs.push(seg)) == concat(segs) + seg,
        (r is Err || segs.len() + 1 == SETUP_STEPS) ==> setup_run(segs.push(seg), rs.push(r), r),
        r is Ok ==> setup_prefix(segs.push(seg), rs.push(r)),
{
    assert(segs.push(seg).drop_last() =~= segs);
    let s2 = segs.push(seg);
    let r2 = rs.push(r);
    assert forall|k: int| 0 <= k < s2.len() implies #[trigger] setup_step(k, s2[k], r2[k]) by {
        if k < segs.len() {
            assert(s2[k] == segs[k] && r2[k] == rs[k]);
        }
    }
    assert forall|k: int| 0 <= k < r2.len() - 1 implies #[trigger] r2[k] is Ok by {
        assert(r2[k] == rs[k]);
    }
    if r is Ok {
        assert forall|k: int| 0 <= k < r2.len() implies #[trigger] r2[k] is Ok by {
            if k < rs.len() {
                assert(r2[k] == rs[k]);
            }
        }
    }
}

/// The transactions of a sequence of accesses, one after another.
pub open spec fn flatten(log: Seq<(Access, Seq<Transfer>)>) -> Seq<Transfer>
    decreases log.len(),
{
    if log.len() == 0 {
        seq![]
    } else {
        flatten(log.drop_last()) + log.last().1
    }
}

/// The NAU7802 on a bus. It keeps no state of its own but a record of the
/// register accesses it made and of the bus transactions behind each.
pub struct Nau7802<P> {
    bus: I2C<P>,
    base: Ghost<Seq<Transfer>>,
    log: Ghost<Seq<(Access, Seq<Transfer>)>>,
}

impl<P: TwiPort> Nau7802<P> {
    /// The record agrees with the bus: the transactions since the driver
    /// took the bus are, in order, those of its accesses.
    pub closed spec fn wf(&self) -> bool {
        &&& self.bus.transfers() == self.base@ + flatten(self.log@)
        &&& forall|i: int|
            0 <= i < self.log@.len() ==> #[trigger] access_transfers(
                self.log@[i].0,
                self.log@[i].1,
            )
    }

    /// Every register access made so far, oldest first.
    pub closed spec fn accesses(&self) -> Seq<Access> {
        Seq::new(self.log@.len(), |i: int| self.log@[i].0)
    }

    /// Every transaction the bus has finished, the driver's and those before.
    pub closed spec fn transfers(&self) -> Seq<Transfer> {
        self.bus.transfers()
    }

    /// The driver on `bus`.
    pub fn new(bus: I2C<P>) -> (r: Self)
        ensures
            r.wf(),
            r.accesses() == Seq::<Access>::empty(),
            r.transfers() == bus.transfers(),
    {
        let ghost base = bus.transfers();
        let r = Nau7802 { bus, base: Ghost(base), log: Ghost(Seq::empty()) };
        assert(r.accesses() =~= Seq::<Access>::empty());
        r
    }

    /// Gives the bus back.
    pub fn release(self) -> (r: I2C<P>)
        ensures
            r.transfers() == self.transfers(),
    {
        self.bus
    }

    /// The bus controller.
    pub fn bus(&self) -> &I2C<P> {
        &self.bus
    }

    /// The bus's register port, to change it; the records stay as they are.
    pub fn port_mut(&mut self) -> (r: &mut P)
        ensures
            old(self).wf() ==> final(self).wf(),
            final(self).accesses() == old(self).accesses(),
            final(self).transfers() == old(self).transfers(),
    {
        self.bus.port_mut()
    }


    fn push_record(&mut self, a: Ghost<Access>, t0: Ghost<Seq<Transfer>>)
        requires
            t0@ == old(self).base@ + flatten(old(self).log@),
            forall|i: int|
                0 <= i < old(self).log@.len() ==> #[trigger] access_transfers(
                    old(self).log@[i].0,
                    old(self).log@[i].1,
                ),
            t0@.len() <= old(self).bus.transfers().len(),
            old(self).bus.transfers().subrange(0, t0@.len() as int) == t0@,
            access_transfers(
                a@,
                old(self).bus.transfers().subrange(
                    t0@.len() as int,
                    old(self).bus.transfers().len() as int,
                ),
            ),
        ensures
            final(self).wf(),
            final(self).accesses() == old(self).accesses().push(a@),
            final(self).transfers() == old(self).transfers(),
    {
        let ghost all = self.bus.transfers();
        let ghost seg = all.subrange(t0@.len() as int, all.len() as int);
        let ghost old_log = self.log@;
        self.log = Ghost(self.log@.push((a@, seg)));
        assert(self.log@.drop_last() =~= old_log);
        assert(all =~= t0@ + seg);
        assert(flatten(self.log@) == flatten(old_log) + seg);
        assert(self.bus.transfers() =~= self.base@ + flatten(self.log@));
        assert(self.accesses() =~= old(self).accesses().push(a@));
        assert forall|i: int| 0 <= i < self.log@.len() implies #[trigger] access_transfers(
            self.log@[i].0,
            self.log@[i].1,
        ) by {
            if i < old_log.len() {
                assert(self.log@[i] == old_log[i]);
            }
        }
    }

    /// Reads `N` consecutive registers from `address`: one transaction sends
    /// the address, a second reads the bytes.
    pub fn read<const N: usize>(&mut self, address: u8) -> (r: Result<[u8; N], I2CError>)
        requires
            old(self).wf(),
        ensures
            final(self).wf(),
            final(self).accesses() == old(self).accesses().push(
                Access::Read {
                    reg: address,
                    result: match r {
                        Ok(b) => Ok(b@),
                        Err(e) => Err(e),
                    },
                },
            ),
            old(self).transfers().len() <= final(self).transfers().len(),
            final(self).transfers().subrange(0, old(self).transfers().len() as int) == old(
                self,
            ).transfers(),
            access_transfers(
                final(self).accesses().last(),
                final(self).transfers().subrange(
                    old(self).transfers().len() as int,
                    final(self).transfers().len() as int,
                ),
            ),
            r is Ok ==> r->Ok_0@.len() == N,
    {
        let ghost t0 = self.bus.transfers();
        let reg = [address];
        let w = self.bus.write(NAU7802_ADDRESS, &reg);
        assert(reg@ =~= seq![address]);
        if let Err(e) = w {
            let ghost a = Access::Read { reg: address, result: Err(e) };
            assert(self.bus.transfers().subrange(0, t0.len() as int) =~= t0);
            assert(self.bus.transfers().subrange(t0.len() as int, self.bus.transfers().len() as int)
                =~= seq![self.bus.transfers().last()]);
            self.push_record(Ghost(a), Ghost(t0));
            return Err(e);
        }
        let ghost t1 = self.bus.transfers();
        let r = self.bus.read::<N>(NAU7802_ADDRESS);
        let ghost a = Access::Read {
            reg: address,
            result: match r {
                Ok(b) => Ok(b@),
                Err(e) => Err(e),
            },
        };
        assert(self.bus.transfers() =~= t1.push(self.bus.transfers().last()));
        assert(self.bus.transfers().subrange(0, t0.len() as int) =~= t0);
        assert(self.bus.transfers().subrange(t0.len() as int, self.bus.transfers().len() as int)
            =~= seq![t1.last(), self.bus.transfers().last()]);
        self.push_record(Ghost(a), Ghost(t0));
        r
    }

    /// Reads the register at `address`.
    pub fn read1(&mut self, address: u8) -> (r: Result<u8, I2CError>)
        requires
            old(self).wf(),
        ensures
            final(self).wf(),
            final(self).accesses().len() == old(self).accesses().len() + 1,
            final(self).accesses().drop_last() == old(self).accesses(),
            is_read1(final(self).accesses().last(), address),
            r == read1_result(final(self).accesses().last()),
            old(self).transfers().len() <= final(self).transfers().len(),
            final(self).transfers().subrange(0, old(self).transfers().len() as int) == old(
                self,
            ).transfers(),
            access_transfers(
                final(self).accesses().last(),
                final(self).transfers().subrange(
                    old(self).transfers().len() as int,
                    final(self).transfers().len() as int,
                ),
            ),
    {
        let r = self.read::<1>(address);
        assert(final(self).accesses().drop_last() =~= old(self).accesses());
        match r {
            Ok(b) => Ok(b[0]),
            Err(e) => Err(e),
        }
    }

    /// Writes `data` to the register at `address`, in one transaction.
    pub fn write(&mut self, address: u8, data: u8) -> (r: Result<(), I2CError>)
        requires
            old(self).wf(),
        ensures
            final(self).wf(),
            final(self).accesses() == old(self).accesses().push(
                Access::Write { reg: address, value: data, outcome: r },
            ),
            final(self).transfers() == old(self).transfers().push(
                Transfer::Write { address: NAU7802_ADDRESS, data: seq![address, data], result: r },
            ),
    {
        let ghost t0 = self.bus.transfers();
        let bytes = [address, data];
        let r = self.bus.write(NAU7802_ADDRESS, &bytes);
        assert(bytes@ =~= seq![address, data]);
        assert(self.bus.transfers().subrange(0, t0.len() as int) =~= t0);
        assert(self.bus.transfers().subrange(t0.len() as int, self.bus.transfers().len() as int)
            =~= seq![self.bus.transfers().last()]);
        self.push_record(Ghost(Access::Write { reg: address, value: data, outcome: r }), Ghost(t0));
        r
    }

    /// Sets bit `bit_idx` of register `addr`: reads the register and writes
    /// it back with the bit set.
    pub fn set_bit<B: RegisterBits>(&mut self, addr: Register, bit_idx: B) -> (r: Result<(), I2CError>)
        requires
            old(self).wf(),
        ensures
            final(self).wf(),
            exists|acc: Seq<Access>|
                final(self).accesses() == old(self).accesses() + acc && #[trigger] set_bit_accesses(
                    register_address(addr),
                    bit_idx.index(),
                    acc,
                    r,
                ),
    {
        let ghost a0 = self.accesses();
        let reg = addr.addr();
        let b = bit_idx.get();
        match self.read1(reg) {
            Err(e) => {
                let ghost acc = seq![self.accesses().last()];
                assert(self.accesses() =~= a0 + acc);
                assert(set_bit_accesses(reg, b, acc, Err(e)));
                Err(e)
            },
            Ok(v) => {
                let ghost ra = self.accesses().last();
                let r = self.write(reg, v | (1u8 << b));
                let ghost acc = seq![ra, self.accesses().last()];
                assert(self.accesses() =~= a0 + acc);
                assert(set_bit_accesses(reg, b, acc, r));
                r
            },
        }
    }

    /// Clears bit `bit_idx` of register `addr`: reads the register and
    /// writes it back with the bit cleared.
    pub fn clear_bit<B: RegisterBits>(&mut self, addr: Register, bit_idx: B) -> (r: Result<(), I2CError>)
        requires
            old(self).wf(),
        ensures
            final(self).wf(),
            exists|acc: Seq<Access>|
                final(self).accesses() == old(self).accesses() + acc && #[trigger] clear_bit_accesses(
                    register_address(addr),
                    bit_idx.index(),
                    acc,
                    r,
                ),
    {
        let ghost a0 = self.accesses();
        let reg = addr.addr();
        let b = bit_idx.get();
        match self.read1(reg) {
            Err(e) => {
                let ghost acc = seq![self.accesses().last()];
                assert(self.accesses() =~= a0 + acc);
                assert(clear_bit_accesses(reg, b, acc, Err(e)));
                Err(e)
            },
            Ok(v) => {
                let ghost ra = self.accesses().last();
                let r = self.write(reg, v & !(1u8 << b));
                let ghost acc = seq![ra, self.accesses().last()];
                assert(self.accesses() =~= a0 + acc);
                assert(clear_bit_accesses(reg, b, acc, r));
                r
            },
        }
    }

    /// Reads bit `bit_idx` of register `addr`.
    pub fn get_bit<B: RegisterBits>(&mut self, addr: Register, bit_idx: B) -> (r: Result<bool, I2CError>)
        requires
            old(self).wf(),
        ensures
            final(self).wf(),
            final(self).accesses().len() == old(self).accesses().len() + 1,
            final(self).accesses().drop_last() == old(self).accesses(),
            is_read1(final(self).accesses().last(), register_address(addr)),
            r == bit_result(final(self).accesses().last(), bit_idx.index()),
    {
        let b = bit_idx.get();
        match self.read1(addr.addr()) {
            Err(e) => Err(e),
            Ok(v) => Ok(v & (1u8 << b) != 0),
        }
    }

    /// Stores `new_val` in the field of `reg` outside `mask` that starts at
    /// bit `start_idx`: reads the register, keeps the bits of `mask`, ors in
    /// the shifted value and writes it back.
    pub fn set_function_helper(&mut self, reg: Register, mask: u8, start_idx: u8, new_val: u8) -> (r:
        Result<(), I2CError>)
        requires
            old(self).wf(),
            start_idx < 8,
        ensures
            final(self).wf(),
            exists|acc: Seq<Access>|
                final(self).accesses() == old(self).accesses() + acc && #[trigger] field_accesses(
                    register_address(reg),
                    mask,
                    start_idx,
                    new_val,
                    acc,
                    r,
                ),
    {
        let ghost a0 = self.accesses();
        let a = reg.addr();
        match self.read1(a) {
            Err(e) => {
                let ghost acc = seq![self.accesses().last()];
                assert(self.accesses() =~= a0 + acc);
                assert(field_accesses(a, mask, start_idx, new_val, acc, Err(e)));
                Err(e)
            },
            Ok(v) => {
                let ghost ra = self.accesses().last();
                let r = self.write(a, (v & mask) | (new_val << start_idx));
                let ghost acc = seq![ra, self.accesses().last()];
                assert(self.accesses() =~= a0 + acc);
                assert(field_accesses(a, mask, start_idx, new_val, acc, r));
                r
            },
        }
    }

    /// Powers the device up: sets the digital and the analog power-up bits,
    /// then reads the ready bit up to `POWER_UP_ATTEMPTS` times, stopping as
    /// soon as it shows. A read that fails counts as an attempt that did not
    /// show it. Fails with `NACK` where no attempt showed it.
    pub fn power_up(&mut self) -> (r: Result<(), I2CError>)
        requires
            old(self).wf(),
        ensures
            final(self).wf(),
            exists|a1: Seq<Access>, r1: Result<(), I2CError>, a2: Seq<Access>, r2: Result<(), I2CError>, polls: Seq<Access>|
                final(self).accesses() == old(self).accesses() + a1 + a2 + polls
                && #[trigger] power_up_steps(a1, r1, a2, r2, polls, r),
    {
        let ghost a0 = self.accesses();
        let r1 = self.set_bit(Register::PuCtrl, PuCtrlBits::PUD);
        let ghost a1 = self.accesses().subrange(a0.len() as int, self.accesses().len() as int);
        assert(a0 + a1 =~= self.accesses());
        assert(set_bit_accesses(0x00, 1, a1, r1));
        if let Err(e) = r1 {
            assert(self.accesses() =~= a0 + a1 + Seq::<Access>::empty() + Seq::<Access>::empty());
            assert(power_up_steps(a1, r1, Seq::empty(), r1, Seq::empty(), Err(e)));
            return Err(e);
        }
        let ghost m = self.accesses();
        let r2 = self.set_bit(Register::PuCtrl, PuCtrlBits::PUA);
        let ghost a2 = self.accesses().subrange(m.len() as int, self.accesses().len() as int);
        assert(m + a2 =~= self.accesses());
        assert(set_bit_accesses(0x00, 2, a2, r2));
        if let Err(e) = r2 {
            assert(self.accesses() =~= a0 + a1 + a2 + Seq::<Access>::empty());
            assert(power_up_steps(a1, r1, a2, r2, Seq::empty(), Err(e)));
            return Err(e);
        }
        let ghost p0 = self.accesses();
        let mut ready = false;
        let mut i: usize = 0;
        while i < POWER_UP_ATTEMPTS && !ready
            invariant
                self.wf(),
                i <= POWER_UP_ATTEMPTS,
                p0 == a0 + a1 + a2,
                self.accesses().len() == p0.len() + i,
                self.accesses().subrange(0, p0.len() as int) == p0,
                forall|j: int| p0.len() <= j < self.accesses().len() ==> #[trigger] is_read1(self.accesses()[j], 0x00),
                forall|j: int| p0.len() <= j < self.accesses().len() - 1 ==> !#[trigger] shows_ready(self.accesses()[j]),
                ready <==> (i > 0 && shows_ready(self.accesses().last())),
            decreases POWER_UP_ATTEMPTS - i,
        {
            let ghost before = self.accesses();
            let b = self.get_bit(Register::PuCtrl, PuCtrlBits::PUR);
            assert(self.accesses() == before.push(self.accesses().last()));
            if let Ok(true) = b {
                ready = true;
            }
            i = i + 1;
            assert(self.accesses().subrange(0, p0.len() as int) =~= p0);
            assert forall|j: int| p0.len() <= j < self.accesses().len() implies #[trigger] is_read1(self.accesses()[j], 0x00) by {
                if j < self.accesses().len() - 1 {
                    assert(self.accesses()[j] == before[j]);
                }
            }
            assert forall|j: int| p0.len() <= j < self.accesses().len() - 1 implies !#[trigger] shows_ready(self.accesses()[j]) by {
                assert(self.accesses()[j] == before[j]);
                if j == before.len() - 1 {
                    assert(i - 1 > 0);
                }
            }
        }
        let ghost polls = self.accesses().subrange(p0.len() as int, self.accesses().len() as int);
        assert(self.accesses() =~= a0 + a1 + a2 + polls);
        assert forall|j: int| 0 <= j < polls.len() implies #[trigger] is_read1(polls[j], 0x00) by {
            assert(polls[j] == self.accesses()[p0.len() + j]);
        }
        assert forall|j: int| 0 <= j < polls.len() - 1 implies !#[trigger] shows_ready(polls[j]) by {
            assert(polls[j] == self.accesses()[p0.len() + j]);
        }
        assert(ready_polls(polls));
        let r = if ready {
            Ok(())
        } else {
            Err(I2CError::NACK)
        };
        assert(power_up_steps(a1, r1, a2, r2, polls, r));
        r
    }

    /// Sets the LDO voltage in `CTRL1`, then, if that went through, selects
    /// the internal LDO in `PU_CTRL`. The two steps are not atomic: a failure
    /// of the second leaves the voltage set.
    pub fn set_ldo(&mut self, ldo: Ldo) -> (r: Result<(), I2CError>)
        requires
            old(self).wf(),
        ensures
            final(self).wf(),
            exists|a1: Seq<Access>, r1: Result<(), I2CError>, a2: Seq<Access>|
                final(self).accesses() == old(self).accesses() + a1 + a2
                && #[trigger] set_ldo_steps(ldo, a1, r1, a2, r),
    {
        let ghost a0 = self.accesses();
        let r1 = self.set_function_helper(Register::Ctrl1, LDO_MASK, LDO_START_BIT, ldo.bits());
        let ghost a1 = self.accesses().subrange(a0.len() as int, self.accesses().len() as int);
        assert(a0 + a1 =~= self.accesses());
        assert(field_accesses(0x01, LDO_MASK, LDO_START_BIT, ldo_bits(ldo), a1, r1));
        if let Err(e) = r1 {
            assert(self.accesses() =~= a0 + a1 + Seq::<Access>::empty());
            assert(set_ldo_steps(ldo, a1, r1, Seq::empty(), Err(e)));
            return Err(e);
        }
        let ghost m = self.accesses();
        let r = self.set_bit(Register::PuCtrl, PuCtrlBits::AVDDS);
        let ghost a2 = self.accesses().subrange(m.len() as int, self.accesses().len() as int);
        assert(a0 + a1 + a2 =~= self.accesses());
        assert(set_bit_accesses(0x00, 7, a2, r));
        assert(set_ldo_steps(ldo, a1, r1, a2, r));
        r
    }

    /// Sets the amplifier gain: the low three bits of `CTRL1`.
    pub fn set_gain(&mut self, gain: Gain) -> (r: Result<(), I2CError>)
        requires
            old(self).wf(),
        ensures
            final(self).wf(),
            exists|acc: Seq<Access>|
                final(self).accesses() == old(self).accesses() + acc && #[trigger] field_accesses(
                    0x01,
                    GAIN_MASK,
                    GAIN_START_BIT,
                    gain_bits(gain),
                    acc,
                    r,
                ),
    {
        self.set_function_helper(Register::Ctrl1, GAIN_MASK, GAIN_START_BIT, gain.bits())
    }

    /// Sets the conversion rate: bits 4 to 6 of `CTRL2`.
    pub fn set_sample_rate(&mut self, sps: SamplesPerSecond) -> (r: Result<(), I2CError>)
        requires
            old(self).wf(),
        ensures
            final(self).wf(),
            exists|acc: Seq<Access>|
                final(self).accesses() == old(self).accesses() + acc && #[trigger] field_accesses(
                    0x02,
                    SPS_MASK,
                    SPS_START_BIT,
                    sps_bits(sps),
                    acc,
                    r,
                ),
    {
        self.set_function_helper(Register::Ctrl2, SPS_MASK, SPS_START_BIT, sps.bits())
    }

    /// Starts the analog front-end calibration: sets the start bit of `CTRL2`.
    pub fn begin_afe_calibration(&mut self) -> (r: Result<(), I2CError>)
        requires
            old(self).wf(),
        ensures
            final(self).wf(),
            exists|acc: Seq<Access>|
                final(self).accesses() == old(self).accesses() + acc
                    && #[trigger] set_bit_accesses(0x02, 2, acc, r),
    {
        self.set_bit(Register::Ctrl2, Ctrl2RegisterBits::Cals)
    }

    /// Polls the calibration once: in progress while the start bit of
    /// `CTRL2` stays set, then failure or success by its error bit. It does
    /// not wait; the caller polls again as it sees fit.
    pub fn poll_afe_calibration_status(&mut self) -> (r: Result<AfeCalibrationStatus, I2CError>)
        requires
            old(self).wf(),
        ensures
            final(self).wf(),
            exists|acc: Seq<Access>|
                final(self).accesses() == old(self).accesses() + acc
                    && #[trigger] calibration_accesses(acc, r),
    {
        let ghost a0 = self.accesses();
        let running = self.get_bit(Register::Ctrl2, Ctrl2RegisterBits::Cals);
        let ghost first = self.accesses().last();
        assert(self.accesses() =~= a0 + seq![first]);
        match running {
            Err(e) => {
                assert(calibration_accesses(seq![first], Err(e)));
                return Err(e);
            },
            Ok(true) => {
                assert(calibration_accesses(seq![first], Ok(AfeCalibrationStatus::InProgress)));
                return Ok(AfeCalibrationStatus::InProgress);
            },
            Ok(false) => {},
        }
        let failed = self.get_bit(Register::Ctrl2, Ctrl2RegisterBits::CalError);
        let ghost second = self.accesses().last();
        assert(self.accesses() =~= a0 + seq![first, second]);
        let r = match failed {
            Err(e) => Err(e),
            Ok(true) => Ok(AfeCalibrationStatus::Failure),
            Ok(false) => Ok(AfeCalibrationStatus::Success),
        };
        assert(calibration_accesses(seq![first, second], r));
        r
    }

    /// True where a new conversion result is ready: the conversion-ready bit
    /// of `PU_CTRL`.
    pub fn data_available(&mut self) -> (r: Result<bool, I2CError>)
        requires
            old(self).wf(),
        ensures
            final(self).wf(),
            final(self).accesses().len() == old(self).accesses().len() + 1,
            final(self).accesses().drop_last() == old(self).accesses(),
            is_read1(final(self).accesses().last(), 0x00),
            r == bit_result(final(self).accesses().last(), 5),
    {
        self.get_bit(Register::PuCtrl, PuCtrlBits::CR)
    }

    /// Reads the 24-bit conversion result, most significant byte first, in
    /// one read of the three output registers. Whether a result is ready is
    /// not checked.
    pub fn read_unchecked_m(&mut self) -> (r: Result<[u8; 3], I2CError>)
        requires
            old(self).wf(),
        ensures
            final(self).wf(),
            final(self).accesses() == old(self).accesses().push(
                Access::Read {
                    reg: 0x12,
                    result: match r {
                        Ok(b) => Ok(b@),
                        Err(e) => Err(e),
                    },
                },
            ),
            r is Ok ==> r->Ok_0@.len() == 3,
    {
        self.read::<3>(Register::AdcoB2.addr())
    }

    /// Reads the 24-bit conversion result, most significant byte first, one
    /// output register at a time; the first failure ends it. Whether a result
    /// is ready is not checked.
    pub fn read_unchecked_s(&mut self) -> (r: Result<[u8; 3], I2CError>)
        requires
            old(self).wf(),
        ensures
            final(self).wf(),
            exists|acc: Seq<Access>|
                final(self).accesses() == old(self).accesses() + acc && #[trigger] sample_accesses(
                    acc,
                    r,
                ),
    {
        let ghost a0 = self.accesses();
        let hi = self.read1(0x12);
        let ghost x0 = self.accesses().last();
        assert(self.accesses() =~= a0 + seq![x0]);
        let b0 = match hi {
            Err(e) => {
                assert(sample_accesses(seq![x0], Err(e)));
                return Err(e);
            },
            Ok(v) => v,
        };
        let mid = self.read1(0x13);
        let ghost x1 = self.accesses().last();
        assert(self.accesses() =~= a0 + seq![x0, x1]);
        let b1 = match mid {
            Err(e) => {
                assert(sample_accesses(seq![x0, x1], Err(e)));
                return Err(e);
            },
            Ok(v) => v,
        };
        let lo = self.read1(0x14);
        let ghost x2 = self.accesses().last();
        assert(self.accesses() =~= a0 + seq![x0, x1, x2]);
        let b2 = match lo {
            Err(e) => {
                assert(sample_accesses(seq![x0, x1, x2], Err(e)));
                return Err(e);
            },
            Ok(v) => v,
        };
        let r = [b0, b1, b2];
        assert(r@ =~= seq![b0, b1, b2]);
        assert(sample_accesses(seq![x0, x1, x2], Ok(r)));
        Ok(r)
    }

    /// Brings the device up: holds the register reset for `RESET_HOLD`
    /// pauses and releases it, powers up, sets 80 samples per second, gain
    /// 128 and the LDO at 3.6 V, turns the clock chopper off, switches on the
    /// channel-2 decoupling capacitor and starts the calibration. The first
    /// failing step ends it with its error; the caller then polls the
    /// calibration until it is done.
    pub fn setup<D: Pause>(&mut self, pause: &mut D) -> (r: Result<(), I2CError>)
        requires
            old(self).wf(),
        ensures
            final(self).wf(),
            exists|segs: Seq<Seq<Access>>, rs: Seq<Result<(), I2CError>>|
                final(self).accesses() == old(self).accesses() + concat(segs) && #[trigger] setup_run(
                    segs,
                    rs,
                    r,
                ),
    {
        let ghost a0 = self.accesses();
        let ghost mut segs: Seq<Seq<Access>> = seq![];
        let ghost mut rs: Seq<Result<(), I2CError>> = seq![];
        assert(concat(segs) =~= Seq::<Access>::empty());
        assert(self.accesses() =~= a0 + concat(segs));
        let ghost prev = self.accesses();
        let r = self.set_bit(Register::PuCtrl, PuCtrlBits::RR);
        let ghost seg = choose|acc: Seq<Access>| self.accesses() == prev + acc && set_bit_accesses(0x00, 0, acc, r);
        proof {
            lemma_setup_push(segs, rs, seg, r);
            segs = segs.push(seg);
            rs = rs.push(r);
        }
        assert(self.accesses() =~= a0 + concat(segs));
        if r.is_err() {
            assert(setup_run(segs, rs, r));
            return r;
        }
        pause.pause(RESET_HOLD);
        let ghost prev = self.accesses();
        let r = self.clear_bit(Register::PuCtrl, PuCtrlBits::RR);
        let ghost seg = choose|acc: Seq<Access>| self.accesses() == prev + acc && clear_bit_accesses(0x00, 0, acc, r);
        proof {
            lemma_setup_push(segs, rs, seg, r);
            segs = segs.push(seg);
            rs = rs.push(r);
        }
        assert(self.accesses() =~= a0 + concat(segs));
        if r.is_err() {
            assert(setup_run(segs, rs, r));
            return r;
        }
        let ghost prev = self.accesses();
        let r = self.power_up();
        let ghost (a1, r1, a2, r2, polls) = choose|
            a1: Seq<Access>,
            r1: Result<(), I2CError>,
            a2: Seq<Access>,
            r2: Result<(), I2CError>,
            polls: Seq<Access>,
        | self.accesses() == prev + a1 + a2 + polls && power_up_steps(a1, r1, a2, r2, polls, r);
        let ghost seg = a1 + a2 + polls;
        assert(self.accesses() =~= prev + seg);
        assert(power_up_accesses(seg, r));
        proof {
            lemma_setup_push(segs, rs, seg, r);
            segs = segs.push(seg);
            rs = rs.push(r);
        }
        assert(self.accesses() =~= a0 + concat(segs));
        if r.is_err() {
            assert(setup_run(segs, rs, r));
            return r;
        }
        let ghost prev = self.accesses();
        let r = self.set_sample_rate(SamplesPerSecond::SPS80);
        let ghost seg = choose|acc: Seq<Access>| self.accesses() == prev + acc && field_accesses(0x02, SPS_MASK, SPS_START_BIT, sps_bits(SamplesPerSecond::SPS80), acc, r);
        proof {
            lemma_setup_push(segs, rs, seg, r);
            segs = segs.push(seg);
            rs = rs.push(r);
        }
        assert(self.accesses() =~= a0 + concat(segs));
        if r.is_err() {
            assert(setup_run(segs, rs, r));
            return r;
        }
        let ghost prev = self.accesses();
        let r = self.set_gain(Gain::G128);
        let ghost seg = choose|acc: Seq<Access>| self.accesses() == prev + acc && field_accesses(0x01, GAIN_MASK, GAIN_START_BIT, gain_bits(Gain::G128), acc, r);
        proof {
            lemma_setup_push(segs, rs, seg, r);
            segs = segs.push(seg);
            rs = rs.push(r);
        }
        assert(self.accesses() =~= a0 + concat(segs));
        if r.is_err() {
            assert(setup_run(segs, rs, r));
            return r;
        }
        let ghost prev = self.accesses();
        let r = self.set_ldo(Ldo::L3v6);
        let ghost (a1, r1, a2) = choose|a1: Seq<Access>, r1: Result<(), I2CError>, a2: Seq<Access>|
            self.accesses() == prev + a1 + a2 && set_ldo_steps(Ldo::L3v6, a1, r1, a2, r);
        let ghost seg = a1 + a2;
        assert(self.accesses() =~= prev + seg);
        assert(ldo_accesses(Ldo::L3v6, seg, r));
        proof {
            lemma_setup_push(segs, rs, seg, r);
            segs = segs.push(seg);
            rs = rs.push(r);
        }
        assert(self.accesses() =~= a0 + concat(segs));
        if r.is_err() {
            assert(setup_run(segs, rs, r));
            return r;
        }
        let ghost prev = self.accesses();
        let r = self.write(Register::Adc.addr(), ADC_CHOPPER_OFF);
        let ghost seg = seq![Access::Write { reg: 0x15, value: ADC_CHOPPER_OFF, outcome: r }];
        assert(self.accesses() =~= prev + seg);
        proof {
            lemma_setup_push(segs, rs, seg, r);
            segs = segs.push(seg);
            rs = rs.push(r);
        }
        assert(self.accesses() =~= a0 + concat(segs));
        if r.is_err() {
            assert(setup_run(segs, rs, r));
            return r;
        }
        let ghost prev = self.accesses();
        let r = self.set_bit(Register::PgaPwr, PgaPwrRegisterBits::CapEn);
        let ghost seg = choose|acc: Seq<Access>| self.accesses() == prev + acc && set_bit_accesses(0x1c, 7, acc, r);
        proof {
            lemma_setup_push(segs, rs, seg, r);
            segs = segs.push(seg);
            rs = rs.push(r);
        }
        assert(self.accesses() =~= a0 + concat(segs));
        if r.is_err() {
            assert(setup_run(segs, rs, r));
            return r;
        }
        let ghost prev = self.accesses();
        let r = self.begin_afe_calibration();
        let ghost seg = choose|acc: Seq<Access>| self.accesses() == prev + acc && set_bit_accesses(0x02, 2, acc, r);
        proof {
            lemma_setup_push(segs, rs, seg, r);
            segs = segs.push(seg);
            rs = rs.push(r);
        }
        assert(self.accesses() =~= a0 + concat(segs));
        assert(setup_run(segs, rs, r));
        r
    }
}

} // verus!
