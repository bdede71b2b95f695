use atmega4809_hal::i2c::{BusState, BusStatus, I2CError, CK, I2C};
use atmega4809_hal::nau7802::{
    AfeCalibrationStatus, Gain, Ldo, Nau7802, Pause, PgaPwrRegisterBits, PuCtrlBits, Register, SamplesPerSecond,
};
use atmega4809_hal::port::TwiPort;

const MCTRLA: u8 = 0x03;
const MCTRLB: u8 = 0x04;
const MSTATUS: u8 = 0x05;
const MADDR: u8 = 0x07;
const MDATA: u8 = 0x08;

const RIF: u8 = 0x80;
const WIF: u8 = 0x40;
const CLKHOLD: u8 = 0x20;
const RXACK: u8 = 0x10;
const ARBLOST: u8 = 0x08;
const OWNER: u8 = 0x02;

#[derive(Clone, Copy, PartialEq, Debug)]
enum Mode {
    Idle,
    Writing,
    Reading,
}

/// A two-wire interface with one register-file device behind it, at
/// `device`. A write sets the register pointer with its first byte and
/// stores the rest from there; a read gives the registers from the pointer.
struct SimBus {
    device: u8,
    regs: [u8; 32],
    ptr: usize,
    mode: Mode,
    first: bool,
    status: u8,
    mctrla: u8,
    bytes_written: usize,
    nack_at: Option<usize>,
    arblost_on_read: bool,
    reads_of_reg0: usize,
    ready_from_read: Option<usize>,
    ctrl2_script: Vec<u8>,
    log: Vec<(char, u8, u8)>,
}

impl SimBus {
    fn new(device: u8) -> Self {
        SimBus {
            device,
            regs: [0; 32],
            ptr: 0,
            mode: Mode::Idle,
            first: false,
            status: 0x01,
            mctrla: 0,
            bytes_written: 0,
            nack_at: None,
            arblost_on_read: false,
            reads_of_reg0: 0,
            ready_from_read: None,
            ctrl2_script: Vec::new(),
            log: Vec::new(),
        }
    }

    fn current(&mut self) -> u8 {
        let p = self.ptr % 32;
        if p == 0 {
            self.reads_of_reg0 += 1;
            let mut v = self.regs[0];
            if let Some(n) = self.ready_from_read {
                if self.reads_of_reg0 >= n {
                    v |= 0x08;
                } else {
                    v &= !0x08;
                }
            }
            v
        } else if p == 2 && !self.ctrl2_script.is_empty() {
            self.ctrl2_script.remove(0)
        } else {
            self.regs[p]
        }
    }

    fn count(&self, kind: char, offset: u8) -> usize {
        self.log.iter().filter(|e| e.0 == kind && e.1 == offset).count()
    }
}

impl TwiPort for SimBus {
    fn read_reg(&mut self, offset: u8) -> u8 {
        let v = match offset {
            MCTRLA => self.mctrla,
            MSTATUS => self.status,
            MDATA => self.current(),
            _ => 0,
        };
        self.log.push(('r', offset, v));
        v
    }

    fn write_reg(&mut self, offset: u8, value: u8) {
        self.log.push(('w', offset, value));
        match offset {
            MCTRLA => self.mctrla = value,
            MADDR => {
                if value >> 1 != self.device {
                    self.status = WIF | RXACK | OWNER;
                } else if value & 1 == 0 {
                    self.mode = Mode::Writing;
                    self.first = true;
                    self.bytes_written = 0;
                    self.status = WIF | CLKHOLD | OWNER;
                } else {
                    self.mode = Mode::Reading;
                    self.status = if self.arblost_on_read { ARBLOST | OWNER } else { RIF | CLKHOLD | OWNER };
                }
            }
            MDATA => {
                if self.mode == Mode::Writing {
                    if Some(self.bytes_written) == self.nack_at {
                        self.status = WIF | RXACK | OWNER;
                    } else {
                        if self.first {
                            self.ptr = value as usize;
                            self.first = false;
                        } else {
                            self.regs[self.ptr % 32] = value;
                            self.ptr += 1;
                        }
                        self.status = WIF | CLKHOLD | OWNER;
                    }
                    self.bytes_written += 1;
                }
            }
            MCTRLB => {
                if value == 0x03 {
                    self.mode = Mode::Idle;
                    self.status = (self.status & (WIF | RXACK | ARBLOST)) | 0x01;
                } else if value == 0x02 && self.mode == Mode::Reading {
                    self.ptr += 1;
                }
            }
            _ => {}
        }
    }

    fn wait_status(&mut self, mask: u8, value: u8) -> u8 {
        let s = if mask == 0x07 { 0x01 } else { self.status };
        let _ = value;
        self.log.push(('s', mask, s));
        s
    }
}

fn bus() -> I2C<SimBus> {
    I2C::new(SimBus::new(0x2a))
}

fn nau() -> Nau7802<SimBus> {
    Nau7802::new(bus())
}

#[test]
fn bus_state_decodes_every_status_byte() {
    for v in 0..=255u8 {
        let r = BusStatus(v).get_bus_state();
        if v & 0x04 != 0 {
            assert_eq!(r, Err(()));
        } else {
            let want = match v & 0x03 {
                0 => BusState::Unknown,
                1 => BusState::Idle,
                2 => BusState::Owner,
                _ => BusState::Busy,
            };
            assert_eq!(r, Ok(want));
        }
    }
}

#[test]
fn status_flags_decode_their_bits() {
    let s = BusStatus(RIF | CLKHOLD);
    assert!(s.rif());
    assert!(!s.wif());
    assert!(s.clkhld());
    assert_eq!(s.rxack(), CK::ACK);
    assert!(!s.arblost());
    let t = BusStatus(WIF | RXACK | ARBLOST);
    assert!(t.wif());
    assert_eq!(t.rxack(), CK::NACK);
    assert!(t.arblost());
    assert!(!t.rif());
}

#[test]
fn write_nack_mid_data_is_partial_transmit() {
    let mut b = bus();
    b.port_mut().nack_at = Some(2);
    let r = b.write(0x2a, &[0x05, 0x10, 0x20, 0x30]);
    assert_eq!(r, Err(I2CError::PartialTransmit(2)));
    assert_eq!(b.port().mctrla, 0);
    assert_eq!(b.port().log.last(), Some(&('w', MCTRLA, 0)));
    assert_eq!(b.port().count('w', MDATA), 3);
    assert_eq!(b.port().count('w', MCTRLB), 0);
    // the controller can be used again at once
    b.port_mut().nack_at = None;
    assert_eq!(b.write(0x2a, &[0x05, 0x10]), Ok(()));
    assert_eq!(b.port().regs[5], 0x10);
}

#[test]
fn write_nack_on_first_data_byte_is_partial_transmit_zero() {
    let mut b = bus();
    b.port_mut().nack_at = Some(0);
    assert_eq!(b.write(0x2a, &[0x01, 0x02]), Err(I2CError::PartialTransmit(0)));
    assert_eq!(b.port().mctrla, 0);
}

#[test]
fn write_restores_enabled_master() {
    let mut b = bus();
    b.port_mut().mctrla = 0x05;
    assert_eq!(b.write(0x2a, &[0x01, 0x02]), Ok(()));
    assert_eq!(b.port().mctrla, 0x05);
    assert!(b.port().log.contains(&('w', MCTRLA, 0x05)));
}

#[test]
fn write_to_absent_device_is_nack() {
    let mut b = bus();
    assert_eq!(b.write(0x10, &[0x01]), Err(I2CError::NACK));
    assert_eq!(b.port().count('w', MDATA), 0);
    assert_eq!(b.port().mctrla, 0);
}

#[test]
fn write_empty_is_address_phase_only() {
    let mut b = bus();
    assert_eq!(b.write(0x2a, &[]), Ok(()));
    let log = &b.port().log;
    assert_eq!(
        log,
        &vec![
            ('r', MCTRLA, 0),
            ('w', MCTRLA, 1),
            ('s', 0x07, 0x01),
            ('w', MADDR, 0x54),
            ('s', WIF, WIF | CLKHOLD | OWNER),
            ('w', MCTRLA, 0),
        ]
    );
}

#[test]
fn write_last_byte_is_followed_by_stop() {
    let mut b = bus();
    assert_eq!(b.write(0x2a, &[0x03, 0x7e]), Ok(()));
    let log = &b.port().log;
    let n = log.len();
    assert_eq!(log[n - 4], ('w', MDATA, 0x7e));
    assert_eq!(log[n - 3], ('w', MCTRLB, 0x03));
    assert_eq!(b.port().regs[3], 0x7e);
}

#[test]
fn read_empty_buffer_sends_address_and_stop() {
    let mut b = bus();
    b.set_settle_reads(4);
    let mut buf: [u8; 0] = [];
    assert_eq!(b.read_to_buf(0x2a, &mut buf), Ok(()));
    let log = &b.port().log;
    assert_eq!(log[3], ('w', MADDR, 0x55));
    assert_eq!(log[4], ('w', MCTRLB, 0x03));
    assert_eq!(b.port().count('r', MDATA), 0);
    assert_eq!(b.port().count('r', 0x00), 4);
    assert_eq!(log.last(), Some(&('w', MCTRLA, 0)));
}

#[test]
fn read_settles_with_default_count() {
    let mut b = bus();
    let mut buf = [0u8; 2];
    assert_eq!(b.read_to_buf(0x2a, &mut buf), Ok(()));
    assert_eq!(b.port().count('r', 0x00), 100);
}

#[test]
fn read_lost_arbitration_fails_and_restores() {
    let mut b = bus();
    b.port_mut().arblost_on_read = true;
    b.port_mut().regs[0] = 0x44;
    let mut buf = [0xeeu8; 2];
    assert_eq!(b.read_to_buf(0x2a, &mut buf), Err(I2CError::ArbLost));
    assert_eq!(buf, [0xee, 0xee]);
    assert_eq!(b.port().count('w', MCTRLB), 0);
    assert_eq!(b.port().mctrla, 0);
}

#[test]
fn read_gives_consecutive_registers() {
    let mut b = bus();
    assert_eq!(b.write(0x2a, &[0x12, 0xab, 0xcd, 0xef]), Ok(()));
    assert_eq!(b.write(0x2a, &[0x12]), Ok(()));
    assert_eq!(b.read::<3>(0x2a), Ok([0xab, 0xcd, 0xef]));
}

#[test]
fn write_then_read_round_trips_every_register_and_value() {
    let mut n = nau();
    for a in 0..32u8 {
        for v in 0..=255u8 {
            assert_eq!(n.write(a, v), Ok(()));
            assert_eq!(n.read1(a), Ok(v));
        }
    }
}

#[test]
fn enable_bit_written_then_read_back() {
    let mut b = bus();
    assert_eq!(b.write(0x2a, &[0x00, 0x01]), Ok(()));
    assert_eq!(b.write(0x2a, &[0x00]), Ok(()));
    assert_eq!(b.read::<1>(0x2a), Ok([0x01]));
}

#[test]
fn setup_writes_start_of_day_registers() {
    let mut b = bus();
    b.setup();
    assert_eq!(
        b.port().log,
        vec![('w', 0x00, 0x0c), ('w', MCTRLA, 0x04), ('w', 0x06, 0x0b), ('w', MCTRLA, 0x04), ('w', MSTATUS, 0x01)]
    );
}

#[test]
fn respond_and_commands_write_mctrlb() {
    let mut b = bus();
    b.respond(CK::NACK);
    b.respond(CK::ACK);
    b.rep_start();
    b.recv_trans();
    b.stop();
    assert_eq!(
        b.port().log,
        vec![('w', MCTRLB, 0x04), ('w', MCTRLB, 0x00), ('w', MCTRLB, 0x01), ('w', MCTRLB, 0x02), ('w', MCTRLB, 0x03)]
    );
}

#[test]
fn power_up_succeeds_on_the_attempt_that_shows_ready() {
    for attempt in [1usize, 2, 37, 100] {
        let mut n = nau();
        // two reads of PU_CTRL set the power-up bits before the polls begin
        n.port_mut().ready_from_read = Some(2 + attempt);
        assert_eq!(n.power_up(), Ok(()));
        assert_eq!(n.bus().port().reads_of_reg0, 2 + attempt);
        assert_eq!(n.bus().port().regs[0] & 0x06, 0x06);
    }
}

#[test]
fn power_up_fails_after_the_attempt_budget() {
    let mut n = nau();
    n.port_mut().ready_from_read = Some(usize::MAX);
    assert_eq!(n.power_up(), Err(I2CError::NACK));
    assert_eq!(n.bus().port().reads_of_reg0, 2 + 100);
}

#[test]
fn calibration_poll_follows_the_two_bits() {
    let mut n = nau();
    n.port_mut().ctrl2_script = vec![0x04];
    assert_eq!(n.poll_afe_calibration_status(), Ok(AfeCalibrationStatus::InProgress));
    n.port_mut().ctrl2_script = vec![0x08, 0x08];
    assert_eq!(n.poll_afe_calibration_status(), Ok(AfeCalibrationStatus::Failure));
    n.port_mut().ctrl2_script = vec![0x00, 0x00];
    assert_eq!(n.poll_afe_calibration_status(), Ok(AfeCalibrationStatus::Success));
}

#[test]
fn begin_calibration_sets_start_bit() {
    let mut n = nau();
    n.port_mut().regs[2] = 0x30;
    assert_eq!(n.begin_afe_calibration(), Ok(()));
    assert_eq!(n.bus().port().regs[2], 0x34);
    assert_eq!(n.poll_afe_calibration_status(), Ok(AfeCalibrationStatus::InProgress));
}

#[test]
fn settings_fill_their_fields() {
    let mut n = nau();
    n.port_mut().regs[1] = 0xff;
    assert_eq!(n.set_gain(Gain::G4), Ok(()));
    assert_eq!(n.bus().port().regs[1], 0xfa);
    assert_eq!(n.set_ldo(Ldo::L3v3), Ok(()));
    assert_eq!(n.bus().port().regs[1], 0xe2);
    assert_eq!(n.bus().port().regs[0], 0x80);
    assert_eq!(n.set_sample_rate(SamplesPerSecond::SPS80), Ok(()));
    assert_eq!(n.bus().port().regs[2], 0x30);
}

#[test]
fn bit_helpers_read_modify_write() {
    let mut n = nau();
    n.port_mut().regs[0x1c] = 0x01;
    assert_eq!(n.set_bit(Register::PgaPwr, PgaPwrRegisterBits::CapEn), Ok(()));
    assert_eq!(n.bus().port().regs[0x1c], 0x81);
    assert_eq!(n.clear_bit(Register::PgaPwr, PgaPwrRegisterBits::Curr), Ok(()));
    assert_eq!(n.bus().port().regs[0x1c], 0x80);
    assert_eq!(n.get_bit(Register::PgaPwr, PgaPwrRegisterBits::CapEn), Ok(true));
    assert_eq!(n.get_bit(Register::PuCtrl, PuCtrlBits::CR), Ok(false));
}

#[test]
fn data_available_reads_conversion_ready() {
    let mut n = nau();
    assert_eq!(n.data_available(), Ok(false));
    n.port_mut().regs[0] = 0x20;
    assert_eq!(n.data_available(), Ok(true));
}

#[test]
fn sample_reads_three_output_registers() {
    let mut n = nau();
    n.port_mut().regs[0x12] = 0x80;
    n.port_mut().regs[0x13] = 0x01;
    n.port_mut().regs[0x14] = 0xfe;
    assert_eq!(n.read_unchecked_s(), Ok([0x80, 0x01, 0xfe]));
    assert_eq!(n.read_unchecked_m(), Ok([0x80, 0x01, 0xfe]));
}

#[test]
fn driver_reports_absent_device() {
    let mut n = Nau7802::new(I2C::new(SimBus::new(0x40)));
    assert_eq!(n.read1(0), Err(I2CError::NACK));
    assert_eq!(n.power_up(), Err(I2CError::NACK));
    assert_eq!(n.poll_afe_calibration_status(), Err(I2CError::NACK));
}

struct CountingPause(Vec<u16>);

impl Pause for CountingPause {
    fn pause(&mut self, cycles: u16) {
        self.0.push(cycles);
    }
}

#[test]
fn setup_brings_the_device_up() {
    let mut n = nau();
    n.port_mut().ready_from_read = Some(1);
    let mut p = CountingPause(Vec::new());
    assert_eq!(n.setup(&mut p), Ok(()));
    assert_eq!(p.0, vec![100]);
    let regs = n.bus().port().regs;
    assert_eq!(regs[0x00], 0x8e);
    assert_eq!(regs[0x01], 0x1f);
    assert_eq!(regs[0x02], 0x34);
    assert_eq!(regs[0x15], 0x30);
    assert_eq!(regs[0x1c], 0x80);
    assert_eq!(n.poll_afe_calibration_status(), Ok(AfeCalibrationStatus::InProgress));
}

#[test]
fn setup_stops_at_the_first_failure() {
    let mut n = Nau7802::new(I2C::new(SimBus::new(0x40)));
    let mut p = CountingPause(Vec::new());
    assert_eq!(n.setup(&mut p), Err(I2CError::NACK));
    assert!(p.0.is_empty());
    assert_eq!(n.bus().port().count('w', MADDR), 1);
}

#[test]
fn setup_fails_when_never_ready() {
    let mut n = nau();
    n.port_mut().ready_from_read = Some(usize::MAX);
    let mut p = CountingPause(Vec::new());
    assert_eq!(n.setup(&mut p), Err(I2CError::NACK));
    assert_eq!(n.bus().port().regs[0x01], 0x00);
}
