use atmega4809_hal::clock::{ClockPrescaler, ClockSelect, Sleep};
use atmega4809_hal::gpio::{pin_ctrl_invert_value, pin_ctrl_isc_value, pin_ctrl_pullup_value, GPIO, ISC};
use atmega4809_hal::nau7802::{sample_value, Gain, Ldo, Register, SamplesPerSecond};
use atmega4809_hal::pwm::{WaveformGenerationMode, PWMPort, PWM};
use atmega4809_hal::spi::{self, Exchange, Polarity, ReceiveAction, SPI};
use atmega4809_hal::usart::{
    self, frame_format, CharacterSize, CommunicationMode, ParityMode, StopBitMode, Transaction, IDLE_POLL_LIMIT,
    USART, USART1, USART3,
};
use atmega4809_hal::Delay;

#[test]
fn clock_select_round_trips() {
    for v in 0..=3u8 {
        let c = ClockSelect::from_bits(v).unwrap();
        assert_eq!(c.bits(), v);
    }
    assert_eq!(ClockSelect::from_bits(4), None);
}

#[test]
fn prescaler_control_values() {
    assert_eq!(ClockPrescaler::D6.ctrl_value(), 0x11);
    assert_eq!(ClockPrescaler::D2.ctrl_value(), 0x01);
    assert_eq!(ClockPrescaler::Disabled.ctrl_value(), 0xfe);
    assert_eq!(ClockPrescaler::from_ctrl(0x11), Some(ClockPrescaler::D6));
    assert_eq!(ClockPrescaler::from_ctrl(0x10), Some(ClockPrescaler::Disabled));
    assert_eq!(ClockPrescaler::from_ctrl(0x0d), None);
    assert_eq!(ClockPrescaler::from_ctrl(0x19), Some(ClockPrescaler::D48));
}

#[test]
fn sleep_control_values() {
    assert_eq!(Sleep::Idle.ctrl_value(), 1);
    assert_eq!(Sleep::Standby.ctrl_value(), 3);
    assert_eq!(Sleep::PowerOff.ctrl_value(), 5);
}

#[test]
fn delay_spin_counts() {
    assert_eq!(Delay::spin_count(ClockSelect::OSC20M), Some(202));
    assert_eq!(Delay::spin_count(ClockSelect::XOSC32K), Some(32));
    assert_eq!(Delay::spin_count(ClockSelect::EXTCLK), None);
}

#[test]
fn gpio_pin_and_registers() {
    let g = GPIO::PORTD(3);
    assert_eq!(g.pin(), 3);
    assert_eq!(g.base_addr(), 0x0460);
    assert_eq!(g.mask(), 0x08);
    assert_eq!(g.pin_ctrl_addr(), 0x0473);
    assert_eq!(ISC::Level.val(), 5);
    assert_eq!(pin_ctrl_pullup_value(0xf0, true), 0xf8);
    assert_eq!(pin_ctrl_pullup_value(0xff, false), 0xf7);
    assert_eq!(pin_ctrl_invert_value(0x01, true), 0x81);
    assert_eq!(pin_ctrl_isc_value(0xff, ISC::Rising), 0xfa);
}

#[test]
fn spi_control_and_flags() {
    assert_eq!(SPI::ctrl_b(false, Polarity::P0), 0x84);
    assert_eq!(SPI::ctrl_b(true, Polarity::P3), 0xc7);
    assert_eq!(SPI::ctrl_a(false), 0x67);
    assert_eq!(SPI::ctrl_a(true), 0x61);
    let s = spi::BusStatus(0x61);
    assert!(s.txcif() && s.dreif() && s.bufovf());
    assert!(!s.rxcif() && !s.ssif());
}

#[test]
fn usart_frame_route_and_flags() {
    assert_eq!(
        frame_format(CommunicationMode::Asynchronous, ParityMode::Disabled, StopBitMode::One, CharacterSize::B8),
        0x03
    );
    assert_eq!(
        frame_format(CommunicationMode::MSPI, ParityMode::Odd, StopBitMode::Two, CharacterSize::B9H),
        0xff
    );
    assert_eq!(USART::<USART3, true>::get_out_pin(), Some(GPIO::PORTB(4)));
    assert_eq!(USART::<USART1, false>::get_out_pin(), Some(GPIO::PORTC(0)));
    assert_eq!(USART::<0x1234, false>::get_out_pin(), None);
    assert_eq!(USART::<USART3, true>::route_value(0x00), Some(0x40));
    assert_eq!(USART::<USART1, false>::route_value(0xff), Some(0xf3));
    let s = usart::BusStatus(0x2a);
    assert!(s.dreif() && s.isfif() && s.bdf());
    assert!(!s.rxcif() && !s.txcif() && !s.rxsif() && !s.wfb());
    assert_eq!(usart::BAUD9600, (17 << 6) | 0b0001_1000);
}

#[test]
fn pwm_values() {
    assert_eq!(PWM::ctrl_b(WaveformGenerationMode::SINGLESLOPE), 0x73);
    assert_eq!(PWMPort::PORTB.bits(), 1);
    assert_eq!(PWM::split16(0xaf00), (0x00, 0xaf));
}

#[test]
fn device_codes() {
    assert_eq!(Register::DeviceRev.addr(), 0x1f);
    assert_eq!(Register::Pga.addr(), 0x1b);
    assert_eq!(Register::AdcoB2.addr(), 0x12);
    assert_eq!(Ldo::L3v3.bits(), 0b100);
    assert_eq!(Gain::G128.bits(), 0b111);
    assert_eq!(SamplesPerSecond::SPS80.bits(), 0b011);
}

#[test]
fn sample_values_are_signed_24_bit() {
    assert_eq!(sample_value([0x00, 0x00, 0x01]), 1);
    assert_eq!(sample_value([0x7f, 0xff, 0xff]), 8_388_607);
    assert_eq!(sample_value([0x80, 0x00, 0x00]), -8_388_608);
    assert_eq!(sample_value([0xff, 0xff, 0xff]), -1);
    assert_eq!(sample_value([0x01, 0x02, 0x03]), 0x010203);
}

#[test]
fn usart_transaction_steps() {
    let mut t = Transaction::new();
    let empty_ready = usart::BusStatus(0x20);
    assert!(t.should_send(empty_ready, 2));
    assert!(!t.should_receive(empty_ready, 4));
    t.record(true, None);
    assert_eq!(t, Transaction { sent: 1, received: 0, line_done: false, idle_polls: 1 });
    let got = usart::BusStatus(0xa0);
    assert!(t.should_receive(got, 4));
    t.record(true, Some(b'\n'));
    assert_eq!(t, Transaction { sent: 2, received: 1, line_done: true, idle_polls: 0 });
    assert!(!t.should_send(empty_ready, 2));
    assert!(t.finished(usart::BusStatus(0x40), 2, 4));
    assert!(!t.finished(usart::BusStatus(0x00), 2, 4));
}

#[test]
fn usart_transaction_gives_up_after_idle_polls() {
    let mut t = Transaction::new();
    for _ in 0..IDLE_POLL_LIMIT {
        assert!(!t.finished(usart::BusStatus(0x40), 0, 8));
        t.record(false, None);
    }
    assert_eq!(t.idle_polls, IDLE_POLL_LIMIT);
    assert!(t.finished(usart::BusStatus(0x40), 0, 8));
    t.idle_polls = u16::MAX;
    t.record(false, None);
    assert_eq!(t.idle_polls, u16::MAX);
}

#[test]
fn spi_exchange_steps_and_overrun() {
    let mut x = Exchange::new();
    let s = spi::BusStatus(0xa0);
    assert!(x.should_write(s, 1));
    assert_eq!(x.receive_action(s, 1), ReceiveAction::Store);
    x.record(true, true);
    assert_eq!(x, Exchange { written: 1, read: 1 });
    assert_eq!(x.receive_action(s, 1), ReceiveAction::Overrun);
    assert_eq!(x.receive_action(spi::BusStatus(0x40), 1), ReceiveAction::Nothing);
    assert!(x.finished(spi::BusStatus(0x40), 1));
    assert!(!x.finished(spi::BusStatus(0x40), 2));
}
