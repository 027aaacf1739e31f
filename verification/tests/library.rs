use sensirion_sht3x::command::Command;
use sensirion_sht3x::crc::{word_crc, words_have_valid_crc};
use sensirion_sht3x::error::Error;
use sensirion_sht3x::exchange::{frame_with_args, Action, Event, Exchange, Expect, Reply, Step};
use sensirion_sht3x::{AddressPin, ClockStretching, Measurement, Rate, Repeatability, Status};

#[test]
fn test_measurement_from_u8() {
    let m = Measurement::from_bytes(&[0x8a, 0xf8, 0x00, 0x7f, 0xff, 0x00]);
    assert_eq!(m.relative_humidity, 0x8af8);
    assert_eq!(m.temperature, 0x7fff);
}

#[test]
fn address_pins() {
    let low: u8 = AddressPin::Low.into();
    let high: u8 = AddressPin::High.into();
    assert_eq!(low, 0x44);
    assert_eq!(high, 0x45);
    let default: u8 = AddressPin::default().into();
    assert_eq!(default, 0x44);
}

#[test]
fn command_codes() {
    assert_eq!(u16::from(Command::SingleShot(ClockStretching::Enabled, Repeatability::Low)), 0x2c06);
    assert_eq!(u16::from(Command::SingleShot(ClockStretching::Enabled, Repeatability::Medium)), 0x2c0d);
    assert_eq!(u16::from(Command::SingleShot(ClockStretching::Enabled, Repeatability::High)), 0x2c10);
    assert_eq!(u16::from(Command::SingleShot(ClockStretching::Disabled, Repeatability::Low)), 0x2400);
    assert_eq!(u16::from(Command::SingleShot(ClockStretching::Disabled, Repeatability::Medium)), 0x240b);
    assert_eq!(u16::from(Command::SingleShot(ClockStretching::Disabled, Repeatability::High)), 0x2416);
    assert_eq!(u16::from(Command::Periodic(Rate::R0_5, Repeatability::Low)), 0x2032);
    assert_eq!(u16::from(Command::Periodic(Rate::R1, Repeatability::Medium)), 0x2126);
    assert_eq!(u16::from(Command::Periodic(Rate::R2, Repeatability::High)), 0x222b);
    assert_eq!(u16::from(Command::Periodic(Rate::R4, Repeatability::Low)), 0x2334);
    assert_eq!(u16::from(Command::Periodic(Rate::R10, Repeatability::High)), 0x272a);
    assert_eq!(Command::FetchData.code(), 0xe000);
    assert_eq!(Command::PeriodicWithART.code(), 0x2b32);
    assert_eq!(Command::Break.code(), 0x3093);
    assert_eq!(Command::SoftReset.code(), 0x30a2);
    assert_eq!(Command::HeaterEnable.code(), 0x306d);
    assert_eq!(Command::HeaterDisable.code(), 0x3066);
    assert_eq!(Command::StatusFetch.code(), 0xf32d);
    assert_eq!(Command::StatusClear.code(), 0x3041);
}

#[test]
fn command_delays() {
    assert_eq!(Command::SingleShot(ClockStretching::Disabled, Repeatability::Low).delay_ns(), 4_000_000);
    assert_eq!(Command::SingleShot(ClockStretching::Enabled, Repeatability::Medium).delay_ns(), 6_000_000);
    assert_eq!(Command::SingleShot(ClockStretching::Disabled, Repeatability::High).delay_ns(), 15_000_000);
    assert_eq!(Command::SoftReset.delay_ns(), 1_500_000);
    assert_eq!(Command::FetchData.delay_ns(), 1_000_000);
    assert_eq!(Command::StatusFetch.delay_ns(), 1_000_000);
}

#[test]
fn status_flags() {
    let heater = Status::from_bits_retain(0x2000);
    assert!(heater.heater_enabled());
    assert!(!heater.alert_pending());
    assert!(!heater.is_all());
    assert!(Status::from_bits_retain(0x0001).write_data_checksum_error());
    assert!(Status::from_bits_retain(0x0002).command_execution_failed());
    assert!(Status::from_bits_retain(0x0010).system_reset_detected());
    assert!(Status::from_bits_retain(0x0400).temperature_tracking_alert_occurred());
    assert!(Status::from_bits_retain(0x0800).relative_humidity_tracking_alert_occurred());
    assert!(Status::from_bits_retain(0x8000).alert_pending());
    let none = Status::from_bits_retain(0x53ec);
    assert!(!none.heater_enabled());
    assert!(!none.write_data_checksum_error());
    assert!(!none.command_execution_failed());
    assert!(!none.system_reset_detected());
    assert!(!none.temperature_tracking_alert_occurred());
    assert!(!none.relative_humidity_tracking_alert_occurred());
    assert!(!none.alert_pending());
    assert_eq!(none.bits(), 0x53ec);
    assert!(Status::all().is_all());
    assert_eq!(Status::all().bits(), 0xac13);
    assert!(Status::from_bits_retain(u16::MAX).is_all());
    assert!(Status::from_bits_retain(0).is_empty());
    assert!(heater.intersects(Status::from_bits_retain(0x2001)));
    assert!(!heater.contains(Status::from_bits_retain(0x2001)));
    assert!(Status::all().contains(heater));
}

#[test]
fn checksums() {
    assert_eq!(word_crc(0xbeef), 0x92);
    assert!(words_have_valid_crc(&[]));
    assert!(words_have_valid_crc(&[0xbe, 0xef, 0x92]));
    assert!(!words_have_valid_crc(&[0xbe, 0xef, 0x91]));
    assert!(!words_have_valid_crc(&[0xbe, 0xef, 0x92, 0xbe, 0xef, 0x00]));
}

#[test]
fn frames_carry_checked_arguments() {
    assert_eq!(frame_with_args(Command::Break, None), vec![0x30, 0x93]);
    assert_eq!(frame_with_args(Command::Break, Some(&[])), vec![0x30, 0x93]);
    assert_eq!(
        frame_with_args(Command::StatusClear, Some(&[0xbeef, 0xbeef])),
        vec![0x30, 0x41, 0xbe, 0xef, 0x92, 0xbe, 0xef, 0x92]
    );
}

#[test]
fn read_exchange_asks_for_write_wait_read() {
    let mut exchange = Exchange::read_words(Command::StatusFetch, Some(&[0xbeef]), 3, Expect::Status);
    match exchange.start() {
        Action::Write(bytes) => assert_eq!(bytes, vec![0xf3, 0x2d, 0xbe, 0xef, 0x92]),
        other => panic!("unexpected {:?}", other),
    }
    match exchange.step::<()>(Event::Written(Ok(()))) {
        Step::Perform(Action::Delay(ns)) => assert_eq!(ns, 1_000_000),
        other => panic!("unexpected {:?}", other),
    }
    match exchange.step::<()>(Event::Waited) {
        Step::Perform(Action::Read(len)) => assert_eq!(len, 3),
        other => panic!("unexpected {:?}", other),
    }
    match exchange.step::<()>(Event::Received(Ok(vec![0x80, 0x00, word_crc(0x8000)]))) {
        Step::Finish(Ok(Reply::Status(s))) => assert!(s.alert_pending()),
        other => panic!("unexpected {:?}", other),
    }
}

#[test]
fn command_exchange_writes_the_code() {
    let mut exchange = Exchange::command(Command::HeaterEnable);
    match exchange.start() {
        Action::WriteCommand(code) => assert_eq!(code, 0x306d),
        other => panic!("unexpected {:?}", other),
    }
    match exchange.step::<u8>(Event::Written(Err(7))) {
        Step::Finish(Err(Error::I2c(7))) => (),
        other => panic!("unexpected {:?}", other),
    }
}

#[test]
fn stretched_exchange_skips_checksums() {
    let mut exchange = Exchange::stretched(
        Command::SingleShot(ClockStretching::Enabled, Repeatability::High),
        6,
        Expect::Measurement,
    );
    match exchange.start() {
        Action::Transaction(bytes, len) => {
            assert_eq!(bytes, vec![0x2c, 0x10]);
            assert_eq!(len, 6);
        }
        other => panic!("unexpected {:?}", other),
    }
    match exchange.step::<()>(Event::Received(Ok(vec![0x12, 0x34, 0, 0x56, 0x78, 0]))) {
        Step::Finish(Ok(Reply::Measurement(m))) => {
            assert_eq!(m, Measurement { relative_humidity: 0x1234, temperature: 0x5678 })
        }
        other => panic!("unexpected {:?}", other),
    }
}
