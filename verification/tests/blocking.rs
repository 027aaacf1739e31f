use embedded_hal::delay::DelayNs;
use embedded_hal::i2c::{I2c, Operation};
use embedded_hal_mock::eh1::delay::NoopDelay;
use embedded_hal_mock::eh1::i2c::{Mock, Transaction};
use sensirion_sht3x::blocking::Sht3x;
use sensirion_sht3x::command::Command;
use sensirion_sht3x::error::Error;
use sensirion_sht3x::exchange::{Action, Event, Exchange, Reply, Step};
use sensirion_sht3x::{AddressPin, ClockStretching, Measurement, Rate, Repeatability, Status};

type Device<'a> = Sht3x<&'a mut Mock, u8, NoopDelay>;

/// Carries out an exchange on the driver's bus, as a blocking host does.
fn run<I: I2c, D: DelayNs>(
    sht3x: &mut Sht3x<I, u8, D>,
    mut exchange: Exchange,
) -> Result<Reply, Error<I::Error>> {
    let address = sht3x.address();
    let mut action = exchange.start();
    loop {
        let event = match action {
            Action::WriteCommand(code) => Event::Written(sensirion_i2c::i2c::write_command_u16(
                sht3x.i2c(),
                address,
                code,
            )),
            Action::Write(bytes) => Event::Written(sht3x.i2c().write(address, &bytes)),
            Action::Delay(ns) => {
                sht3x.delay().delay_ns(ns);
                Event::Waited
            }
            Action::Read(len) => {
                let mut buffer = vec![0u8; len];
                Event::Received(sht3x.i2c().read(address, &mut buffer).map(|_| buffer))
            }
            Action::Transaction(bytes, len) => {
                let mut buffer = vec![0u8; len];
                let result = sht3x.i2c().transaction(
                    address,
                    &mut [Operation::Write(&bytes), Operation::Read(&mut buffer)],
                );
                Event::Received(result.map(|_| buffer))
            }
        };
        match exchange.step(event) {
            Step::Perform(next) => action = next,
            Step::Finish(outcome) => return outcome,
        }
    }
}

fn create_i2c<T: FnOnce(Device)>(expectations: &[Transaction], action: T) {
    let mut i2c_mock = Mock::new(expectations);
    let sht3x = create_device(&mut i2c_mock);
    action(sht3x);
    i2c_mock.done();
}

fn create_device(i2c: &mut Mock) -> Device<'_> {
    Sht3x::new(i2c, AddressPin::default().into(), NoopDelay::default())
}

fn celsius(raw: u16) -> f64 {
    -45.0 + 175.0 * raw as f64 / u16::MAX as f64
}

fn percent(raw: u16) -> f64 {
    raw as f64 / u16::MAX as f64 * 100.0
}

/// The bytes read for a measurement of the given temperature and humidity:
/// the relative humidity word, then the temperature word, each followed by
/// its checksum.
fn measurement_bytes(temperature: f64, relative_humidity: f64) -> Vec<u8> {
    let mut buffer = Vec::with_capacity(6);

    let relative_humidity = ((relative_humidity * 65535.0) / 100.0) as u16;
    buffer.extend_from_slice(&relative_humidity.to_be_bytes());
    buffer.push(sensirion_i2c::crc8::calculate(&relative_humidity.to_be_bytes()));

    let temperature = (((temperature + 45.0) * u16::MAX as f64) / 175.0) as u16;
    buffer.extend_from_slice(&temperature.to_be_bytes());
    buffer.push(sensirion_i2c::crc8::calculate(&temperature.to_be_bytes()));

    buffer
}

/// The bytes the sensor sends for a status register.
fn status_bytes(status: Status) -> Vec<u8> {
    let mut buffer = Vec::new();
    buffer.extend_from_slice(&status.bits().to_be_bytes());
    buffer.push(sensirion_i2c::crc8::calculate(&status.bits().to_be_bytes()));
    buffer
}

fn measured(outcome: Result<Reply, Error<embedded_hal::i2c::ErrorKind>>) -> Measurement {
    match outcome.unwrap() {
        Reply::Measurement(m) => m,
        other => panic!("expected a measurement, got {:?}", other),
    }
}

fn done(outcome: Result<Reply, Error<embedded_hal::i2c::ErrorKind>>) {
    match outcome.unwrap() {
        Reply::Done => (),
        other => panic!("expected no reply, got {:?}", other),
    }
}

#[test]
fn test_new() {
    create_i2c(&[], |sht3x| {
        assert_eq!(0x44, sht3x.address());
    });
}

#[test]
fn test_command_break() {
    let expectations = [Transaction::write(
        AddressPin::default().into(),
        u16::from(Command::Break).to_be_bytes().to_vec(),
    )];

    create_i2c(&expectations, |mut sht3x| {
        let exchange = sht3x.periodic_measurement_stop();
        assert_eq!((), done(run(&mut sht3x, exchange)))
    });
}

#[test]
fn test_command_fetchdata() {
    let (temperature, relative_humidity) = (50.0, 50.0);

    let expectations = [
        Transaction::write(
            AddressPin::default().into(),
            u16::from(Command::FetchData).to_be_bytes().to_vec(),
        ),
        Transaction::read(
            AddressPin::default().into(),
            measurement_bytes(temperature, relative_humidity),
        ),
    ];

    create_i2c(&expectations, |mut sht3x| {
        let exchange = sht3x.periodic_measurement_fetch();
        let i2c_measurement = measured(run(&mut sht3x, exchange));
        assert!((percent(i2c_measurement.relative_humidity) - relative_humidity).abs() < 0.01);
        assert!((celsius(i2c_measurement.temperature) - temperature).abs() < 0.01);
    });
}

#[test]
fn test_command_heater_disable() {
    let expectations = [Transaction::write(
        AddressPin::default().into(),
        u16::from(Command::HeaterDisable).to_be_bytes().to_vec(),
    )];

    create_i2c(&expectations, |mut sht3x| {
        let exchange = sht3x.heater_disable();
        assert_eq!((), done(run(&mut sht3x, exchange)))
    });
}

#[test]
fn test_command_heater_enable() {
    let expectations = [Transaction::write(
        AddressPin::default().into(),
        u16::from(Command::HeaterEnable).to_be_bytes().to_vec(),
    )];

    create_i2c(&expectations, |mut sht3x| {
        let exchange = sht3x.heater_enable();
        assert_eq!((), done(run(&mut sht3x, exchange)))
    });
}

#[test]
fn test_command_periodic_measurements_start() {
    let expectations = [Transaction::write(
        AddressPin::default().into(),
        u16::from(Command::Periodic(Rate::R1, Repeatability::High))
            .to_be_bytes()
            .to_vec(),
    )];

    create_i2c(&expectations, |mut sht3x| {
        let exchange = sht3x.periodic_measurements_start(Repeatability::High, Rate::R1);
        assert_eq!((), done(run(&mut sht3x, exchange)));
    });
}

#[test]
fn test_command_periodic_measurement_start_with_art() {
    let expectations = [Transaction::write(
        AddressPin::default().into(),
        u16::from(Command::PeriodicWithART).to_be_bytes().to_vec(),
    )];

    create_i2c(&expectations, |mut sht3x| {
        let exchange = sht3x.periodic_measurement_start_with_art();
        assert_eq!((), done(run(&mut sht3x, exchange)));
    });
}

#[test]
fn test_command_measure_singleshot() {
    let (temperature, relative_humidity) = (50.0, 50.0);

    let expectations = [
        Transaction::write(
            AddressPin::default().into(),
            u16::from(Command::SingleShot(
                ClockStretching::Disabled,
                Repeatability::High,
            ))
            .to_be_bytes()
            .to_vec(),
        ),
        Transaction::read(
            AddressPin::default().into(),
            measurement_bytes(temperature, relative_humidity),
        ),
    ];

    create_i2c(&expectations, |mut sht3x| {
        let exchange = sht3x.measure_singleshot(Repeatability::High);
        let i2c_measurement = measured(run(&mut sht3x, exchange));
        assert!((percent(i2c_measurement.relative_humidity) - relative_humidity).abs() < 0.01);
        assert!((celsius(i2c_measurement.temperature) - temperature).abs() < 0.01);
    });
}

#[test]
fn test_command_soft_reset() {
    let expectations = [Transaction::write(
        AddressPin::default().into(),
        u16::from(Command::SoftReset).to_be_bytes().to_vec(),
    )];

    create_i2c(&expectations, |mut sht3x| {
        let exchange = sht3x.soft_reset();
        assert_eq!((), done(run(&mut sht3x, exchange)));
    });
}

#[test]
fn test_command_status() {
    let status = Status::from_bits_retain(u16::MAX);

    let expectations = [
        Transaction::write(
            AddressPin::default().into(),
            u16::from(Command::StatusFetch).to_be_bytes().to_vec(),
        ),
        Transaction::read(AddressPin::default().into(), status_bytes(status)),
    ];

    create_i2c(&expectations, |mut sht3x| {
        let exchange = sht3x.status();
        let i2c_status = match run(&mut sht3x, exchange).unwrap() {
            Reply::Status(s) => s,
            other => panic!("expected a status, got {:?}", other),
        };
        assert_eq!(status.is_all(), i2c_status.is_all());
        assert!(status.heater_enabled());
        assert!(status.write_data_checksum_error());
        assert!(status.command_execution_failed());
        assert!(status.system_reset_detected());
        assert!(status.temperature_tracking_alert_occurred());
        assert!(status.relative_humidity_tracking_alert_occurred());
        assert!(status.alert_pending());
    });
}

#[test]
fn test_command_status_clear() {
    let expectations = [Transaction::write(
        AddressPin::default().into(),
        u16::from(Command::StatusClear).to_be_bytes().to_vec(),
    )];

    create_i2c(&expectations, |mut sht3x| {
        let exchange = sht3x.status_clear();
        assert_eq!((), done(run(&mut sht3x, exchange)));
    });
}

#[test]
fn singleshot_with_clock_stretching_reads_in_one_transaction() {
    let mut response = measurement_bytes(50.0, 50.0);
    // No checksum is checked on this path.
    response[2] ^= 0xff;
    let expectations = [
        Transaction::transaction_start(0x45),
        Transaction::write(0x45, vec![0x2c, 0x06]),
        Transaction::read(0x45, response),
        Transaction::transaction_end(0x45),
    ];
    let mut i2c_mock = Mock::new(&expectations);
    let mut sht3x = Sht3x::new(&mut i2c_mock, AddressPin::High.into(), NoopDelay::default());
    let exchange = sht3x.measure_singleshot_with_clock_stretching(Repeatability::Low);
    let m = measured(run(&mut sht3x, exchange));
    assert_eq!(m.temperature, 35576);
    assert_eq!(m.relative_humidity, 32767);
    i2c_mock.done();
}

#[test]
fn corrupted_word_is_a_checksum_error() {
    let mut response = measurement_bytes(50.0, 50.0);
    response[5] ^= 0x01;
    let expectations = [
        Transaction::write(0x44, vec![0xe0, 0x00]),
        Transaction::read(0x44, response),
    ];
    create_i2c(&expectations, |mut sht3x| {
        let exchange = sht3x.periodic_measurement_fetch();
        assert!(matches!(run(&mut sht3x, exchange), Err(Error::Crc)));
    });
}

#[test]
fn bus_error_on_write_ends_the_operation() {
    let expectations = [Transaction::write(0x44, vec![0x24, 0x0b])
        .with_error(embedded_hal::i2c::ErrorKind::Other)];
    create_i2c(&expectations, |mut sht3x| {
        let exchange = sht3x.measure_singleshot(Repeatability::Medium);
        assert!(matches!(
            run(&mut sht3x, exchange),
            Err(Error::I2c(embedded_hal::i2c::ErrorKind::Other))
        ));
    });
}

#[test]
fn bus_error_on_read_is_reported() {
    let expectations = [
        Transaction::write(0x44, vec![0xf3, 0x2d]),
        Transaction::read(0x44, vec![0, 0, 0]).with_error(embedded_hal::i2c::ErrorKind::Other),
    ];
    create_i2c(&expectations, |mut sht3x| {
        let exchange = sht3x.status();
        assert!(matches!(
            run(&mut sht3x, exchange),
            Err(Error::I2c(embedded_hal::i2c::ErrorKind::Other))
        ));
    });
}

#[test]
fn status_read_decodes_the_register() {
    let expectations = [
        Transaction::write(0x44, vec![0xf3, 0x2d]),
        Transaction::read(0x44, vec![0x20, 0x10, sensirion_i2c::crc8::calculate(&[0x20, 0x10])]),
    ];
    create_i2c(&expectations, |mut sht3x| {
        let exchange = sht3x.status();
        match run(&mut sht3x, exchange).unwrap() {
            Reply::Status(s) => {
                assert_eq!(s.bits(), 0x2010);
                assert!(s.heater_enabled());
                assert!(s.system_reset_detected());
                assert!(!s.alert_pending());
                assert!(!s.is_all());
            }
            other => panic!("expected a status, got {:?}", other),
        }
    });
}

#[test]
fn singleshot_waits_the_measurement_time() {
    let expectations = [
        Transaction::write(0x44, vec![0x24, 0x16]),
        Transaction::read(0x44, measurement_bytes(25.0, 40.0)),
    ];
    let mut i2c_mock = Mock::new(&expectations);
    let mut delay = embedded_hal_mock::eh1::delay::CheckedDelay::new(&[
        embedded_hal_mock::eh1::delay::Transaction::delay_ns(15_000_000),
    ]);
    let mut sht3x = Sht3x::new(&mut i2c_mock, 0x44, &mut delay);
    let exchange = sht3x.measure_singleshot(Repeatability::High);
    let m = measured(run(&mut sht3x, exchange));
    assert!((celsius(m.temperature) - 25.0).abs() < 0.01);
    assert!((percent(m.relative_humidity) - 40.0).abs() < 0.01);
    i2c_mock.done();
    delay.done();
}
