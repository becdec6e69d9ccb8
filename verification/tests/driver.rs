//! Driver tests against a scripted mock bus transport.

use std::io::ErrorKind;

use shtcx::{
    crc8, generic, shtc1, shtc3, shtw2, Command, Delay, Error, I2cBus, LowPower, PowerMode,
};

const SHT_ADDR: u8 = 0x70;

/// Error type handed out by the mock transport.
#[derive(Debug, Clone, PartialEq)]
enum MockError {
    Io(ErrorKind),
}

/// One expected bus transaction.
#[derive(Debug, Clone)]
enum Transaction {
    Write {
        address: u8,
        bytes: Vec<u8>,
        error: Option<MockError>,
    },
    Read {
        address: u8,
        data: Vec<u8>,
    },
}

impl Transaction {
    fn write(address: u8, bytes: Vec<u8>) -> Self {
        Transaction::Write {
            address,
            bytes,
            error: None,
        }
    }

    fn write_error(address: u8, bytes: Vec<u8>, error: MockError) -> Self {
        Transaction::Write {
            address,
            bytes,
            error: Some(error),
        }
    }

    fn read(address: u8, data: Vec<u8>) -> Self {
        Transaction::Read { address, data }
    }
}

/// A bus transport that replays a fixed list of expected transactions.
struct I2cMock {
    expected: Vec<Transaction>,
    position: usize,
}

impl I2cMock {
    fn new(expected: &[Transaction]) -> Self {
        I2cMock {
            expected: expected.to_vec(),
            position: 0,
        }
    }

    fn done(self) {
        assert_eq!(
            self.position,
            self.expected.len(),
            "not all expected transactions were performed"
        );
    }
}

impl I2cBus for I2cMock {
    type Error = MockError;

    fn write(&mut self, address: u8, bytes: &[u8]) -> Result<(), MockError> {
        let transaction = self
            .expected
            .get(self.position)
            .expect("unexpected write transaction")
            .clone();
        self.position += 1;
        match transaction {
            Transaction::Write {
                address: expected_address,
                bytes: expected_bytes,
                error,
            } => {
                assert_eq!(address, expected_address);
                assert_eq!(bytes, &expected_bytes[..]);
                match error {
                    Some(e) => Err(e),
                    None => Ok(()),
                }
            }
            Transaction::Read { .. } => panic!("expected a read, got a write"),
        }
    }

    fn read(&mut self, address: u8, buf: &mut Vec<u8>) -> Result<(), MockError> {
        let transaction = self
            .expected
            .get(self.position)
            .expect("unexpected read transaction")
            .clone();
        self.position += 1;
        match transaction {
            Transaction::Read {
                address: expected_address,
                data,
            } => {
                assert_eq!(address, expected_address);
                assert_eq!(buf.len(), data.len(), "read buffer length mismatch");
                buf.clear();
                buf.extend_from_slice(&data);
                Ok(())
            }
            Transaction::Write { .. } => panic!("expected a write, got a read"),
        }
    }
}

/// A delay provider that does not wait.
struct NoopDelay;

impl Delay for NoopDelay {
    fn delay_us(&mut self, _us: u16) {}
    fn delay_ms(&mut self, _ms: u16) {}
}

/// Test whether the `send_command` function propagates bus errors.
#[test]
fn send_command_error() {
    let expectations = [Transaction::write_error(
        SHT_ADDR,
        vec![0xef, 0xc8],
        MockError::Io(ErrorKind::Other),
    )];
    let mock = I2cMock::new(&expectations);
    let mut sht = shtc1(mock, NoopDelay);
    let err = sht.send_command(Command::ReadIdRegister).unwrap_err();
    assert_eq!(err, Error::I2c(MockError::Io(ErrorKind::Other)));
    sht.destroy().done();
}

/// Test the `validate_crc` function.
#[test]
fn validate_crc() {
    let mock = I2cMock::new(&[]);
    let sht = shtc3(mock, NoopDelay);

    // Not enough data
    sht.validate_crc(&[]).unwrap();
    sht.validate_crc(&[0xbe]).unwrap();
    sht.validate_crc(&[0xbe, 0xef]).unwrap();

    // Valid CRC
    sht.validate_crc(&[0xbe, 0xef, 0x92]).unwrap();

    // Invalid CRC
    match sht.validate_crc(&[0xbe, 0xef, 0x91]) {
        Err(Error::Crc) => {}
        Err(_) => panic!("Invalid error: Must be Crc"),
        Ok(_) => panic!("CRC check did not fail"),
    }

    // Valid CRC (8 bytes)
    sht.validate_crc(&[0xbe, 0xef, 0x92, 0xbe, 0xef, 0x92, 0x00, 0x00])
        .unwrap();

    // Invalid CRC (8 bytes)
    match sht.validate_crc(&[0xbe, 0xef, 0x92, 0xbe, 0xef, 0xff, 0x00, 0x00]) {
        Err(Error::Crc) => {}
        Err(_) => panic!("Invalid error: Must be Crc"),
        Ok(_) => panic!("CRC check did not fail"),
    }

    sht.destroy().done();
}

/// Test the `read_with_crc` function.
#[test]
fn read_with_crc() {
    let mut buf = vec![0; 3];

    // Valid CRC
    let expectations = [Transaction::read(SHT_ADDR, vec![0xbe, 0xef, 0x92])];
    let mock = I2cMock::new(&expectations);
    let mut sht = shtc3(mock, NoopDelay);
    sht.read_with_crc(&mut buf).unwrap();
    assert_eq!(buf, vec![0xbe, 0xef, 0x92]);
    sht.destroy().done();

    // Invalid CRC
    let expectations = [Transaction::read(SHT_ADDR, vec![0xbe, 0xef, 0x00])];
    let mock = I2cMock::new(&expectations);
    let mut sht = shtc3(mock, NoopDelay);
    match sht.read_with_crc(&mut buf) {
        Err(Error::Crc) => {}
        Err(_) => panic!("Invalid error: Must be Crc"),
        Ok(_) => panic!("CRC check did not fail"),
    }
    assert_eq!(buf, vec![0xbe, 0xef, 0x00]); // Buf was changed
    sht.destroy().done();
}

#[test]
fn new_shtc1() {
    let mock = I2cMock::new(&[]);
    let sht = shtc1(mock, NoopDelay);
    assert_eq!(sht.address(), 0x70);
}

#[test]
fn new_shtc3() {
    let mock = I2cMock::new(&[]);
    let sht = shtc3(mock, NoopDelay);
    assert_eq!(sht.address(), 0x70);
}

#[test]
fn new_shtw2() {
    let mock = I2cMock::new(&[]);
    let sht = shtw2(mock, 0x42, NoopDelay);
    assert_eq!(sht.address(), 0x42);
}

#[test]
fn new_generic() {
    let mock = I2cMock::new(&[]);
    let sht = generic(mock, 0x23, NoopDelay);
    assert_eq!(sht.address(), 0x23);
}

/// Test the `raw_id_register` function.
#[test]
fn raw_id_register() {
    let msb = 0b00001000;
    let lsb = 0b00000111;
    let crc = crc8(&[msb, lsb]);
    let expectations = [
        Transaction::write(SHT_ADDR, vec![0xef, 0xc8]),
        Transaction::read(SHT_ADDR, vec![msb, lsb, crc]),
    ];
    let mock = I2cMock::new(&expectations);
    let mut sht = shtc3(mock, NoopDelay);
    let val = sht.raw_id_register().unwrap();
    assert_eq!(val, (msb as u16) << 8 | (lsb as u16));
    sht.destroy().done();
}

/// Test the `device_identifier` function.
#[test]
fn device_identifier() {
    let msb = 0b00001000;
    let lsb = 0b00000111;
    let crc = crc8(&[msb, lsb]);
    let expectations = [
        Transaction::write(SHT_ADDR, vec![0xef, 0xc8]),
        Transaction::read(SHT_ADDR, vec![msb, lsb, crc]),
    ];
    let mock = I2cMock::new(&expectations);
    let mut sht = shtc3(mock, NoopDelay);
    let ident = sht.device_identifier().unwrap();
    assert_eq!(ident, 0b01000111);
    sht.destroy().done();
}

#[test]
fn measure_normal() {
    let expectations = [
        // Expect a write command: Normal mode measurement, temperature
        // first, no clock stretching.
        Transaction::write(SHT_ADDR, vec![0x78, 0x66]),
        // Return the measurement result (using example values from the
        // datasheet, section 5.4 "Measuring and Reading the Signals")
        Transaction::read(
            SHT_ADDR,
            vec![
                0b0110_0100,
                0b1000_1011,
                0b1100_0111,
                0b1010_0001,
                0b0011_0011,
                0b0001_1100,
            ],
        ),
    ];
    let mock = I2cMock::new(&expectations);
    let mut sht = shtc1(mock, NoopDelay);
    let measurement = sht.measure(PowerMode::NormalMode).unwrap();
    assert_eq!(measurement.temperature.as_millidegrees_celsius(), 23_730); // 23.7°C
    assert_eq!(measurement.humidity.as_millipercent(), 62_968); // 62.9 %RH
    sht.destroy().done();
}

#[test]
fn measure_low_power() {
    let expectations = [
        // Expect a write command: Low power mode measurement, temperature
        // first, no clock stretching.
        Transaction::write(SHT_ADDR, vec![0x60, 0x9C]),
        // Return the measurement result (using example values from the
        // datasheet, section 5.4 "Measuring and Reading the Signals")
        Transaction::read(
            SHT_ADDR,
            vec![
                0b0110_0100,
                0b1000_1011,
                0b1100_0111,
                0b1010_0001,
                0b0011_0011,
                0b0001_1100,
            ],
        ),
    ];
    let mock = I2cMock::new(&expectations);
    let mut sht = shtc3(mock, NoopDelay);
    let measurement = sht.measure(PowerMode::LowPower).unwrap();
    assert_eq!(measurement.temperature.as_millidegrees_celsius(), 23_730); // 23.7°C
    assert_eq!(measurement.humidity.as_millipercent(), 62_968); // 62.9 %RH
    sht.destroy().done();
}

#[test]
fn measure_temperature_only() {
    let expectations = [
        // Expect a write command: Normal mode measurement, temperature
        // first, no clock stretching.
        Transaction::write(SHT_ADDR, vec![0x78, 0x66]),
        // Return the measurement result (using example values from the
        // datasheet, section 5.4 "Measuring and Reading the Signals")
        Transaction::read(SHT_ADDR, vec![0b0110_0100, 0b1000_1011, 0b1100_0111]),
    ];
    let mock = I2cMock::new(&expectations);
    let mut sht = shtc3(mock, NoopDelay);
    let temperature = sht.measure_temperature(PowerMode::NormalMode).unwrap();
    assert_eq!(temperature.as_millidegrees_celsius(), 23_730); // 23.7°C
    sht.destroy().done();
}

#[test]
fn measure_humidity_only() {
    let expectations = [
        // Expect a write command: Normal mode measurement, humidity
        // first, no clock stretching.
        Transaction::write(SHT_ADDR, vec![0x58, 0xE0]),
        // Return the measurement result (using example values from the
        // datasheet, section 5.4 "Measuring and Reading the Signals")
        Transaction::read(SHT_ADDR, vec![0b1010_0001, 0b0011_0011, 0b0001_1100]),
    ];
    let mock = I2cMock::new(&expectations);
    let mut sht = shtc3(mock, NoopDelay);
    let humidity = sht.measure_humidity(PowerMode::NormalMode).unwrap();
    assert_eq!(humidity.as_millipercent(), 62_968); // 62.9 %RH
    sht.destroy().done();
}

/// Ensure that bus write errors are handled when measuring.
#[test]
fn measure_write_error() {
    let expectations = [Transaction::write_error(
        SHT_ADDR,
        vec![0x60, 0x9C],
        MockError::Io(ErrorKind::Other),
    )];
    let mock = I2cMock::new(&expectations);
    let mut sht = shtc3(mock, NoopDelay);
    let err = sht.measure(PowerMode::LowPower).unwrap_err();
    assert_eq!(err, Error::I2c(MockError::Io(ErrorKind::Other)));
    sht.destroy().done();
}

/// Test the `sleep` function.
#[test]
fn sleep() {
    let expectations = [Transaction::write(SHT_ADDR, vec![0xB0, 0x98])];
    let mock = I2cMock::new(&expectations);
    let mut sht = shtc3(mock, NoopDelay);
    sht.sleep().unwrap();
    sht.destroy().done();
}

/// Test the `wakeup` function.
#[test]
fn wakeup() {
    let expectations = [Transaction::write(SHT_ADDR, vec![0x35, 0x17])];
    let mock = I2cMock::new(&expectations);
    let mut sht = shtc3(mock, NoopDelay);
    sht.wakeup().unwrap();
    sht.destroy().done();
}

/// Test the `reset` function.
#[test]
fn reset() {
    let expectations = [Transaction::write(SHT_ADDR, vec![0x80, 0x5D])];
    let mock = I2cMock::new(&expectations);
    let mut sht = shtc3(mock, NoopDelay);
    sht.reset().unwrap();
    sht.destroy().done();
}

/// Sequencing scenario: a sleeping sensor rejects a measurement with a bus
/// error; after wake-up the same measurement succeeds.
#[test]
fn sleep_nack_wakeup_measure() {
    let expectations = [
        // Sleep command is acknowledged.
        Transaction::write(SHT_ADDR, vec![0xB0, 0x98]),
        // The sleeping sensor answers the measurement command with a NACK.
        Transaction::write_error(
            SHT_ADDR,
            vec![0x78, 0x66],
            MockError::Io(ErrorKind::Other),
        ),
        // Wake-up command is acknowledged.
        Transaction::write(SHT_ADDR, vec![0x35, 0x17]),
        // Now the measurement goes through.
        Transaction::write(SHT_ADDR, vec![0x78, 0x66]),
        Transaction::read(SHT_ADDR, vec![0b0110_0100, 0b1000_1011, 0b1100_0111]),
    ];
    let mock = I2cMock::new(&expectations);
    let mut sht = shtc3(mock, NoopDelay);

    sht.sleep().unwrap();
    let err = sht.measure_temperature(PowerMode::NormalMode).unwrap_err();
    assert_eq!(err, Error::I2c(MockError::Io(ErrorKind::Other)));
    sht.wakeup().unwrap();
    let temperature = sht.measure_temperature(PowerMode::NormalMode).unwrap();
    assert_eq!(temperature.as_millidegrees_celsius(), 23_730);
    sht.destroy().done();
}
