use dht20::driver::{
    trigger_command, I2CTemperatureReader, InitError, PollOutcome, ReadError, TransportError,
    DHT20_GET_STATUS, DHT20_I2C_ADDR, MAX_POLL_CYCLES, MEASUREMENT_DELAY_MS, POWER_UP_DELAY_MS,
};
use dht20::frame::{is_busy, is_calibrated, raw_humidity, raw_temperature};
use dht20::reading::{celsius_milli, decode_frame, humidity_milli, Reading};

fn ready_driver() -> I2CTemperatureReader {
    I2CTemperatureReader::initialize(Ok(0x18)).unwrap()
}

#[test]
fn readiness_decode_calibrated() {
    assert!(is_calibrated(0x18));
    assert!(is_calibrated(0x38));
    assert!(is_calibrated(0xF8));
}

#[test]
fn readiness_decode_not_calibrated() {
    assert!(!is_calibrated(0x00));
    assert!(!is_calibrated(0x08));
    assert!(!is_calibrated(0x10));
    assert!(!is_calibrated(0x07));
}

#[test]
fn busy_flag_is_top_bit() {
    assert!(is_busy(0x80));
    assert!(is_busy(0xFF));
    assert!(!is_busy(0x00));
    assert!(!is_busy(0x7F));
}

#[test]
fn humidity_decode() {
    let frame = [0x00, 0x19, 0x99, 0x90, 0x00, 0x00];
    assert_eq!(raw_humidity(&frame), 0x19999);
    assert_eq!(raw_humidity(&frame), 104857);
    // 104857 / 1048576 * 100 percent, in thousandths: just under 10.0%.
    assert_eq!(humidity_milli(104857), 9999);
    let reading = decode_frame(&frame);
    assert_eq!(reading.humidity(), 9999);
}

#[test]
fn temperature_decode() {
    let frame = [0x00, 0x00, 0x00, 0x08, 0x00, 0x00];
    assert_eq!(raw_temperature(&frame), 0x80000);
    assert_eq!(raw_temperature(&frame), 524288);
    // 524288 / 5242.88 - 50 = 50.0 degrees Celsius, in thousandths.
    assert_eq!(celsius_milli(524288), 50000);
    let reading = decode_frame(&frame);
    assert_eq!(reading.celsius(), 50000);
}

#[test]
fn decode_extremes() {
    let zero = [0x00, 0x00, 0x00, 0x00, 0x00, 0x00];
    let reading = decode_frame(&zero);
    assert_eq!(reading.celsius(), -50000);
    assert_eq!(reading.humidity(), 0);

    let full = [0x00, 0xFF, 0xFF, 0xFF, 0xFF, 0xFF];
    assert_eq!(raw_humidity(&full), 0xFFFFF);
    assert_eq!(raw_temperature(&full), 0xFFFFF);
    let reading = decode_frame(&full);
    assert_eq!(reading.celsius(), 149999);
    assert_eq!(reading.humidity(), 99999);
}

#[test]
fn fahrenheit_derivation() {
    assert_eq!(Reading::new(0, 0).fahrenheit(), 32000);
    assert_eq!(Reading::new(100000, 0).fahrenheit(), 212000);
    // 50 C = 122 F; -40 C = -40 F.
    assert_eq!(Reading::new(50000, 0).fahrenheit(), 122000);
    assert_eq!(Reading::new(-40000, 0).fahrenheit(), -40000);
}

#[test]
fn retry_bound() {
    let driver = ready_driver();
    let mut poll = driver.begin_poll();
    let busy = [0x80, 0x01, 0x02, 0x03, 0x04, 0x05];
    for _ in 0..(MAX_POLL_CYCLES - 1) {
        assert_eq!(poll.advance(Ok(busy)), PollOutcome::Again);
    }
    // The tenth busy frame is accepted and decoded as it stands; there is
    // no room in the state for an eleventh cycle.
    let last = [0x80, 0x19, 0x99, 0x90, 0x00, 0x00];
    assert_eq!(poll.advance(Ok(last)), PollOutcome::Done(decode_frame(&last)));
}

#[test]
fn early_exit() {
    let driver = ready_driver();
    let mut poll = driver.begin_poll();
    let busy = [0x80, 0x00, 0x00, 0x00, 0x00, 0x00];
    let clear = [0x1C, 0x00, 0x00, 0x08, 0x00, 0x00];
    assert_eq!(poll.advance(Ok(busy)), PollOutcome::Again);
    assert_eq!(poll.advance(Ok(busy)), PollOutcome::Again);
    // The third response has the busy bit clear: exactly three cycles.
    assert_eq!(poll.advance(Ok(clear)), PollOutcome::Done(decode_frame(&clear)));
}

#[test]
fn transport_fault_aborts_poll() {
    let driver = ready_driver();
    let mut poll = driver.begin_poll();
    assert_eq!(
        poll.advance(Err(TransportError)),
        PollOutcome::Failed(ReadError::Transport)
    );

    let mut poll = driver.begin_poll();
    let busy = [0xFF, 0x00, 0x00, 0x00, 0x00, 0x00];
    assert_eq!(poll.advance(Ok(busy)), PollOutcome::Again);
    assert_eq!(
        poll.advance(Err(TransportError)),
        PollOutcome::Failed(ReadError::Transport)
    );
}

#[test]
fn transport_fault_during_initialization() {
    assert!(matches!(
        I2CTemperatureReader::initialize(Err(TransportError)),
        Err(InitError::Transport)
    ));
}

#[test]
fn initialization_gate() {
    assert!(matches!(
        I2CTemperatureReader::initialize(Ok(0x00)),
        Err(InitError::NotCalibrated)
    ));
    assert!(matches!(
        I2CTemperatureReader::initialize(Ok(0x08)),
        Err(InitError::NotCalibrated)
    ));
    assert!(matches!(
        I2CTemperatureReader::initialize(Ok(0x10)),
        Err(InitError::NotCalibrated)
    ));
    assert!(matches!(
        I2CTemperatureReader::initialize(Ok(0x07)),
        Err(InitError::NotCalibrated)
    ));
    assert!(I2CTemperatureReader::initialize(Ok(0x18)).is_ok());
    assert!(I2CTemperatureReader::initialize(Ok(0xF8)).is_ok());
}

#[test]
fn protocol_constants() {
    assert_eq!(DHT20_I2C_ADDR, 0x38);
    assert_eq!(DHT20_GET_STATUS, 0x71);
    assert_eq!(trigger_command(), [0xAC, 0x33, 0x00]);
    assert_eq!(POWER_UP_DELAY_MS, 100);
    assert_eq!(MEASUREMENT_DELAY_MS, 80);
    assert_eq!(MAX_POLL_CYCLES, 10);
}
