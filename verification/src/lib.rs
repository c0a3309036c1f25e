//! Driver logic for the DHT20 temperature/humidity sensor: the status-byte
//! calibration gate, the retry-bounded measurement poll machine, and the
//! decode of raw 20-bit ADC fractions into milli-unit physical readings.
//! Bus transactions and settling delays are the caller's: every function
//! here is pure and takes the transport's outcomes as plain values.

pub mod driver;
pub mod frame;
pub mod reading;
