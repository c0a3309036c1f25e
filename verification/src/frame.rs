//! The raw measurement frame and the status byte's flags.
//!
//! A frame is six bytes: a status byte, then two 20-bit ADC fractions packed
//! big-endian — humidity in byte 1, byte 2 and the high nibble of byte 3;
//! temperature in the low nibble of byte 3, byte 4 and byte 5.

use vstd::prelude::*;

verus! {

/// Number of bytes in a raw measurement frame.
pub const FRAME_LEN: usize = 6;

/// The two calibration bits of the status byte; both must be set for the
/// sensor to count as calibrated.
pub const CALIBRATION_MASK: u8 = 0x18;

/// Calibration gate: both calibration bits of the status byte are set.
pub open spec fn spec_calibrated(status: u8) -> bool {
    status & CALIBRATION_MASK == CALIBRATION_MASK
}

/// Busy flag: the top bit of the status byte, set while the sensor's
/// analog-to-digital conversion is still running.
pub open spec fn spec_busy(status: u8) -> bool {
    status >> 7 != 0
}

/// The 20-bit humidity fraction packed into a frame: byte 1 (high), byte 2,
/// and the high nibble of byte 3 (low).
pub open spec fn spec_raw_humidity(f: Seq<u8>) -> int
    recommends
        f.len() == FRAME_LEN,
{
    (f[1] as int) * 4096 + (f[2] as int) * 16 + ((f[3] >> 4) as int)
}

/// The 20-bit temperature fraction packed into a frame: the low nibble of
/// byte 3 (high), byte 4, and byte 5 (low).
pub open spec fn spec_raw_temperature(f: Seq<u8>) -> int
    recommends
        f.len() == FRAME_LEN,
{
    ((f[3] & 0x0f) as int) * 65536 + (f[4] as int) * 256 + (f[5] as int)
}

/// Test the calibration gate on a status byte.
pub fn is_calibrated(status: u8) -> (r: bool)
    ensures
        r == spec_calibrated(status),
{
    status & CALIBRATION_MASK == CALIBRATION_MASK
}

/// Test the busy flag of a status byte.
pub fn is_busy(status: u8) -> (r: bool)
    ensures
        r == spec_busy(status),
{
    status >> 7 != 0
}

/// Unpack the 20-bit humidity fraction from a frame.
pub fn raw_humidity(frame: &[u8; 6]) -> (r: u32)
    ensures
        r == spec_raw_humidity(frame@),
        r < 0x100000,
{
    let b3 = frame[3];
    proof {
        assert(b3 >> 4 < 16) by (bit_vector);
    }
    let hi = frame[1] as u32;
    let mid = frame[2] as u32;
    let lo = (b3 >> 4) as u32;
    hi * 4096 + mid * 16 + lo
}

/// Unpack the 20-bit temperature fraction from a frame.
pub fn raw_temperature(frame: &[u8; 6]) -> (r: u32)
    ensures
        r == spec_raw_temperature(frame@),
        r < 0x100000,
{
    let b3 = frame[3];
    proof {
        assert(b3 & 0x0f < 16) by (bit_vector);
    }
    let hi = (b3 & 0x0f) as u32;
    let mid = frame[4] as u32;
    let lo = frame[5] as u32;
    hi * 65536 + mid * 256 + lo
}

} // verus!
