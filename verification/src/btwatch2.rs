//! Decoder for the manufacturer-data payload that the meter advertises.
//!
//! The payload is a fixed little-endian record of eight bytes:
//!
//! | offset | width | field   | unit                    |
//! |--------|-------|---------|-------------------------|
//! | 0      | 1     | relay   | raw status              |
//! | 1      | 2     | voltage | tenths of a volt        |
//! | 3      | 2     | current | thousandths of an ampere|
//! | 5      | 3     | power   | thousandths of a watt   |
//!
//! The fields are kept as the integer counts that the device sends. Dividing
//! a count by the matching `*_PER_*` constant gives the physical quantity.

use vstd::prelude::*;

verus! {

/// Company identifier under which the meter publishes its payload.
pub const COMPANY_ID: u16 = 0x0B60;

/// Number of leading bytes of a payload that carry the four fields.
pub const PAYLOAD_LEN: usize = 8;

/// Voltage counts in one volt.
pub const VOLTAGE_COUNTS_PER_VOLT: u16 = 10;

/// Current counts in one ampere.
pub const CURRENT_COUNTS_PER_AMPERE: u16 = 1000;

/// Power counts in one watt.
pub const POWER_COUNTS_PER_WATT: u32 = 1000;

/// One reading of the meter, in the device's own integer counts.
#[derive(Clone, Copy, Debug, PartialEq, Eq, Structural)]
pub struct Measurement {
    /// Relay status byte, passed through as sent.
    pub relay: u8,
    /// Voltage in tenths of a volt.
    pub voltage: u16,
    /// Current in thousandths of an ampere.
    pub current: u16,
    /// Power in thousandths of a watt; always below 2^24.
    pub power: u32,
}

/// Why a payload could not be decoded.
#[derive(Clone, Copy, Debug, PartialEq, Eq, Structural)]
pub enum DecodeError {
    /// The payload has fewer than [`PAYLOAD_LEN`] bytes; `len` is what it has.
    TooShort { len: usize },
}

/// Value of two bytes read as a little-endian unsigned integer.
pub open spec fn le16(b0: u8, b1: u8) -> int {
    b0 + 256 * b1
}

/// Value of three bytes read as a little-endian unsigned integer.
pub open spec fn le24(b0: u8, b1: u8, b2: u8) -> int {
    b0 + 256 * b1 + 65536 * b2
}

/// The reading that the first eight bytes of `raw` encode.
pub open spec fn measurement_of(raw: Seq<u8>) -> Measurement
    recommends
        raw.len() >= PAYLOAD_LEN,
{
    Measurement {
        relay: raw[0],
        voltage: le16(raw[1], raw[2]) as u16,
        current: le16(raw[3], raw[4]) as u16,
        power: le24(raw[5], raw[6], raw[7]) as u32,
    }
}

/// What decoding `raw` yields: a reading when all four fields are present,
/// and the length otherwise.
pub open spec fn decode(raw: Seq<u8>) -> Result<Measurement, DecodeError> {
    if raw.len() >= PAYLOAD_LEN {
        Ok(measurement_of(raw))
    } else {
        Err(DecodeError::TooShort { len: raw.len() as usize })
    }
}

/// Decodes a manufacturer-data payload.
///
/// The result depends on the bytes alone. A payload shorter than
/// [`PAYLOAD_LEN`] is rejected, and no other is; bytes past the eighth are
/// not looked at.
pub fn parse_manufacturer_data(value: &Vec<u8>) -> (result: Result<Measurement, DecodeError>)
    ensures
        result == decode(value@),
        result is Ok <==> value.len() >= PAYLOAD_LEN,
{
    if value.len() < PAYLOAD_LEN {
        return Err(DecodeError::TooShort { len: value.len() });
    }
    let voltage: u16 = value[1] as u16 + value[2] as u16 * 256;
    let current: u16 = value[3] as u16 + value[4] as u16 * 256;
    let power: u32 = value[5] as u32 + value[6] as u32 * 256 + value[7] as u32 * 65536;
    Ok(Measurement { relay: value[0], voltage, current, power })
}

/// Every field holds the full little-endian value of its bytes: none is cut
/// to fit, and the power, which has three bytes, stays below 2^24.
pub proof fn lemma_fields_are_exact(raw: Seq<u8>)
    ensures
        measurement_of(raw).relay == raw[0],
        measurement_of(raw).voltage == raw[1] + 256 * raw[2],
        measurement_of(raw).current == raw[3] + 256 * raw[4],
        measurement_of(raw).power == raw[5] + 256 * raw[6] + 65536 * raw[7],
        measurement_of(raw).power < 0x100_0000,
{
}

/// Decoding is total: every payload gives either a reading or its length as
/// the error, and it gives the error exactly when it is too short to hold
/// all four fields.
pub proof fn lemma_short_payload_is_rejected(raw: Seq<u8>)
    ensures
        raw.len() < PAYLOAD_LEN ==> decode(raw) == Err::<Measurement, DecodeError>(
            DecodeError::TooShort { len: raw.len() as usize },
        ),
        raw.len() >= PAYLOAD_LEN ==> decode(raw) is Ok,
{
}

/// Decoding ignores every byte past the eighth: two payloads that agree on
/// their first eight bytes decode to the same reading, whatever follows.
pub proof fn lemma_trailing_bytes_are_ignored(a: Seq<u8>, b: Seq<u8>)
    requires
        a.len() >= PAYLOAD_LEN,
        b.len() >= PAYLOAD_LEN,
        forall|i: int| 0 <= i < PAYLOAD_LEN ==> a[i] == b[i],
    ensures
        decode(a) == decode(b),
{
}

} // verus!
