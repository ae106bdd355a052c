//! Decoding of telemetry payloads into measurement records.
//!
//! Temperatures and dryness indices are single-precision numbers carried as
//! their IEEE 754 bit patterns; timestamps are whole seconds since the Unix epoch.

use vstd::prelude::*;

verus! {

/// The earliest second that a UTC instant can hold (1 January of year -262143).
pub const MIN_UTC_SECONDS: i64 = -8334601228800;

/// The latest second that a UTC instant can hold (31 December 262142, 23:59:59).
pub const MAX_UTC_SECONDS: i64 = 8210266876799;

/// Relies on chrono's `DateTime::<Utc>::from_timestamp_secs`: it yields an
/// instant exactly when the day lies between chrono's first and last
/// representable dates, which bounds `secs` by the two constants above.
#[verifier::external_body]
fn is_utc_instant(secs: i64) -> (r: bool)
    ensures
        r == (MIN_UTC_SECONDS <= secs && secs <= MAX_UTC_SECONDS),
{
    chrono::DateTime::<chrono::Utc>::from_timestamp_secs(secs).is_some()
}

/// A payload as received: each field is absent when it was missing or not a number.
#[derive(Clone, Copy, Debug, PartialEq, Eq, Structural)]
pub struct RawMeasurement {
    /// Seconds since the Unix epoch.
    pub datetime: Option<i64>,
    /// Bit pattern of a single-precision temperature.
    pub temperature: Option<u32>,
    /// Bit pattern of a single-precision dryness index.
    pub dryness_index: Option<u32>,
}

/// A validated measurement.
#[derive(Clone, Copy, Debug, PartialEq, Eq, Structural)]
pub struct MoistureMeasurement {
    /// Seconds since the Unix epoch, within the range of UTC instants.
    pub datetime: i64,
    /// Bit pattern of a finite single-precision temperature.
    pub temperature: u32,
    /// Bit pattern of a finite single-precision dryness index.
    pub dryness_index: u32,
}

/// Which field of a payload failed validation.
#[derive(Clone, Copy, Debug, PartialEq, Eq, Structural)]
pub enum DecodeError {
    /// The timestamp is missing or names no representable instant.
    InvalidTimestamp,
    /// The temperature is missing or not a finite number.
    InvalidTemperature,
    /// The dryness index is missing or not a finite number.
    InvalidDrynessIndex,
}

/// An IEEE 754 single is finite unless its eight exponent bits are all set.
pub open spec fn finite_bits(bits: u32) -> bool {
    (bits >> 23u32) & 0xffu32 != 0xffu32
}

/// Whether `bits` encodes a finite single-precision number.
pub fn is_finite_bits(bits: u32) -> (r: bool)
    ensures
        r == finite_bits(bits),
{
    (bits >> 23u32) & 0xffu32 != 0xffu32
}

/// Whether `secs` names a representable UTC instant.
pub open spec fn valid_instant(secs: i64) -> bool {
    MIN_UTC_SECONDS <= secs <= MAX_UTC_SECONDS
}

/// What `decode` returns: fields are checked in the order timestamp,
/// temperature, dryness index, and the first failure is reported.
pub open spec fn decoded(raw: RawMeasurement) -> Result<MoistureMeasurement, DecodeError> {
    if !(raw.datetime is Some && valid_instant(raw.datetime->0)) {
        Err(DecodeError::InvalidTimestamp)
    } else if !(raw.temperature is Some && finite_bits(raw.temperature->0)) {
        Err(DecodeError::InvalidTemperature)
    } else if !(raw.dryness_index is Some && finite_bits(raw.dryness_index->0)) {
        Err(DecodeError::InvalidDrynessIndex)
    } else {
        Ok(
            MoistureMeasurement {
                datetime: raw.datetime->0,
                temperature: raw.temperature->0,
                dryness_index: raw.dryness_index->0,
            },
        )
    }
}

/// Validate a payload into a measurement.
pub fn decode(raw: &RawMeasurement) -> (r: Result<MoistureMeasurement, DecodeError>)
    ensures
        r == decoded(*raw),
{
    let datetime = match raw.datetime {
        Some(t) => t,
        None => return Err(DecodeError::InvalidTimestamp),
    };
    if !is_utc_instant(datetime) {
        return Err(DecodeError::InvalidTimestamp);
    }
    let temperature = match raw.temperature {
        Some(v) => v,
        None => return Err(DecodeError::InvalidTemperature),
    };
    if !is_finite_bits(temperature) {
        return Err(DecodeError::InvalidTemperature);
    }
    let dryness_index = match raw.dryness_index {
        Some(v) => v,
        None => return Err(DecodeError::InvalidDrynessIndex),
    };
    if !is_finite_bits(dryness_index) {
        return Err(DecodeError::InvalidDrynessIndex);
    }
    Ok(MoistureMeasurement { datetime, temperature, dryness_index })
}

} // verus!
