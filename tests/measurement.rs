use granit::measurement::{
    decode, is_finite_bits, DecodeError, MoistureMeasurement, RawMeasurement, MAX_UTC_SECONDS,
    MIN_UTC_SECONDS,
};

fn raw(datetime: Option<i64>, temperature: Option<f32>, dryness_index: Option<f32>) -> RawMeasurement {
    RawMeasurement {
        datetime,
        temperature: temperature.map(f32::to_bits),
        dryness_index: dryness_index.map(f32::to_bits),
    }
}

#[test]
fn test_measure_deserialization() {
    let decoded = decode(&raw(Some(1684599720), Some(1.2), Some(1.24)));
    assert!(decoded.is_ok(), "Deserialization failed");
}

#[test]
fn decode_keeps_fields() {
    let m = decode(&raw(Some(1000), Some(21.5), Some(0.4))).unwrap();
    assert_eq!(
        m,
        MoistureMeasurement { datetime: 1000, temperature: 21.5f32.to_bits(), dryness_index: 0.4f32.to_bits() }
    );
}

#[test]
fn missing_timestamp_is_rejected() {
    assert_eq!(decode(&raw(None, Some(1.0), Some(1.0))), Err(DecodeError::InvalidTimestamp));
}

#[test]
fn timestamp_range_is_chrono_range() {
    assert!(decode(&raw(Some(MAX_UTC_SECONDS), Some(1.0), Some(1.0))).is_ok());
    assert!(decode(&raw(Some(MIN_UTC_SECONDS), Some(1.0), Some(1.0))).is_ok());
    assert_eq!(
        decode(&raw(Some(MAX_UTC_SECONDS + 1), Some(1.0), Some(1.0))),
        Err(DecodeError::InvalidTimestamp)
    );
    assert_eq!(
        decode(&raw(Some(MIN_UTC_SECONDS - 1), Some(1.0), Some(1.0))),
        Err(DecodeError::InvalidTimestamp)
    );
    assert_eq!(decode(&raw(Some(i64::MAX), Some(1.0), Some(1.0))), Err(DecodeError::InvalidTimestamp));
}

#[test]
fn missing_or_infinite_temperature_is_rejected() {
    assert_eq!(decode(&raw(Some(0), None, Some(1.0))), Err(DecodeError::InvalidTemperature));
    assert_eq!(decode(&raw(Some(0), Some(f32::INFINITY), Some(1.0))), Err(DecodeError::InvalidTemperature));
    assert_eq!(decode(&raw(Some(0), Some(f32::NAN), None)), Err(DecodeError::InvalidTemperature));
}

#[test]
fn missing_or_infinite_dryness_is_rejected() {
    assert_eq!(decode(&raw(Some(0), Some(1.0), None)), Err(DecodeError::InvalidDrynessIndex));
    assert_eq!(
        decode(&raw(Some(0), Some(1.0), Some(f32::NEG_INFINITY))),
        Err(DecodeError::InvalidDrynessIndex)
    );
}

#[test]
fn finite_bits_matches_float_classification() {
    for v in [0.0f32, -0.0, 1.5, f32::MAX, f32::MIN_POSITIVE, 1.0e-45, f32::INFINITY, f32::NEG_INFINITY, f32::NAN] {
        assert_eq!(is_finite_bits(v.to_bits()), v.is_finite());
    }
}
