//! The telemetry write-through gateway.
//!
//! A submission runs in two steps around the sink call, so that no registry
//! borrow is held while the sink is written: `prepare_write` decodes the
//! payload (first, since it is cheap and touches no shared state), then checks
//! the device against the registry and hands back the point to store;
//! `write_outcome` turns the sink's answer into the submission's result.

use vstd::prelude::*;
use crate::device::Registry;
use crate::measurement::{decode, decoded, DecodeError, MoistureMeasurement, RawMeasurement};

verus! {

/// One row for the time-series sink: the device identity and the two readings
/// (as single-precision bit patterns).
#[derive(Clone, Copy, Debug, PartialEq, Eq, Structural)]
pub struct Point {
    pub sensor_id: u128,
    pub temperature: u32,
    pub dryness_index: u32,
}

/// Why a submission failed.
#[derive(Clone, Copy, Debug, PartialEq, Eq, Structural)]
pub enum SubmitError {
    /// The payload did not decode.
    InvalidMeasurement(DecodeError),
    /// No device with this identity is registered.
    NotFound(u128),
    /// The sink did not acknowledge the write.
    SinkUnavailable,
}

/// The point stored for measurement `m` of device `id`.
pub open spec fn point_of(id: u128, m: MoistureMeasurement) -> Point {
    Point { sensor_id: id, temperature: m.temperature, dryness_index: m.dryness_index }
}

/// What `prepare_write` returns for device `id` and payload `raw` against the
/// registry map `devices`.
pub open spec fn prepared(
    devices: Map<u128, Option<serde_json::Value>>,
    id: u128,
    raw: RawMeasurement,
) -> Result<Point, SubmitError> {
    match decoded(raw) {
        Err(e) => Err(SubmitError::InvalidMeasurement(e)),
        Ok(m) => if devices.contains_key(id) {
            Ok(point_of(id, m))
        } else {
            Err(SubmitError::NotFound(id))
        },
    }
}

/// Decode `raw` and check that device `id` is registered; on success the
/// result is the one point the sink is to store. The registry is not changed.
pub fn prepare_write(registry: &Registry, id: u128, raw: &RawMeasurement) -> (r: Result<Point, SubmitError>)
    requires
        registry.wf(),
    ensures
        r == prepared(registry@, id, *raw),
{
    let m = match decode(raw) {
        Ok(m) => m,
        Err(e) => return Err(SubmitError::InvalidMeasurement(e)),
    };
    if !registry.is_registered(id) {
        return Err(SubmitError::NotFound(id));
    }
    Ok(Point { sensor_id: id, temperature: m.temperature, dryness_index: m.dryness_index })
}

/// The submission's result once the sink has answered: success exactly when
/// the sink acknowledged the write. Nothing is retried.
pub fn write_outcome(acknowledged: bool) -> (r: Result<(), SubmitError>)
    ensures
        acknowledged ==> r == Ok::<(), SubmitError>(()),
        !acknowledged ==> r == Err::<(), SubmitError>(SubmitError::SinkUnavailable),
{
    if acknowledged {
        Ok(())
    } else {
        Err(SubmitError::SinkUnavailable)
    }
}

/// Telemetry validation: a payload without a timestamp is rejected as an
/// invalid measurement whatever the registry holds, so no point reaches the sink.
pub proof fn lemma_missing_timestamp_rejected(
    devices: Map<u128, Option<serde_json::Value>>,
    id: u128,
    raw: RawMeasurement,
)
    requires
        raw.datetime is None,
    ensures
        prepared(devices, id, raw) == Err::<Point, SubmitError>(
            SubmitError::InvalidMeasurement(DecodeError::InvalidTimestamp),
        ),
{
}

/// Existence gating of submissions: a well-formed payload for an identity that
/// is not registered fails with `NotFound`, so no point reaches the sink.
pub proof fn lemma_unregistered_rejected(
    devices: Map<u128, Option<serde_json::Value>>,
    id: u128,
    raw: RawMeasurement,
)
    requires
        !devices.contains_key(id),
        decoded(raw) is Ok,
    ensures
        prepared(devices, id, raw) == Err::<Point, SubmitError>(SubmitError::NotFound(id)),
{
}

} // verus!
