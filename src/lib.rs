//! Device registry and telemetry write-through gateway.
//!
//! The registry keeps one record per device identity; the gateway decodes a
//! telemetry payload, checks the device against the registry and hands back
//! the point that the time-series sink is to store.

pub mod api_docs;
pub mod archive;
pub mod config;
pub mod device;
pub mod gateway;
pub mod measurement;
