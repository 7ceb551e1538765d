//! Telemetry bridge between a periodically sampled environmental sensor and
//! a display: the freshness state machine, the append-only history and the
//! hand-off of the latest observation.

pub mod config;
pub mod freshness;
pub mod history;
pub mod interleaving;
pub mod refresher;
pub mod shared;
pub mod snapshot;
pub mod timestamp;
