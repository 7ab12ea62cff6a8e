//! A process-wide metrics facade: metric keys, a registry of counter, gauge
//! and histogram storage, a debugging recorder that snapshots it, and a
//! set-once slot that publishes a single recorder.

pub mod handles;
pub mod key;
pub mod recorder;
pub mod registry;
pub mod debugging;
pub mod metadata;
