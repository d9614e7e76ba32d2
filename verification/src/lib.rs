//! Verified core of a BLE standing-desk controller.
//!
//! The library holds the pure, provable parts of the controller: the
//! telemetry decoder that turns raw notification bytes into a physical
//! height, the single-writer height cache, the command packet builder,
//! the event demultiplexer that splits one ordered callback stream into
//! independent sub-streams, the connection lifecycle state machine with
//! bounded retries, and the bounded force-retry orchestrator. The
//! asynchronous radio I/O that drives these machines lives outside the
//! library and feeds them plain values.

pub mod commands;
pub mod connection;
pub mod force;
pub mod demux;
pub mod errors;
pub mod height;
pub mod packets;
pub mod uuid;
