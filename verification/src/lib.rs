//! Coordination-free, time-ordered 64-bit identifiers.
//!
//! An identifier packs a millisecond timestamp, the number of the worker that
//! issued it and a per-millisecond sequence counter into one `u64`.

pub mod clock;
pub mod error;
pub mod generator;
pub mod layout;
pub mod trace;

pub use error::SnowflakeError;
pub use generator::SnowflakeGen;
