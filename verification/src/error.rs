//! What can go wrong.

use vstd::prelude::*;

verus! {

/// Why a generator could not be made, or could not issue an identifier.
#[derive(Clone, Copy, Debug, PartialEq, Eq, Structural)]
pub enum SnowflakeError {
    /// The clock could not be read, or what it reported cannot be a
    /// timestamp: it lies before the epoch that identifiers count from, or
    /// does not fit in 64 bits.
    ClockFault,
    /// The worker number does not fit in the worker field.
    InvalidWorkerId,
}

} // verus!
