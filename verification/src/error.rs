//! The errors an operation on a socket can end with.

use vstd::prelude::*;

verus! {

/// Why the engine refused an operation.
#[derive(Clone, Copy, Debug, PartialEq, Eq, Structural)]
pub enum UdpError {
    /// A buffer is empty or full; the operation may succeed later.
    Exhausted,
    /// The operation is not permitted in the socket's current state.
    Illegal,
    /// A local or remote endpoint is not specified.
    Unaddressable,
    /// The operation is finished.
    Finished,
    /// The data can never fit the buffer it is meant for.
    Truncated,
    /// A packet had an incorrect checksum.
    Checksum,
    /// A packet could not be recognized.
    Unrecognized,
    /// A packet was split into fragments.
    Fragmented,
    /// A packet was self-contradictory.
    Malformed,
    /// A packet contradicted the socket's state.
    Dropped,
    /// A packet used a feature the engine does not support.
    NotSupported,
    /// An error this library has no name for.
    Unknown,
}

} // verus!
