//! Errors reported by the buffer's constructors and write operations.

use vstd::prelude::*;

verus! {

/// Why a buffer operation was rejected.
#[derive(Clone, Copy, Debug, PartialEq, Eq, Structural)]
pub enum BufferError {
    /// Storage for one of the four arrays could not be obtained.
    AllocationFailure,
    /// The operation needs a slot that the buffer does not have.
    CapacityExceeded,
}

} // verus!
