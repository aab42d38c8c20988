//! Faults that the buffers report.

use vstd::prelude::*;

verus! {

/// Why a buffer declined an operation.
#[derive(Clone, Copy, Debug, PartialEq, Eq, Structural)]
pub enum BufferError {
    /// A buffer was asked for with room for no sample at all.
    ZeroCapacity,
    /// A freeze was asked of a buffer that is frozen already.
    AlreadyFrozen,
    /// The recording was asked of a buffer that was never frozen.
    NotFrozen,
}

} // verus!
