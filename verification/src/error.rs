//! The ways an engine operation can fail.

use vstd::prelude::*;

verus! {

/// Why an engine operation was refused. Errors are handed to the immediate
/// caller; nothing is retried.
#[derive(Clone, Copy, Debug, PartialEq, Eq, Structural)]
pub enum EngineError {
    /// Capacity times element size cannot be represented as a buffer size.
    SizeOverflow,
    /// The device refused an allocation, a binding or a submission.
    DeviceResourceError,
    /// The destination of a copy is smaller than the region to copy.
    SizeMismatch,
    /// The map request failed, or its completion was never delivered.
    ReadbackFailed,
}

} // verus!
