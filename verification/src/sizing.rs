//! Buffer sizes, computed with explicit overflow checks.

use crate::error::EngineError;
use vstd::prelude::*;

verus! {

/// Number of storage slots an engine is built with.
pub const MAX_DATA_SIZE: usize = 1024;

/// Bytes of one storage entry: two packed 32-bit floats.
pub const STORAGE_ENTRY_SIZE: usize = 8;

/// Bytes of the uniform block: one 32-bit float.
pub const UNIFORM_SIZE: usize = 4;

/// The byte size of a storage buffer of `capacity` entries, where the
/// platform's size type can hold it.
pub open spec fn storage_bytes(capacity: usize) -> Option<u64> {
    if capacity * STORAGE_ENTRY_SIZE <= usize::MAX {
        Some((capacity * STORAGE_ENTRY_SIZE) as u64)
    } else {
        None
    }
}

/// Sizes the storage buffer for `capacity` entries, or reports
/// `SizeOverflow` when the product does not fit; it never wraps.
pub fn storage_buffer_size(capacity: usize) -> (size: Result<u64, EngineError>)
    ensures
        match storage_bytes(capacity) {
            Some(bytes) => size == Ok::<u64, EngineError>(bytes),
            None => size == Err::<u64, EngineError>(EngineError::SizeOverflow),
        },
{
    match STORAGE_ENTRY_SIZE.checked_mul(capacity) {
        Some(bytes) => Ok(bytes as u64),
        None => Err(EngineError::SizeOverflow),
    }
}

} // verus!
