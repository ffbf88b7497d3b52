//! What an engine asks of the device, as plain values: the two buffers and
//! the two binding slots. The plan is fixed before any device call is made,
//! and never changes afterwards.

use crate::error::EngineError;
use crate::sizing::{storage_buffer_size, storage_bytes, UNIFORM_SIZE};
use vstd::prelude::*;

verus! {

/// What a buffer may be used for.
#[derive(Clone, Copy, Debug, PartialEq, Eq, Structural)]
pub struct BufferUsage {
    pub map_read: bool,
    pub copy_src: bool,
    pub copy_dst: bool,
    pub uniform: bool,
    pub storage: bool,
}

/// A buffer to create: its byte size, its uses, and whether it starts out
/// mapped into host memory.
#[derive(Clone, Copy, Debug, PartialEq, Eq, Structural)]
pub struct BufferPlan {
    pub size: u64,
    pub usage: BufferUsage,
    pub mapped_at_creation: bool,
}

/// How the kernel sees a bound buffer.
#[derive(Clone, Copy, Debug, PartialEq, Eq, Structural)]
pub enum BindingKind {
    Storage { read_only: bool },
    Uniform,
}

/// The shader stages that may see a binding.
#[derive(Clone, Copy, Debug, PartialEq, Eq, Structural)]
pub struct StageSet {
    pub vertex: bool,
    pub fragment: bool,
    pub compute: bool,
}

/// One slot of the bind group layout: a buffer bound whole, or at an
/// offset that each dispatch chooses.
#[derive(Clone, Copy, Debug, PartialEq, Eq, Structural)]
pub struct BindingSlot {
    pub binding: u32,
    pub kind: BindingKind,
    pub has_dynamic_offset: bool,
    pub visibility: StageSet,
}

/// Everything an engine of a given capacity asks of the device.
#[derive(Clone, Copy, Debug, PartialEq, Eq, Structural)]
pub struct EnginePlan {
    pub capacity: usize,
    pub storage: BufferPlan,
    pub uniform: BufferPlan,
    pub storage_slot: BindingSlot,
    pub uniform_slot: BindingSlot,
}

/// The slot the kernel reads and rewrites the vectors through.
pub const STORAGE_BINDING: u32 = 0;

/// The slot the kernel reads the rotation angle from.
pub const UNIFORM_BINDING: u32 = 1;

/// The bind group index the kernel declares both slots in.
pub const BIND_GROUP_INDEX: u32 = 0;

/// Visible to the compute stage and to no other.
pub open spec fn compute_only() -> StageSet {
    StageSet { vertex: false, fragment: false, compute: true }
}

/// The storage buffer is bound read-write, written by the host and copied
/// from for readback.
pub open spec fn storage_usage() -> BufferUsage {
    BufferUsage { map_read: false, copy_src: true, copy_dst: true, uniform: false, storage: true }
}

/// The uniform buffer is bound as a uniform and written by the host.
pub open spec fn uniform_usage() -> BufferUsage {
    BufferUsage { map_read: false, copy_src: false, copy_dst: true, uniform: true, storage: false }
}

/// A result buffer receives a copy and is then mapped for reading.
pub open spec fn result_usage() -> BufferUsage {
    BufferUsage { map_read: true, copy_src: false, copy_dst: true, uniform: false, storage: false }
}

/// The plan of an engine of `capacity` slots, where its storage size can be
/// represented.
pub open spec fn plan_for(capacity: usize) -> Option<EnginePlan> {
    match storage_bytes(capacity) {
        Some(bytes) => Some(
            EnginePlan {
                capacity,
                storage: BufferPlan {
                    size: bytes,
                    usage: storage_usage(),
                    mapped_at_creation: false,
                },
                uniform: BufferPlan {
                    size: UNIFORM_SIZE as u64,
                    usage: uniform_usage(),
                    mapped_at_creation: false,
                },
                storage_slot: BindingSlot {
                    binding: STORAGE_BINDING,
                    kind: BindingKind::Storage { read_only: false },
                    has_dynamic_offset: false,
                    visibility: compute_only(),
                },
                uniform_slot: BindingSlot {
                    binding: UNIFORM_BINDING,
                    kind: BindingKind::Uniform,
                    has_dynamic_offset: false,
                    visibility: compute_only(),
                },
            },
        ),
        None => None,
    }
}

impl EnginePlan {
    /// Plans an engine of `capacity` slots. Fails with `SizeOverflow`, and
    /// plans nothing, exactly when the storage size cannot be represented.
    pub fn new(capacity: usize) -> (plan: Result<EnginePlan, EngineError>)
        ensures
            match plan_for(capacity) {
                Some(planned) => plan == Ok::<EnginePlan, EngineError>(planned),
                None => plan == Err::<EnginePlan, EngineError>(EngineError::SizeOverflow),
            },
    {
        let bytes: u64 = match storage_buffer_size(capacity) {
            Ok(bytes) => bytes,
            Err(error) => {
                return Err(error);
            },
        };
        let visibility = StageSet { vertex: false, fragment: false, compute: true };
        Ok(
            EnginePlan {
                capacity,
                storage: BufferPlan {
                    size: bytes,
                    usage: BufferUsage {
                        map_read: false,
                        copy_src: true,
                        copy_dst: true,
                        uniform: false,
                        storage: true,
                    },
                    mapped_at_creation: false,
                },
                uniform: BufferPlan {
                    size: UNIFORM_SIZE as u64,
                    usage: BufferUsage {
                        map_read: false,
                        copy_src: false,
                        copy_dst: true,
                        uniform: true,
                        storage: false,
                    },
                    mapped_at_creation: false,
                },
                storage_slot: BindingSlot {
                    binding: STORAGE_BINDING,
                    kind: BindingKind::Storage { read_only: false },
                    has_dynamic_offset: false,
                    visibility,
                },
                uniform_slot: BindingSlot {
                    binding: UNIFORM_BINDING,
                    kind: BindingKind::Uniform,
                    has_dynamic_offset: false,
                    visibility,
                },
            },
        )
    }

    /// The buffer a readback copies into: as large as the storage buffer,
    /// a copy destination that the host can map for reading once the copy
    /// is done.
    pub fn result_buffer(&self) -> (plan: BufferPlan)
        ensures
            plan == (BufferPlan {
                size: self.storage.size,
                usage: result_usage(),
                mapped_at_creation: false,
            }),
    {
        BufferPlan {
            size: self.storage.size,
            usage: BufferUsage {
                map_read: true,
                copy_src: false,
                copy_dst: true,
                uniform: false,
                storage: false,
            },
            mapped_at_creation: false,
        }
    }
}

} // verus!
