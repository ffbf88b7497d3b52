//! The compute engine: the device resources of one plan, owned together.
//!
//! The bind group refers to the two buffers, so the three live and die as
//! one value. Nothing here replaces a buffer; only buffer contents change.

use crate::device::{
    buffer_len, buffer_size, buffer_usage, create_bind_group, create_bind_group_layout, create_buffer,
    create_compute_pipeline, create_pipeline_layout, create_shader_module, layout_entry,
    record_buffer_copy, record_compute_pass, recorded, Capture, Recorded, ScopeReport,
};
use crate::error::EngineError;
use crate::layout::{encode_entries, entries_bytes, uniform_bytes, StorageData, UniformData};
use crate::plan::{plan_for, result_usage, EnginePlan, BIND_GROUP_INDEX};
use crate::readback::{Readback, Stage};
use crate::sizing::MAX_DATA_SIZE;
use vstd::prelude::*;
use wgpu::{BindGroup, BindGroupLayoutEntry, Buffer, CommandEncoder, ComputePipeline, Device};

verus! {

/// The kernel. Slot 0 of group 0 is the array of vectors, read and written
/// in place; slot 1 is the rotation angle in degrees. One workgroup holds
/// one invocation, so a dispatch of `n` workgroups rotates the first `n`
/// vectors.
pub const KERNEL_SOURCE: &'static str = "\
struct Params {
    rotate_deg: f32,
}

@group(0) @binding(0) var<storage, read_write> vectors: array<vec2<f32>>;
@group(0) @binding(1) var<uniform> params: Params;

@compute @workgroup_size(1)
fn main(@builtin(global_invocation_id) id: vec3<u32>) {
    if (id.x >= arrayLength(&vectors)) {
        return;
    }
    let angle = radians(params.rotate_deg);
    let c = cos(angle);
    let s = sin(angle);
    let v = vectors[id.x];
    vectors[id.x] = vec2<f32>(v.x * c - v.y * s, v.x * s + v.y * c);
}
";

/// The kernel's entry point.
pub const KERNEL_ENTRY_POINT: &'static str = "main";

/// Whether a closed error scope shows that the device refused something.
pub open spec fn refused(report: ScopeReport) -> bool {
    report != ScopeReport::Clean
}

/// Turns what the three error scopes held into the outcome of the device
/// work they covered: success only if all three are clean.
pub fn device_verdict(validation: ScopeReport, memory: ScopeReport, internal: ScopeReport) -> (verdict:
    Result<(), EngineError>)
    ensures
        verdict == (if refused(validation) || refused(memory) || refused(internal) {
            Err::<(), EngineError>(EngineError::DeviceResourceError)
        } else {
            Ok::<(), EngineError>(())
        }),
{
    match (validation, memory, internal) {
        (ScopeReport::Clean, ScopeReport::Clean, ScopeReport::Clean) => Ok(()),
        _ => Err(EngineError::DeviceResourceError),
    }
}

/// Closes a capture and says whether the device work it covered went
/// through: whatever the device refused meanwhile is a
/// `DeviceResourceError`.
pub fn settle(capture: Capture) -> (verdict: Result<(), EngineError>)
    ensures
        verdict is Err ==> verdict == Err::<(), EngineError>(EngineError::DeviceResourceError),
{
    let (validation, memory, internal) = capture.close();
    device_verdict(validation, memory, internal)
}

/// Bytes to write into a device buffer, and the byte offset to write at.
pub struct BufferWrite {
    pub offset: u64,
    pub bytes: Vec<u8>,
}

/// A rotation engine on one device.
pub struct ComputeShader {
    bind_group: BindGroup,
    storage_buffer: Buffer,
    uniform_buffer: Buffer,
    pipeline: ComputePipeline,
    plan: EnginePlan,
}

impl ComputeShader {
    #[verifier::type_invariant]
    spec fn well_formed(self) -> bool {
        &&& plan_for(self.plan.capacity) == Some(self.plan)
        &&& buffer_len(self.storage_buffer) == self.plan.storage.size
        &&& buffer_len(self.uniform_buffer) == self.plan.uniform.size
        &&& buffer_usage(self.storage_buffer) == self.plan.storage.usage
        &&& buffer_usage(self.uniform_buffer) == self.plan.uniform.usage
    }

    /// The plan the engine was built from.
    pub closed spec fn plan(&self) -> EnginePlan {
        self.plan
    }

    /// The device array of vectors.
    pub closed spec fn storage(&self) -> Buffer {
        self.storage_buffer
    }

    /// The device copy of the kernel's parameter block.
    pub closed spec fn uniform(&self) -> Buffer {
        self.uniform_buffer
    }

    /// The compiled kernel.
    pub closed spec fn pipeline(&self) -> ComputePipeline {
        self.pipeline
    }

    /// The binding of both buffers to the kernel's slots.
    pub closed spec fn bind_group(&self) -> BindGroup {
        self.bind_group
    }

    /// Builds an engine of `MAX_DATA_SIZE` slots on `device`.
    pub fn new(device: &Device) -> (made: Result<ComputeShader, EngineError>)
        ensures
            match made {
                Ok(engine) => {
                    &&& plan_for(MAX_DATA_SIZE) == Some(engine.plan())
                    &&& buffer_len(engine.storage()) == engine.plan().storage.size
                    &&& buffer_len(engine.uniform()) == engine.plan().uniform.size
                    &&& buffer_usage(engine.storage()) == engine.plan().storage.usage
                    &&& buffer_usage(engine.uniform()) == engine.plan().uniform.usage
                },
                Err(error) => error == (if plan_for(MAX_DATA_SIZE) is None {
                    EngineError::SizeOverflow
                } else {
                    EngineError::DeviceResourceError
                }),
            },
    {
        ComputeShader::with_capacity(device, MAX_DATA_SIZE)
    }

    /// Builds an engine of `capacity` slots on `device`: the bind group
    /// layout, the pipeline layout, both buffers, the bind group and the
    /// kernel's pipeline.
    ///
    /// The sizes are settled first. If the storage size cannot be
    /// represented the result is `SizeOverflow` and the device is not
    /// touched. Otherwise the device decides: anything it refuses comes back
    /// as `DeviceResourceError`, and no engine is returned.
    pub fn with_capacity(device: &Device, capacity: usize) -> (made: Result<
        ComputeShader,
        EngineError,
    >)
        ensures
            match made {
                Ok(engine) => {
                    &&& plan_for(capacity) == Some(engine.plan())
                    &&& buffer_len(engine.storage()) == engine.plan().storage.size
                    &&& buffer_len(engine.uniform()) == engine.plan().uniform.size
                    &&& buffer_usage(engine.storage()) == engine.plan().storage.usage
                    &&& buffer_usage(engine.uniform()) == engine.plan().uniform.usage
                },
                Err(error) => error == (if plan_for(capacity) is None {
                    EngineError::SizeOverflow
                } else {
                    EngineError::DeviceResourceError
                }),
            },
    {
        let plan = match EnginePlan::new(capacity) {
            Ok(plan) => plan,
            Err(error) => {
                return Err(error);
            },
        };
        let capture = Capture::open(device);
        let mut entries: Vec<BindGroupLayoutEntry> = Vec::new();
        entries.push(layout_entry(&plan.storage_slot));
        entries.push(layout_entry(&plan.uniform_slot));
        let bind_group_layout = create_bind_group_layout(
            &capture,
            "compute_bind_group_layout",
            &entries,
        );
        let pipeline_layout = create_pipeline_layout(&capture, "pipeline_layout", &bind_group_layout);
        let storage_buffer = create_buffer(&capture, "storage_buffer", &plan.storage);
        let uniform_buffer = create_buffer(&capture, "uniform_buffer", &plan.uniform);
        let bind_group = create_bind_group(
            &capture,
            "bind_group",
            &bind_group_layout,
            plan.storage_slot.binding,
            &storage_buffer,
            plan.uniform_slot.binding,
            &uniform_buffer,
        );
        let shader = create_shader_module(&capture, "shader", KERNEL_SOURCE);
        let pipeline = create_compute_pipeline(
            &capture,
            "pipeline",
            &pipeline_layout,
            &shader,
            KERNEL_ENTRY_POINT,
        );

        match settle(capture) {
            Ok(()) => Ok(ComputeShader { bind_group, storage_buffer, uniform_buffer, pipeline, plan }),
            Err(error) => Err(error),
        }
    }

    /// Number of slots in the device array.
    pub fn capacity(&self) -> (capacity: usize)
        ensures
            capacity == self.plan().capacity,
    {
        self.plan.capacity
    }

    /// Whether `count` slots from `offset` on lie within the capacity.
    pub fn holds(&self, offset: usize, count: usize) -> (held: bool)
        ensures
            held == (offset + count <= self.plan().capacity),
    {
        offset <= self.plan.capacity && count <= self.plan.capacity - offset
    }

    /// What to write so that `data` fills the slots from `offset` on. The
    /// slots written stay within the capacity.
    pub fn storage_write(&self, offset: usize, data: &[StorageData]) -> (write: BufferWrite)
        requires
            offset + data.len() <= self.plan().capacity,
        ensures
            write.offset == 8 * offset,
            write.bytes@ == entries_bytes(data@),
            write.offset + write.bytes@.len() <= self.plan().storage.size,
    {
        proof {
            use_type_invariant(self);
        }
        let bytes = encode_entries(data);
        BufferWrite { offset: (8 * offset) as u64, bytes }
    }

    /// What to write so that the next dispatch rotates by `data`.
    pub fn uniform_write(&self, data: UniformData) -> (write: BufferWrite)
        ensures
            write.offset == 0,
            write.bytes@ == uniform_bytes(data),
            write.bytes@.len() == self.plan().uniform.size,
    {
        proof {
            use_type_invariant(self);
        }
        BufferWrite { offset: 0, bytes: data.to_bytes() }
    }

    /// Creates a fresh buffer for one readback: as large as the device
    /// array, a copy destination that the host can map for reading.
    /// Whether it is created is up to the device.
    pub fn create_result_buffer(&self, device: &Device) -> (made: Result<Buffer, EngineError>)
        ensures
            match made {
                Ok(buffer) => {
                    &&& buffer_len(buffer) == self.plan().storage.size
                    &&& buffer_usage(buffer) == result_usage()
                },
                Err(error) => error == EngineError::DeviceResourceError,
            },
    {
        let plan = self.plan.result_buffer();
        let capture = Capture::open(device);
        let buffer = create_buffer(&capture, "result_buffer", &plan);
        match settle(capture) {
            Ok(()) => Ok(buffer),
            Err(error) => Err(error),
        }
    }

    /// A readback of the whole device array, not yet started.
    pub fn readback(&self) -> (readback: Readback)
        ensures
            readback == (Readback { stage: Stage::Encoding, expected: self.plan().storage.size }),
    {
        Readback::new(self.plan.storage.size)
    }

    /// Records one compute pass into `encoder`: the kernel's pipeline, the
    /// bind group, and a dispatch of `num_of_data` workgroups along the
    /// first axis. The count is the number of vectors in use, not the
    /// capacity, and stays within it.
    pub fn encode_compute_pass(&self, encoder: &mut CommandEncoder, num_of_data: u32)
        requires
            num_of_data <= self.plan().capacity,
        ensures
            recorded(*final(encoder)) == recorded(*old(encoder)).push(
                Recorded::ComputePass {
                    pipeline: self.pipeline(),
                    group_index: BIND_GROUP_INDEX,
                    bind_group: self.bind_group(),
                    workgroups: (num_of_data, 1, 1),
                },
            ),
    {
        record_compute_pass(
            encoder,
            &self.pipeline,
            BIND_GROUP_INDEX,
            &self.bind_group,
            (num_of_data, 1, 1),
        );
    }

    /// Records a copy of the whole device array into `buffer`.
    ///
    /// A destination smaller than the array is refused with `SizeMismatch`
    /// and nothing is recorded. Otherwise the copy starts at byte 0 on both
    /// sides and moves as many bytes as the array has.
    pub fn encode_data_copy(&self, encoder: &mut CommandEncoder, buffer: &Buffer) -> (copied:
        Result<(), EngineError>)
        ensures
            buffer_len(*buffer) < self.plan().storage.size ==> {
                &&& copied == Err::<(), EngineError>(EngineError::SizeMismatch)
                &&& *final(encoder) == *old(encoder)
            },
            buffer_len(*buffer) >= self.plan().storage.size ==> {
                &&& copied == Ok::<(), EngineError>(())
                &&& recorded(*final(encoder)) == recorded(*old(encoder)).push(
                    Recorded::BufferCopy {
                        source: self.storage(),
                        source_offset: 0,
                        destination: *buffer,
                        destination_offset: 0,
                        size: self.plan().storage.size,
                    },
                )
            },
    {
        proof {
            use_type_invariant(self);
        }
        let size: u64 = self.plan.storage.size;
        if buffer_size(buffer) < size {
            return Err(EngineError::SizeMismatch);
        }
        record_buffer_copy(encoder, &self.storage_buffer, 0, buffer, 0, size);
        Ok(())
    }

    /// The device array of vectors.
    pub fn storage_buffer(&self) -> (buffer: &Buffer)
        ensures
            *buffer == self.storage(),
            buffer_len(*buffer) == self.plan().storage.size,
            buffer_usage(*buffer) == self.plan().storage.usage,
    {
        proof {
            use_type_invariant(self);
        }
        &self.storage_buffer
    }

    /// The device copy of the kernel's parameter block.
    pub fn uniform_buffer(&self) -> (buffer: &Buffer)
        ensures
            *buffer == self.uniform(),
            buffer_len(*buffer) == self.plan().uniform.size,
            buffer_usage(*buffer) == self.plan().uniform.usage,
    {
        proof {
            use_type_invariant(self);
        }
        &self.uniform_buffer
    }
}

} // verus!
