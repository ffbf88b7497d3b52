//! The device interface: the `wgpu` types the engine holds and the calls it
//! makes on them. The calls are not proved. Each contract says what is taken
//! on trust from `wgpu`; a call without an `ensures` promises nothing about
//! what the device did.
//!
//! `wgpu` hands every error of a device to the innermost open error scope of
//! its class, and panics in its default handler when there is none.
//! Resources are therefore created only under a `Capture`, which holds a
//! scope of every class open and keeps what the device refused for the
//! caller.

use crate::plan::{BindingKind, BindingSlot, BufferPlan, BufferUsage};
use std::future::Future;
use std::task::{Context, Poll, Waker};
use vstd::prelude::*;
use wgpu::{
    BindGroup, BindGroupDescriptor, BindGroupEntry, BindGroupLayout, BindGroupLayoutDescriptor,
    BindGroupLayoutEntry, BindingType, Buffer, BufferBindingType, BufferDescriptor, BufferUsages,
    CommandEncoder, ComputePassDescriptor, ComputePipeline, ComputePipelineDescriptor, Device,
    ErrorFilter, PipelineLayout, PipelineLayoutDescriptor, ShaderModule, ShaderModuleDescriptor,
    ShaderSource, ShaderStages,
};

verus! {

/// `wgpu::Device`: a connection to a device. Opaque.
#[verifier::external_type_specification]
#[verifier::external_body]
pub struct ExDevice(Device);

/// `wgpu::Buffer`: a handle to device memory. Opaque but for its length
/// and its uses.
#[verifier::external_type_specification]
#[verifier::external_body]
pub struct ExBuffer(Buffer);

/// `wgpu::BindGroupLayoutEntry`: the description of one binding slot. Opaque.
#[verifier::external_type_specification]
#[verifier::external_body]
pub struct ExBindGroupLayoutEntry(BindGroupLayoutEntry);

/// `wgpu::BindGroupLayout`. Opaque.
#[verifier::external_type_specification]
#[verifier::external_body]
pub struct ExBindGroupLayout(BindGroupLayout);

/// `wgpu::PipelineLayout`. Opaque.
#[verifier::external_type_specification]
#[verifier::external_body]
pub struct ExPipelineLayout(PipelineLayout);

/// `wgpu::BindGroup`. Opaque.
#[verifier::external_type_specification]
#[verifier::external_body]
pub struct ExBindGroup(BindGroup);

/// `wgpu::ShaderModule`. Opaque.
#[verifier::external_type_specification]
#[verifier::external_body]
pub struct ExShaderModule(ShaderModule);

/// `wgpu::ComputePipeline`. Opaque.
#[verifier::external_type_specification]
#[verifier::external_body]
pub struct ExComputePipeline(ComputePipeline);

/// `wgpu::CommandEncoder`: opaque but for what it was asked to record.
#[verifier::external_type_specification]
#[verifier::external_body]
pub struct ExCommandEncoder(CommandEncoder);

/// One command that an encoder was asked to record.
pub enum Recorded {
    /// A compute pass that sets `pipeline`, binds `bind_group` at
    /// `group_index` and dispatches `workgroups` once.
    ComputePass {
        pipeline: ComputePipeline,
        group_index: u32,
        bind_group: BindGroup,
        workgroups: (u32, u32, u32),
    },
    /// A copy of `size` bytes between two buffers.
    BufferCopy {
        source: Buffer,
        source_offset: u64,
        destination: Buffer,
        destination_offset: u64,
        size: u64,
    },
}

/// The kinds of device failure an error scope can catch.
#[derive(Clone, Copy, Debug, PartialEq, Eq, Structural)]
pub enum ErrorClass {
    Validation,
    OutOfMemory,
    Internal,
}

/// What an error scope held when it was closed.
#[derive(Clone, Copy, Debug, PartialEq, Eq, Structural)]
pub enum ScopeReport {
    /// Nothing was caught.
    Clean,
    /// The device raised an error of the scope's class.
    Caught,
    /// The device has not answered yet.
    Unsettled,
}

/// An error scope that is open on a device. It can be closed once, on the
/// device it was opened on.
pub struct ErrorScope {
    device: Device,
    class: ErrorClass,
}

impl ErrorScope {
    /// The device the scope is open on.
    pub closed spec fn device(&self) -> Device {
        self.device
    }

    /// The class of errors the scope keeps.
    pub closed spec fn class(&self) -> ErrorClass {
        self.class
    }
}

/// Error scopes of all three classes, open on one device. While a capture
/// is open, no error raised on its device goes uncaptured.
pub struct Capture {
    validation: ErrorScope,
    memory: ErrorScope,
    internal: ErrorScope,
}

impl Capture {
    /// The device the capture is open on.
    pub closed spec fn device(&self) -> Device {
        self.validation.device
    }

    /// Whether the capture holds one scope of each class, validation,
    /// out of memory and internal, all three open on `device`.
    pub closed spec fn covers(&self, device: Device) -> bool {
        &&& self.validation.device == device
        &&& self.validation.class == ErrorClass::Validation
        &&& self.memory.device == device
        &&& self.memory.class == ErrorClass::OutOfMemory
        &&& self.internal.device == device
        &&& self.internal.class == ErrorClass::Internal
    }

    /// Opens a scope of every class on `device`. What the device refuses
    /// from here on is kept until the capture is closed.
    pub fn open(device: &Device) -> (capture: Capture)
        ensures
            capture.device() == *device,
            capture.covers(*device),
    {
        let validation = push_error_scope(device, ErrorClass::Validation);
        let memory = push_error_scope(device, ErrorClass::OutOfMemory);
        let internal = push_error_scope(device, ErrorClass::Internal);
        Capture { validation, memory, internal }
    }

    /// Closes the three scopes, innermost first, and hands back what the
    /// validation, out-of-memory and internal scope held, in that order.
    pub fn close(self) -> (ScopeReport, ScopeReport, ScopeReport) {
        let internal = pop_error_scope(self.internal);
        let memory = pop_error_scope(self.memory);
        let validation = pop_error_scope(self.validation);
        (validation, memory, internal)
    }
}

/// The byte length a buffer was created with. It never changes.
pub uninterp spec fn buffer_len(buffer: Buffer) -> u64;

/// The uses a buffer was created for, as far as `BufferUsage` tells them
/// apart. They never change.
pub uninterp spec fn buffer_usage(buffer: Buffer) -> BufferUsage;

/// The commands an encoder was asked to record so far, oldest first.
/// Whether the device accepts them is settled when the encoder is finished:
/// `wgpu` keeps a command it finds invalid as an error of the encoder and
/// raises it then.
pub uninterp spec fn recorded(encoder: CommandEncoder) -> Seq<Recorded>;

/// `wgpu::Device::push_error_scope`: from here on, errors of `class` raised
/// on the device are kept in the scope and no longer reach the handler for
/// uncaptured errors. The token handed back stands for the open scope: it
/// holds a clone of the device's handle, which is the same device, and the
/// class that was asked for.
#[verifier::external_body]
fn push_error_scope(device: &Device, class: ErrorClass) -> (scope: ErrorScope)
    ensures
        scope.device() == *device,
        scope.class() == class,
{
    device.push_error_scope(
        match class {
            ErrorClass::Validation => ErrorFilter::Validation,
            ErrorClass::OutOfMemory => ErrorFilter::OutOfMemory,
            ErrorClass::Internal => ErrorFilter::Internal,
        },
    );
    ErrorScope { device: device.clone(), class }
}

/// `wgpu::Device::pop_error_scope`: closes the innermost open scope of the
/// token's device and says whether it caught an error. `wgpu` panics when
/// no scope is open; a token exists only for a scope that was opened, and
/// is used up here. The answer is a future, polled once.
#[verifier::external_body]
fn pop_error_scope(scope: ErrorScope) -> ScopeReport {
    let mut answer = Box::pin(scope.device.pop_error_scope());
    match answer.as_mut().poll(&mut Context::from_waker(Waker::noop())) {
        Poll::Ready(None) => ScopeReport::Clean,
        Poll::Ready(Some(_)) => ScopeReport::Caught,
        Poll::Pending => ScopeReport::Unsettled,
    }
}

/// Builds the `wgpu::BindGroupLayoutEntry` of a buffer slot, field by field.
#[verifier::external_body]
pub(crate) fn layout_entry(slot: &BindingSlot) -> BindGroupLayoutEntry {
    let mut visibility = ShaderStages::NONE;
    visibility.set(ShaderStages::VERTEX, slot.visibility.vertex);
    visibility.set(ShaderStages::FRAGMENT, slot.visibility.fragment);
    visibility.set(ShaderStages::COMPUTE, slot.visibility.compute);
    let ty = match slot.kind {
        BindingKind::Storage { read_only } => BufferBindingType::Storage { read_only },
        BindingKind::Uniform => BufferBindingType::Uniform,
    };
    let has_dynamic_offset = slot.has_dynamic_offset;
    let ty = BindingType::Buffer { ty, has_dynamic_offset, min_binding_size: None };
    BindGroupLayoutEntry { binding: slot.binding, visibility, ty, count: None }
}

/// `wgpu::Device::create_bind_group_layout`.
#[verifier::external_body]
pub(crate) fn create_bind_group_layout(
    capture: &Capture,
    label: &str,
    entries: &Vec<BindGroupLayoutEntry>,
) -> BindGroupLayout {
    let device = &capture.validation.device;
    device.create_bind_group_layout(&BindGroupLayoutDescriptor { label: Some(label), entries })
}

/// `wgpu::Device::create_pipeline_layout`, for a single bind group and no
/// push constants.
#[verifier::external_body]
pub(crate) fn create_pipeline_layout(
    capture: &Capture,
    label: &str,
    layout: &BindGroupLayout,
) -> PipelineLayout {
    let device = &capture.validation.device;
    device.create_pipeline_layout(
        &PipelineLayoutDescriptor {
            label: Some(label),
            bind_group_layouts: &[layout],
            push_constant_ranges: &[],
        },
    )
}

/// `wgpu::Device::create_buffer`. The buffer handed back reports the
/// planned size and uses, whether or not the device could allocate it.
#[verifier::external_body]
pub(crate) fn create_buffer(capture: &Capture, label: &str, plan: &BufferPlan) -> (buffer: Buffer)
    ensures
        buffer_len(buffer) == plan.size,
        buffer_usage(buffer) == plan.usage,
{
    let mut usage = BufferUsages::empty();
    usage.set(BufferUsages::MAP_READ, plan.usage.map_read);
    usage.set(BufferUsages::COPY_SRC, plan.usage.copy_src);
    usage.set(BufferUsages::COPY_DST, plan.usage.copy_dst);
    usage.set(BufferUsages::UNIFORM, plan.usage.uniform);
    usage.set(BufferUsages::STORAGE, plan.usage.storage);
    let mapped_at_creation = plan.mapped_at_creation;
    let descriptor = BufferDescriptor { label: Some(label), size: plan.size, usage, mapped_at_creation };
    capture.validation.device.create_buffer(&descriptor)
}

/// `wgpu::Device::create_bind_group`, binding two whole buffers.
#[verifier::external_body]
pub(crate) fn create_bind_group(
    capture: &Capture,
    label: &str,
    layout: &BindGroupLayout,
    first_binding: u32,
    first: &Buffer,
    second_binding: u32,
    second: &Buffer,
) -> BindGroup {
    let device = &capture.validation.device;
    device.create_bind_group(
        &BindGroupDescriptor {
            label: Some(label),
            layout,
            entries: &[
                BindGroupEntry { binding: first_binding, resource: first.as_entire_binding() },
                BindGroupEntry { binding: second_binding, resource: second.as_entire_binding() },
            ],
        },
    )
}

/// `wgpu::Device::create_shader_module`, from WGSL text.
#[verifier::external_body]
pub(crate) fn create_shader_module(capture: &Capture, label: &str, source: &str) -> ShaderModule {
    let device = &capture.validation.device;
    device.create_shader_module(
        ShaderModuleDescriptor { label: Some(label), source: ShaderSource::Wgsl(source.into()) },
    )
}

/// `wgpu::Device::create_compute_pipeline`, with default compilation
/// options and no pipeline cache.
#[verifier::external_body]
pub(crate) fn create_compute_pipeline(
    capture: &Capture,
    label: &str,
    layout: &PipelineLayout,
    module: &ShaderModule,
    entry_point: &str,
) -> ComputePipeline {
    let device = &capture.validation.device;
    device.create_compute_pipeline(
        &ComputePipelineDescriptor {
            label: Some(label),
            layout: Some(layout),
            module,
            entry_point: Some(entry_point),
            compilation_options: Default::default(),
            cache: None,
        },
    )
}

/// `wgpu::Buffer::size`: the length given at creation.
#[verifier::external_body]
pub(crate) fn buffer_size(buffer: &Buffer) -> (size: u64)
    ensures
        size == buffer_len(*buffer),
{
    buffer.size()
}

/// `wgpu::CommandEncoder::begin_compute_pass` and the pass it opens: one
/// pass that sets the pipeline, binds the group with no dynamic offsets,
/// dispatches once and ends. The encoder is asked for exactly this pass.
#[verifier::external_body]
pub(crate) fn record_compute_pass(
    encoder: &mut CommandEncoder,
    pipeline: &ComputePipeline,
    group_index: u32,
    bind_group: &BindGroup,
    workgroups: (u32, u32, u32),
)
    ensures
        recorded(*final(encoder)) == recorded(*old(encoder)).push(
            Recorded::ComputePass {
                pipeline: *pipeline,
                group_index,
                bind_group: *bind_group,
                workgroups,
            },
        ),
{
    let mut pass = encoder.begin_compute_pass(&ComputePassDescriptor::default());
    pass.set_pipeline(pipeline);
    pass.set_bind_group(group_index, bind_group, &[]);
    pass.dispatch_workgroups(workgroups.0, workgroups.1, workgroups.2);
}

/// `wgpu::CommandEncoder::copy_buffer_to_buffer`: the encoder is asked for
/// exactly this copy. Offsets and size are multiples of four and the copy
/// stays inside both buffers, as `wgpu` demands.
#[verifier::external_body]
pub(crate) fn record_buffer_copy(
    encoder: &mut CommandEncoder,
    source: &Buffer,
    source_offset: u64,
    destination: &Buffer,
    destination_offset: u64,
    size: u64,
)
    requires
        source_offset % 4 == 0,
        destination_offset % 4 == 0,
        size % 4 == 0,
        source_offset + size <= buffer_len(*source),
        destination_offset + size <= buffer_len(*destination),
    ensures
        recorded(*final(encoder)) == recorded(*old(encoder)).push(
            Recorded::BufferCopy {
                source: *source,
                source_offset,
                destination: *destination,
                destination_offset,
                size,
            },
        ),
{
    encoder.copy_buffer_to_buffer(source, source_offset, destination, destination_offset, size);
}

} // verus!
