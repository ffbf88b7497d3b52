use wgpu_crate::error::EngineError;
use wgpu_crate::plan::{BindingKind, BufferUsage, EnginePlan, StageSet};
use wgpu_crate::sizing::{storage_buffer_size, MAX_DATA_SIZE, STORAGE_ENTRY_SIZE, UNIFORM_SIZE};

#[test]
fn the_default_capacity_takes_eight_kibibytes() {
    assert_eq!(MAX_DATA_SIZE, 1024);
    assert_eq!(STORAGE_ENTRY_SIZE, 8);
    assert_eq!(storage_buffer_size(MAX_DATA_SIZE), Ok(8192));
}

#[test]
fn an_empty_array_takes_no_bytes() {
    assert_eq!(storage_buffer_size(0), Ok(0));
}

#[test]
fn the_size_is_eight_bytes_per_slot() {
    assert_eq!(storage_buffer_size(1), Ok(8));
    assert_eq!(storage_buffer_size(144), Ok(1152));
}

#[test]
fn the_largest_capacity_that_fits_is_accepted() {
    let largest = usize::MAX / 8;
    assert_eq!(storage_buffer_size(largest), Ok(largest as u64 * 8));
}

#[test]
fn one_slot_more_than_fits_overflows() {
    assert_eq!(storage_buffer_size(usize::MAX / 8 + 1), Err(EngineError::SizeOverflow));
    assert_eq!(storage_buffer_size(usize::MAX), Err(EngineError::SizeOverflow));
}

#[test]
fn a_plan_that_overflows_plans_nothing() {
    assert_eq!(EnginePlan::new(usize::MAX), Err(EngineError::SizeOverflow));
    assert_eq!(EnginePlan::new(usize::MAX / 8 + 1), Err(EngineError::SizeOverflow));
}

#[test]
fn the_plan_binds_storage_at_zero_and_uniform_at_one() {
    let plan = EnginePlan::new(MAX_DATA_SIZE).expect("the default capacity fits");
    let compute_only = StageSet { vertex: false, fragment: false, compute: true };
    assert_eq!(plan.capacity, 1024);
    assert_eq!(plan.storage_slot.binding, 0);
    assert_eq!(plan.storage_slot.kind, BindingKind::Storage { read_only: false });
    assert_eq!(plan.storage_slot.visibility, compute_only);
    assert!(!plan.storage_slot.has_dynamic_offset);
    assert_eq!(plan.uniform_slot.binding, 1);
    assert_eq!(plan.uniform_slot.kind, BindingKind::Uniform);
    assert_eq!(plan.uniform_slot.visibility, compute_only);
    assert!(!plan.uniform_slot.has_dynamic_offset);
}

#[test]
fn the_plan_sizes_and_uses_both_buffers() {
    let plan = EnginePlan::new(MAX_DATA_SIZE).expect("the default capacity fits");
    assert_eq!(plan.storage.size, 8192);
    assert_eq!(
        plan.storage.usage,
        BufferUsage { map_read: false, copy_src: true, copy_dst: true, uniform: false, storage: true }
    );
    assert_eq!(plan.uniform.size, UNIFORM_SIZE as u64);
    assert_eq!(plan.uniform.size, 4);
    assert!(!plan.storage.mapped_at_creation);
    assert!(!plan.uniform.mapped_at_creation);
    assert_eq!(
        plan.uniform.usage,
        BufferUsage { map_read: false, copy_src: false, copy_dst: true, uniform: true, storage: false }
    );
}

#[test]
fn the_result_buffer_is_as_large_as_the_array_and_mappable() {
    let plan = EnginePlan::new(144).expect("144 slots fit");
    let result = plan.result_buffer();
    assert_eq!(result.size, 1152);
    assert!(!result.mapped_at_creation);
    assert_eq!(
        result.usage,
        BufferUsage { map_read: true, copy_src: false, copy_dst: true, uniform: false, storage: false }
    );
}
