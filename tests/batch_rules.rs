use compute_runtime::batch::{check_buffer, validate_batch, MAX_BINDING_SLOTS};
use compute_runtime::plan::{
    buffer_usage, kernel_steps, layout_slot_counts, memory_placement, pool_descriptor_count, BufferUsage,
    MemoryPlacement,
};
use compute_runtime::{BatchBufferInfo, BatchCode, BatchData, BatchInfo, DispatchError};

fn storage(binding: u32, size: u64) -> BatchBufferInfo<'static> {
    BatchBufferInfo { buffer_binding: binding, buffer_size: size, input: None, host_mapped: false }
}

const KERNEL: [u8; 4] = [0x03, 0x02, 0x23, 0x07];

#[test]
fn valid_single_buffer_batch_passes() {
    let data: Vec<u8> = (0..100u32).flat_map(|v| v.to_ne_bytes()).collect();
    let buffers = [BatchBufferInfo {
        buffer_binding: 0,
        buffer_size: 400,
        input: Some(&data[..]),
        host_mapped: true,
    }];
    let code = [BatchCode { code: &KERNEL, batch_group_count: (100, 1, 1) }];
    let batch = BatchInfo { code: &code, buffers: &buffers };
    assert_eq!(validate_batch(&batch), Ok(()));
    assert_eq!(pool_descriptor_count(&batch), 1);
}

#[test]
fn zero_size_buffer_is_a_validation_error() {
    let buffers = [storage(0, 0)];
    let code = [BatchCode { code: &KERNEL, batch_group_count: (1, 1, 1) }];
    let batch = BatchInfo { code: &code, buffers: &buffers };
    assert_eq!(validate_batch(&batch), Err(DispatchError::ValidationError));
}

#[test]
fn duplicate_binding_is_a_validation_error() {
    let buffers = [storage(3, 16), storage(1, 16), storage(3, 32)];
    let code = [BatchCode { code: &KERNEL, batch_group_count: (1, 1, 1) }];
    let batch = BatchInfo { code: &code, buffers: &buffers };
    assert_eq!(validate_batch(&batch), Err(DispatchError::ValidationError));
}

#[test]
fn distinct_bindings_pass() {
    let buffers = [storage(3, 16), storage(1, 16), storage(0, 32)];
    let code = [BatchCode { code: &KERNEL, batch_group_count: (1, 1, 1) }];
    let batch = BatchInfo { code: &code, buffers: &buffers };
    assert_eq!(validate_batch(&batch), Ok(()));
    assert_eq!(pool_descriptor_count(&batch), 3);
}

#[test]
fn zero_workgroup_extent_is_a_validation_error() {
    let buffers = [storage(0, 16)];
    for extent in [(0, 1, 1), (1, 0, 1), (1, 1, 0)] {
        let code = [BatchCode { code: &KERNEL, batch_group_count: extent }];
        let batch = BatchInfo { code: &code, buffers: &buffers };
        assert_eq!(validate_batch(&batch), Err(DispatchError::ValidationError));
    }
}

#[test]
fn batch_without_buffers_is_a_validation_error() {
    let code = [BatchCode { code: &KERNEL, batch_group_count: (1, 1, 1) }];
    let batch = BatchInfo { code: &code, buffers: &[] };
    assert_eq!(validate_batch(&batch), Err(DispatchError::ValidationError));
}

#[test]
fn batch_without_kernels_is_valid() {
    let buffers = [storage(0, 8)];
    let batch = BatchInfo { code: &[], buffers: &buffers };
    assert_eq!(validate_batch(&batch), Ok(()));
}

#[test]
fn oversized_input_is_a_validation_error() {
    let data = [0u8; 9];
    let buffers = [BatchBufferInfo {
        buffer_binding: 0,
        buffer_size: 8,
        input: Some(&data[..]),
        host_mapped: false,
    }];
    let batch = BatchInfo { code: &[], buffers: &buffers };
    assert_eq!(validate_batch(&batch), Err(DispatchError::ValidationError));
    assert!(!check_buffer(&buffers[0]));
}

#[test]
fn binding_at_the_slot_bound_is_a_validation_error() {
    let buffers = [storage(MAX_BINDING_SLOTS, 8)];
    let batch = BatchInfo { code: &[], buffers: &buffers };
    assert_eq!(validate_batch(&batch), Err(DispatchError::ValidationError));
    let buffers = [storage(MAX_BINDING_SLOTS - 1, 8)];
    let batch = BatchInfo { code: &[], buffers: &buffers };
    assert_eq!(validate_batch(&batch), Ok(()));
}

#[test]
fn slot_counts_cover_every_index_up_to_the_highest() {
    let buffers = [storage(3, 16), storage(1, 16)];
    assert_eq!(layout_slot_counts(&buffers), vec![0, 1, 0, 1]);
    let buffers = [storage(0, 16)];
    assert_eq!(layout_slot_counts(&buffers), vec![1]);
    assert_eq!(layout_slot_counts(&[]), Vec::<u32>::new());
}

#[test]
fn upload_usage_whenever_input_is_given() {
    let data = [1u8, 2, 3];
    let empty: [u8; 0] = [];
    let with = BatchBufferInfo { buffer_binding: 0, buffer_size: 3, input: Some(&data[..]), host_mapped: false };
    let without = storage(0, 3);
    let with_empty = BatchBufferInfo { buffer_binding: 0, buffer_size: 3, input: Some(&empty[..]), host_mapped: true };
    assert_eq!(buffer_usage(&with), BufferUsage::StorageUpload);
    assert_eq!(buffer_usage(&without), BufferUsage::Storage);
    assert_eq!(buffer_usage(&with_empty), BufferUsage::StorageUpload);
    assert_eq!(memory_placement(&with), MemoryPlacement::DeviceLocal);
    assert_eq!(memory_placement(&with_empty), MemoryPlacement::HostVisible);
}

#[test]
fn batch_data_size_counts_bytes() {
    let data: BatchData<i32> = BatchData { array: (0..100).collect() };
    assert_eq!(data.size_of(), 400);
    let wide: BatchData<u64> = BatchData { array: vec![1, 2, 3] };
    assert_eq!(wide.size_of(), 24);
    let none: BatchData<u16> = BatchData { array: vec![] };
    assert_eq!(none.size_of(), 0);
}

#[test]
fn kernel_steps_follow_request_order() {
    let code = [
        BatchCode { code: &KERNEL, batch_group_count: (100, 1, 1) },
        BatchCode { code: &KERNEL, batch_group_count: (2, 3, 4) },
    ];
    let steps = kernel_steps(&code, &[7, 9]);
    assert_eq!(steps.len(), 2);
    assert_eq!((steps[0].plan, steps[0].groups), (7, (100, 1, 1)));
    assert_eq!((steps[1].plan, steps[1].groups), (9, (2, 3, 4)));
    assert!(kernel_steps(&[], &[]).is_empty());
}
