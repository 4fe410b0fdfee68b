use compute_runtime::{BatchBufferInfo, BatchCode, BatchInfo, ComputeState, DispatchError};

/// An orchestrator on the first Vulkan device, or `None` on a machine
/// without a Vulkan loader or device.
fn open_state() -> Option<ComputeState> {
    let entry = vkl::Entry::dynamic().ok()?;
    let instance = vkl::Instance::new(entry, vec![], vec![], false).ok()?;
    ComputeState::new(instance).ok()
}

#[test]
fn dispatch_of_zero_size_buffer_is_refused_without_submission() {
    let Some(mut state) = open_state() else { return };
    let buffers = [BatchBufferInfo { buffer_binding: 0, buffer_size: 0, input: None, host_mapped: true }];
    let code = [BatchCode { code: &[0x03, 0x02, 0x23, 0x07], batch_group_count: (1, 1, 1) }];
    let batch = BatchInfo { code: &code, buffers: &buffers };
    assert_eq!(state.dispatch(&batch).err(), Some(DispatchError::ValidationError));
}

#[test]
fn dispatch_of_malformed_kernel_is_a_compile_error() {
    let Some(mut state) = open_state() else { return };
    let data: Vec<u8> = (0..100i32).flat_map(|v| v.to_ne_bytes()).collect();
    let buffers = [BatchBufferInfo { buffer_binding: 0, buffer_size: 400, input: Some(&data[..]), host_mapped: true }];
    let code = [BatchCode { code: &[1, 2, 3], batch_group_count: (100, 1, 1) }];
    let batch = BatchInfo { code: &code, buffers: &buffers };
    assert_eq!(state.dispatch(&batch).err(), Some(DispatchError::KernelCompileError));
    // The orchestrator stays usable: the same batch fails the same way again.
    assert_eq!(state.dispatch(&batch).err(), Some(DispatchError::KernelCompileError));
}
