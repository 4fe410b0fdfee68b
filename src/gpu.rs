//! The Vulkan capabilities the orchestrator consumes, as provided by `vkl`.
//!
//! Every item here is trusted: its contract restates what `vkl`'s source shows
//! of the call it makes, and nothing more.
use vstd::prelude::*;

use vkl::vk;

use crate::plan::{BufferUsage, MemoryPlacement};

verus! {

#[verifier::external_type_specification]
#[verifier::external_body]
pub struct ExInstance(vkl::Instance);

#[verifier::external_type_specification]
#[verifier::external_body]
pub struct ExDevice(vkl::Device);

#[verifier::external_type_specification]
#[verifier::external_body]
pub struct ExVklError(vkl::VklError);

#[verifier::external_type_specification]
#[verifier::external_body]
pub struct ExBuffer(vkl::Buffer);

#[verifier::external_type_specification]
#[verifier::external_body]
pub struct ExMemMap<'w>(vkl::MemMap<'w>);

#[verifier::external_type_specification]
#[verifier::external_body]
pub struct ExCommandEncoder<'d>(vkl::CommandEncoder<'d>);

#[verifier::external_type_specification]
#[verifier::external_body]
pub struct ExActiveComputePass<'e>(vkl::ActiveComputePass<'e>);

#[verifier::external_type_specification]
#[verifier::external_body]
pub struct ExVkPipeline(vk::Pipeline);

#[verifier::external_type_specification]
pub struct ExPipeline(vkl::Pipeline);

#[verifier::external_type_specification]
#[verifier::external_body]
pub struct ExAllocator(vkl::Allocator);

#[verifier::external_type_specification]
#[verifier::external_body]
#[verifier::reject_recursive_types(T)]
pub struct ExRwLock<T: ?Sized>(std::sync::RwLock<T>);

#[verifier::external_type_specification]
#[verifier::external_body]
pub struct ExPipelineManager(vkl::PipelineManager);

#[verifier::external_type_specification]
#[verifier::external_body]
pub struct ExDescriptorPool(vkl::DescriptorPool);

#[verifier::external_type_specification]
#[verifier::external_body]
pub struct ExDescriptorSetLayout(vkl::DescriptorSetLayout);

#[verifier::external_type_specification]
#[verifier::external_body]
pub struct ExDescriptorSet(vk::DescriptorSet);

#[verifier::external_type_specification]
#[verifier::external_body]
pub struct ExPipelineLayout(vk::PipelineLayout);

#[verifier::external_type_specification]
#[verifier::external_body]
pub struct ExShaderModule(vkl::ShaderModule);

#[verifier::external_type_specification]
#[verifier::external_body]
pub struct ExCommandBuffer(vkl::CommandBuffer);

/// The instance holds a logical device (`Instance::device` returns it).
pub uninterp spec fn has_device(i: vkl::Instance) -> bool;

/// The device has a compute queue (`Device::get_device_queue` finds one).
pub uninterp spec fn has_compute_queue(d: vkl::Device) -> bool;

/// What `Buffer::buffer_size` returns: the size the buffer was created with.
pub uninterp spec fn buffer_size_of(b: vkl::Buffer) -> nat;

/// The buffer's memory may be mapped (`Buffer::can_map`): it was bound to
/// host-coherent, host-visible memory.
pub uninterp spec fn host_mappable(b: vkl::Buffer) -> bool;

/// The number of bytes a mapping covers (`MemMap::size`).
pub uninterp spec fn mapped_len(m: vkl::MemMap) -> nat;

/// The number of pipeline-layout handles the manager has issued since it was
/// made or last cleared; handles are issued from zero upwards.
pub uninterp spec fn layout_handles(p: vkl::PipelineManager) -> nat;

/// The pipelines the manager holds, by handle: `true` for a compute pipeline.
pub uninterp spec fn pipeline_kinds(p: vkl::PipelineManager) -> Seq<bool>;

/// Relies on `vkl::Instance::create_device`: on success the instance holds a
/// device.
#[verifier::external_body]
pub(crate) fn create_device(instance: &mut vkl::Instance) -> (r: Result<(), vkl::VklError>)
    ensures
        r is Ok ==> has_device(*final(instance)),
{
    instance.create_device(Default::default(), Default::default())
}

/// Relies on `vkl::Instance::device`, which panics when no device was created.
#[verifier::external_body]
pub(crate) fn device_of(instance: &vkl::Instance) -> (r: &vkl::Device)
    requires
        has_device(*instance),
{
    instance.device()
}

/// Relies on `vkl::Device::create_pipeline_manager`: a manager with no
/// layouts and no pipelines.
#[verifier::external_body]
pub(crate) fn new_pipeline_manager(device: &vkl::Device) -> (r: vkl::PipelineManager)
    ensures
        layout_handles(r) == 0,
        pipeline_kinds(r) == Seq::<bool>::empty(),
{
    device.create_pipeline_manager()
}

/// Relies on `vkl::Allocator::new`, shared behind the lock that
/// `vkl::DefaultAllocator` names.
#[verifier::external_body]
pub(crate) fn new_allocator(instance: &vkl::Instance, device: &vkl::Device) -> (r: vkl::DefaultAllocator) {
    std::sync::Arc::new(std::sync::RwLock::new(vkl::Allocator::new(instance, device)))
}

/// Relies on `vkl::Buffer::create` for one buffer on the compute queue: the
/// buffer keeps the requested size and has no mappable memory yet.
#[verifier::external_body]
pub(crate) fn create_buffer(
    allocator: &vkl::DefaultAllocator,
    device: &vkl::Device,
    usage: BufferUsage,
    size: u64,
) -> (r: Result<vkl::Buffer, vkl::VklError>)
    ensures
        r is Ok ==> buffer_size_of(r->Ok_0) == size && !host_mappable(r->Ok_0),
{
    let flags = match usage {
        BufferUsage::Storage => vk::BufferUsageFlags::STORAGE_BUFFER,
        BufferUsage::StorageUpload => vk::BufferUsageFlags::STORAGE_BUFFER
            | vk::BufferUsageFlags::TRANSFER_DST,
    };
    vkl::Buffer::create(allocator.clone(), device, &[vkl::QueueType::Compute], flags,
        vk::BufferCreateFlags::empty(), size)
}

/// Relies on `vkl::Buffer::allocate_memory`, which binds memory, leaves the
/// buffer's size as it was, and on success marks the buffer mappable exactly
/// when the memory is host-coherent and host-visible.
#[verifier::external_body]
pub(crate) fn allocate_memory(
    buffer: &mut vkl::Buffer,
    device: &vkl::Device,
    placement: MemoryPlacement,
) -> (r: Result<(), vkl::VklError>)
    ensures
        buffer_size_of(*final(buffer)) == buffer_size_of(*old(buffer)),
        r is Ok ==> host_mappable(*final(buffer)) == (placement == MemoryPlacement::HostVisible),
{
    let props = match placement {
        MemoryPlacement::DeviceLocal => vk::MemoryPropertyFlags::DEVICE_LOCAL,
        MemoryPlacement::HostVisible => vk::MemoryPropertyFlags::HOST_COHERENT
            | vk::MemoryPropertyFlags::HOST_VISIBLE,
    };
    buffer.allocate_memory(device, props, vk::MemoryAllocateFlags::empty())
}

/// Relies on `vkl::Buffer::write_data_staged`, which copies through a staging
/// buffer of the data's size (a size Vulkan requires to be positive) and
/// panics when the data is larger than the target buffer.
#[verifier::external_body]
pub(crate) fn write_staged(buffer: &vkl::Buffer, device: &vkl::Device, data: &[u8]) -> (r: Result<
    (),
    vkl::VklError,
>)
    requires
        0 < data@.len() <= buffer_size_of(*buffer),
{
    buffer.write_data_staged(device, data)
}

/// Relies on `vkl::Device::create_descriptor_pool` for one table of
/// `count` storage-buffer descriptors.
#[verifier::external_body]
pub(crate) fn create_descriptor_pool(device: &vkl::Device, count: u32) -> (r: Result<
    vkl::DescriptorPool,
    vkl::VklError,
>) {
    let sizes = [vkl::DescriptorPoolSize {
        descriptor_type: vk::DescriptorType::STORAGE_BUFFER,
        descriptor_count: count,
    }];
    device.create_descriptor_pool(1, &sizes, vk::DescriptorPoolCreateFlags::empty())
}

/// Relies on `vkl::Device::create_descriptor_set_layout`, which gives the
/// i-th entry binding index i; each slot holds `slot_counts[i]` compute-stage
/// storage buffers.
#[verifier::external_body]
pub(crate) fn create_set_layout(device: &vkl::Device, slot_counts: &[u32]) -> (r: Result<
    vkl::DescriptorSetLayout,
    vkl::VklError,
>) {
    let bindings = slot_counts.iter().map(|&c| vkl::DescriptorSetLayoutBinding {
        descriptor_count: c,
        descriptor_type: vk::DescriptorType::STORAGE_BUFFER,
        stage_flags: vk::ShaderStageFlags::COMPUTE,
    }).collect::<Vec<_>>();
    let info = vkl::DescriptorSetLayoutInfo { bindings: &bindings, ..Default::default() };
    device.create_descriptor_set_layout(&info)
}

/// Relies on `vkl::DescriptorPool::allocate_descriptor_set`.
#[verifier::external_body]
pub(crate) fn allocate_set(pool: &vkl::DescriptorPool, layout: &vkl::DescriptorSetLayout) -> (r:
    Result<vk::DescriptorSet, vkl::VklError>) {
    pool.allocate_descriptor_set(layout)
}

/// Relies on `vkl::DescriptorPool::write_descriptor_sets`: points slot
/// `binding` of `set` at the whole of `buffer`.
#[verifier::external_body]
pub(crate) fn write_binding(
    pool: &vkl::DescriptorPool,
    set: vk::DescriptorSet,
    binding: u32,
    buffer: &vkl::Buffer,
) {
    let info = [buffer.get_description()];
    let write = vk::WriteDescriptorSet::default().buffer_info(&info).descriptor_count(1)
        .descriptor_type(vk::DescriptorType::STORAGE_BUFFER).dst_binding(binding).dst_set(set);
    pool.write_descriptor_sets(&[write], &[])
}

/// Relies on `vkl::PipelineManager::create_pipeline_layout`: on success the
/// next layout handle is issued and the pipelines are untouched.
#[verifier::external_body]
pub(crate) fn create_pipeline_layout(
    piler: &mut vkl::PipelineManager,
    set_layout: &vkl::DescriptorSetLayout,
) -> (r: Result<u64, vkl::VklError>)
    ensures
        pipeline_kinds(*final(piler)) == pipeline_kinds(*old(piler)),
        r is Ok ==> r->Ok_0 == layout_handles(*old(piler)) && layout_handles(*final(piler))
            == layout_handles(*old(piler)) + 1,
        r is Err ==> layout_handles(*final(piler)) == layout_handles(*old(piler)),
{
    piler.create_pipeline_layout(&[set_layout.layout()], &[])
}

/// Relies on `vkl::PipelineManager::create_shader_module`, which reads the
/// blob as SPIR-V words with `ash::util::read_spv`; that refuses a blob whose
/// length is not a multiple of four.
#[verifier::external_body]
pub(crate) fn create_shader_module(piler: &vkl::PipelineManager, code: &[u8]) -> (r: Result<
    vkl::ShaderModule,
    vkl::VklError,
>)
    ensures
        code@.len() % 4 != 0 ==> r is Err,
{
    piler.create_shader_module(code)
}

/// Relies on `vkl::PipelineManager::create_compute_pipeline` with entry point
/// `main`: it panics on an unknown layout handle, and on success appends one
/// compute pipeline under the next handle.
#[verifier::external_body]
pub(crate) fn create_compute_pipeline(
    piler: &mut vkl::PipelineManager,
    layout: u64,
    module: &vkl::ShaderModule,
) -> (r: Result<u64, vkl::VklError>)
    requires
        layout < layout_handles(*old(piler)),
    ensures
        layout_handles(*final(piler)) == layout_handles(*old(piler)),
        r is Ok ==> r->Ok_0 == pipeline_kinds(*old(piler)).len() && pipeline_kinds(*final(piler))
            == pipeline_kinds(*old(piler)).push(true),
        r is Err ==> pipeline_kinds(*final(piler)) == pipeline_kinds(*old(piler)),
{
    let info = vkl::ComputePipelineInfo {
        layout_ref: layout,
        stage: vkl::PipelineStage {
            module,
            entrypoint: c"main",
            stage: vk::ShaderStageFlags::COMPUTE,
            flags: vk::PipelineShaderStageCreateFlags::empty(),
        },
        flags: vk::PipelineCreateFlags::empty(),
    };
    piler.create_compute_pipeline(&info)
}

/// Relies on `vkl::PipelineManager::get_layout`, which panics on an unknown
/// handle.
#[verifier::external_body]
pub(crate) fn layout_of(piler: &vkl::PipelineManager, handle: u64) -> (r: vk::PipelineLayout)
    requires
        handle < layout_handles(*piler),
{
    piler.get_layout(handle)
}

/// Relies on `vkl::PipelineManager::get_pipeline`, which panics on an
/// unknown handle and returns the pipeline stored under it.
#[verifier::external_body]
pub(crate) fn pipeline_of(piler: &vkl::PipelineManager, handle: u64) -> (r: vkl::Pipeline)
    requires
        handle < pipeline_kinds(*piler).len(),
    ensures
        (r is Compute) == pipeline_kinds(*piler)[handle as int],
{
    piler.get_pipeline(handle)
}

/// Relies on `vkl::PipelineManager::clear`: every layout and pipeline is
/// destroyed and handles start again from zero.
#[verifier::external_body]
pub(crate) fn clear_plans(piler: &mut vkl::PipelineManager)
    ensures
        layout_handles(*final(piler)) == 0,
        pipeline_kinds(*final(piler)) == Seq::<bool>::empty(),
{
    piler.clear()
}

/// Relies on `vkl::Device::allocate_command_buffer` for one primary command
/// buffer of the compute queue.
#[verifier::external_body]
pub(crate) fn allocate_command_buffer(device: &vkl::Device) -> (r: Result<
    vkl::CommandBuffer,
    vkl::VklError,
>) {
    device.allocate_command_buffer(vkl::QueueType::Compute, vk::CommandBufferLevel::PRIMARY)
}

/// Relies on `vkl::Device::create_command_encoder`: begins recording, for a
/// single submission, into `cmd`.
#[verifier::external_body]
pub(crate) fn begin_encoder<'d>(device: &'d vkl::Device, cmd: &vkl::CommandBuffer) -> (r: Result<
    vkl::CommandEncoder<'d>,
    vkl::VklError,
>) {
    device.create_command_encoder(**cmd, vk::CommandBufferUsageFlags::ONE_TIME_SUBMIT)
}

/// Relies on `vkl::CommandEncoder::begin_compute_pass`.
#[verifier::external_body]
pub(crate) fn begin_pass<'e>(encoder: &'e vkl::CommandEncoder<'_>) -> (r: vkl::ActiveComputePass<'e>) {
    encoder.begin_compute_pass()
}

/// Relies on `vkl::ActiveComputePass::bind_descriptor_sets`: binds `set` at
/// slot zero for compute.
#[verifier::external_body]
pub(crate) fn bind_table(
    pass: &vkl::ActiveComputePass,
    layout: vk::PipelineLayout,
    set: vk::DescriptorSet,
) {
    pass.bind_descriptor_sets(layout, vk::PipelineBindPoint::COMPUTE, 0, &[set])
}

/// Relies on `vkl::ActiveComputePass::bind_pipeline`, which panics on any
/// pipeline that is not a compute pipeline.
#[verifier::external_body]
pub(crate) fn bind_plan(pass: &vkl::ActiveComputePass, plan: vkl::Pipeline)
    requires
        plan is Compute,
{
    pass.bind_pipeline(plan)
}

/// Relies on `vkl::ActiveComputePass::dispatch`.
#[verifier::external_body]
pub(crate) fn dispatch_groups(pass: &vkl::ActiveComputePass, groups: (u32, u32, u32)) {
    pass.dispatch(groups)
}

/// Relies on `vkl::Device::queue_submit`, which fails when the device has no
/// compute queue.
#[verifier::external_body]
pub(crate) fn submit(device: &vkl::Device, cmd: &vkl::CommandBuffer) -> (r: Result<
    (),
    vkl::VklError,
>)
    ensures
        r is Ok ==> has_compute_queue(*device),
{
    let info = vkl::SubmitInfo { command_buffers: &[cmd], ..Default::default() };
    device.queue_submit(vkl::QueueType::Compute, &[info], None)
}

/// Relies on `vkl::Device::queue_wait_idle`, which panics when the device has
/// no compute queue.
#[verifier::external_body]
pub(crate) fn wait_idle(device: &vkl::Device) -> (r: Result<(), vkl::VklError>)
    requires
        has_compute_queue(*device),
{
    device.queue_wait_idle(vkl::QueueType::Compute)
}

/// Relies on `vkl::Buffer::map`, which refuses a buffer that is not mappable
/// and maps the whole buffer.
#[verifier::external_body]
pub(crate) fn map_memory<'w>(buffer: &'w vkl::Buffer, device: &vkl::Device) -> (r: Result<
    vkl::MemMap<'w>,
    vkl::VklError,
>)
    ensures
        !host_mappable(*buffer) ==> r is Err,
        r is Ok ==> mapped_len(r->Ok_0) == buffer_size_of(*buffer),
{
    buffer.map(device)
}

/// Relies on `vkl::MemMap::read::<u8>`: the mapped bytes, one per byte of the
/// buffer.
#[verifier::external_body]
pub(crate) fn mapped_bytes(map: &vkl::MemMap) -> (r: Vec<u8>)
    ensures
        r@.len() == mapped_len(*map),
{
    map.read::<u8>().to_vec()
}

} // verus!
