//! The dispatch orchestrator: provisions buffers, builds the binding table,
//! compiles the kernels, records one command sequence and waits for it.
use vstd::prelude::*;

use crate::batch::{check_provisionable, validate_batch, BatchBufferInfo, BatchInfo, DispatchError};
use crate::gpu::{
    allocate_command_buffer, allocate_memory, allocate_set, begin_encoder, begin_pass, bind_plan,
    bind_table, buffer_size_of, clear_plans, create_buffer, create_compute_pipeline,
    create_descriptor_pool, create_device, create_pipeline_layout, create_set_layout,
    create_shader_module, device_of, dispatch_groups, has_device, host_mappable, layout_handles,
    layout_of, map_memory, mapped_bytes, mapped_len, new_allocator, new_pipeline_manager,
    pipeline_kinds, pipeline_of, submit, wait_idle, write_binding, write_staged,
};
use crate::plan::{
    buffer_usage, kernel_steps, layout_slot_counts, memory_placement, placement_for,
    pool_descriptor_count, uploads, usage_for, BufferUsage, KernelStep, MemoryPlacement,
};

verus! {

/// A device buffer made for one buffer request; it owns its memory.
pub struct ProvisionedBuffer {
    buffer: vkl::Buffer,
    size: u64,
    host_visible: bool,
    usage: Ghost<BufferUsage>,
    placement: Ghost<MemoryPlacement>,
    uploaded: Ghost<Seq<u8>>,
}

impl ProvisionedBuffer {
    /// The recorded size and visibility are those of the device buffer, and
    /// the buffer is mappable exactly when it was placed host-visible.
    #[verifier::type_invariant]
    closed spec fn inv(&self) -> bool {
        &&& buffer_size_of(self.buffer) == self.size as nat
        &&& host_mappable(self.buffer) == self.host_visible
        &&& self.host_visible == (self.placement@ == MemoryPlacement::HostVisible)
    }

    /// The device buffer's size in bytes.
    pub closed spec fn spec_size(&self) -> nat {
        buffer_size_of(self.buffer)
    }

    /// The device buffer's memory can be mapped by the host.
    pub closed spec fn spec_host_visible(&self) -> bool {
        host_mappable(self.buffer)
    }

    /// The usage the device buffer was created with.
    pub closed spec fn spec_usage(&self) -> BufferUsage {
        self.usage@
    }

    /// The placement the buffer's memory was allocated with.
    pub closed spec fn spec_placement(&self) -> MemoryPlacement {
        self.placement@
    }

    /// The bytes uploaded into the buffer when it was made.
    pub closed spec fn spec_uploaded(&self) -> Seq<u8> {
        self.uploaded@
    }

    /// The buffer has the size and visibility that request `b` asks for.
    pub open spec fn fits(&self, b: BatchBufferInfo) -> bool {
        &&& self.spec_size() == b.buffer_size as nat
        &&& self.spec_host_visible() == b.host_mapped
    }

    /// The buffer was made for request `b`: its size and visibility, the
    /// usage and placement handed to the device, and the bytes uploaded.
    pub open spec fn provisioned_for(&self, b: BatchBufferInfo) -> bool {
        &&& self.fits(b)
        &&& self.spec_usage() == usage_for(&b)
        &&& self.spec_placement() == placement_for(&b)
        &&& self.spec_uploaded() == (if uploads(&b) {
            b.input->Some_0@
        } else {
            Seq::<u8>::empty()
        })
    }

    pub fn size(&self) -> (r: u64)
        ensures
            r as nat == self.spec_size(),
    {
        proof {
            use_type_invariant(self);
        }
        self.size
    }

    pub fn is_host_visible(&self) -> (r: bool)
        ensures
            r == self.spec_host_visible(),
    {
        proof {
            use_type_invariant(self);
        }
        self.host_visible
    }
}

/// `buffers` fit, in order, the requests of `batch`.
pub open spec fn buffers_match(batch: &BatchInfo, buffers: Seq<ProvisionedBuffer>) -> bool {
    &&& buffers.len() == batch.buffers@.len()
    &&& forall|i: int| 0 <= i < buffers.len() ==> (#[trigger] buffers[i]).fits(batch.buffers@[i])
}

/// The table writes of a dispatch of `batch`: slot `buffers[i].buffer_binding`
/// points at the i-th buffer, in request order.
pub open spec fn binding_writes(batch: &BatchInfo) -> Seq<(u32, nat)> {
    Seq::new(batch.buffers@.len(), |i: int| (batch.buffers@[i].buffer_binding, i as nat))
}

/// The command sequence of a dispatch of `batch`: kernel k runs under plan k
/// with its own workgroup extent, in request order.
pub open spec fn command_sequence(batch: &BatchInfo) -> Seq<KernelStep> {
    Seq::new(
        batch.code@.len(),
        |k: int| KernelStep { plan: k as u64, groups: batch.code@[k].batch_group_count },
    )
}

/// Some kernel of `batch` is not a whole number of 32-bit words.
pub open spec fn has_ragged_kernel(batch: &BatchInfo) -> bool {
    exists|k: int| 0 <= k < batch.code@.len() && (#[trigger] batch.code@[k]).code@.len() % 4 != 0
}

/// The device, the allocator shared with every buffer, and the cache of
/// execution plans, which is empty between dispatches. The table writes and
/// the commands of the last dispatch that got that far are kept as a record.
pub struct ComputeState {
    piler: vkl::PipelineManager,
    allocator: vkl::DefaultAllocator,
    instance: vkl::Instance,
    submissions: Ghost<nat>,
    written: Ghost<Seq<(u32, nat)>>,
    recorded: Ghost<Seq<KernelStep>>,
}

impl ComputeState {
    /// The instance holds a device and no execution plan is cached.
    pub closed spec fn wf(&self) -> bool {
        &&& has_device(self.instance)
        &&& self.cached_plans() == 0
    }

    /// Pipeline layouts and pipelines held in the plan cache.
    pub closed spec fn cached_plans(&self) -> nat {
        layout_handles(self.piler) + pipeline_kinds(self.piler).len()
    }

    /// How many command sequences this orchestrator has handed to the queue.
    pub closed spec fn submissions(&self) -> nat {
        self.submissions@
    }

    /// `self` works on the same instance, device and allocator as `other`.
    pub closed spec fn same_device(&self, other: &ComputeState) -> bool {
        &&& self.instance == other.instance
        &&& self.allocator == other.allocator
    }

    /// The (binding, buffer index) writes into the last binding table.
    pub closed spec fn written_bindings(&self) -> Seq<(u32, nat)> {
        self.written@
    }

    /// The kernel steps recorded into the last command sequence.
    pub closed spec fn recorded_steps(&self) -> Seq<KernelStep> {
        self.recorded@
    }

    /// Opens a device on `instance` and makes the allocator and the plan
    /// cache for it.
    pub fn new(instance: vkl::Instance) -> (r: Result<Self, DispatchError>)
        ensures
            r is Ok ==> r->Ok_0.wf() && r->Ok_0.submissions() == 0,
            r is Err ==> r->Err_0 == DispatchError::DeviceError,
    {
        let mut instance = instance;
        match create_device(&mut instance) {
            Ok(()) => {},
            Err(_) => return Err(DispatchError::DeviceError),
        }
        let device = device_of(&instance);
        let piler = new_pipeline_manager(device);
        let allocator = new_allocator(&instance, device);
        Ok(
            ComputeState {
                piler,
                allocator,
                instance,
                submissions: Ghost(0),
                written: Ghost(Seq::empty()),
                recorded: Ghost(Seq::empty()),
            },
        )
    }

    /// Makes one device buffer for request `info`, placed as it asks, and
    /// uploads its initial bytes if it carries any. A request of size zero,
    /// or whose data does not fit, is refused before any device call.
    fn new_buffer_from_info(&self, info: &BatchBufferInfo) -> (r: Result<
        ProvisionedBuffer,
        DispatchError,
    >)
        requires
            self.wf(),
        ensures
            (r is Err && r->Err_0 == DispatchError::ValidationError) <==> !info.provisionable(),
            r is Ok ==> r->Ok_0.provisioned_for(*info),
            r is Err ==> r->Err_0 == DispatchError::ValidationError || r->Err_0
                == DispatchError::AllocationError,
    {
        if !check_provisionable(info) {
            return Err(DispatchError::ValidationError);
        }
        let device = device_of(&self.instance);
        let usage = buffer_usage(info);
        let mut buffer = match create_buffer(&self.allocator, device, usage, info.buffer_size) {
            Ok(b) => b,
            Err(_) => return Err(DispatchError::AllocationError),
        };
        let placement = memory_placement(info);
        match allocate_memory(&mut buffer, device, placement) {
            Ok(()) => {},
            Err(_) => return Err(DispatchError::AllocationError),
        }
        let mut uploaded: Ghost<Seq<u8>> = Ghost(Seq::empty());
        if let Some(data) = info.input {
            if data.len() > 0 {
                match write_staged(&buffer, device, data) {
                    Ok(()) => {},
                    Err(_) => return Err(DispatchError::AllocationError),
                }
                uploaded = Ghost(data@);
            }
        }
        Ok(
            ProvisionedBuffer {
                buffer,
                size: info.buffer_size,
                host_visible: info.host_mapped,
                usage: Ghost(usage),
                placement: Ghost(placement),
                uploaded,
            },
        )
    }

    /// Provisions one buffer per request of `batch`, in order. An invalid
    /// batch is refused before any buffer is made.
    pub fn prepare_buffers(&self, batch: &BatchInfo) -> (r: Result<
        Vec<ProvisionedBuffer>,
        DispatchError,
    >)
        requires
            self.wf(),
        ensures
            (r is Err && r->Err_0 == DispatchError::ValidationError) <==> !batch.valid(),
            r is Ok ==> r->Ok_0@.len() == batch.buffers@.len() && forall|i: int|
                0 <= i < batch.buffers@.len() ==> (#[trigger] r->Ok_0@[i]).provisioned_for(
                    batch.buffers@[i],
                ),
            r is Err ==> r->Err_0 == DispatchError::ValidationError || r->Err_0
                == DispatchError::AllocationError,
    {
        match validate_batch(batch) {
            Ok(()) => {},
            Err(e) => return Err(e),
        }
        let n = batch.buffers.len();
        let mut out: Vec<ProvisionedBuffer> = Vec::new();
        let mut i: usize = 0;
        while i < n
            invariant
                self.wf(),
                batch.valid(),
                n == batch.buffers@.len(),
                i <= n,
                out@.len() == i,
                forall|k: int|
                    0 <= k < i ==> (#[trigger] out@[k]).provisioned_for(batch.buffers@[k]),
            decreases n - i,
        {
            assert(batch.buffers@[i as int].well_formed());
            let b = match self.new_buffer_from_info(&batch.buffers[i]) {
                Ok(b) => b,
                Err(_) => return Err(DispatchError::AllocationError),
            };
            out.push(b);
            i = i + 1;
        }
        Ok(out)
    }

    /// Checks that `buffers` fit, in order, the requests of `batch`.
    fn check_buffers(batch: &BatchInfo, buffers: &[ProvisionedBuffer]) -> (r: bool)
        ensures
            r == buffers_match(batch, buffers@),
    {
        if buffers.len() != batch.buffers.len() {
            return false;
        }
        let n = buffers.len();
        let mut i: usize = 0;
        while i < n
            invariant
                n == buffers@.len(),
                n == batch.buffers@.len(),
                i <= n,
                forall|k: int| 0 <= k < i ==> (#[trigger] buffers@[k]).fits(batch.buffers@[k]),
            decreases n - i,
        {
            let b = &buffers[i];
            proof {
                use_type_invariant(b);
            }
            if b.size != batch.buffers[i].buffer_size || b.host_visible
                != batch.buffers[i].host_mapped {
                assert(!buffers@[i as int].fits(batch.buffers@[i as int]));
                return false;
            }
            i = i + 1;
        }
        true
    }

    /// Runs `batch` on `buffers`, which were provisioned for it: loads every
    /// kernel, builds the binding table, compiles the execution plans,
    /// records one command sequence that dispatches the kernels in order,
    /// submits it to the compute queue and waits until the queue is idle.
    /// The plan cache is empty again whatever the outcome and the device is
    /// kept; only a `SubmissionError` or success follows a submission, and an
    /// invalid or mismatched batch changes nothing.
    pub fn dispatch_compute(&mut self, batch: &BatchInfo, buffers: &[ProvisionedBuffer]) -> (r:
        Result<(), DispatchError>)
        requires
            old(self).wf(),
        ensures
            final(self).wf(),
            final(self).same_device(old(self)),
            (r is Err && r->Err_0 == DispatchError::ValidationError) <==> !(batch.valid()
                && buffers_match(batch, buffers@)),
            !(batch.valid() && buffers_match(batch, buffers@)) ==> *final(self) == *old(self),
            batch.valid() && buffers_match(batch, buffers@) && has_ragged_kernel(batch) ==> r is Err
                && r->Err_0 == DispatchError::KernelCompileError,
            r is Ok ==> final(self).written_bindings() == binding_writes(batch)
                && final(self).recorded_steps() == command_sequence(batch),
            r is Ok || r->Err_0 == DispatchError::SubmissionError ==> final(self).submissions()
                == old(self).submissions() + 1,
            r is Err && r->Err_0 != DispatchError::SubmissionError ==> final(self).submissions()
                == old(self).submissions(),
            r is Err ==> r->Err_0 != DispatchError::MappingError && r->Err_0
                != DispatchError::DeviceError,
    {
        match validate_batch(batch) {
            Ok(()) => {},
            Err(e) => return Err(e),
        }
        if !Self::check_buffers(batch, buffers) {
            return Err(DispatchError::ValidationError);
        }
        self.written = Ghost(Seq::empty());
        self.recorded = Ghost(Seq::empty());

        // Every kernel is loaded before any device object of the batch is made.
        let m = batch.code.len();
        let mut modules: Vec<vkl::ShaderModule> = Vec::new();
        let mut k: usize = 0;
        while k < m
            invariant
                m == batch.code@.len(),
                k <= m,
                modules@.len() == k,
                has_device(self.instance),
                self.same_device(old(self)),
                self.submissions@ == old(self).submissions@,
                batch.valid() && buffers_match(batch, buffers@),
                self.written@ == Seq::<(u32, nat)>::empty(),
                self.recorded@ == Seq::<KernelStep>::empty(),
                layout_handles(self.piler) == 0,
                pipeline_kinds(self.piler).len() == 0,
                forall|q: int| 0 <= q < k ==> (#[trigger] batch.code@[q]).code@.len() % 4 == 0,
            decreases m - k,
        {
            let module = match create_shader_module(&self.piler, batch.code[k].code) {
                Ok(md) => md,
                Err(_) => return Err(DispatchError::KernelCompileError),
            };
            modules.push(module);
            k = k + 1;
        }
        assert(!has_ragged_kernel(batch));
        let device = device_of(&self.instance);

        // The binding table: one pool, a layout with a slot per binding index
        // up to the highest, and one table pointing at every buffer.
        let pool = match create_descriptor_pool(device, pool_descriptor_count(batch)) {
            Ok(p) => p,
            Err(_) => return Err(DispatchError::AllocationError),
        };
        let slots = layout_slot_counts(batch.buffers);
        let set_layout = match create_set_layout(device, slots.as_slice()) {
            Ok(l) => l,
            Err(_) => return Err(DispatchError::AllocationError),
        };
        let set = match allocate_set(&pool, &set_layout) {
            Ok(s) => s,
            Err(_) => return Err(DispatchError::AllocationError),
        };
        let n = buffers.len();
        let mut i: usize = 0;
        assert(self.written@ =~= Seq::new(0, |j: int| (batch.buffers@[j].buffer_binding, j as nat)));
        while i < n
            invariant
                n == buffers@.len(),
                n == batch.buffers@.len(),
                i <= n,
                has_device(self.instance),
                self.same_device(old(self)),
                batch.valid() && buffers_match(batch, buffers@),
                !has_ragged_kernel(batch),
                self.submissions@ == old(self).submissions@,
                self.recorded@ == Seq::<KernelStep>::empty(),
                layout_handles(self.piler) == 0,
                pipeline_kinds(self.piler).len() == 0,
                self.written@ == Seq::new(
                    i as nat,
                    |j: int| (batch.buffers@[j].buffer_binding, j as nat),
                ),
            decreases n - i,
        {
            write_binding(&pool, set, batch.buffers[i].buffer_binding, &buffers[i].buffer);
            self.written = Ghost(self.written@.push((batch.buffers@[i as int].buffer_binding, i as nat)));
            assert(self.written@ =~= Seq::new(
                (i + 1) as nat,
                |j: int| (batch.buffers@[j].buffer_binding, j as nat),
            ));
            i = i + 1;
        }
        assert(self.written@ =~= binding_writes(batch));

        // The execution plans, all sharing one pipeline layout.
        let layout = match create_pipeline_layout(&mut self.piler, &set_layout) {
            Ok(h) => h,
            Err(_) => {
                clear_plans(&mut self.piler);
                return Err(DispatchError::AllocationError);
            },
        };
        let mut plans: Vec<u64> = Vec::new();
        let mut k: usize = 0;
        while k < m
            invariant
                m == batch.code@.len(),
                m == modules@.len(),
                k <= m,
                plans@.len() == k,
                has_device(self.instance),
                self.same_device(old(self)),
                batch.valid() && buffers_match(batch, buffers@),
                !has_ragged_kernel(batch),
                self.submissions@ == old(self).submissions@,
                self.written@ == binding_writes(batch),
                self.recorded@ == Seq::<KernelStep>::empty(),
                layout == 0,
                layout_handles(self.piler) == 1,
                pipeline_kinds(self.piler) == Seq::new(k as nat, |q: int| true),
                forall|q: int| 0 <= q < k ==> plans@[q] == q,
            decreases m - k,
        {
            let plan = match create_compute_pipeline(&mut self.piler, layout, &modules[k]) {
                Ok(h) => h,
                Err(_) => {
                    clear_plans(&mut self.piler);
                    return Err(DispatchError::KernelCompileError);
                },
            };
            assert(pipeline_kinds(self.piler) =~= Seq::new((k + 1) as nat, |q: int| true));
            plans.push(plan);
            k = k + 1;
        }

        // One command sequence: per kernel, in order, bind the table and the
        // plan and dispatch the kernel's workgroup extent.
        let cmd = match allocate_command_buffer(device) {
            Ok(c) => c,
            Err(_) => {
                clear_plans(&mut self.piler);
                return Err(DispatchError::AllocationError);
            },
        };
        {
            let encoder = match begin_encoder(device, &cmd) {
                Ok(e) => e,
                Err(_) => {
                    clear_plans(&mut self.piler);
                    return Err(DispatchError::AllocationError);
                },
            };
            let pipeline_layout = layout_of(&self.piler, layout);
            let steps = kernel_steps(batch.code, plans.as_slice());
            let mut k: usize = 0;
            assert(self.recorded@ =~= command_sequence(batch).take(0));
            while k < m
                invariant
                    m == steps@.len(),
                    m == batch.code@.len(),
                    k <= m,
                    has_device(self.instance),
                    self.same_device(old(self)),
                    batch.valid() && buffers_match(batch, buffers@),
                    !has_ragged_kernel(batch),
                    self.submissions@ == old(self).submissions@,
                    self.written@ == binding_writes(batch),
                    layout == 0,
                    layout_handles(self.piler) == 1,
                    pipeline_kinds(self.piler) == Seq::new(m as nat, |q: int| true),
                    forall|q: int|
                        0 <= q < m ==> (#[trigger] steps@[q]).plan == q && steps@[q].groups
                            == batch.code@[q].batch_group_count,
                    self.recorded@ == command_sequence(batch).take(k as int),
                decreases m - k,
            {
                let step = steps[k];
                let pass = begin_pass(&encoder);
                bind_table(&pass, pipeline_layout, set);
                let plan = pipeline_of(&self.piler, step.plan);
                bind_plan(&pass, plan);
                dispatch_groups(&pass, step.groups);
                self.recorded = Ghost(self.recorded@.push(step));
                assert(self.recorded@ =~= command_sequence(batch).take(k + 1));
                k = k + 1;
            }
            assert(self.recorded@ =~= command_sequence(batch));
        }

        // Submit, then block until the queue drains.
        self.submissions = Ghost(self.submissions@ + 1);
        let submitted = submit(device, &cmd);
        if submitted.is_err() {
            clear_plans(&mut self.piler);
            return Err(DispatchError::SubmissionError);
        }
        let drained = wait_idle(device);
        clear_plans(&mut self.piler);
        if drained.is_err() {
            return Err(DispatchError::SubmissionError);
        }
        Ok(())
    }

    /// Provisions the buffers of `batch` and runs it on them, handing the
    /// buffers back for readback. No buffer outlives a failed call.
    pub fn dispatch(&mut self, batch: &BatchInfo) -> (r: Result<
        Vec<ProvisionedBuffer>,
        DispatchError,
    >)
        requires
            old(self).wf(),
        ensures
            final(self).wf(),
            final(self).same_device(old(self)),
            (r is Err && r->Err_0 == DispatchError::ValidationError) <==> !batch.valid(),
            !batch.valid() ==> *final(self) == *old(self),
            r is Ok ==> r->Ok_0@.len() == batch.buffers@.len() && (forall|i: int|
                0 <= i < batch.buffers@.len() ==> (#[trigger] r->Ok_0@[i]).provisioned_for(
                    batch.buffers@[i],
                )) && final(self).written_bindings() == binding_writes(batch)
                && final(self).recorded_steps() == command_sequence(batch),
            r is Ok || r->Err_0 == DispatchError::SubmissionError ==> final(self).submissions()
                == old(self).submissions() + 1,
            r is Err && r->Err_0 != DispatchError::SubmissionError ==> final(self).submissions()
                == old(self).submissions(),
            r is Err ==> r->Err_0 != DispatchError::MappingError && r->Err_0
                != DispatchError::DeviceError,
    {
        let buffers = match self.prepare_buffers(batch) {
            Ok(b) => b,
            Err(e) => return Err(e),
        };
        assert(buffers_match(batch, buffers@));
        match self.dispatch_compute(batch, buffers.as_slice()) {
            Ok(()) => Ok(buffers),
            Err(e) => Err(e),
        }
    }

    /// Maps a host-visible buffer for reading; call it only once the dispatch
    /// that wrote the buffer has returned. The mapping covers the whole buffer.
    pub fn map_buffer<'a>(&'a self, buffer: &'a ProvisionedBuffer) -> (r: Result<
        vkl::MemMap<'a>,
        DispatchError,
    >)
        requires
            self.wf(),
        ensures
            !buffer.spec_host_visible() ==> r is Err,
            r is Ok ==> mapped_len(r->Ok_0) == buffer.spec_size(),
            r is Err ==> r->Err_0 == DispatchError::MappingError,
    {
        proof {
            use_type_invariant(buffer);
        }
        if !buffer.host_visible {
            return Err(DispatchError::MappingError);
        }
        match map_memory(&buffer.buffer, device_of(&self.instance)) {
            Ok(m) => Ok(m),
            Err(_) => Err(DispatchError::MappingError),
        }
    }

    /// Copies out the bytes of a host-visible buffer, one per byte of it.
    pub fn read_buffer(&self, buffer: &ProvisionedBuffer) -> (r: Result<Vec<u8>, DispatchError>)
        requires
            self.wf(),
        ensures
            !buffer.spec_host_visible() ==> r is Err,
            r is Ok ==> r->Ok_0@.len() == buffer.spec_size(),
            r is Err ==> r->Err_0 == DispatchError::MappingError,
    {
        let map = match self.map_buffer(buffer) {
            Ok(m) => m,
            Err(e) => return Err(e),
        };
        Ok(mapped_bytes(&map))
    }
} // impl ComputeState

/// A dispatch leaves no execution plan behind: every state that a dispatch
/// starts from or returns to, whether it succeeded or failed, holds an empty
/// plan cache, so a later dispatch of an equal batch starts from the same
/// cache as an earlier one.
pub proof fn dispatch_leaves_no_plans(before: &ComputeState, after: &ComputeState)
    requires
        before.wf(),
        after.wf(),
    ensures
        before.cached_plans() == 0,
        after.cached_plans() == before.cached_plans(),
{
}

} // verus!
