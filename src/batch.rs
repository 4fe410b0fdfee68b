//! The caller's description of one batch, and the rules it must obey.
use vstd::prelude::*;

verus! {

/// Binding indices of one batch must stay below this bound. vkl numbers a
/// table layout's entries by position, so the layout holds one slot for every
/// index up to the highest one requested; the bound keeps that table small,
/// and lies well above the storage-buffer bindings a compute stage can use
/// on common devices.
pub const MAX_BINDING_SLOTS: u32 = 4096;

/// Why a dispatch or a readback did not happen.
#[derive(Debug, Clone, Copy, PartialEq, Eq, Structural)]
pub enum DispatchError {
    /// The batch breaks a rule of its description; nothing was attempted.
    ValidationError,
    /// The device could not create or back a buffer, table or command sequence.
    AllocationError,
    /// A kernel blob could not be loaded or compiled into an execution plan.
    KernelCompileError,
    /// Submission to the compute queue, or the wait for it, failed.
    SubmissionError,
    /// The buffer is not host-visible, or its memory could not be mapped.
    MappingError,
    /// No logical device with a compute queue could be opened.
    DeviceError,
}

/// One device buffer that a batch needs.
pub struct BatchBufferInfo<'a> {
    pub buffer_binding: u32,
    pub buffer_size: u64,
    /// Bytes uploaded into the buffer before any kernel runs.
    pub input: Option<&'a [u8]>,
    pub host_mapped: bool,
}

/// One kernel of a batch: its bytecode and its workgroup extent.
pub struct BatchCode<'a> {
    pub code: &'a [u8],
    pub batch_group_count: (u32, u32, u32),
}

/// Kernels, run in order, and the buffers they share.
pub struct BatchInfo<'a> {
    pub code: &'a [BatchCode<'a>],
    pub buffers: &'a [BatchBufferInfo<'a>],
}

impl<'a> BatchBufferInfo<'a> {
    /// A buffer can be made for the request: its size is positive and its
    /// initial data fits in it.
    pub open spec fn provisionable(&self) -> bool {
        &&& self.buffer_size > 0
        &&& match self.input {
            Some(d) => d@.len() <= self.buffer_size,
            None => true,
        }
    }

    /// The request obeys the rules that concern it alone.
    pub open spec fn well_formed(&self) -> bool {
        &&& self.provisionable()
        &&& self.buffer_binding < MAX_BINDING_SLOTS
    }
}

impl<'a> BatchCode<'a> {
    /// Every component of the workgroup extent is positive.
    pub open spec fn well_formed(&self) -> bool {
        &&& self.batch_group_count.0 > 0
        &&& self.batch_group_count.1 > 0
        &&& self.batch_group_count.2 > 0
    }
}

/// No two requests of `bs` share a binding index.
pub open spec fn bindings_unique(bs: Seq<BatchBufferInfo>) -> bool {
    forall|i: int, j: int|
        0 <= i < bs.len() && 0 <= j < bs.len() && i != j ==> bs[i].buffer_binding
            != bs[j].buffer_binding
}

impl<'a> BatchInfo<'a> {
    /// The batch may be dispatched: it binds at least one buffer, every buffer
    /// request and every kernel is well formed, and binding indices are unique.
    pub open spec fn valid(&self) -> bool {
        &&& self.buffers@.len() > 0
        &&& forall|i: int| 0 <= i < self.buffers@.len() ==> (#[trigger] self.buffers@[i]).well_formed()
        &&& forall|i: int| 0 <= i < self.code@.len() ==> (#[trigger] self.code@[i]).well_formed()
        &&& bindings_unique(self.buffers@)
    }
}

/// Checks that a buffer can be made for a request.
pub fn check_provisionable(b: &BatchBufferInfo) -> (r: bool)
    ensures
        r == b.provisionable(),
{
    let fits = match b.input {
        Some(d) => (d.len() as u64) <= b.buffer_size,
        None => true,
    };
    b.buffer_size > 0 && fits
}

/// Checks one buffer request on its own.
pub fn check_buffer(b: &BatchBufferInfo) -> (r: bool)
    ensures
        r == b.well_formed(),
{
    check_provisionable(b) && b.buffer_binding < MAX_BINDING_SLOTS
}

/// Checks a batch before any device work: `Ok` exactly when it is valid, and
/// otherwise always a `ValidationError`.
pub fn validate_batch(batch: &BatchInfo) -> (r: Result<(), DispatchError>)
    ensures
        r is Ok <==> batch.valid(),
        r is Err ==> r->Err_0 == DispatchError::ValidationError,
{
    let n = batch.buffers.len();
    if n == 0 {
        return Err(DispatchError::ValidationError);
    }
    let mut i: usize = 0;
    while i < n
        invariant
            n == batch.buffers@.len(),
            i <= n,
            forall|k: int| 0 <= k < i ==> (#[trigger] batch.buffers@[k]).well_formed(),
            forall|k: int, l: int|
                0 <= k < i && 0 <= l < i && k != l ==> batch.buffers@[k].buffer_binding
                    != batch.buffers@[l].buffer_binding,
        decreases n - i,
    {
        if !check_buffer(&batch.buffers[i]) {
            return Err(DispatchError::ValidationError);
        }
        let mut j: usize = 0;
        while j < i
            invariant
                n == batch.buffers@.len(),
                j <= i < n,
                forall|l: int|
                    0 <= l < j ==> batch.buffers@[l].buffer_binding
                        != batch.buffers@[i as int].buffer_binding,
            decreases i - j,
        {
            if batch.buffers[j].buffer_binding == batch.buffers[i].buffer_binding {
                assert(!bindings_unique(batch.buffers@)) by {
                    assert(batch.buffers@[j as int].buffer_binding
                        == batch.buffers@[i as int].buffer_binding);
                }
                return Err(DispatchError::ValidationError);
            }
            j = j + 1;
        }
        i = i + 1;
    }
    let m = batch.code.len();
    let mut k: usize = 0;
    while k < m
        invariant
            m == batch.code@.len(),
            k <= m,
            forall|q: int| 0 <= q < k ==> (#[trigger] batch.code@[q]).well_formed(),
        decreases m - k,
    {
        let (x, y, z) = batch.code[k].batch_group_count;
        if x == 0 || y == 0 || z == 0 {
            return Err(DispatchError::ValidationError);
        }
        k = k + 1;
    }
    Ok(())
}

/// Two buffer requests that share a binding index make a batch invalid, so
/// every dispatch of it ends in `ValidationError` before any device work.
pub proof fn duplicate_binding_rejected(batch: &BatchInfo, i: int, j: int)
    requires
        0 <= i < batch.buffers@.len(),
        0 <= j < batch.buffers@.len(),
        i != j,
        batch.buffers@[i].buffer_binding == batch.buffers@[j].buffer_binding,
    ensures
        !batch.valid(),
{
}

/// A buffer request of size zero makes a batch invalid, so every dispatch of
/// it ends in `ValidationError` before any buffer is allocated.
pub proof fn zero_size_rejected(batch: &BatchInfo, i: int)
    requires
        0 <= i < batch.buffers@.len(),
        batch.buffers@[i].buffer_size == 0,
    ensures
        !batch.valid(),
{
    assert(!batch.buffers@[i].well_formed());
}

} // verus!
