//! What a batch's binding table looks like, decided before any device call.
use vstd::prelude::*;
use vstd::set_lib::{lemma_int_range, lemma_len_subset, set_int_range};

use crate::batch::{bindings_unique, BatchBufferInfo, BatchCode, BatchInfo, MAX_BINDING_SLOTS};

verus! {

/// Some request among the first `n` of `bs` asks for binding slot `s`.
pub open spec fn requested_before(bs: Seq<BatchBufferInfo>, n: int, s: int) -> bool {
    exists|j: int| 0 <= j < n && #[trigger] bs[j].buffer_binding == s
}

/// Some request of `bs` asks for binding slot `s`.
pub open spec fn slot_requested(bs: Seq<BatchBufferInfo>, s: int) -> bool {
    requested_before(bs, bs.len() as int, s)
}

/// The binding indices of `bs`, in request order.
pub open spec fn binding_indices(bs: Seq<BatchBufferInfo>) -> Seq<int> {
    bs.map_values(|b: BatchBufferInfo| b.buffer_binding as int)
}

/// Unique binding indices below the slot bound cannot be more than the slots.
proof fn lemma_unique_bindings_fit(bs: Seq<BatchBufferInfo>)
    requires
        bindings_unique(bs),
        forall|i: int| 0 <= i < bs.len() ==> (#[trigger] bs[i]).buffer_binding < MAX_BINDING_SLOTS,
    ensures
        bs.len() <= MAX_BINDING_SLOTS,
{
    let s = binding_indices(bs);
    assert(s.no_duplicates());
    s.unique_seq_to_set();
    lemma_int_range(0, MAX_BINDING_SLOTS as int);
    assert(s.to_set().subset_of(set_int_range(0, MAX_BINDING_SLOTS as int))) by {
        assert forall|x: int| s.to_set().contains(x) implies set_int_range(
            0,
            MAX_BINDING_SLOTS as int,
        ).contains(x) by {
            let k = choose|k: int| 0 <= k < s.len() && s[k] == x;
            assert(bs[k].buffer_binding < MAX_BINDING_SLOTS);
        }
    }
    lemma_len_subset(s.to_set(), set_int_range(0, MAX_BINDING_SLOTS as int));
}

/// The descriptor count per binding slot, from slot zero up to the highest
/// slot requested: one where a buffer is bound, zero elsewhere.
pub fn layout_slot_counts(buffers: &[BatchBufferInfo]) -> (r: Vec<u32>)
    requires
        forall|i: int|
            0 <= i < buffers@.len() ==> (#[trigger] buffers@[i]).buffer_binding
                < MAX_BINDING_SLOTS,
    ensures
        forall|j: int| 0 <= j < buffers@.len() ==> (#[trigger] buffers@[j]).buffer_binding < r@.len(),
        r@.len() == 0 || slot_requested(buffers@, r@.len() - 1),
        forall|s: int|
            0 <= s < r@.len() ==> #[trigger] r@[s] == (if slot_requested(buffers@, s) {
                1u32
            } else {
                0u32
            }),
{
    let n = buffers.len();
    let mut span: u32 = 0;
    let mut i: usize = 0;
    while i < n
        invariant
            n == buffers@.len(),
            i <= n,
            span <= MAX_BINDING_SLOTS,
            forall|k: int| 0 <= k < buffers@.len() ==> (#[trigger] buffers@[k]).buffer_binding < MAX_BINDING_SLOTS,
            forall|j: int| 0 <= j < i ==> (#[trigger] buffers@[j]).buffer_binding < span,
            span == 0 || requested_before(buffers@, i as int, span - 1),
        decreases n - i,
    {
        let b = buffers[i].buffer_binding;
        if b + 1 > span {
            span = b + 1;
            assert(buffers@[i as int].buffer_binding == span - 1);
        }
        i = i + 1;
    }
    let mut r: Vec<u32> = Vec::new();
    let mut s: u32 = 0;
    while s < span
        invariant
            s <= span,
            r@.len() == s,
            forall|t: int| 0 <= t < s ==> r@[t] == 0u32,
        decreases span - s,
    {
        r.push(0);
        s = s + 1;
    }
    let mut i: usize = 0;
    while i < n
        invariant
            n == buffers@.len(),
            i <= n,
            r@.len() == span,
            forall|j: int| 0 <= j < n ==> (#[trigger] buffers@[j]).buffer_binding < span,
            forall|t: int|
                0 <= t < span ==> #[trigger] r@[t] == (if requested_before(buffers@, i as int, t) {
                    1u32
                } else {
                    0u32
                }),
        decreases n - i,
    {
        let b = buffers[i].buffer_binding;
        r.set(b as usize, 1);
        assert forall|t: int| 0 <= t < span implies #[trigger] r@[t] == (if requested_before(
            buffers@,
            i + 1,
            t,
        ) {
            1u32
        } else {
            0u32
        }) by {
            if t == b as int {
                assert(buffers@[i as int].buffer_binding == t);
            } else if requested_before(buffers@, i as int, t) {
                let j = choose|j: int| 0 <= j < i && #[trigger] buffers@[j].buffer_binding == t;
                assert(buffers@[j].buffer_binding == t);
            } else if requested_before(buffers@, i + 1, t) {
                let j = choose|j: int| 0 <= j < i + 1 && #[trigger] buffers@[j].buffer_binding == t;
                assert(j != i);
                assert(requested_before(buffers@, i as int, t));
            }
        }
        i = i + 1;
    }
    r
}

/// The number of storage-buffer descriptors the batch's pool must hold: one
/// per buffer request.
pub fn pool_descriptor_count(batch: &BatchInfo) -> (r: u32)
    requires
        batch.valid(),
    ensures
        r as int == batch.buffers@.len(),
{
    proof {
        lemma_unique_bindings_fit(batch.buffers@);
    }
    batch.buffers.len() as u32
}

} // verus!

verus! {

/// How a buffer may be used by the device.
#[derive(Debug, Clone, Copy, PartialEq, Eq, Structural)]
pub enum BufferUsage {
    /// Bound as a storage buffer only.
    Storage,
    /// Bound as a storage buffer, and the target of an upload.
    StorageUpload,
}

/// Where a buffer's memory lives.
#[derive(Debug, Clone, Copy, PartialEq, Eq, Structural)]
pub enum MemoryPlacement {
    DeviceLocal,
    /// Host-coherent and host-visible, so that it can be mapped.
    HostVisible,
}

/// The request carries bytes to upload.
pub open spec fn uploads(b: &BatchBufferInfo) -> bool {
    match b.input {
        Some(d) => d@.len() > 0,
        None => false,
    }
}

/// The usage a request's buffer is created with: a request with initial
/// data, even an empty one, may be the target of a transfer.
pub open spec fn usage_for(b: &BatchBufferInfo) -> BufferUsage {
    if b.input is Some {
        BufferUsage::StorageUpload
    } else {
        BufferUsage::Storage
    }
}

/// Where a request's buffer memory is placed.
pub open spec fn placement_for(b: &BatchBufferInfo) -> MemoryPlacement {
    if b.host_mapped {
        MemoryPlacement::HostVisible
    } else {
        MemoryPlacement::DeviceLocal
    }
}

/// The usage a request's buffer is created with.
pub fn buffer_usage(b: &BatchBufferInfo) -> (r: BufferUsage)
    ensures
        r == usage_for(b),
{
    match b.input {
        Some(_) => BufferUsage::StorageUpload,
        None => BufferUsage::Storage,
    }
}

/// Where a request's buffer memory is placed.
pub fn memory_placement(b: &BatchBufferInfo) -> (r: MemoryPlacement)
    ensures
        r == placement_for(b),
{
    if b.host_mapped {
        MemoryPlacement::HostVisible
    } else {
        MemoryPlacement::DeviceLocal
    }
}

/// One kernel's part of the command sequence: bind the batch's table, bind
/// execution plan `plan`, dispatch `groups` workgroups.
#[derive(Debug, Clone, Copy)]
pub struct KernelStep {
    pub plan: u64,
    pub groups: (u32, u32, u32),
}

/// The command sequence of a batch whose k-th kernel was compiled into plan
/// `plans[k]`: one step per kernel, in request order, with no step between
/// them.
pub fn kernel_steps(code: &[BatchCode], plans: &[u64]) -> (r: Vec<KernelStep>)
    requires
        code@.len() == plans@.len(),
    ensures
        r@.len() == code@.len(),
        forall|k: int|
            0 <= k < r@.len() ==> #[trigger] r@[k] == (KernelStep {
                plan: plans@[k],
                groups: code@[k].batch_group_count,
            }),
{
    let mut r: Vec<KernelStep> = Vec::new();
    let mut k: usize = 0;
    while k < code.len()
        invariant
            code@.len() == plans@.len(),
            k <= code@.len(),
            r@.len() == k,
            forall|q: int|
                0 <= q < k ==> #[trigger] r@[q] == (KernelStep {
                    plan: plans@[q],
                    groups: code@[q].batch_group_count,
                }),
        decreases code@.len() - k,
    {
        r.push(KernelStep { plan: plans[k], groups: code[k].batch_group_count });
        k = k + 1;
    }
    r
}

} // verus!
