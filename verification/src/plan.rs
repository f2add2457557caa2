//! The layout of a compute launch: which device buffers are made, how they are
//! bound, how many workgroups are dispatched and what is copied back.

use vstd::prelude::*;
use crate::shader::{WorkgroupSizePatcher, leftmost_match, patched_shader, valid_span, workgroup_size_pattern};
use crate::transfer::words_to_bytes;

verus! {

/// The name of the compute entry point of every shader.
pub const ENTRY_POINT: &'static str = "main";

/// One storage buffer and its staging twin: both have `size` bytes; the
/// storage buffer is bound at slot `binding` of bind group 0.
#[derive(Debug, Clone, Copy, PartialEq, Eq)]
pub struct BufferPlan {
    pub binding: u32,
    pub size: u64,
}

/// Everything a launch decides before it talks to the device.
pub struct LaunchPlan {
    /// The shader text with its workgroup size patched.
    pub shader_source: String,
    /// One entry per host buffer, in order.
    pub buffers: Vec<BufferPlan>,
    /// The dispatch grid.
    pub workgroups_x: u32,
    pub workgroups_y: u32,
    pub workgroups_z: u32,
}

/// The dispatch and copy of a launch over one prepared storage buffer.
#[derive(Debug, Clone, Copy, PartialEq, Eq)]
pub struct ComputePlan {
    pub workgroups_x: u32,
    pub workgroups_y: u32,
    pub workgroups_z: u32,
    /// Bytes copied from the storage buffer to the staging buffer.
    pub copy_size: u64,
}

/// Every buffer length has a byte size that fits in `usize`.
pub open spec fn byte_sizes_fit(lens: Seq<usize>) -> bool {
    forall|i: int| 0 <= i < lens.len() ==> 4 * lens[i] <= usize::MAX
}

/// The device buffer for a host buffer of `len` words: `4 * len` bytes, bound at
/// slot `index`.
pub open spec fn buffer_plan_for(index: int, len: usize) -> BufferPlan {
    BufferPlan { binding: index as u32, size: (4 * len) as u64 }
}

/// Lays out a launch of `wgsl_code`, patched to `workgroup_size` invocations per
/// workgroup, over host buffers of the given lengths, on a grid of
/// `num_workgroups` x 1 x 1 workgroups.
pub fn plan_launch(
    patcher: &WorkgroupSizePatcher,
    wgsl_code: &str,
    buffer_lens: &Vec<usize>,
    num_workgroups: u32,
    workgroup_size: u32,
) -> (plan: LaunchPlan)
    requires
        byte_sizes_fit(buffer_lens@),
    ensures
        plan.shader_source@ == patched_shader(wgsl_code@, workgroup_size),
        valid_span(wgsl_code@, leftmost_match(workgroup_size_pattern(), wgsl_code@)),
        plan.buffers@.len() == buffer_lens@.len(),
        forall|i: int|
            0 <= i < buffer_lens@.len() ==> plan.buffers@[i] == buffer_plan_for(i, buffer_lens@[i]),
        forall|i: int|
            0 <= i < buffer_lens@.len() ==> #[trigger] plan.buffers@[i].binding == i as u32
                && plan.buffers@[i].size == 4 * buffer_lens@[i],
        plan.workgroups_x == num_workgroups,
        plan.workgroups_y == 1,
        plan.workgroups_z == 1,
{
    let shader_source = patcher.apply(wgsl_code, workgroup_size);
    let mut buffers: Vec<BufferPlan> = Vec::new();
    let n = buffer_lens.len();
    let mut i: usize = 0;
    while i < n
        invariant
            n == buffer_lens@.len(),
            byte_sizes_fit(buffer_lens@),
            0 <= i <= n,
            buffers@.len() == i,
            forall|j: int| 0 <= j < i ==> buffers@[j] == buffer_plan_for(j, buffer_lens@[j]),
        decreases n - i,
    {
        let len = buffer_lens[i];
        let size = (len * 4) as u64;
        buffers.push(BufferPlan { binding: i as u32, size });
        i = i + 1;
    }
    LaunchPlan { shader_source, buffers, workgroups_x: num_workgroups, workgroups_y: 1, workgroups_z: 1 }
}

/// Host buffer `i` is bound at slot `i` (modulo 2^32) and gets a device buffer
/// of four bytes per word.
pub proof fn lemma_buffer_at_its_own_slot(index: int, len: usize)
    requires
        4 * len <= usize::MAX,
    ensures
        buffer_plan_for(index, len).binding == index as u32,
        buffer_plan_for(index, len).size == 4 * len,
{
}

/// Each buffer of a launch gets a binding slot of its own, as long as there are
/// no more buffers than slot numbers.
pub proof fn lemma_bindings_distinct(lens: Seq<usize>, i: int, j: int)
    requires
        0 <= i < j < lens.len(),
        lens.len() <= u32::MAX + 1,
    ensures
        buffer_plan_for(i, lens[i]).binding != buffer_plan_for(j, lens[j]).binding,
{
}

/// The device buffer laid out for a host buffer is exactly as large as the
/// bytes uploaded from it, which is also what reading it back requires.
pub proof fn lemma_buffer_holds_upload(index: int, words: Seq<u32>)
    requires
        4 * words.len() <= usize::MAX,
    ensures
        buffer_plan_for(index, words.len() as usize).size == words_to_bytes(words).len(),
{
}

/// The single storage buffer of a prepared context: `buffer_size` bytes at slot 0.
pub fn plan_context(buffer_size: usize) -> (plan: BufferPlan)
    ensures
        plan.binding == 0,
        plan.size == buffer_size,
{
    BufferPlan { binding: 0, size: buffer_size as u64 }
}

/// The launch over a prepared context for a host buffer of `host_len` words: one
/// workgroup per word (the count taken modulo 2^32, as a `u32` cast takes it),
/// and the whole storage buffer copied back.
pub fn plan_compute(host_len: usize, storage: BufferPlan) -> (plan: ComputePlan)
    ensures
        plan.workgroups_x == host_len as u32,
        plan.workgroups_y == 1,
        plan.workgroups_z == 1,
        plan.copy_size == storage.size,
{
    ComputePlan { workgroups_x: host_len as u32, workgroups_y: 1, workgroups_z: 1, copy_size: storage.size }
}

} // verus!
