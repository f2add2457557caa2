//! The benchmarks: the shader each one runs, the host buffers it starts from,
//! its launch geometry and how often it launches.

use vstd::prelude::*;
use vstd::string::StringExecFns;

verus! {

/// What a benchmark hands to a launch.
pub struct BenchmarkSetup {
    /// Path of the WGSL shader.
    pub shader_path: String,
    /// Host buffers, bound in this order.
    pub buffers: Vec<Vec<u32>>,
    pub num_workgroups: u32,
    pub workgroup_size: u32,
    /// How many times the launch is repeated.
    pub repetitions: usize,
}

/// `n` zero words.
pub open spec fn zeros(n: nat) -> Seq<u32> {
    Seq::new(n, |i: int| 0u32)
}

/// The buffers of a set-up, as sequences of words.
pub open spec fn buffer_contents(buffers: Seq<Vec<u32>>) -> Seq<Seq<u32>> {
    buffers.map_values(|b: Vec<u32>| b@)
}

/// The shader of the occupancy-discovery benchmark.
pub open spec fn occupancy_discovery_shader() -> Seq<char> {
    "../shaders/wgsl/occupancy_discovery.wgsl"@
}

/// The shader of the atomic-throughput benchmark.
pub open spec fn atomic_throughput_shader() -> Seq<char> {
    "shaders/wgsl/atomic_fa_relaxed.wgsl"@
}

/// Number of invocations the atomic-throughput benchmark sizes its buffers for:
/// 3 workgroups of 4.
pub open spec fn atomic_invocations() -> nat {
    12
}

/// The index each invocation of the atomic-throughput benchmark updates, for a
/// given contention (invocations sharing an index) and padding (stride between
/// indices).
pub open spec fn atomic_index(i: int, contention: int, padding: int) -> u32 {
    ((i / contention) * padding) as u32
}

/// `zeros(n)` is `n` words, each zero.
pub proof fn lemma_zeros(n: nat)
    ensures
        zeros(n).len() == n,
        forall|i: int| 0 <= i < n ==> #[trigger] zeros(n)[i] == 0,
{
}

/// `buffer_contents` lists the words of each buffer, in order.
pub proof fn lemma_buffer_contents(buffers: Seq<Vec<u32>>)
    ensures
        buffer_contents(buffers).len() == buffers.len(),
        forall|i: int| 0 <= i < buffers.len() ==> #[trigger] buffer_contents(buffers)[i] == buffers[i]@,
{
}

/// The shader paths of the two benchmarks.
pub proof fn lemma_shader_paths()
    ensures
        occupancy_discovery_shader() == "../shaders/wgsl/occupancy_discovery.wgsl"@,
        atomic_throughput_shader() == "shaders/wgsl/atomic_fa_relaxed.wgsl"@,
        atomic_invocations() == 3 * 4,
{
}

/// With a contention and a padding of one, every invocation of the
/// atomic-throughput benchmark updates an index of its own: its own number.
pub proof fn lemma_contiguous_indices(i: int)
    requires
        0 <= i < atomic_invocations(),
    ensures
        atomic_index(i, 1, 1) == i as u32,
{
}

fn zero_buffer(n: usize) -> (res: Vec<u32>)
    ensures
        res@ == zeros(n as nat),
{
    let res = vec![0u32; n];
    assert(res@ =~= zeros(n as nat));
    res
}

/// Occupancy discovery: one launch of 1024 workgroups of one invocation over a
/// counter word, a poll word and a scratchpad of 10 000 words, all zero.
pub fn occupancy_discovery_setup() -> (res: BenchmarkSetup)
    ensures
        res.shader_path@ == occupancy_discovery_shader(),
        buffer_contents(res.buffers@) == seq![zeros(1), zeros(1), zeros(10_000)],
        res.num_workgroups == 1024,
        res.workgroup_size == 1,
        res.repetitions == 1,
{
    let mut buffers: Vec<Vec<u32>> = Vec::new();
    buffers.push(zero_buffer(1));
    buffers.push(zero_buffer(1));
    buffers.push(zero_buffer(10_000));
    assert(buffer_contents(buffers@) =~= seq![zeros(1), zeros(1), zeros(10_000)]);
    BenchmarkSetup {
        shader_path: String::from_str("../shaders/wgsl/occupancy_discovery.wgsl"),
        buffers,
        num_workgroups: 1024,
        workgroup_size: 1,
        repetitions: 1,
    }
}

/// The count the occupancy-discovery shader leaves in its first buffer.
pub fn occupancy_count(buffers: &Vec<Vec<u32>>) -> (count: u32)
    requires
        buffers@.len() >= 1,
        buffers@[0]@.len() >= 1,
    ensures
        count == buffers@[0]@[0],
{
    buffers[0][0]
}

/// Atomic throughput: 64 launches of 16 workgroups of one invocation over a
/// result buffer of 12 zero words, an iteration-count word of 16, and 12
/// indices, invocation `i` updating index `(i / 1) * 1`.
pub fn atomic_throughput_setup() -> (res: BenchmarkSetup)
    ensures
        res.shader_path@ == atomic_throughput_shader(),
        buffer_contents(res.buffers@) == seq![
            zeros(atomic_invocations()),
            seq![16u32],
            Seq::new(atomic_invocations(), |i: int| atomic_index(i, 1, 1)),
        ],
        res.num_workgroups == 16,
        res.workgroup_size == 1,
        res.repetitions == 64,
{
    let n: usize = 16;
    let test_iters: usize = 64;
    let rmw_iters: u32 = 16;
    let workgroup_size: usize = 4;
    let workgroups: usize = 3;
    let contention: usize = 1;
    let padding: usize = 1;

    let invocations = workgroups * workgroup_size;
    let h_res = zero_buffer(invocations);
    let mut h_iters = vec![16u32; 1];
    h_iters.set(0, rmw_iters);
    let mut h_indexes = zero_buffer(invocations);
    let mut i: usize = 0;
    while i < invocations
        invariant
            invocations == 12,
            contention == 1,
            padding == 1,
            0 <= i <= invocations,
            h_indexes@.len() == invocations,
            forall|j: int| 0 <= j < i ==> h_indexes@[j] == atomic_index(j, 1, 1),
        decreases invocations - i,
    {
        h_indexes.set(i, ((i / contention) * padding) as u32);
        i = i + 1;
    }

    assert(h_indexes@ =~= Seq::new(atomic_invocations(), |i: int| atomic_index(i, 1, 1)));
    assert(h_iters@ =~= seq![16u32]);
    let mut buffers: Vec<Vec<u32>> = Vec::new();
    buffers.push(h_res);
    buffers.push(h_iters);
    buffers.push(h_indexes);
    assert(buffer_contents(buffers@) =~= seq![
        zeros(atomic_invocations()),
        seq![16u32],
        Seq::new(atomic_invocations(), |i: int| atomic_index(i, 1, 1)),
    ]);
    BenchmarkSetup {
        shader_path: String::from_str("shaders/wgsl/atomic_fa_relaxed.wgsl"),
        buffers,
        num_workgroups: n as u32,
        workgroup_size: 1,
        repetitions: test_iters,
    }
}

/// The input of the single-buffer demo: the 256 words `0, 1, ..., 255`, and the
/// byte size of its device buffer.
pub fn sequential_input() -> (res: (Vec<u32>, usize))
    ensures
        res.0@ == Seq::new(256, |i: int| i as u32),
        res.1 == 1024,
{
    let mut input = zero_buffer(256);
    let mut n: usize = 0;
    while n < 256
        invariant
            0 <= n <= 256,
            input@.len() == 256,
            forall|j: int| 0 <= j < n ==> input@[j] == j as u32,
        decreases 256 - n,
    {
        input.set(n, n as u32);
        n = n + 1;
    }
    assert(input@ =~= Seq::new(256, |i: int| i as u32));
    (input, 256 * 4)
}

} // verus!
