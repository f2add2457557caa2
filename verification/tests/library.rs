use easywg::bench::{atomic_throughput_setup, occupancy_count, occupancy_discovery_setup, sequential_input};
use easywg::cli::{decide, parse_benchmark, Benchmark, Command};
use easywg::decimal::decimal_string;
use easywg::plan::{plan_compute, plan_context, plan_launch, BufferPlan, ENTRY_POINT};
use easywg::shader::{modify_workgroup_size, replace_span, Pattern, ShaderError, WorkgroupSizePatcher};
use easywg::transfer::{host_bytes, read_back};

const SHADER: &str = "@group(0) @binding(0) var<storage, read_write> data: array<u32>;\n\
@compute @workgroup_size(64)\nfn main(@builtin(global_invocation_id) id: vec3<u32>) {\n    data[id.x] = data[id.x] + 1u;\n}\n";

#[test]
fn decimal_string_renders_like_display() {
    assert_eq!(decimal_string(0), "0");
    assert_eq!(decimal_string(7), "7");
    assert_eq!(decimal_string(10), "10");
    assert_eq!(decimal_string(1024), "1024");
    assert_eq!(decimal_string(u32::MAX), "4294967295");
}

#[test]
fn modify_workgroup_size_rewrites_the_attribute() {
    let out = modify_workgroup_size(SHADER, 256).unwrap();
    assert_eq!(out, SHADER.replace("@workgroup_size(64)", "@workgroup_size(256)"));
    assert!(out.contains("@workgroup_size(256)"));
    assert!(!out.contains("@workgroup_size(64)"));
}

#[test]
fn modify_workgroup_size_only_first_attribute() {
    let code = "@workgroup_size(1) a @workgroup_size(2) b";
    assert_eq!(modify_workgroup_size(code, 9).unwrap(), "@workgroup_size(9) a @workgroup_size(2) b");
}

#[test]
fn modify_workgroup_size_without_attribute_is_unchanged() {
    let code = "fn main() {}";
    assert_eq!(modify_workgroup_size(code, 32).unwrap(), code);
    // Without digits the pattern does not match.
    let code = "@workgroup_size() x";
    assert_eq!(modify_workgroup_size(code, 32).unwrap(), code);
}

#[test]
fn modify_workgroup_size_keeps_non_ascii_text_around_the_match() {
    let code = "// größe ✓\n@workgroup_size(8)\n// 終わり";
    assert_eq!(
        modify_workgroup_size(code, 16).unwrap(),
        "// größe ✓\n@workgroup_size(16)\n// 終わり"
    );
}

#[test]
fn patcher_applies_repeatedly() {
    let patcher = WorkgroupSizePatcher::new().unwrap();
    let once = patcher.apply(SHADER, 1);
    let twice = patcher.apply(&once, 128);
    assert_eq!(twice, SHADER.replace("(64)", "(128)"));
}

#[test]
fn pattern_compile_reports_invalid_patterns() {
    assert!(matches!(Pattern::compile("(unclosed"), Err(ShaderError::InvalidPattern)));
    assert!(Pattern::compile("a+").is_ok());
}

#[test]
fn replace_span_splices_bytes() {
    assert_eq!(replace_span("abc", None, 3), "abc");
    assert_eq!(replace_span("abXYZcd", Some((2, 5)), 12), "ab@workgroup_size(12)cd");
    assert_eq!(replace_span("é!", Some((2, 3)), 0), "é@workgroup_size(0)");
    assert_eq!(replace_span("xy", Some((1, 1)), 5), "x@workgroup_size(5)y");
}

#[test]
fn host_bytes_is_the_memory_image() {
    let words = vec![1u32, 0x0403_0201, u32::MAX];
    let bytes = host_bytes(&words);
    assert_eq!(bytes.len(), 12);
    let mut expected = Vec::new();
    for w in &words {
        expected.extend_from_slice(&w.to_ne_bytes());
    }
    assert_eq!(bytes, expected.as_slice());
}

#[test]
fn read_back_restores_written_words() {
    let words = vec![5u32, 6, 7, 0xdead_beef];
    let bytes = host_bytes(&words).to_vec();
    let mut host = vec![0u32; 4];
    read_back(&mut host, &bytes);
    assert_eq!(host, words);
}

#[test]
fn read_back_from_unaligned_bytes() {
    let mut storage = vec![0u8; 9];
    let image: Vec<u8> = [9u32, 10].iter().flat_map(|w| w.to_ne_bytes()).collect();
    storage[1..].copy_from_slice(&image);
    let mut host = vec![1u32, 2];
    read_back(&mut host, &storage[1..]);
    assert_eq!(host, vec![9, 10]);
}

#[test]
fn plan_launch_lays_out_buffers() {
    let patcher = WorkgroupSizePatcher::new().unwrap();
    let plan = plan_launch(&patcher, SHADER, &vec![1, 1, 10_000], 1024, 4);
    assert_eq!(plan.shader_source, SHADER.replace("(64)", "(4)"));
    assert_eq!(
        plan.buffers,
        vec![
            BufferPlan { binding: 0, size: 4 },
            BufferPlan { binding: 1, size: 4 },
            BufferPlan { binding: 2, size: 40_000 },
        ]
    );
    assert_eq!((plan.workgroups_x, plan.workgroups_y, plan.workgroups_z), (1024, 1, 1));
    assert_eq!(ENTRY_POINT, "main");
}

#[test]
fn plan_launch_without_buffers() {
    let patcher = WorkgroupSizePatcher::new().unwrap();
    let plan = plan_launch(&patcher, "fn main() {}", &vec![], 3, 8);
    assert!(plan.buffers.is_empty());
    assert_eq!(plan.shader_source, "fn main() {}");
    assert_eq!(plan.workgroups_x, 3);
}

#[test]
fn plan_context_and_compute() {
    let storage = plan_context(1024);
    assert_eq!(storage, BufferPlan { binding: 0, size: 1024 });
    let plan = plan_compute(256, storage);
    assert_eq!((plan.workgroups_x, plan.workgroups_y, plan.workgroups_z), (256, 1, 1));
    assert_eq!(plan.copy_size, 1024);
}

#[test]
fn plan_compute_truncates_the_workgroup_count() {
    if usize::BITS == 64 {
        let plan = plan_compute(((1u64 << 32) + 5) as usize, plan_context(4));
        assert_eq!(plan.workgroups_x, 5);
    }
}

#[test]
fn occupancy_discovery_setup_values() {
    let setup = occupancy_discovery_setup();
    assert_eq!(setup.shader_path, "../shaders/wgsl/occupancy_discovery.wgsl");
    assert_eq!(setup.buffers, vec![vec![0u32], vec![0u32], vec![0u32; 10_000]]);
    assert_eq!(setup.num_workgroups, 1024);
    assert_eq!(setup.workgroup_size, 1);
    assert_eq!(setup.repetitions, 1);
}

#[test]
fn occupancy_count_reads_first_word() {
    assert_eq!(occupancy_count(&vec![vec![17u32], vec![0]]), 17);
}

#[test]
fn atomic_throughput_setup_values() {
    let setup = atomic_throughput_setup();
    assert_eq!(setup.shader_path, "shaders/wgsl/atomic_fa_relaxed.wgsl");
    assert_eq!(setup.buffers[0], vec![0u32; 12]);
    assert_eq!(setup.buffers[1], vec![16u32]);
    assert_eq!(setup.buffers[2], (0u32..12).collect::<Vec<u32>>());
    assert_eq!(setup.buffers.len(), 3);
    assert_eq!(setup.num_workgroups, 16);
    assert_eq!(setup.workgroup_size, 1);
    assert_eq!(setup.repetitions, 64);
}

#[test]
fn sequential_input_values() {
    let (input, size) = sequential_input();
    assert_eq!(input, (0u32..256).collect::<Vec<u32>>());
    assert_eq!(size, 1024);
    assert_eq!(host_bytes(&input).len(), size);
}

#[test]
fn parse_benchmark_names() {
    assert_eq!(parse_benchmark("occupancy_discovery"), Some(Benchmark::OccupancyDiscovery));
    assert_eq!(parse_benchmark("vector_add"), Some(Benchmark::VectorAdd));
    assert_eq!(parse_benchmark("atomic_throughput"), Some(Benchmark::AtomicThroughput));
    assert_eq!(parse_benchmark("Vector_add"), None);
    assert_eq!(parse_benchmark(""), None);
    for b in [Benchmark::OccupancyDiscovery, Benchmark::VectorAdd, Benchmark::AtomicThroughput] {
        assert_eq!(parse_benchmark(b.name()), Some(b));
    }
}

#[test]
fn decide_commands() {
    assert_eq!(decide(true, None, None), Command::ListDevices);
    assert_eq!(decide(true, Some(1), Some("vector_add")), Command::ListDevices);
    assert_eq!(decide(false, None, Some("vector_add")), Command::MissingDevice);
    assert_eq!(decide(false, Some(2), None), Command::MissingBenchmark { device: 2 });
    assert_eq!(decide(false, Some(2), Some("nope")), Command::MissingBenchmark { device: 2 });
    assert_eq!(
        decide(false, Some(0), Some("atomic_throughput")),
        Command::Run {
            device: 0,
            benchmark: Benchmark::AtomicThroughput,
            then: Benchmark::OccupancyDiscovery
        }
    );
}

#[test]
fn modify_workgroup_size_at_same_size_is_unchanged() {
    let code = "x @workgroup_size(64) y";
    assert_eq!(modify_workgroup_size(code, 64).unwrap(), code);
    let once = modify_workgroup_size(code, 3).unwrap();
    assert_eq!(modify_workgroup_size(&once, 64).unwrap(), code);
}

#[test]
fn modify_workgroup_size_last_size_wins() {
    let once = modify_workgroup_size(SHADER, 7).unwrap();
    assert_eq!(
        modify_workgroup_size(&once, 99).unwrap(),
        modify_workgroup_size(SHADER, 99).unwrap()
    );
}
