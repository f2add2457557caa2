//! What the command line asks for.

use vstd::prelude::*;
use vstd::string::StringExecFns;

verus! {

/// The benchmarks the command line can name.
#[derive(Debug, Clone, Copy, PartialEq, Eq, Structural)]
pub enum Benchmark {
    OccupancyDiscovery,
    VectorAdd,
    AtomicThroughput,
}

/// What the program does for a command line.
#[derive(Debug, Clone, Copy, PartialEq, Eq, Structural)]
pub enum Command {
    /// Enumerate the available devices, and stop.
    ListDevices,
    /// Announce `device`, run `benchmark`, then run `then`.
    Run { device: usize, benchmark: Benchmark, then: Benchmark },
    /// Announce `device`, then fail: no known benchmark was named.
    MissingBenchmark { device: usize },
    /// Fail: no device was given.
    MissingDevice,
}

/// The name by which the command line selects `b`.
pub open spec fn benchmark_name(b: Benchmark) -> Seq<char> {
    match b {
        Benchmark::OccupancyDiscovery => "occupancy_discovery"@,
        Benchmark::VectorAdd => "vector_add"@,
        Benchmark::AtomicThroughput => "atomic_throughput"@,
    }
}

/// The benchmark that `name` names, if any.
pub open spec fn benchmark_named(name: Seq<char>) -> Option<Benchmark> {
    if name == "occupancy_discovery"@ {
        Some(Benchmark::OccupancyDiscovery)
    } else if name == "vector_add"@ {
        Some(Benchmark::VectorAdd)
    } else if name == "atomic_throughput"@ {
        Some(Benchmark::AtomicThroughput)
    } else {
        None
    }
}

/// The command for the flags `--list-devices`, `--device` and the benchmark name.
pub open spec fn command_for(
    list_devices: bool,
    device: Option<usize>,
    benchmark: Option<Seq<char>>,
) -> Command {
    if list_devices {
        Command::ListDevices
    } else {
        match device {
            None => Command::MissingDevice,
            Some(d) => match benchmark {
                Some(name) => match benchmark_named(name) {
                    Some(b) => Command::Run {
                        device: d,
                        benchmark: b,
                        then: Benchmark::OccupancyDiscovery,
                    },
                    None => Command::MissingBenchmark { device: d },
                },
                None => Command::MissingBenchmark { device: d },
            },
        }
    }
}

/// `--list-devices` wins over everything else.
pub proof fn lemma_list_devices_first(device: Option<usize>, benchmark: Option<Seq<char>>)
    ensures
        command_for(true, device, benchmark) == Command::ListDevices,
{
}

/// Without `--list-devices` and without a device, the program fails for want
/// of a device, whatever benchmark is named.
pub proof fn lemma_device_required(benchmark: Option<Seq<char>>)
    ensures
        command_for(false, None, benchmark) == Command::MissingDevice,
{
}

/// Each of the three benchmark names runs that benchmark on the given device,
/// followed by occupancy discovery.
pub proof fn lemma_named_benchmark_runs(d: usize)
    ensures
        command_for(false, Some(d), Some("occupancy_discovery"@)) == (Command::Run {
            device: d,
            benchmark: Benchmark::OccupancyDiscovery,
            then: Benchmark::OccupancyDiscovery,
        }),
        command_for(false, Some(d), Some("vector_add"@)) == (Command::Run {
            device: d,
            benchmark: Benchmark::VectorAdd,
            then: Benchmark::OccupancyDiscovery,
        }),
        command_for(false, Some(d), Some("atomic_throughput"@)) == (Command::Run {
            device: d,
            benchmark: Benchmark::AtomicThroughput,
            then: Benchmark::OccupancyDiscovery,
        }),
{
    reveal_strlit("occupancy_discovery");
    reveal_strlit("vector_add");
    reveal_strlit("atomic_throughput");
    assert("occupancy_discovery"@.len() == 19);
    assert("vector_add"@.len() == 10);
    assert("atomic_throughput"@.len() == 17);
    assert("atomic_throughput"@[0] != "occupancy_discovery"@[0]);
}

/// With a device but no name, or a name that is none of the three, the
/// program reports the missing benchmark for that very device.
pub proof fn lemma_unknown_benchmark_missing(d: usize, name: Seq<char>)
    requires
        name != "occupancy_discovery"@,
        name != "vector_add"@,
        name != "atomic_throughput"@,
    ensures
        command_for(false, Some(d), Some(name)) == (Command::MissingBenchmark { device: d }),
        command_for(false, Some(d), None) == (Command::MissingBenchmark { device: d }),
{
}

/// The device a command carries is the device that was given.
pub proof fn lemma_command_keeps_device(d: usize, benchmark: Option<Seq<char>>)
    ensures
        match command_for(false, Some(d), benchmark) {
            Command::Run { device, .. } => device == d,
            Command::MissingBenchmark { device } => device == d,
            _ => false,
        },
{
}

/// Every benchmark is selected by its own name.
pub proof fn lemma_name_selects_benchmark(b: Benchmark)
    ensures
        benchmark_named(benchmark_name(b)) == Some(b),
{
    reveal_strlit("occupancy_discovery");
    reveal_strlit("vector_add");
    reveal_strlit("atomic_throughput");
    assert("occupancy_discovery"@.len() == 19);
    assert("vector_add"@.len() == 10);
    assert("atomic_throughput"@.len() == 17);
    assert("atomic_throughput"@[0] != "occupancy_discovery"@[0]);
}

impl Benchmark {
    /// The name by which the command line selects this benchmark.
    pub fn name(&self) -> (res: &'static str)
        ensures
            res@ == benchmark_name(*self),
    {
        match self {
            Benchmark::OccupancyDiscovery => "occupancy_discovery",
            Benchmark::VectorAdd => "vector_add",
            Benchmark::AtomicThroughput => "atomic_throughput",
        }
    }
}

/// The benchmark that `name` names, if any.
pub fn parse_benchmark(name: &str) -> (res: Option<Benchmark>)
    ensures
        res == benchmark_named(name@),
{
    let given = String::from_str(name);
    if given == String::from_str("occupancy_discovery") {
        Some(Benchmark::OccupancyDiscovery)
    } else if given == String::from_str("vector_add") {
        Some(Benchmark::VectorAdd)
    } else if given == String::from_str("atomic_throughput") {
        Some(Benchmark::AtomicThroughput)
    } else {
        None
    }
}

/// Decides what to do for a command line.
pub fn decide(list_devices: bool, device: Option<usize>, benchmark: Option<&str>) -> (cmd: Command)
    ensures
        cmd == command_for(
            list_devices,
            device,
            match benchmark {
                Some(name) => Some(name@),
                None => None,
            },
        ),
{
    if list_devices {
        Command::ListDevices
    } else {
        match device {
            None => Command::MissingDevice,
            Some(d) => {
                let named = match benchmark {
                    Some(name) => parse_benchmark(name),
                    None => None,
                };
                match named {
                    Some(b) => Command::Run { device: d, benchmark: b, then: Benchmark::OccupancyDiscovery },
                    None => Command::MissingBenchmark { device: d },
                }
            },
        }
    }
}

} // verus!
