//! Host-side logic of a small WebGPU compute harness: patching the workgroup
//! size of WGSL shaders, laying out the buffers of a compute launch, moving
//! host words to and from device bytes, the benchmark set-ups and the
//! command-line decisions.

pub mod decimal;
pub mod shader;
pub mod transfer;
pub mod plan;
pub mod bench;
pub mod cli;
