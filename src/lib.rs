//! Back end of an ahead-of-time WebAssembly compiler: target and CPU-feature
//! resolution, per-function trap tables, the stack probe, and assembly of the
//! object's symbols and function manifest.

pub mod error;
pub mod traps;
pub mod stack_probe;
pub mod object;
pub mod cpu_features;
pub mod compiler;
pub mod laws;
