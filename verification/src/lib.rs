//! Verified core of the flutzPlayer desktop application.
pub mod allocation_trace;
pub mod allocator;
pub mod bounded;
pub mod catalog;
pub mod dat;
pub mod desktop;
pub mod error;
pub mod json;
pub mod launch;
pub mod level;
pub mod memory_runtime;
pub mod numbers;
pub mod parse;
pub mod perf_snapshots;
pub mod perf_trace;
pub mod playback;
pub mod sorted;
pub mod text;
pub mod text_map;
pub mod tools;
