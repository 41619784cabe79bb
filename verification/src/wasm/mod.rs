//! WebAssembly modules: decoding, instruction rendering and statistics.

pub mod binary_stats;
pub mod decode;
pub mod fmt;
pub mod magic_bytes;
pub mod parse;
