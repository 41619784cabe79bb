//! Samples: one for each parameter and each return value of a function that
//! debug information describes.

pub mod extract;
pub mod filter;
pub mod marker;
pub mod pipeline;
pub mod sample;
pub mod types;
pub mod wasm_repr;
