//! Training samples for type prediction, cut from WebAssembly binaries that
//! carry DWARF debug information.
//!
//! For every function of a binary that a DWARF subprogram describes, the
//! library pairs a rendering of the function's instructions with the
//! source-level type of each parameter and of the return value, the type
//! written in a small linear token language.
//!
//! The way of one binary through the library:
//!
//! - [`wasm::magic_bytes`] tells whether a file can be a module at all.
//! - [`wasm::binary_stats`] counts what the module holds and computes its
//!   structural signature, by which [`dedup`] keeps one binary of each kind.
//! - [`wasm::parse`] decodes the module, [`dwarf::parse`] indexes the
//!   subprograms of its debug information, and [`samples::extract`] matches
//!   the functions of the one with the subprograms of the other.
//! - [`samples::pipeline`] takes each sample through the filters of
//!   [`samples::filter`], lowers its type with [`samples::types`] and renders
//!   its body with [`samples::wasm_repr`].
//!
//! The decoders of the two formats are those of the `wasmparser` and `gimli`
//! crates. What is assumed of them stands in [`wasm::decode`] and
//! [`dwarf::util`]: for the most part that what they read is a function of
//! the bytes. Everything else is proved.

pub mod dedup;
pub mod dwarf;
pub mod error;
pub mod fold;
pub mod hash;
pub mod options;
pub mod samples;
pub mod text;
pub mod util;
pub mod wasm;
