//! What can be chosen for a run: the representation of function bodies, the
//! filters, and how types are simplified.

use vstd::prelude::*;
use rand::rngs::StdRng;
use rand::SeedableRng;

verus! {

#[verifier::external_type_specification]
#[verifier::external_body]
pub struct ExStdRng(rand::rngs::StdRng);

/// How typedefs are handled: keeping them as-is, converting them to nominal
/// types, or removing them altogether.
#[derive(Debug, Copy, Clone, PartialEq, Eq, Hash)]
pub enum Typedefs {
    Keep,
    ToNominal,
    Remove,
}

/// The representation of function bodies that was asked for, without its
/// size.
#[derive(Debug, Copy, Clone, PartialEq, Eq, Hash)]
pub enum WasmReprOption {
    Hash,
    Full,
    Subrange,
    Windows,
}

/// The representation of function bodies, with its size where it has one.
#[derive(Debug, Copy, Clone, PartialEq, Eq, Hash)]
pub enum WasmRepr {
    /// The hash of the body's bytes.
    Hash,
    /// All instructions of the body.
    Full,
    /// The first instructions of the body for a parameter, the last ones for
    /// a return value, this many.
    Subrange(usize),
    /// Windows of this size around each use of the parameter, or before each
    /// return.
    Windows(usize),
}

/// Why the options name no representation.
#[derive(Debug, Copy, Clone, PartialEq, Eq, Hash)]
pub enum OptionsError {
    /// A size was given for `hash` or `full`, which have none.
    SizeWithoutUse,
    /// No size was given for `subrange` or `windows`.
    MissingSize,
}

/// The options of a run.
#[derive(Debug)]
pub struct Options {
    /// Input files and directories.
    pub inputs: Vec<String>,
    /// Directory for all output files.
    pub output_dir: String,
    /// Whether to write a log file, and its name if one was given.
    pub log: Option<Option<String>>,
    /// Print also debug output.
    pub verbose: bool,
    /// Number of entries to print for distributions.
    pub stats_max: usize,
    /// Seed of the random number generator.
    pub rand_seed: u64,
    /// Filter out samples where the parameter is never used in the function.
    pub wasm_filter_unused_param: bool,
    /// Add the raw WebAssembly type of the parameter to the input data.
    pub wasm_add_raw_type: bool,
    /// Representation of function bodies.
    pub wasm_repr: WasmReprOption,
    /// The size of a subrange or of each window.
    pub wasm_repr_size: Option<usize>,
    /// Filter out samples where the type is unknown.
    pub type_filter_unknown: bool,
    /// Remove typedef and nominal tokens from the types.
    pub type_remove_names: bool,
    /// Remove const from types.
    pub type_remove_const: bool,
    /// Equate class types with struct types.
    pub type_class_to_struct: bool,
    /// How to handle typedefs.
    pub type_typedefs: Typedefs,
    /// Whether to save statistics about names, and the file's name if one
    /// was given.
    pub type_save_name_stats: Option<Option<String>>,
    /// The file with the names to keep.
    pub type_keep_name_list: Option<String>,
    /// Keep at most the outermost name.
    pub type_name_flatten_outermost: bool,
}

/// The representation that a kind and a size name: `hash` and `full` take no
/// size, `subrange` and `windows` need one.
pub open spec fn chosen_repr(kind: WasmReprOption, size: Option<usize>) -> Result<
    WasmRepr,
    OptionsError,
> {
    match (kind, size) {
        (WasmReprOption::Hash, None) => Ok(WasmRepr::Hash),
        (WasmReprOption::Full, None) => Ok(WasmRepr::Full),
        (WasmReprOption::Hash, Some(_)) => Err(OptionsError::SizeWithoutUse),
        (WasmReprOption::Full, Some(_)) => Err(OptionsError::SizeWithoutUse),
        (WasmReprOption::Subrange, Some(n)) => Ok(WasmRepr::Subrange(n)),
        (WasmReprOption::Windows, Some(n)) => Ok(WasmRepr::Windows(n)),
        (WasmReprOption::Subrange, None) => Err(OptionsError::MissingSize),
        (WasmReprOption::Windows, None) => Err(OptionsError::MissingSize),
    }
}

/// The generator that `StdRng::seed_from_u64` makes of `seed`. The seed is
/// spread over the generator's key by a fixed sequence of multiplications and
/// rotations, so the generator is a function of the seed alone.
pub uninterp spec fn seeded_generator(seed: u64) -> StdRng;

/// `StdRng::seed_from_u64`: the generator of `seed`, which is the same
/// generator whenever the seed is the same. Nothing is claimed of the numbers
/// that it gives.
#[verifier::external_body]
fn seeded_rng(seed: u64) -> (rng: StdRng)
    ensures
        rng == seeded_generator(seed),
{
    StdRng::seed_from_u64(seed)
}

impl Options {
    /// The representation of function bodies that the options name.
    pub fn wasm_repr(&self) -> (repr: Result<WasmRepr, OptionsError>)
        ensures
            repr == chosen_repr(self.wasm_repr, self.wasm_repr_size),
    {
        match (self.wasm_repr, self.wasm_repr_size) {
            (WasmReprOption::Hash, None) => Ok(WasmRepr::Hash),
            (WasmReprOption::Full, None) => Ok(WasmRepr::Full),
            (WasmReprOption::Hash, Some(_)) => Err(OptionsError::SizeWithoutUse),
            (WasmReprOption::Full, Some(_)) => Err(OptionsError::SizeWithoutUse),
            (WasmReprOption::Subrange, Some(n)) => Ok(WasmRepr::Subrange(n)),
            (WasmReprOption::Windows, Some(n)) => Ok(WasmRepr::Windows(n)),
            (WasmReprOption::Subrange, None) => Err(OptionsError::MissingSize),
            (WasmReprOption::Windows, None) => Err(OptionsError::MissingSize),
        }
    }

    /// The random number generator of the seed given in the options. No
    /// other option has a part in it, so runs with the same seed start with
    /// the same generator.
    pub fn rng_with_seed(&self) -> (rng: StdRng)
        ensures
            rng == seeded_generator(self.rand_seed),
    {
        seeded_rng(self.rand_seed)
    }
}

} // verus!
