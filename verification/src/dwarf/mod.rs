//! DWARF debug information: the numbers of the standard, a handle onto one
//! entry, and the index of the subprograms of a binary.

pub mod constants;
pub mod parse;
pub mod util;
