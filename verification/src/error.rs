//! The failures of extraction.

use vstd::prelude::*;

verus! {

#[verifier::external_type_specification]
#[verifier::external_body]
pub struct ExBinaryReaderError(wasmparser::BinaryReaderError);

#[verifier::external_type_specification]
#[verifier::external_body]
pub struct ExGimliError(gimli::Error);

/// Why a binary, or one sample of it, could not be extracted.
///
/// Each failure belongs to the binary it was found in: it removes that binary,
/// or that sample, and nothing else.
#[derive(Debug)]
pub enum ExtractError {
    /// The module's bytes are no well-formed WebAssembly.
    Wasm(wasmparser::BinaryReaderError),
    /// The debug sections are no well-formed DWARF.
    Dwarf(gimli::Error),
    /// A second code section follows the one that starts at `previous_offset`.
    SecondCodeSection { previous_offset: usize },
    /// The module has no code section.
    MissingCodeSection,
    /// The function section has no entry for the body of `function_index`.
    MissingTypeIndex { function_index: u32 },
    /// The type section has no entry `type_index`.
    MissingType { type_index: u32 },
    /// The type section's entry `type_index` is no function type.
    NotAFunctionType { type_index: u32 },
    /// The name section names function `index` twice.
    DuplicateName { index: u32, first: String, second: String },
    /// A range that the decoder reported does not lie within the module.
    RangeOutsideModule { start: usize, end: usize },
    /// The module holds more functions than an index of 32 bits can number.
    TooManyFunctions,
    /// Subprograms at `relative_offset`, which is not zero, disagree in name,
    /// parameter count or return arity.
    InconsistentEntries { relative_offset: usize },
    /// The attribute has a form that this library does not read.
    UnsupportedAttributeValue { attribute: u16 },
    /// A type entry has a tag for which the type language has no token.
    UnknownTypeTag { tag: u16 },
    /// An unspecified type is not `decltype(nullptr)`.
    UnexpectedUnspecifiedType { name: Option<String> },
    /// A typedef or a base type lacks this attribute.
    MissingAttribute { attribute: u16 },
    /// No fixed-width name is defined for this base type.
    UnknownPrimitive { source_name: String, encoding: u8, byte_size: u64 },
    /// A chain of references between entries is longer than the library
    /// follows.
    ChainTooLong,
    /// A window size of zero was asked for.
    EmptyWindow,
}

/// The kinds of failure.
#[derive(Debug, Clone, Copy, PartialEq, Eq, Hash)]
pub enum ErrorCategory {
    /// The structure of the module violates the format.
    MalformedModule,
    /// The debug information cannot be decoded or contradicts itself.
    MalformedDebugInfo,
    /// A construct of the debug information for which the type language has
    /// no mapping. It is refused, never approximated.
    UnsupportedConstruct,
    /// What was asked for cannot be done for any binary.
    Options,
}

impl ExtractError {
    /// The kind of failure that an error belongs to.
    pub open spec fn spec_category(&self) -> ErrorCategory {
        match *self {
            ExtractError::Wasm(_) => ErrorCategory::MalformedModule,
            ExtractError::SecondCodeSection { .. } => ErrorCategory::MalformedModule,
            ExtractError::MissingCodeSection => ErrorCategory::MalformedModule,
            ExtractError::MissingTypeIndex { .. } => ErrorCategory::MalformedModule,
            ExtractError::MissingType { .. } => ErrorCategory::MalformedModule,
            ExtractError::NotAFunctionType { .. } => ErrorCategory::MalformedModule,
            ExtractError::DuplicateName { .. } => ErrorCategory::MalformedModule,
            ExtractError::RangeOutsideModule { .. } => ErrorCategory::MalformedModule,
            ExtractError::TooManyFunctions => ErrorCategory::MalformedModule,
            ExtractError::Dwarf(_) => ErrorCategory::MalformedDebugInfo,
            ExtractError::InconsistentEntries { .. } => ErrorCategory::MalformedDebugInfo,
            ExtractError::MissingAttribute { .. } => ErrorCategory::MalformedDebugInfo,
            ExtractError::ChainTooLong => ErrorCategory::MalformedDebugInfo,
            ExtractError::UnsupportedAttributeValue { .. } => ErrorCategory::UnsupportedConstruct,
            ExtractError::UnknownTypeTag { .. } => ErrorCategory::UnsupportedConstruct,
            ExtractError::UnexpectedUnspecifiedType { .. } => ErrorCategory::UnsupportedConstruct,
            ExtractError::UnknownPrimitive { .. } => ErrorCategory::UnsupportedConstruct,
            ExtractError::EmptyWindow => ErrorCategory::Options,
        }
    }

    /// The kind of failure that the error belongs to.
    #[verifier::when_used_as_spec(spec_category)]
    pub fn category(&self) -> (category: ErrorCategory)
        ensures
            category == self.spec_category(),
    {
        match self {
            ExtractError::Wasm(_) => ErrorCategory::MalformedModule,
            ExtractError::SecondCodeSection { .. } => ErrorCategory::MalformedModule,
            ExtractError::MissingCodeSection => ErrorCategory::MalformedModule,
            ExtractError::MissingTypeIndex { .. } => ErrorCategory::MalformedModule,
            ExtractError::MissingType { .. } => ErrorCategory::MalformedModule,
            ExtractError::NotAFunctionType { .. } => ErrorCategory::MalformedModule,
            ExtractError::DuplicateName { .. } => ErrorCategory::MalformedModule,
            ExtractError::RangeOutsideModule { .. } => ErrorCategory::MalformedModule,
            ExtractError::TooManyFunctions => ErrorCategory::MalformedModule,
            ExtractError::Dwarf(_) => ErrorCategory::MalformedDebugInfo,
            ExtractError::InconsistentEntries { .. } => ErrorCategory::MalformedDebugInfo,
            ExtractError::MissingAttribute { .. } => ErrorCategory::MalformedDebugInfo,
            ExtractError::ChainTooLong => ErrorCategory::MalformedDebugInfo,
            ExtractError::UnsupportedAttributeValue { .. } => ErrorCategory::UnsupportedConstruct,
            ExtractError::UnknownTypeTag { .. } => ErrorCategory::UnsupportedConstruct,
            ExtractError::UnexpectedUnspecifiedType { .. } => ErrorCategory::UnsupportedConstruct,
            ExtractError::UnknownPrimitive { .. } => ErrorCategory::UnsupportedConstruct,
            ExtractError::EmptyWindow => ErrorCategory::Options,
        }
    }
}

/// An [`ExtractError`] with each text as a sequence of characters.
pub enum ErrorModel {
    Wasm(wasmparser::BinaryReaderError),
    Dwarf(gimli::Error),
    SecondCodeSection { previous_offset: usize },
    MissingCodeSection,
    MissingTypeIndex { function_index: u32 },
    MissingType { type_index: u32 },
    NotAFunctionType { type_index: u32 },
    DuplicateName { index: u32, first: Seq<char>, second: Seq<char> },
    RangeOutsideModule { start: usize, end: usize },
    TooManyFunctions,
    InconsistentEntries { relative_offset: usize },
    UnsupportedAttributeValue { attribute: u16 },
    UnknownTypeTag { tag: u16 },
    UnexpectedUnspecifiedType { name: Option<Seq<char>> },
    MissingAttribute { attribute: u16 },
    UnknownPrimitive { source_name: Seq<char>, encoding: u8, byte_size: u64 },
    ChainTooLong,
    EmptyWindow,
}

/// The characters of a text that may be absent.
pub open spec fn text_view(text: Option<String>) -> Option<Seq<char>> {
    match text {
        Some(text) => Some(text@),
        None => None,
    }
}

impl View for ExtractError {
    type V = ErrorModel;

    open spec fn view(&self) -> ErrorModel {
        match *self {
            ExtractError::Wasm(error) => ErrorModel::Wasm(error),
            ExtractError::Dwarf(error) => ErrorModel::Dwarf(error),
            ExtractError::SecondCodeSection { previous_offset } => ErrorModel::SecondCodeSection {
                previous_offset,
            },
            ExtractError::MissingCodeSection => ErrorModel::MissingCodeSection,
            ExtractError::MissingTypeIndex { function_index } => ErrorModel::MissingTypeIndex {
                function_index,
            },
            ExtractError::MissingType { type_index } => ErrorModel::MissingType { type_index },
            ExtractError::NotAFunctionType { type_index } => ErrorModel::NotAFunctionType {
                type_index,
            },
            ExtractError::DuplicateName { index, first, second } => ErrorModel::DuplicateName {
                index,
                first: first@,
                second: second@,
            },
            ExtractError::RangeOutsideModule { start, end } => ErrorModel::RangeOutsideModule {
                start,
                end,
            },
            ExtractError::TooManyFunctions => ErrorModel::TooManyFunctions,
            ExtractError::InconsistentEntries { relative_offset } => ErrorModel::InconsistentEntries {
                relative_offset,
            },
            ExtractError::UnsupportedAttributeValue { attribute } => {
                ErrorModel::UnsupportedAttributeValue { attribute }
            },
            ExtractError::UnknownTypeTag { tag } => ErrorModel::UnknownTypeTag { tag },
            ExtractError::UnexpectedUnspecifiedType { name } => {
                ErrorModel::UnexpectedUnspecifiedType { name: text_view(name) }
            },
            ExtractError::MissingAttribute { attribute } => ErrorModel::MissingAttribute {
                attribute,
            },
            ExtractError::UnknownPrimitive { source_name, encoding, byte_size } => {
                ErrorModel::UnknownPrimitive { source_name: source_name@, encoding, byte_size }
            },
            ExtractError::ChainTooLong => ErrorModel::ChainTooLong,
            ExtractError::EmptyWindow => ErrorModel::EmptyWindow,
        }
    }
}

} // verus!
