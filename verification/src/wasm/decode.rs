//! What this library takes from the `wasmparser` crate: its types, and the
//! calls into it, each with what is assumed of it.

use vstd::prelude::*;
use crate::wasm::parse::{FunctionType, FunctionTypeModel};
use wasmparser::{
    BinaryReaderError, BrTable, FunctionBody, FunctionSectionReader, Ieee32, Ieee64,
    Import, ImportSectionEntryType, ImportSectionReader, Name, NameSectionReader, Operator, Parser,
    Payload, TypeDef, TypeSectionReader, V128,
};

verus! {

// The operators and what they hold are declared with their variants and
// fields, which are all public: the mnemonic and the operands of an
// operator are read from them. The values that hide their contents are
// declared without them, and so is everything that only passes through.

#[verifier::external_type_specification]
pub struct ExType(wasmparser::Type);

#[verifier::external_type_specification]
pub struct ExTypeOrFuncType(wasmparser::TypeOrFuncType);

#[verifier::external_type_specification]
pub struct ExMemoryImmediate(wasmparser::MemoryImmediate);

#[verifier::external_type_specification]
#[verifier::external_body]
pub struct ExBrTable<'a>(wasmparser::BrTable<'a>);

#[verifier::external_type_specification]
#[verifier::external_body]
pub struct ExIeee32(wasmparser::Ieee32);

#[verifier::external_type_specification]
#[verifier::external_body]
pub struct ExIeee64(wasmparser::Ieee64);

#[verifier::external_type_specification]
#[verifier::external_body]
pub struct ExV128(wasmparser::V128);

#[verifier::external_type_specification]
pub struct ExOperator<'a>(wasmparser::Operator<'a>);

#[verifier::external_type_specification]
#[verifier::external_body]
pub struct ExPayload<'a>(wasmparser::Payload<'a>);

#[verifier::external_type_specification]
#[verifier::external_body]
pub struct ExTypeSectionReader<'a>(wasmparser::TypeSectionReader<'a>);

#[verifier::external_type_specification]
#[verifier::external_body]
pub struct ExImportSectionReader<'a>(wasmparser::ImportSectionReader<'a>);

#[verifier::external_type_specification]
#[verifier::external_body]
pub struct ExFunctionSectionReader<'a>(wasmparser::FunctionSectionReader<'a>);

#[verifier::external_type_specification]
#[verifier::external_body]
pub struct ExTypeDef<'a>(wasmparser::TypeDef<'a>);

#[verifier::external_type_specification]
#[verifier::external_body]
pub struct ExImport<'a>(wasmparser::Import<'a>);

#[verifier::external_type_specification]
#[verifier::external_body]
pub struct ExName<'a>(wasmparser::Name<'a>);

/// What a decoder handed out before it stopped: the items that it read, in
/// order, and the error that ended the reading, if one did.
pub struct Decoded<T> {
    pub items: Vec<T>,
    pub failure: Option<BinaryReaderError>,
}

/// What a decoder hands out before it stops: the items that it reads, in
/// order, and the error that ends the reading, if one does.
pub struct Outcome<T> {
    pub items: Seq<T>,
    pub failure: Option<BinaryReaderError>,
}

impl<T> Decoded<T> {
    /// The items as a sequence, and the failure.
    pub open spec fn outcome(&self) -> Outcome<T> {
        Outcome { items: self.items@, failure: self.failure }
    }
}

/// Each name of a list as a sequence of characters.
pub open spec fn naming_models(namings: Seq<(u32, String)>) -> Seq<(u32, Seq<char>)> {
    Seq::new(namings.len(), |i: int| (namings[i].0, namings[i].1@))
}

/// One part of a module, as the decoder outlines it. The contents of the
/// type, import and function sections are not read yet.
pub enum Section<'a> {
    Types(TypeSectionReader<'a>),
    Imports(ImportSectionReader<'a>),
    Functions(FunctionSectionReader<'a>),
    /// The code section begins at byte `start` of the module.
    CodeStart { start: usize },
    /// A function body fills the bytes from `start` up to `end`.
    CodeEntry { start: usize, end: usize },
    /// A custom section; its contents begin at byte `data_offset`.
    Custom { name: &'a str, data: &'a [u8], data_offset: usize },
    /// Any other part.
    Other,
}

/// Whether an import brings a function.
pub enum ImportKind {
    Function,
    Other,
}

/// The parts of the module `bytes`, in file order, up to its end or to the
/// first part that the decoder rejects.
pub uninterp spec fn payloads_of(bytes: Seq<u8>) -> Outcome<Payload<'static>>;

/// What kind of part a payload is, with what this library keeps of it.
pub uninterp spec fn payload_section(payload: Payload<'static>) -> Section<'static>;

/// The definitions of a type section, up to the first that the decoder
/// rejects.
pub uninterp spec fn type_definitions(reader: TypeSectionReader<'static>) -> Outcome<
    TypeDef<'static>,
>;

/// The function type that a type definition holds, if it is one.
pub uninterp spec fn function_type_in(definition: TypeDef<'static>) -> Option<FunctionTypeModel>;

/// The imports of an import section, up to the first that the decoder
/// rejects.
pub uninterp spec fn imports_in(reader: ImportSectionReader<'static>) -> Outcome<Import<'static>>;

/// Whether an import brings a function.
pub uninterp spec fn kind_of_import(import: Import<'static>) -> ImportKind;

/// The type indices of a function section, up to the first that the decoder
/// rejects.
pub uninterp spec fn type_indices_in(reader: FunctionSectionReader<'static>) -> Outcome<u32>;

/// The subsections of the name section with the contents `data`, which
/// begin at byte `data_offset` of the module, up to the first that the
/// decoder rejects; or the error with which the decoder refuses the section.
pub uninterp spec fn name_subsections_in(data: Seq<u8>, data_offset: usize) -> Result<
    Outcome<Name<'static>>,
    BinaryReaderError,
>;

/// The index and the name of each entry of a subsection of function names,
/// up to the first that the decoder rejects; `None` for any other
/// subsection.
pub uninterp spec fn function_names_in(subsection: Name<'static>) -> Option<
    Outcome<(u32, Seq<char>)>,
>;

/// The branch targets that a `br_table` holds, the default target last, or
/// the error of the first target that cannot be read.
pub uninterp spec fn branch_targets(table: BrTable) -> Result<Seq<u32>, BinaryReaderError>;

/// The bit pattern of a 32-bit floating-point constant.
pub uninterp spec fn single_bits(value: Ieee32) -> u32;

/// The bit pattern of a 64-bit floating-point constant.
pub uninterp spec fn double_bits(value: Ieee64) -> u64;

/// The sixteen bytes of a vector constant.
pub uninterp spec fn vector_bytes(value: V128) -> Seq<u8>;

/// `BrTable::targets`, collected: the relative depth of every target, the
/// default target included, or the decoder's error for the first target that
/// it cannot read. The result is a function of the table alone.
#[verifier::external_body]
pub(crate) fn br_table_targets(table: &BrTable) -> (targets: Result<Vec<u32>, BinaryReaderError>)
    ensures
        match targets {
            Ok(list) => branch_targets(*table) == Ok::<Seq<u32>, BinaryReaderError>(list@),
            Err(error) => branch_targets(*table) == Err::<Seq<u32>, BinaryReaderError>(error),
        },
{
    table.targets().map(|target| target.map(|(depth, _)| depth)).collect()
}

/// `Parser::parse_all` from the start of `bytes`: the parts of the module in
/// file order, up to its end or to the first part that the decoder rejects.
/// They are a function of the bytes; nothing else is claimed of them.
#[verifier::external_body]
pub(crate) fn module_payloads<'a>(bytes: &'a [u8]) -> (payloads: Decoded<Payload<'a>>)
    ensures
        payloads.outcome() == payloads_of(bytes@),
{
    let mut items = Vec::new();
    for payload in Parser::new(0).parse_all(bytes) {
        match payload {
            Ok(payload) => items.push(payload),
            Err(error) => return Decoded { items, failure: Some(error) },
        }
    }
    Decoded { items, failure: None }
}

/// Tells the variants of `Payload` apart. From the start of the code section
/// and from a function body only the byte range is kept (`FunctionBody::range`)
/// and of that only its bounds.
#[verifier::external_body]
pub(crate) fn section_of<'a>(payload: Payload<'a>) -> (section: Section<'a>)
    ensures
        section == payload_section(payload),
{
    match payload {
        Payload::TypeSection(reader) => Section::Types(reader),
        Payload::ImportSection(reader) => Section::Imports(reader),
        Payload::FunctionSection(reader) => Section::Functions(reader),
        Payload::CodeSectionStart { range, .. } => Section::CodeStart { start: range.start },
        Payload::CodeSectionEntry(body) => Section::CodeEntry {
            start: body.range().start,
            end: body.range().end,
        },
        Payload::CustomSection { name, data, data_offset, .. } => Section::Custom { name, data, data_offset },
        _ => Section::Other,
    }
}

/// `TypeSectionReader::read`, as often as `get_count` says: the type
/// definitions up to the first that the decoder rejects.
#[verifier::external_body]
pub(crate) fn type_entries<'a>(reader: TypeSectionReader<'a>) -> (entries: Decoded<TypeDef<'a>>)
    ensures
        entries.outcome() == type_definitions(reader),
{
    let mut reader = reader;
    let mut items = Vec::new();
    for _ in 0..reader.get_count() {
        match reader.read() {
            Ok(entry) => items.push(entry),
            Err(error) => return Decoded { items, failure: Some(error) },
        }
    }
    Decoded { items, failure: None }
}

/// Tells a function type from the other type definitions, and hands out its
/// parameter and result types.
#[verifier::external_body]
pub(crate) fn as_func_type(definition: TypeDef) -> (function_type: Option<FunctionType>)
    ensures
        match function_type {
            Some(function_type) => function_type_in(definition) == Some(function_type@),
            None => function_type_in(definition) is None,
        },
{
    match definition {
        TypeDef::Func(func_type) => Some(FunctionType {
            params: func_type.params.into_vec(),
            returns: func_type.returns.into_vec(),
        }),
        _ => None,
    }
}

/// `ImportSectionReader::read`, as often as `get_count` says: the imports up
/// to the first that the decoder rejects.
#[verifier::external_body]
pub(crate) fn import_entries<'a>(reader: ImportSectionReader<'a>) -> (entries: Decoded<Import<'a>>)
    ensures
        entries.outcome() == imports_in(reader),
{
    let mut reader = reader;
    let mut items = Vec::new();
    for _ in 0..reader.get_count() {
        match reader.read() {
            Ok(entry) => items.push(entry),
            Err(error) => return Decoded { items, failure: Some(error) },
        }
    }
    Decoded { items, failure: None }
}

/// Tells the import of a function from the other imports.
#[verifier::external_body]
pub(crate) fn import_kind(import: &Import) -> (kind: ImportKind)
    ensures
        kind == kind_of_import(*import),
{
    match import.ty {
        ImportSectionEntryType::Function(_) => ImportKind::Function,
        _ => ImportKind::Other,
    }
}

/// `FunctionSectionReader::read`, as often as `get_count` says: the type
/// index of each function up to the first that the decoder rejects.
#[verifier::external_body]
pub(crate) fn function_entries(reader: FunctionSectionReader) -> (entries: Decoded<u32>)
    ensures
        entries.outcome() == type_indices_in(reader),
{
    let mut reader = reader;
    let mut items = Vec::new();
    for _ in 0..reader.get_count() {
        match reader.read() {
            Ok(entry) => items.push(entry),
            Err(error) => return Decoded { items, failure: Some(error) },
        }
    }
    Decoded { items, failure: None }
}

/// `NameSectionReader::new` on the contents of a name section, and then its
/// iterator: the subsections up to the end of the data or to the first that
/// the decoder rejects.
#[verifier::external_body]
pub(crate) fn name_subsections<'a>(data: &'a [u8], data_offset: usize) -> (subsections: Result<
    Decoded<Name<'a>>,
    BinaryReaderError,
>)
    requires
        data_offset + data@.len() <= usize::MAX,
    ensures
        match subsections {
            Ok(subsections) => name_subsections_in(data@, data_offset) == Ok::<
                Outcome<Name<'static>>,
                BinaryReaderError,
            >(subsections.outcome()),
            Err(error) => name_subsections_in(data@, data_offset) == Err::<
                Outcome<Name<'static>>,
                BinaryReaderError,
            >(error),
        },
{
    let mut items = Vec::new();
    for subsection in NameSectionReader::new(data, data_offset)? {
        match subsection {
            Ok(subsection) => items.push(subsection),
            Err(error) => return Ok(Decoded { items, failure: Some(error) }),
        }
    }
    Ok(Decoded { items, failure: None })
}

/// For the subsection of function names, `FunctionName::get_map` and then
/// `NamingReader::read`, as often as `get_count` says: the index and the name
/// of each entry up to the first that the decoder rejects. For any other
/// subsection, `None`.
#[verifier::external_body]
pub(crate) fn function_names_of(subsection: &Name) -> (names: Option<Decoded<(u32, String)>>)
    ensures
        match names {
            Some(names) => function_names_in(*subsection) == Some(
                Outcome { items: naming_models(names.items@), failure: names.failure },
            ),
            None => function_names_in(*subsection) is None,
        },
{
    let Name::Function(names) = subsection else { return None; };
    let mut items = Vec::new();
    let mut reader = match names.get_map() {
        Ok(reader) => reader,
        Err(error) => return Some(Decoded { items, failure: Some(error) }),
    };
    for _ in 0..reader.get_count() {
        match reader.read() {
            Ok(naming) => items.push((naming.index, naming.name.to_string())),
            Err(error) => return Some(Decoded { items, failure: Some(error) }),
        }
    }
    Some(Decoded { items, failure: None })
}

/// The operators of the function body `bytes` that starts at `offset` of its
/// module, as far as the decoder accepts them, and the error that ended the
/// decoding, if one did; or the error of the declarations of locals.
pub uninterp spec fn body_operators(bytes: Seq<u8>, offset: usize) -> Result<
    Outcome<Operator<'static>>,
    BinaryReaderError,
>;

/// `FunctionBody::new(offset, bytes).get_operators_reader()` and then its
/// iterator: the operators of a function body, after its local declarations,
/// up to the end of the body or to the first that the decoder rejects. The
/// outer error is that of the local declarations. They are a function of the
/// bytes and of the offset.
#[verifier::external_body]
pub(crate) fn decode_operators<'a>(offset: usize, bytes: &'a [u8]) -> (decoded: Result<
    Decoded<Operator<'a>>,
    BinaryReaderError,
>)
    requires
        offset + bytes@.len() <= usize::MAX,
    ensures
        match decoded {
            Ok(decoded) => body_operators(bytes@, offset) == Ok::<
                Outcome<Operator<'static>>,
                BinaryReaderError,
            >(decoded.outcome()),
            Err(error) => body_operators(bytes@, offset) == Err::<
                Outcome<Operator<'static>>,
                BinaryReaderError,
            >(error),
        },
{
    let mut items = Vec::new();
    for operator in FunctionBody::new(offset, bytes).get_operators_reader()? {
        match operator {
            Ok(operator) => items.push(operator),
            Err(error) => return Ok(Decoded { items, failure: Some(error) }),
        }
    }
    Ok(Decoded { items, failure: None })
}

/// `Ieee32::bits` returns the constant's bit pattern.
pub assume_specification[ wasmparser::Ieee32::bits ](value: Ieee32) -> (bits: u32)
    ensures
        bits == single_bits(value),
;

/// `Ieee64::bits` returns the constant's bit pattern.
pub assume_specification[ wasmparser::Ieee64::bits ](value: Ieee64) -> (bits: u64)
    ensures
        bits == double_bits(value),
;

/// `V128::bytes` returns the constant's sixteen bytes.
pub assume_specification<'a>[ wasmparser::V128::bytes ](value: &'a V128) -> (bytes: &'a [u8; 16])
    ensures
        bytes@ == vector_bytes(*value),
;

} // verus!
