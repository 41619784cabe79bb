//! The structure of a module: its functions with their types and bodies, the
//! start of its code section, its custom sections and the names of its
//! functions.

use vstd::prelude::*;
use vstd::slice::{slice_subrange, slice_to_vec};
use std::collections::HashMap;
use std::rc::Rc;
use wasmparser::{BinaryReaderError, Operator, Type};
use crate::error::{ErrorModel, ExtractError};
use crate::fold::{lemma_try_fold_all, lemma_try_fold_failure, lemma_try_fold_next, try_fold};
use crate::text::same_text;
use crate::wasm::decode::{
    as_func_type, body_operators, decode_operators, function_entries, function_names_in,
    function_names_of, function_type_in, import_entries, import_kind, imports_in, kind_of_import,
    module_payloads, name_subsections, name_subsections_in, naming_models, payload_section,
    payloads_of, section_of, type_definitions, type_entries, type_indices_in, Decoded, ImportKind,
    Outcome, Section,
};

verus! {

broadcast use vstd::std_specs::hash::group_hash_axioms;

/// The parameter and result types of a function.
#[derive(Debug)]
pub struct FunctionType {
    pub params: Vec<Type>,
    pub returns: Vec<Type>,
}

/// A [`FunctionType`] as two sequences.
pub struct FunctionTypeModel {
    pub params: Seq<Type>,
    pub returns: Seq<Type>,
}

impl View for FunctionType {
    type V = FunctionTypeModel;

    open spec fn view(&self) -> FunctionTypeModel {
        FunctionTypeModel { params: self.params@, returns: self.returns@ }
    }
}

/// A copy of a list of value types.
fn copy_types(types: &Vec<Type>) -> (copy: Vec<Type>)
    ensures
        copy@ == types@,
{
    let mut copy: Vec<Type> = Vec::new();
    let mut i: usize = 0;
    while i < types.len()
        invariant
            i <= types.len(),
            copy@ == types@.take(i as int),
        decreases types.len() - i,
    {
        copy.push(types[i]);
        assert(copy@ =~= types@.take(i + 1));
        i = i + 1;
    }
    assert(types@.take(types.len() as int) =~= types@);
    copy
}

impl FunctionType {
    /// A copy of this function type.
    pub fn copy(&self) -> (copy: FunctionType)
        ensures
            copy@ == self@,
    {
        FunctionType { params: copy_types(&self.params), returns: copy_types(&self.returns) }
    }
}

/// The body of a function, not decoded: the byte at which it starts in the
/// module and its bytes, which all the samples of the function share.
#[derive(Debug)]
pub struct WasmBody {
    pub offset: usize,
    pub bytes: Rc<Vec<u8>>,
}

/// A [`WasmBody`] as its offset and the sequence of its bytes.
pub struct BodyModel {
    pub offset: usize,
    pub bytes: Seq<u8>,
}

impl View for WasmBody {
    type V = BodyModel;

    open spec fn view(&self) -> BodyModel {
        BodyModel { offset: self.offset, bytes: self.bytes@ }
    }
}

/// `Rc::clone` gives another handle to the same bytes.
#[verifier::external_body]
fn share_bytes(bytes: &Rc<Vec<u8>>) -> (shared: Rc<Vec<u8>>)
    ensures
        shared == *bytes,
{
    Rc::clone(bytes)
}

impl WasmBody {
    /// Whether the body ends at a byte position that the machine can count
    /// to, as every body within a module does.
    pub open spec fn wf(&self) -> bool {
        self.offset + self.bytes@.len() <= usize::MAX
    }

    /// The instructions of the body as the decoder reads them.
    pub open spec fn decoded(&self) -> Result<Outcome<Operator<'static>>, BinaryReaderError> {
        body_operators(self.bytes@, self.offset)
    }

    /// The body that fills the bytes from `start` up to `end` of the module
    /// `bytes`; none where that is no range within the module.
    pub fn from(start: usize, end: usize, bytes: &[u8]) -> (body: Option<WasmBody>)
        ensures
            body is Some <==> start <= end <= bytes@.len(),
            body matches Some(body) ==> body.wf() && body@ == (BodyModel {
                offset: start,
                bytes: bytes@.subrange(start as int, end as int),
            }),
    {
        if start <= end && end <= bytes.len() {
            let copy = slice_to_vec(slice_subrange(bytes, start, end));
            Some(WasmBody { offset: start, bytes: Rc::new(copy) })
        } else {
            None
        }
    }

    /// Another handle to this body, which shares its bytes.
    pub fn share(&self) -> (shared: WasmBody)
        ensures
            shared == *self,
    {
        WasmBody { offset: self.offset, bytes: share_bytes(&self.bytes) }
    }

    /// Decodes the instructions of the body anew: those that the decoder
    /// accepts, in order, and the error that ended the decoding, if one did.
    /// The outer error is that of the declarations of locals, before the
    /// first instruction.
    pub fn instructions(&self) -> (decoded: Result<Decoded<Operator<'_>>, BinaryReaderError>)
        requires
            self.wf(),
        ensures
            match decoded {
                Ok(decoded) => self.decoded() == Ok::<
                    Outcome<Operator<'static>>,
                    BinaryReaderError,
                >(decoded.outcome()),
                Err(error) => self.decoded() == Err::<
                    Outcome<Operator<'static>>,
                    BinaryReaderError,
                >(error),
            },
    {
        decode_operators(self.offset, self.bytes.as_slice())
    }
}

/// A function with a body.
#[derive(Debug)]
pub struct WasmFunction {
    /// The function's index among all functions of the module, the imported
    /// ones first.
    pub idx: u32,
    pub type_: FunctionType,
    pub body: WasmBody,
}

/// A [`WasmFunction`] with each list as a sequence.
pub struct FunctionModel {
    pub idx: u32,
    pub type_: FunctionTypeModel,
    pub body: BodyModel,
}

impl View for WasmFunction {
    type V = FunctionModel;

    open spec fn view(&self) -> FunctionModel {
        FunctionModel { idx: self.idx, type_: self.type_@, body: self.body@ }
    }
}

/// A custom section: its name and its contents.
#[derive(Debug)]
pub struct CustomSection {
    pub name: String,
    pub data: Rc<Vec<u8>>,
}

/// A [`CustomSection`] as two sequences.
pub struct CustomSectionModel {
    pub name: Seq<char>,
    pub data: Seq<u8>,
}

impl View for CustomSection {
    type V = CustomSectionModel;

    open spec fn view(&self) -> CustomSectionModel {
        CustomSectionModel { name: self.name@, data: self.data@ }
    }
}

/// The contents of the section called `name`: those of the last section of
/// that name, and nothing where there is none.
pub open spec fn section_data(sections: Seq<CustomSection>, name: Seq<char>) -> Seq<u8>
    decreases sections.len(),
{
    if sections.len() == 0 {
        Seq::empty()
    } else if sections.last().name@ == name {
        sections.last().data@
    } else {
        section_data(sections.drop_last(), name)
    }
}

/// The contents of the section called `name`.
pub fn find_section(sections: &Vec<CustomSection>, name: &str) -> (data: Rc<Vec<u8>>)
    ensures
        data@ == section_data(sections@, name@),
{
    let mut i: usize = sections.len();
    assert(sections@.take(i as int) =~= sections@);
    while i > 0
        invariant
            i <= sections.len(),
            section_data(sections@, name@) == section_data(sections@.take(i as int), name@),
        decreases i,
    {
        proof {
            assert(sections@.take(i as int).drop_last() =~= sections@.take(i - 1));
        }
        if same_text(sections[i - 1].name.as_str(), name) {
            return share_bytes(&sections[i - 1].data);
        }
        i = i - 1;
    }
    Rc::new(Vec::new())
}

/// What was taken from a module.
#[derive(Debug)]
pub struct WasmBinary {
    /// The byte at which the code section starts.
    pub code_section_offset: usize,
    /// The custom sections, in file order.
    pub custom_sections: Vec<CustomSection>,
    /// The functions with a body, in file order.
    pub functions: Vec<WasmFunction>,
    /// The name of each function that the name section names, by index.
    pub function_names: HashMap<u32, String>,
}

/// The functions of a list, each as its model.
pub open spec fn function_models(functions: Seq<WasmFunction>) -> Seq<FunctionModel> {
    Seq::new(functions.len(), |i: int| functions[i]@)
}

/// The custom sections of a list, each as its model.
pub open spec fn section_models(sections: Seq<CustomSection>) -> Seq<CustomSectionModel> {
    Seq::new(sections.len(), |i: int| sections[i]@)
}

/// The names of a map, each as a sequence of characters.
pub open spec fn name_models(names: Map<u32, String>) -> Map<u32, Seq<char>> {
    names.map_values(|name: String| name@)
}

/// A [`WasmBinary`] with each list as a sequence and the names as a map.
pub struct BinaryModel {
    pub code_section_offset: usize,
    pub custom_sections: Seq<CustomSectionModel>,
    pub functions: Seq<FunctionModel>,
    pub function_names: Map<u32, Seq<char>>,
}

impl View for WasmBinary {
    type V = BinaryModel;

    open spec fn view(&self) -> BinaryModel {
        BinaryModel {
            code_section_offset: self.code_section_offset,
            custom_sections: section_models(self.custom_sections@),
            functions: function_models(self.functions@),
            function_names: name_models(self.function_names@),
        }
    }
}

/// Whether the functions of a list are numbered in increasing order, so that
/// no index occurs twice, and each body ends at a byte position that the
/// machine can count to.
pub open spec fn functions_wf(functions: Seq<WasmFunction>) -> bool {
    &&& forall|i: int| 0 <= i < functions.len() ==> (#[trigger] functions[i]).body.wf()
    &&& forall|i: int, j: int|
        0 <= i < j < functions.len() ==> (#[trigger] functions[i]).idx < (
        #[trigger] functions[j]).idx
}

impl WasmBinary {
    /// What holds of every module that was put together from its parts: see
    /// [`functions_wf`].
    pub open spec fn wf(&self) -> bool {
        functions_wf(self.functions@)
    }
}

/// One subsection of a name section.
pub enum NameItem {
    /// The subsection of function names: the index and the name of each
    /// entry.
    Functions(Decoded<(u32, String)>),
    /// Any other subsection.
    Skipped,
}

/// What was read of a custom section as a name section.
pub enum NameParts {
    /// The section is not called `name`.
    NotNames,
    /// The decoder placed the section's contents beyond what the machine can
    /// count to.
    Unplaced { data_offset: usize },
    /// The decoder refused the section as a whole.
    Failed(BinaryReaderError),
    /// The subsections, up to the first that the decoder rejects.
    Read(Decoded<NameItem>),
}

/// One part of a module, with what the decoder read of its contents.
pub enum Part {
    /// A type section: for each entry its function type, or `None` where the
    /// entry defines something else.
    Types(Decoded<Option<FunctionType>>),
    /// An import section.
    Imports(Decoded<ImportKind>),
    /// A function section: for each function with a body the index of its
    /// type.
    Functions(Decoded<u32>),
    /// The code section begins at byte `start`.
    CodeStart { start: usize },
    /// A function body fills the bytes from `start` up to `end`.
    CodeEntry { start: usize, end: usize },
    /// A custom section.
    Custom { name: String, data: Vec<u8>, names: NameParts },
    /// Any other part.
    Other,
}

/// A [`NameItem`] with each name as a sequence of characters.
pub enum NameItemModel {
    Functions(Outcome<(u32, Seq<char>)>),
    Skipped,
}

/// A [`NameParts`] with each list as a sequence.
pub enum NamePartsModel {
    NotNames,
    Unplaced { data_offset: usize },
    Failed(BinaryReaderError),
    Read(Outcome<NameItemModel>),
}

/// A [`Part`] with each list and each text as a sequence.
pub enum PartModel {
    Types(Outcome<Option<FunctionTypeModel>>),
    Imports(Outcome<ImportKind>),
    Functions(Outcome<u32>),
    CodeStart { start: usize },
    CodeEntry { start: usize, end: usize },
    Custom { name: Seq<char>, data: Seq<u8>, names: NamePartsModel },
    Other,
}

impl View for NameItem {
    type V = NameItemModel;

    open spec fn view(&self) -> NameItemModel {
        match *self {
            NameItem::Functions(names) => NameItemModel::Functions(
                Outcome { items: naming_models(names.items@), failure: names.failure },
            ),
            NameItem::Skipped => NameItemModel::Skipped,
        }
    }
}

/// The subsections of a list, each as its model.
pub open spec fn item_models(items: Seq<NameItem>) -> Seq<NameItemModel> {
    Seq::new(items.len(), |i: int| items[i]@)
}

impl View for NameParts {
    type V = NamePartsModel;

    open spec fn view(&self) -> NamePartsModel {
        match *self {
            NameParts::NotNames => NamePartsModel::NotNames,
            NameParts::Unplaced { data_offset } => NamePartsModel::Unplaced { data_offset },
            NameParts::Failed(error) => NamePartsModel::Failed(error),
            NameParts::Read(subsections) => NamePartsModel::Read(
                Outcome { items: item_models(subsections.items@), failure: subsections.failure },
            ),
        }
    }
}

impl View for Part {
    type V = PartModel;

    open spec fn view(&self) -> PartModel {
        match *self {
            Part::Types(entries) => PartModel::Types(
                Outcome { items: type_models(entries.items@), failure: entries.failure },
            ),
            Part::Imports(imports) => PartModel::Imports(imports.outcome()),
            Part::Functions(indices) => PartModel::Functions(indices.outcome()),
            Part::CodeStart { start } => PartModel::CodeStart { start },
            Part::CodeEntry { start, end } => PartModel::CodeEntry { start, end },
            Part::Custom { name, data, names } => PartModel::Custom {
                name: name@,
                data: data@,
                names: names@,
            },
            Part::Other => PartModel::Other,
        }
    }
}

/// The parts of a list, each as its model.
pub open spec fn part_models(parts: Decoded<Part>) -> Outcome<PartModel> {
    Outcome {
        items: Seq::new(parts.items@.len(), |i: int| parts.items@[i]@),
        failure: parts.failure,
    }
}

/// The state of reading a module part by part.
pub struct Assembly {
    /// The start of the code section, once it was met.
    pub code_start: Option<usize>,
    /// The number of imported functions met so far.
    pub imported: nat,
    /// For each function with a body, the index of its type.
    pub type_indices: Seq<u32>,
    /// For each entry of the type section, its function type if it is one.
    pub types: Seq<Option<FunctionTypeModel>>,
    pub functions: Seq<FunctionModel>,
    pub custom_sections: Seq<CustomSectionModel>,
    pub function_names: Map<u32, Seq<char>>,
}

/// The state before the first part.
pub open spec fn initial_assembly() -> Assembly {
    Assembly {
        code_start: None,
        imported: 0,
        type_indices: Seq::empty(),
        types: Seq::empty(),
        functions: Seq::empty(),
        custom_sections: Seq::empty(),
        function_names: Map::empty(),
    }
}

/// The function types of a list of type section entries.
pub open spec fn type_models(entries: Seq<Option<FunctionType>>) -> Seq<Option<FunctionTypeModel>> {
    Seq::new(
        entries.len(),
        |i: int|
            match entries[i] {
                Some(function_type) => Some(function_type@),
                None => None,
            },
    )
}

/// The number of function imports among `imports`.
pub open spec fn count_function_imports(imports: Seq<ImportKind>) -> nat
    decreases imports.len(),
{
    if imports.len() == 0 {
        0
    } else {
        count_function_imports(imports.drop_last()) + (if imports.last() is Function {
            1nat
        } else {
            0nat
        })
    }
}

/// The failure for the error that ended a decoding, if one did.
pub open spec fn after_items<S>(state: S, failure: Option<BinaryReaderError>) -> Result<
    S,
    ErrorModel,
> {
    match failure {
        Some(error) => Err(ErrorModel::Wasm(error)),
        None => Ok(state),
    }
}

/// Records the name of one function. A second name for an index is a
/// failure.
pub open spec fn add_name(names: Map<u32, Seq<char>>, entry: (u32, Seq<char>)) -> Result<
    Map<u32, Seq<char>>,
    ErrorModel,
> {
    if names.contains_key(entry.0) {
        Err(ErrorModel::DuplicateName { index: entry.0, first: names[entry.0], second: entry.1 })
    } else {
        Ok(names.insert(entry.0, entry.1))
    }
}

/// [`add_name`] as a step of a fold.
pub open spec fn name_adder() -> spec_fn(Map<u32, Seq<char>>, (u32, Seq<char>)) -> Result<
    Map<u32, Seq<char>>,
    ErrorModel,
> {
    |names: Map<u32, Seq<char>>, entry: (u32, Seq<char>)| add_name(names, entry)
}

/// Records the names of one subsection. The names before an entry that the
/// decoder rejects are recorded, and checked, before its error is returned.
pub open spec fn add_subsection(names: Map<u32, Seq<char>>, item: NameItemModel) -> Result<
    Map<u32, Seq<char>>,
    ErrorModel,
> {
    match item {
        NameItemModel::Skipped => Ok(names),
        NameItemModel::Functions(entries) => match try_fold(entries.items, names, name_adder()) {
            Ok(names) => after_items(names, entries.failure),
            Err(error) => Err(error),
        },
    }
}

/// [`add_subsection`] as a step of a fold.
pub open spec fn subsection_adder() -> spec_fn(Map<u32, Seq<char>>, NameItemModel) -> Result<
    Map<u32, Seq<char>>,
    ErrorModel,
> {
    |names: Map<u32, Seq<char>>, item: NameItemModel| add_subsection(names, item)
}

/// Records the names of a custom section. A subsection that the decoder
/// rejects ends the reading of names and is no failure.
pub open spec fn add_names(names: Map<u32, Seq<char>>, parts: NamePartsModel, end: usize) -> Result<
    Map<u32, Seq<char>>,
    ErrorModel,
> {
    match parts {
        NamePartsModel::NotNames => Ok(names),
        NamePartsModel::Unplaced { data_offset } => Err(
            ErrorModel::RangeOutsideModule { start: data_offset, end },
        ),
        NamePartsModel::Failed(error) => Err(ErrorModel::Wasm(error)),
        NamePartsModel::Read(subsections) => try_fold(
            subsections.items,
            names,
            subsection_adder(),
        ),
    }
}

/// Adds the function whose body fills the bytes from `start` up to `end`.
///
/// Its index is the number of imported functions plus the number of bodies
/// before it; its type is found through the function section and the type
/// section, and each missing link is a failure.
pub open spec fn add_body(state: Assembly, start: usize, end: usize, bytes: Seq<u8>) -> Result<
    Assembly,
    ErrorModel,
> {
    let local = state.functions.len();
    let index = state.imported + local;
    if index > u32::MAX {
        Err(ErrorModel::TooManyFunctions)
    } else if local >= state.type_indices.len() {
        Err(ErrorModel::MissingTypeIndex { function_index: index as u32 })
    } else {
        let type_index = state.type_indices[local as int];
        if type_index >= state.types.len() {
            Err(ErrorModel::MissingType { type_index })
        } else {
            match state.types[type_index as int] {
                None => Err(ErrorModel::NotAFunctionType { type_index }),
                Some(type_) => if start <= end <= bytes.len() {
                    Ok(
                        Assembly {
                            functions: state.functions.push(
                                FunctionModel {
                                    idx: index as u32,
                                    type_,
                                    body: BodyModel {
                                        offset: start,
                                        bytes: bytes.subrange(start as int, end as int),
                                    },
                                },
                            ),
                            ..state
                        },
                    )
                } else {
                    Err(ErrorModel::RangeOutsideModule { start, end })
                },
            }
        }
    }
}

/// The state after one more part of the module `bytes`.
pub open spec fn add_part(state: Assembly, part: PartModel, bytes: Seq<u8>) -> Result<
    Assembly,
    ErrorModel,
> {
    match part {
        PartModel::Types(entries) => after_items(
            Assembly { types: state.types + entries.items, ..state },
            entries.failure,
        ),
        PartModel::Imports(imports) => {
            let imported = state.imported + count_function_imports(imports.items);
            if imported > u32::MAX {
                Err(ErrorModel::TooManyFunctions)
            } else {
                after_items(Assembly { imported, ..state }, imports.failure)
            }
        },
        PartModel::Functions(indices) => after_items(
            Assembly { type_indices: state.type_indices + indices.items, ..state },
            indices.failure,
        ),
        PartModel::CodeStart { start } => match state.code_start {
            None => Ok(Assembly { code_start: Some(start), ..state }),
            Some(previous_offset) => Err(ErrorModel::SecondCodeSection { previous_offset }),
        },
        PartModel::CodeEntry { start, end } => add_body(state, start, end, bytes),
        PartModel::Custom { name, data, names } => match add_names(
            state.function_names,
            names,
            usize::MAX,
        ) {
            Ok(function_names) => Ok(
                Assembly {
                    custom_sections: state.custom_sections.push(
                        CustomSectionModel { name, data },
                    ),
                    function_names,
                    ..state
                },
            ),
            Err(error) => Err(error),
        },
        PartModel::Other => Ok(state),
    }
}

/// [`add_part`] as a step of a fold.
pub open spec fn part_adder(bytes: Seq<u8>) -> spec_fn(Assembly, PartModel) -> Result<
    Assembly,
    ErrorModel,
> {
    |state: Assembly, part: PartModel| add_part(state, part, bytes)
}

/// What the parts of the module `bytes` amount to.
///
/// The parts are taken in order, and the first failure is the result. An
/// error that ended the decoding of the module comes after the parts before
/// it. A module without a code section is a failure.
pub open spec fn assembled(bytes: Seq<u8>, parts: Outcome<PartModel>) -> Result<
    BinaryModel,
    ErrorModel,
> {
    match try_fold(parts.items, initial_assembly(), part_adder(bytes)) {
        Err(error) => Err(error),
        Ok(state) => match parts.failure {
            Some(error) => Err(ErrorModel::Wasm(error)),
            None => match state.code_start {
                None => Err(ErrorModel::MissingCodeSection),
                Some(code_section_offset) => Ok(
                    BinaryModel {
                        code_section_offset,
                        custom_sections: state.custom_sections,
                        functions: state.functions,
                        function_names: state.function_names,
                    },
                ),
            },
        },
    }
}

/// A result with its value and its error each as its model.
pub open spec fn binary_result(result: Result<WasmBinary, ExtractError>) -> Result<
    BinaryModel,
    ErrorModel,
> {
    match result {
        Ok(binary) => Ok(binary@),
        Err(error) => Err(error@),
    }
}

/// The state of reading a module part by part, as it is held while reading.
struct ModuleState {
    code_start: Option<usize>,
    imported: u32,
    type_indices: Vec<u32>,
    types: Vec<Option<FunctionType>>,
    functions: Vec<WasmFunction>,
    custom_sections: Vec<CustomSection>,
    function_names: HashMap<u32, String>,
}

impl View for ModuleState {
    type V = Assembly;

    closed spec fn view(&self) -> Assembly {
        Assembly {
            code_start: self.code_start,
            imported: self.imported as nat,
            type_indices: self.type_indices@,
            types: type_models(self.types@),
            functions: function_models(self.functions@),
            custom_sections: section_models(self.custom_sections@),
            function_names: name_models(self.function_names@),
        }
    }
}

/// Counts the function imports among `imports`.
fn function_imports(imports: &Vec<ImportKind>) -> (count: usize)
    ensures
        count == count_function_imports(imports@),
{
    let mut count: usize = 0;
    let mut i: usize = 0;
    assert(imports@.take(0) =~= Seq::<ImportKind>::empty());
    while i < imports.len()
        invariant
            i <= imports.len(),
            count <= i,
            count == count_function_imports(imports@.take(i as int)),
        decreases imports.len() - i,
    {
        proof {
            assert(imports@.take(i + 1).drop_last() =~= imports@.take(i as int));
        }
        match imports[i] {
            ImportKind::Function => {
                count = count + 1;
            },
            ImportKind::Other => {},
        }
        i = i + 1;
    }
    assert(imports@.take(imports.len() as int) =~= imports@);
    count
}

/// Records the names of one subsection of function names.
fn record_names(names: &mut HashMap<u32, String>, entries: Decoded<(u32, String)>) -> (done: Result<
    (),
    ExtractError,
>)
    ensures
        match add_subsection(name_models(old(names)@), NameItem::Functions(entries)@) {
            Ok(recorded) => done is Ok && name_models(final(names)@) == recorded,
            Err(error) => done matches Err(found) && found@ == error,
        },
{
    let Decoded { items, failure } = entries;
    let ghost all = naming_models(items@);
    let ghost start = name_models(names@);
    proof {
        lemma_try_fold_all(all, start, name_adder());
    }
    for entry in iter: items
        invariant
            iter.seq() == entries.items@,
            all == naming_models(entries.items@),
            failure == entries.failure,
            start == name_models(old(names)@),
            try_fold(all.take(iter.index() as int), start, name_adder()) == Ok::<
                Map<u32, Seq<char>>,
                ErrorModel,
            >(name_models(names@)),
    {
        let ghost k = iter.index() as int;
        let ghost before = names@;
        proof {
            lemma_try_fold_next(all, k, start, name_adder());
            assert(all[k] == (entry.0, entry.1@));
        }
        let (index, name) = entry;
        match names.get(&index) {
            Some(first) => {
                let first = first.clone();
                proof {
                    assert(name_models(before).contains_key(index));
                    assert(name_models(before)[index] == first@);
                    lemma_try_fold_failure(all, k + 1, start, name_adder());
                }
                return Err(ExtractError::DuplicateName { index, first, second: name });
            },
            None => {
                names.insert(index, name);
                proof {
                    assert(!name_models(before).contains_key(index));
                    assert(name_models(names@) =~= name_models(before).insert(index, name@));
                }
            },
        }
    }
    proof {
        lemma_try_fold_all(all, start, name_adder());
    }
    match failure {
        Some(error) => Err(ExtractError::Wasm(error)),
        None => Ok(()),
    }
}

/// Records the names of a custom section.
fn record_name_section(names: &mut HashMap<u32, String>, parts: NameParts) -> (done: Result<
    (),
    ExtractError,
>)
    ensures
        match add_names(name_models(old(names)@), parts@, usize::MAX) {
            Ok(recorded) => done is Ok && name_models(final(names)@) == recorded,
            Err(error) => done matches Err(found) && found@ == error,
        },
{
    match parts {
        NameParts::NotNames => Ok(()),
        NameParts::Unplaced { data_offset } => Err(
            ExtractError::RangeOutsideModule { start: data_offset, end: usize::MAX },
        ),
        NameParts::Failed(error) => Err(ExtractError::Wasm(error)),
        NameParts::Read(subsections) => {
            let Decoded { items, failure } = subsections;
            let ghost all = item_models(items@);
            let ghost start = name_models(names@);
            proof {
                lemma_try_fold_all(all, start, subsection_adder());
            }
            for item in iter: items
                invariant
                    iter.seq() == subsections.items@,
                    all == item_models(subsections.items@),
                    parts == NameParts::Read(subsections),
                    start == name_models(old(names)@),
                    try_fold(all.take(iter.index() as int), start, subsection_adder()) == Ok::<
                        Map<u32, Seq<char>>,
                        ErrorModel,
                    >(name_models(names@)),
            {
                let ghost k = iter.index() as int;
                proof {
                    lemma_try_fold_next(all, k, start, subsection_adder());
                    assert(all[k] == item@);
                }
                match item {
                    NameItem::Skipped => {},
                    NameItem::Functions(entries) => {
                        match record_names(names, entries) {
                            Ok(()) => {},
                            Err(error) => {
                                proof {
                                    lemma_try_fold_failure(all, k + 1, start, subsection_adder());
                                }
                                return Err(error);
                            },
                        }
                    },
                }
            }
            proof {
                lemma_try_fold_all(all, start, subsection_adder());
            }
            Ok(())
        },
    }
}

impl ModuleState {
    /// The functions are well-formed, and the next function gets an index
    /// above theirs.
    closed spec fn inv(&self) -> bool {
        &&& functions_wf(self.functions@)
        &&& forall|i: int|
            0 <= i < self.functions@.len() ==> (#[trigger] self.functions@[i]).idx
                < self.imported + self.functions@.len()
    }

    /// The state before the first part.
    fn new() -> (state: ModuleState)
        ensures
            state@ == initial_assembly(),
            state.inv(),
    {
        let state = ModuleState {
            code_start: None,
            imported: 0,
            type_indices: Vec::new(),
            types: Vec::new(),
            functions: Vec::new(),
            custom_sections: Vec::new(),
            function_names: HashMap::new(),
        };
        assert(state@.types =~= Seq::empty());
        assert(state@.functions =~= Seq::empty());
        assert(state@.custom_sections =~= Seq::empty());
        assert(state@.function_names =~= Map::empty());
        state
    }

    /// Adds the function whose body fills the bytes from `start` up to `end`.
    fn add_body(&mut self, start: usize, end: usize, bytes: &[u8]) -> (done: Result<
        (),
        ExtractError,
    >)
        requires
            old(self).inv(),
        ensures
            final(self).inv(),
            match add_body(old(self)@, start, end, bytes@) {
                Ok(state) => done is Ok && final(self)@ == state,
                Err(error) => done matches Err(found) && found@ == error,
            },
    {
        let local = self.functions.len();
        if local as u64 > u32::MAX as u64 - self.imported as u64 {
            return Err(ExtractError::TooManyFunctions);
        }
        let function_index: u32 = self.imported + local as u32;
        if local >= self.type_indices.len() {
            return Err(ExtractError::MissingTypeIndex { function_index });
        }
        let type_index = self.type_indices[local];
        if type_index as usize >= self.types.len() {
            return Err(ExtractError::MissingType { type_index });
        }
        let type_ = match &self.types[type_index as usize] {
            None => {
                return Err(ExtractError::NotAFunctionType { type_index });
            },
            Some(function_type) => function_type.copy(),
        };
        match WasmBody::from(start, end, bytes) {
            None => Err(ExtractError::RangeOutsideModule { start, end }),
            Some(body) => {
                let function = WasmFunction { idx: function_index, type_, body };
                self.functions.push(function);
                assert(final(self)@.functions =~= old(self)@.functions.push(function@));
                Ok(())
            },
        }
    }

    /// Takes one more part of the module `bytes`.
    fn add_part(&mut self, part: Part, bytes: &[u8]) -> (done: Result<(), ExtractError>)
        requires
            old(self).inv(),
        ensures
            final(self).inv(),
            match add_part(old(self)@, part@, bytes@) {
                Ok(state) => done is Ok && final(self)@ == state,
                Err(error) => done matches Err(found) && found@ == error,
            },
    {
        match part {
            Part::Types(entries) => {
                let Decoded { items, failure } = entries;
                let mut items = items;
                self.types.append(&mut items);
                assert(final(self)@.types =~= old(self)@.types + type_models(entries.items@));
                match failure {
                    Some(error) => Err(ExtractError::Wasm(error)),
                    None => Ok(()),
                }
            },
            Part::Imports(imports) => {
                let count = function_imports(&imports.items);
                if count as u64 > u32::MAX as u64 - self.imported as u64 {
                    return Err(ExtractError::TooManyFunctions);
                }
                self.imported = self.imported + count as u32;
                match imports.failure {
                    Some(error) => Err(ExtractError::Wasm(error)),
                    None => Ok(()),
                }
            },
            Part::Functions(indices) => {
                let Decoded { items, failure } = indices;
                let mut items = items;
                self.type_indices.append(&mut items);
                match failure {
                    Some(error) => Err(ExtractError::Wasm(error)),
                    None => Ok(()),
                }
            },
            Part::CodeStart { start } => match self.code_start {
                None => {
                    self.code_start = Some(start);
                    Ok(())
                },
                Some(previous_offset) => Err(ExtractError::SecondCodeSection { previous_offset }),
            },
            Part::CodeEntry { start, end } => self.add_body(start, end, bytes),
            Part::Custom { name, data, names } => {
                match record_name_section(&mut self.function_names, names) {
                    Ok(()) => {
                        let section = CustomSection { name, data: Rc::new(data) };
                        self.custom_sections.push(section);
                        assert(final(self)@.custom_sections =~= old(self)@.custom_sections.push(
                            section@,
                        ));
                        Ok(())
                    },
                    Err(error) => Err(error),
                }
            },
            Part::Other => Ok(()),
        }
    }
}

impl WasmBinary {
    /// Puts a module together from its parts.
    ///
    /// The parts are taken in file order. The result is the first failure
    /// among them, then the error that ended the decoding, then the lack of
    /// a code section; without any of these it is the module.
    pub fn assemble(bytes: &[u8], parts: Decoded<Part>) -> (binary: Result<WasmBinary, ExtractError>)
        ensures
            binary_result(binary) == assembled(bytes@, part_models(parts)),
            binary matches Ok(binary) ==> binary.wf(),
    {
        let Decoded { items, failure } = parts;
        let ghost all = part_models(parts).items;
        let mut state = ModuleState::new();
        proof {
            lemma_try_fold_all(all, initial_assembly(), part_adder(bytes@));
        }
        for part in iter: items
            invariant
                iter.seq() == parts.items@,
                all == part_models(parts).items,
                failure == parts.failure,
                state.inv(),
                try_fold(all.take(iter.index() as int), initial_assembly(), part_adder(bytes@))
                    == Ok::<Assembly, ErrorModel>(state@),
        {
            let ghost k = iter.index() as int;
            proof {
                lemma_try_fold_next(all, k, initial_assembly(), part_adder(bytes@));
                assert(all[k] == part@);
            }
            match state.add_part(part, bytes) {
                Ok(()) => {},
                Err(error) => {
                    proof {
                        lemma_try_fold_failure(all, k + 1, initial_assembly(), part_adder(bytes@));
                    }
                    return Err(error);
                },
            }
        }
        proof {
            lemma_try_fold_all(all, initial_assembly(), part_adder(bytes@));
        }
        match failure {
            Some(error) => Err(ExtractError::Wasm(error)),
            None => match state.code_start {
                None => Err(ExtractError::MissingCodeSection),
                Some(code_section_offset) => Ok(
                    WasmBinary {
                        code_section_offset,
                        custom_sections: state.custom_sections,
                        functions: state.functions,
                        function_names: state.function_names,
                    },
                ),
            },
        }
    }
}

/// The subsection of a name section, with what this library reads of it:
/// the function names, and nothing of any other subsection.
pub open spec fn item_of(subsection: wasmparser::Name<'static>) -> NameItemModel {
    match function_names_in(subsection) {
        Some(names) => NameItemModel::Functions(names),
        None => NameItemModel::Skipped,
    }
}

/// What is read of a custom section as a name section: its subsections, if
/// it is called `name`.
pub open spec fn names_of(name: Seq<char>, data: Seq<u8>, data_offset: usize) -> NamePartsModel {
    if name != "name"@ {
        NamePartsModel::NotNames
    } else if data.len() > usize::MAX - data_offset {
        NamePartsModel::Unplaced { data_offset }
    } else {
        match name_subsections_in(data, data_offset) {
            Err(error) => NamePartsModel::Failed(error),
            Ok(subsections) => NamePartsModel::Read(
                Outcome {
                    items: Seq::new(
                        subsections.items.len(),
                        |i: int| item_of(subsections.items[i]),
                    ),
                    failure: subsections.failure,
                },
            ),
        }
    }
}

/// One part of a module, with what this library reads of its contents: the
/// entries of the type, import and function sections, the bounds of the
/// code section and of each body, and of a custom section its name, its
/// contents and, if it is the name section, its function names.
pub open spec fn part_of(section: Section<'static>) -> PartModel {
    match section {
        Section::Types(reader) => {
            let definitions = type_definitions(reader);
            PartModel::Types(
                Outcome {
                    items: Seq::new(
                        definitions.items.len(),
                        |i: int| function_type_in(definitions.items[i]),
                    ),
                    failure: definitions.failure,
                },
            )
        },
        Section::Imports(reader) => {
            let imports = imports_in(reader);
            PartModel::Imports(
                Outcome {
                    items: Seq::new(imports.items.len(), |i: int| kind_of_import(imports.items[i])),
                    failure: imports.failure,
                },
            )
        },
        Section::Functions(reader) => PartModel::Functions(type_indices_in(reader)),
        Section::CodeStart { start } => PartModel::CodeStart { start },
        Section::CodeEntry { start, end } => PartModel::CodeEntry { start, end },
        Section::Custom { name, data, data_offset } => PartModel::Custom {
            name: name@,
            data: data@,
            names: names_of(name@, data@, data_offset),
        },
        Section::Other => PartModel::Other,
    }
}

/// The parts of the module `bytes`, in file order, up to its end or to the
/// first part that the decoder rejects.
pub open spec fn parts_of(bytes: Seq<u8>) -> Outcome<PartModel> {
    let payloads = payloads_of(bytes);
    Outcome {
        items: Seq::new(payloads.items.len(), |i: int| part_of(payload_section(payloads.items[i]))),
        failure: payloads.failure,
    }
}

/// What decoding the module `bytes` amounts to: its parts, put together.
pub open spec fn parsed(bytes: Seq<u8>) -> Result<BinaryModel, ErrorModel> {
    assembled(bytes, parts_of(bytes))
}

/// Reads the function names of the subsections of a name section.
fn decode_names(data: &[u8], data_offset: usize) -> (names: NameParts)
    requires
        data@.len() <= usize::MAX - data_offset,
    ensures
        names@ == names_of("name"@, data@, data_offset),
{
    match name_subsections(data, data_offset) {
        Err(error) => NameParts::Failed(error),
        Ok(subsections) => {
            let Decoded { items, failure } = subsections;
            let mut read: Vec<NameItem> = Vec::new();
            let mut i: usize = 0;
            while i < items.len()
                invariant
                    i <= items.len(),
                    read@.len() == i,
                    forall|k: int| 0 <= k < i ==> (#[trigger] read@[k])@ == item_of(items@[k]),
                decreases items.len() - i,
            {
                match function_names_of(&items[i]) {
                    Some(names) => read.push(NameItem::Functions(names)),
                    None => read.push(NameItem::Skipped),
                }
                i = i + 1;
            }
            let names = NameParts::Read(Decoded { items: read, failure });
            proof {
                let model = names_of("name"@, data@, data_offset);
                assert(model matches NamePartsModel::Read(outcome) && outcome.items
                    =~= item_models(read@));
            }
            names
        },
    }
}

/// Reads what this library needs of one part of the module.
fn decode_part<'a>(section: Section<'a>) -> (part: Part)
    ensures
        part@ == part_of(section),
{
    match section {
        Section::Types(reader) => {
            let Decoded { items, failure } = type_entries(reader);
            let ghost definitions = items@;
            let mut types: Vec<Option<FunctionType>> = Vec::new();
            for definition in iter: items
                invariant
                    iter.seq() == definitions,
                    types@.len() == iter.index(),
                    forall|k: int|
                        0 <= k < iter.index() ==> (#[trigger] type_models(types@)[k])
                            == function_type_in(definitions[k]),
            {
                let ghost before = types@;
                let function_type = as_func_type(definition);
                types.push(function_type);
                proof {
                    assert forall|k: int| 0 <= k < types@.len() implies (#[trigger] type_models(
                        types@,
                    )[k]) == function_type_in(definitions[k]) by {
                        if k < before.len() {
                            assert(type_models(before)[k] == function_type_in(definitions[k]));
                            assert(types@[k] == before[k]);
                        }
                    }
                }
            }
            let part = Part::Types(Decoded { items: types, failure });
            proof {
                assert(part_of(section) matches PartModel::Types(outcome) && outcome.items
                    =~= type_models(types@));
            }
            part
        },
        Section::Imports(reader) => {
            let Decoded { items, failure } = import_entries(reader);
            let mut kinds: Vec<ImportKind> = Vec::new();
            let mut i: usize = 0;
            while i < items.len()
                invariant
                    i <= items.len(),
                    kinds@.len() == i,
                    forall|k: int| 0 <= k < i ==> #[trigger] kinds@[k] == kind_of_import(items@[k]),
                decreases items.len() - i,
            {
                kinds.push(import_kind(&items[i]));
                i = i + 1;
            }
            let part = Part::Imports(Decoded { items: kinds, failure });
            proof {
                assert(part_of(section) matches PartModel::Imports(outcome) && outcome.items
                    =~= kinds@);
            }
            part
        },
        Section::Functions(reader) => Part::Functions(function_entries(reader)),
        Section::CodeStart { start } => Part::CodeStart { start },
        Section::CodeEntry { start, end } => Part::CodeEntry { start, end },
        Section::Custom { name, data, data_offset } => {
            let names = if same_text(name, "name") {
                if data.len() > usize::MAX - data_offset {
                    NameParts::Unplaced { data_offset }
                } else {
                    decode_names(data, data_offset)
                }
            } else {
                NameParts::NotNames
            };
            Part::Custom { name: String::from_str(name), data: slice_to_vec(data), names }
        },
        Section::Other => Part::Other,
    }
}

/// Decodes the module `bytes` into its parts, in file order, up to its end or
/// to the first part that the decoder rejects: see [`parts_of`].
pub fn decode_parts(bytes: &[u8]) -> (parts: Decoded<Part>)
    ensures
        part_models(parts) == parts_of(bytes@),
{
    let Decoded { items, failure } = module_payloads(bytes);
    let ghost payloads = items@;
    let mut parts: Vec<Part> = Vec::new();
    for payload in iter: items
        invariant
            iter.seq() == payloads,
            parts@.len() == iter.index(),
            forall|k: int|
                0 <= k < iter.index() ==> (#[trigger] parts@[k])@ == part_of(
                    payload_section(payloads[k]),
                ),
    {
        parts.push(decode_part(section_of(payload)));
    }
    let parts = Decoded { items: parts, failure };
    assert(part_models(parts).items =~= parts_of(bytes@).items);
    parts
}

impl WasmBinary {
    /// Decodes the module `bytes` and puts it together: [`decode_parts`], then
    /// [`WasmBinary::assemble`].
    pub fn parse(bytes: &[u8]) -> (binary: Result<WasmBinary, ExtractError>)
        ensures
            binary_result(binary) == parsed(bytes@),
            binary matches Ok(binary) ==> binary.wf(),
    {
        let parts = decode_parts(bytes);
        WasmBinary::assemble(bytes, parts)
    }
}

} // verus!
