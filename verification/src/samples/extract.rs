//! Matching the functions of a module with the subprograms of its debug
//! information, and cutting the samples.

use vstd::prelude::*;
use gimli::DwAt;
use wasmparser::Type;
use crate::dwarf::constants::DW_AT_NAME;
use crate::dwarf::parse::{
    function_models, indexed, DwarfBinary, DwarfFunction, DwarfFunctionModel,
};
use crate::dwarf::util::loaded_debug_info;
use crate::dwarf::util::DwarfEntry;
use crate::error::{text_view, ErrorModel, ExtractError};
use crate::samples::sample::{ParamOrReturn, WasmTypeSample};
use crate::wasm::parse::{
    function_models as wasm_function_models, name_models, parsed, BinaryModel, BodyModel,
    FunctionModel, WasmBinary, WasmBody, WasmFunction,
};

verus! {

broadcast use vstd::std_specs::hash::group_hash_axioms;

/// A sample as it is cut: with the undecoded body of its function and the
/// DWARF entry of its type.
pub type RawSample = WasmTypeSample<WasmBody, DwarfEntry>;

/// Whether a sample is for a parameter, and then for which, or for the
/// return value, with the name as a sequence of characters.
pub enum FocusModel {
    Param { idx: u32, name: Option<Seq<char>> },
    Return,
}

/// A [`RawSample`] with each text and the body as sequences.
pub struct SampleModel {
    pub file: Seq<char>,
    pub compilation_unit: Option<Seq<char>>,
    pub function_idx: u32,
    pub function_name_wasm: Option<Seq<char>>,
    pub function_name_dwarf: Option<Seq<char>>,
    pub param_or_return: FocusModel,
    pub wasm_type: Type,
    pub wasm_body: BodyModel,
    pub type_: DwarfEntry,
}

impl View for ParamOrReturn {
    type V = FocusModel;

    open spec fn view(&self) -> FocusModel {
        match *self {
            ParamOrReturn::Param { idx, name } => FocusModel::Param { idx, name: text_view(name) },
            ParamOrReturn::Return => FocusModel::Return,
        }
    }
}

impl View for WasmTypeSample<WasmBody, DwarfEntry> {
    type V = SampleModel;

    open spec fn view(&self) -> SampleModel {
        SampleModel {
            file: self.file@,
            compilation_unit: text_view(self.compilation_unit),
            function_idx: self.function_idx,
            function_name_wasm: text_view(self.function_name_wasm),
            function_name_dwarf: text_view(self.function_name_dwarf),
            param_or_return: self.param_or_return@,
            wasm_type: self.wasm_type,
            wasm_body: self.wasm_body@,
            type_: self.type_,
        }
    }
}

/// A sample or the failure to cut it, each as its model.
pub open spec fn sample_result(sample: Result<RawSample, ExtractError>) -> Result<
    SampleModel,
    ErrorModel,
> {
    match sample {
        Ok(sample) => Ok(sample@),
        Err(error) => Err(error@),
    }
}

/// The samples of a list, each as its model.
pub open spec fn sample_models(samples: Seq<Result<RawSample, ExtractError>>) -> Seq<
    Result<SampleModel, ErrorModel>,
> {
    Seq::new(samples.len(), |i: int| sample_result(samples[i]))
}

/// The sample of a function for `focus`, a value of type `wasm_type` whose
/// source type the entry `type_` describes.
pub open spec fn sample_of(
    file: Seq<char>,
    function: FunctionModel,
    name: Option<Seq<char>>,
    dwarf: DwarfFunctionModel,
    focus: FocusModel,
    wasm_type: Type,
    type_: DwarfEntry,
) -> SampleModel {
    SampleModel {
        file,
        compilation_unit: dwarf.compilation_unit_name,
        function_idx: function.idx,
        function_name_wasm: name,
        function_name_dwarf: dwarf.name,
        param_or_return: focus,
        wasm_type,
        wasm_body: function.body,
        type_,
    }
}

/// The sample for parameter `i` of a function, with the name that debug
/// information gives to the parameter, or the failure to read that name.
pub open spec fn param_sample(
    file: Seq<char>,
    function: FunctionModel,
    name: Option<Seq<char>>,
    dwarf: DwarfFunctionModel,
    i: int,
) -> Result<SampleModel, ErrorModel> {
    match dwarf.params[i].text(DW_AT_NAME) {
        Ok(param_name) => Ok(
            sample_of(
                file,
                function,
                name,
                dwarf,
                FocusModel::Param { idx: i as u32, name: param_name },
                function.type_.params[i],
                dwarf.params[i],
            ),
        ),
        Err(error) => Err(error),
    }
}

/// The samples for the first `upto` parameters of a function.
pub open spec fn param_samples(
    file: Seq<char>,
    function: FunctionModel,
    name: Option<Seq<char>>,
    dwarf: DwarfFunctionModel,
    upto: int,
) -> Seq<Result<SampleModel, ErrorModel>> {
    Seq::new(upto as nat, |i: int| param_sample(file, function, name, dwarf, i))
}

/// The sample for the return value of a function, if there is one: the
/// module declares exactly one result, and debug information names a return
/// type.
pub open spec fn return_samples(
    file: Seq<char>,
    function: FunctionModel,
    name: Option<Seq<char>>,
    dwarf: DwarfFunctionModel,
) -> Seq<Result<SampleModel, ErrorModel>> {
    match dwarf.return_type {
        Some(return_type) => if function.type_.returns.len() == 1 {
            seq![
                Ok(
                    sample_of(
                        file,
                        function,
                        name,
                        dwarf,
                        FocusModel::Return,
                        function.type_.returns[0],
                        return_type,
                    ),
                ),
            ]
        } else {
            Seq::empty()
        },
        None => Seq::empty(),
    }
}

/// Whether the module and debug information give a function the same number
/// of parameters, and that number fits an index of 32 bits.
pub open spec fn aligned(function: FunctionModel, dwarf: DwarfFunctionModel) -> bool {
    function.type_.params.len() == dwarf.params.len() && dwarf.params.len() <= u32::MAX
}

/// The samples of one function that debug information describes.
///
/// Where the module and debug information disagree on the number of
/// parameters, there is no sample at all. Otherwise there is one for each
/// parameter, in their order, and after them one for the return value if
/// both sides know of one.
pub open spec fn function_samples(
    file: Seq<char>,
    function: FunctionModel,
    name: Option<Seq<char>>,
    dwarf: DwarfFunctionModel,
) -> Seq<Result<SampleModel, ErrorModel>> {
    if aligned(function, dwarf) {
        param_samples(file, function, name, dwarf, dwarf.params.len() as int) + return_samples(
            file,
            function,
            name,
            dwarf,
        )
    } else {
        Seq::empty()
    }
}

/// The name that the module gives to function `idx`, if it names it.
pub open spec fn name_of(names: Map<u32, Seq<char>>, idx: u32) -> Option<Seq<char>> {
    if names.contains_key(idx) {
        Some(names[idx])
    } else {
        None
    }
}

/// The samples of the functions of a module, in the order of the functions.
///
/// A function is described by the subprogram whose code address is the
/// offset of the function's body from the start of the code section. A
/// function without such a subprogram has no samples. A subprogram describes
/// one function only, and a name names one function only.
pub open spec fn all_samples(
    file: Seq<char>,
    code_section_offset: usize,
    functions: Seq<FunctionModel>,
    names: Map<u32, Seq<char>>,
    dwarf: Map<usize, DwarfFunctionModel>,
) -> Seq<Result<SampleModel, ErrorModel>>
    decreases functions.len(),
{
    if functions.len() == 0 {
        Seq::empty()
    } else {
        let function = functions[0];
        let rest = functions.drop_first();
        let relative_offset = function.body.offset - code_section_offset;
        if relative_offset >= 0 && dwarf.contains_key(relative_offset as usize) {
            function_samples(
                file,
                function,
                name_of(names, function.idx),
                dwarf[relative_offset as usize],
            ) + all_samples(
                file,
                code_section_offset,
                rest,
                names.remove(function.idx),
                dwarf.remove(relative_offset as usize),
            )
        } else {
            all_samples(file, code_section_offset, rest, names, dwarf)
        }
    }
}

/// The samples of a module with the subprograms `dwarf`: see
/// [`all_samples`].
pub open spec fn samples_of(
    file: Seq<char>,
    wasm: BinaryModel,
    dwarf: Map<usize, DwarfFunctionModel>,
) -> Seq<Result<SampleModel, ErrorModel>> {
    all_samples(file, wasm.code_section_offset, wasm.functions, wasm.function_names, dwarf)
}

/// The samples of the binary `bytes`: the module is decoded and put
/// together, the debug information of its custom sections is loaded and
/// indexed, and the functions of the one are matched with the subprograms of
/// the other. A failure of the module or of the index is the failure of the
/// whole.
pub open spec fn extracted(file: Seq<char>, bytes: Seq<u8>) -> Result<
    Seq<Result<SampleModel, ErrorModel>>,
    ErrorModel,
> {
    match parsed(bytes) {
        Err(error) => Err(error),
        Ok(wasm) => match indexed(loaded_debug_info(wasm.custom_sections)) {
            Err(error) => Err(error),
            Ok(dwarf) => Ok(samples_of(file, wasm, dwarf)),
        },
    }
}

/// The outcome of an extraction with its samples and errors each as its
/// model.
pub open spec fn extraction_result(
    samples: Result<Vec<Result<RawSample, ExtractError>>, ExtractError>,
) -> Result<Seq<Result<SampleModel, ErrorModel>>, ErrorModel> {
    match samples {
        Ok(samples) => Ok(sample_models(samples@)),
        Err(error) => Err(error@),
    }
}

/// Extracting twice from the same bytes of the same file gives the same
/// samples, in the same order, and the same failures.
pub proof fn lemma_extraction_repeats(
    file: Seq<char>,
    bytes: Seq<u8>,
    first: Result<Vec<Result<RawSample, ExtractError>>, ExtractError>,
    second: Result<Vec<Result<RawSample, ExtractError>>, ExtractError>,
)
    requires
        extraction_result(first) == extracted(file, bytes),
        extraction_result(second) == extracted(file, bytes),
    ensures
        extraction_result(first) == extraction_result(second),
{
}

/// A function for which the module and debug information disagree on the
/// number of parameters has no sample, neither for a parameter nor for the
/// return value.
pub proof fn lemma_mismatch_gives_no_sample(
    file: Seq<char>,
    function: FunctionModel,
    name: Option<Seq<char>>,
    dwarf: DwarfFunctionModel,
)
    requires
        function.type_.params.len() != dwarf.params.len(),
    ensures
        function_samples(file, function, name, dwarf).len() == 0,
{
}

/// A function has at most one sample for its return value, and that one
/// comes last.
pub proof fn lemma_one_return_sample(
    file: Seq<char>,
    function: FunctionModel,
    name: Option<Seq<char>>,
    dwarf: DwarfFunctionModel,
    i: int,
)
    requires
        0 <= i < function_samples(file, function, name, dwarf).len(),
        function_samples(file, function, name, dwarf)[i] matches Ok(sample)
            && sample.param_or_return is Return,
    ensures
        i == function_samples(file, function, name, dwarf).len() - 1,
        i == dwarf.params.len(),
{
    let params = param_samples(file, function, name, dwarf, dwarf.params.len() as int);
    if i < params.len() {
        assert(function_samples(file, function, name, dwarf)[i] == params[i]);
    }
}

/// A copy of a text that may be absent.
fn copy_text(text: &Option<String>) -> (copy: Option<String>)
    ensures
        copy == *text,
{
    match text {
        Some(text) => Some(text.clone()),
        None => None,
    }
}

/// Appends the samples of one function that debug information describes:
/// see [`function_samples`].
pub fn push_function_samples(
    samples: &mut Vec<Result<RawSample, ExtractError>>,
    file: &str,
    function: WasmFunction,
    function_name_wasm: Option<String>,
    dwarf: DwarfFunction,
)
    ensures
        sample_models(final(samples)@) == sample_models(old(samples)@) + function_samples(
            file@,
            function@,
            text_view(function_name_wasm),
            dwarf@,
        ),
{
    let ghost before = sample_models(samples@);
    let ghost name = text_view(function_name_wasm);
    let count = dwarf.params.len();
    if function.type_.params.len() != count || count > u32::MAX as usize {
        assert(before + Seq::empty() =~= before);
        return ;
    }
    let mut i: usize = 0;
    assert(before + param_samples(file@, function@, name, dwarf@, 0) =~= before);
    while i < count
        invariant
            i <= count == dwarf.params.len() == function.type_.params.len(),
            count <= u32::MAX,
            before == sample_models(old(samples)@),
            name == text_view(function_name_wasm),
            sample_models(samples@) == before + param_samples(
                file@,
                function@,
                name,
                dwarf@,
                i as int,
            ),
        decreases count - i,
    {
        let entry = &dwarf.params[i];
        let sample = match entry.attr_str(DwAt(DW_AT_NAME)) {
            Ok(param_name) => Ok(
                WasmTypeSample {
                    file: String::from_str(file),
                    compilation_unit: copy_text(&dwarf.compilation_unit_name),
                    function_idx: function.idx,
                    function_name_wasm: copy_text(&function_name_wasm),
                    function_name_dwarf: copy_text(&dwarf.name),
                    param_or_return: ParamOrReturn::Param { idx: i as u32, name: param_name },
                    wasm_type: function.type_.params[i],
                    wasm_body: function.body.share(),
                    type_: entry.share(),
                    aux: (),
                },
            ),
            Err(error) => Err(error),
        };
        assert(sample_result(sample) == param_sample(file@, function@, name, dwarf@, i as int));
        let ghost earlier = samples@;
        samples.push(sample);
        proof {
            let so_far = before + param_samples(file@, function@, name, dwarf@, i as int);
            let now = before + param_samples(file@, function@, name, dwarf@, i + 1);
            assert(sample_models(earlier).len() == earlier.len());
            assert(so_far.len() == before.len() + i);
            assert(now.len() == before.len() + i + 1);
            assert forall|k: int| 0 <= k < now.len() implies sample_models(samples@)[k]
                == now[k] by {
                if k < earlier.len() {
                    assert(sample_models(samples@)[k] == sample_result(earlier[k]));
                    assert(sample_models(earlier)[k] == so_far[k]);
                    if k >= before.len() {
                        assert(so_far[k] == param_sample(
                            file@,
                            function@,
                            name,
                            dwarf@,
                            k - before.len(),
                        ));
                    }
                }
            }
            assert(sample_models(samples@) =~= now);
        }
        i = i + 1;
    }
    match &dwarf.return_type {
        Some(return_type) => {
            if function.type_.returns.len() == 1 {
                let sample: Result<RawSample, ExtractError> = Ok(
                    WasmTypeSample {
                        file: String::from_str(file),
                        compilation_unit: copy_text(&dwarf.compilation_unit_name),
                        function_idx: function.idx,
                        function_name_wasm: copy_text(&function_name_wasm),
                        function_name_dwarf: copy_text(&dwarf.name),
                        param_or_return: ParamOrReturn::Return,
                        wasm_type: function.type_.returns[0],
                        wasm_body: function.body.share(),
                        type_: return_type.share(),
                        aux: (),
                    },
                );
                let ghost params = sample_models(samples@);
                samples.push(sample);
                assert(sample_models(samples@) =~= params + return_samples(
                    file@,
                    function@,
                    name,
                    dwarf@,
                ));
            }
        },
        None => {},
    }
    assert(sample_models(samples@) =~= before + function_samples(file@, function@, name, dwarf@));
}

/// The samples of a module with the debug information `dwarf`, in the order
/// of the functions: see [`all_samples`].
///
/// A sample whose parameter name cannot be read is a failure of its own,
/// and the samples around it stand.
pub fn match_samples(file: &str, wasm: WasmBinary, dwarf: DwarfBinary) -> (samples: Vec<
    Result<RawSample, ExtractError>,
>)
    ensures
        sample_models(samples@) == samples_of(file@, wasm@, dwarf@),
{
    let WasmBinary { code_section_offset, custom_sections, functions, function_names } = wasm;
    let DwarfBinary { relative_offsets_to_function_entries } = dwarf;
    let mut names = function_names;
    let mut entries = relative_offsets_to_function_entries;
    let mut samples: Vec<Result<RawSample, ExtractError>> = Vec::new();
    let ghost all = wasm_function_models(functions@);
    let ghost list = functions@;
    assert(all.subrange(0, all.len() as int) =~= all);
    assert(sample_models(samples@) =~= Seq::empty());
    for function in iter: functions
        invariant
            iter.seq() == list,
            all == wasm_function_models(list),
            code_section_offset == wasm.code_section_offset,
            sample_models(samples@) + all_samples(
                file@,
                code_section_offset,
                all.subrange(iter.index() as int, all.len() as int),
                name_models(names@),
                function_models(entries@),
            ) == samples_of(file@, wasm@, dwarf@),
    {
        let ghost k = iter.index() as int;
        let ghost remaining = all.subrange(k, all.len() as int);
        let ghost earlier = sample_models(samples@);
        proof {
            assert(remaining[0] == function@);
            assert(remaining.drop_first() =~= all.subrange(k + 1, all.len() as int));
        }
        if function.body.offset >= code_section_offset {
            let relative_offset = function.body.offset - code_section_offset;
            let ghost models = function_models(entries@);
            let ghost old_names = name_models(names@);
            let ghost raw_names = names@;
            match entries.remove(&relative_offset) {
                Some(dwarf_function) => {
                    let function_name_wasm = names.remove(&function.idx);
                    proof {
                        assert(function_models(entries@) =~= models.remove(relative_offset));
                        assert(models[relative_offset] == dwarf_function@);
                        assert(name_models(names@) =~= old_names.remove(function.idx));
                        assert(raw_names.contains_key(function.idx) == old_names.contains_key(
                            function.idx,
                        ));
                        assert(text_view(function_name_wasm) == name_of(old_names, function.idx));
                    }
                    let ghost added = function_samples(
                        file@,
                        function@,
                        text_view(function_name_wasm),
                        dwarf_function@,
                    );
                    push_function_samples(
                        &mut samples,
                        file,
                        function,
                        function_name_wasm,
                        dwarf_function,
                    );
                    proof {
                        let rest = all_samples(
                            file@,
                            code_section_offset,
                            all.subrange(k + 1, all.len() as int),
                            name_models(names@),
                            function_models(entries@),
                        );
                        assert((earlier + added) + rest =~= earlier + (added + rest));
                    }
                },
                None => {
                    assert(function_models(entries@) =~= models);
                    assert(!models.contains_key(relative_offset));
                },
            }
        }
    }
    proof {
        assert(all.subrange(all.len() as int, all.len() as int) =~= Seq::empty());
        assert(sample_models(samples@) + Seq::empty() =~= sample_models(samples@));
    }
    samples
}

/// The samples of the binary `bytes`, the contents of the file `file`: see
/// [`extracted`].
///
/// A sample whose parameter name cannot be read is a failure of its own,
/// and the samples around it stand. The body of every sample can be
/// decoded.
pub fn extract_samples(file: &str, bytes: &[u8]) -> (samples: Result<
    Vec<Result<RawSample, ExtractError>>,
    ExtractError,
>)
    ensures
        extraction_result(samples) == extracted(file@, bytes@),
        samples matches Ok(samples) ==> forall|i: int|
            0 <= i < samples@.len() ==> (#[trigger] samples@[i] matches Ok(sample)
                ==> sample.wasm_body.wf()),
{
    let wasm = WasmBinary::parse(bytes)?;
    let dwarf = DwarfBinary::parse(&wasm.custom_sections)?;
    let ghost witness = (wasm, dwarf@);
    let samples = match_samples(file, wasm, dwarf);
    proof {
        lemma_samples_have_bodies_of_functions(
            file@,
            witness.0.code_section_offset,
            wasm_function_models(witness.0.functions@),
            name_models(witness.0.function_names@),
            witness.1,
        );
        assert forall|i: int| 0 <= i < samples@.len() implies (#[trigger] samples@[i] matches Ok(
            sample,
        ) ==> sample.wasm_body.wf()) by {
            match samples@[i] {
                Ok(sample) => {
                    let models = sample_models(samples@);
                    assert(models[i] == Ok::<SampleModel, ErrorModel>(sample@));
                    let j = choose|j: int|
                        0 <= j < witness.0.functions@.len() && wasm_function_models(
                            witness.0.functions@,
                        )[j].body == sample@.wasm_body;
                    assert(witness.0.functions@[j].body.wf());
                },
                Err(_) => {},
            }
        }
    }
    Ok(samples)
}

/// Whether function `j` of a module is described by a subprogram of `dwarf`
/// that gives it as many parameters as the module does.
pub open spec fn is_aligned(
    code_section_offset: usize,
    functions: Seq<FunctionModel>,
    dwarf: Map<usize, DwarfFunctionModel>,
    j: int,
) -> bool {
    let relative_offset = functions[j].body.offset - code_section_offset;
    &&& 0 <= j < functions.len()
    &&& relative_offset >= 0
    &&& dwarf.contains_key(relative_offset as usize)
    &&& aligned(functions[j], dwarf[relative_offset as usize])
}

/// Whether the sample, or the failure to cut one, belongs to a function for
/// which the module and debug information agree on the number of
/// parameters.
pub open spec fn of_aligned_function(
    sample: Result<SampleModel, ErrorModel>,
    code_section_offset: usize,
    functions: Seq<FunctionModel>,
    dwarf: Map<usize, DwarfFunctionModel>,
) -> bool {
    exists|j: int|
        #[trigger] is_aligned(code_section_offset, functions, dwarf, j) && (sample matches Ok(
            sample,
        ) ==> sample.function_idx == functions[j].idx)
}

/// Every sample, and every failure to cut one, belongs to a function for
/// which the module and debug information agree on the number of
/// parameters: of any other function there is no sample at all.
pub proof fn lemma_samples_only_of_aligned_functions(
    file: Seq<char>,
    code_section_offset: usize,
    functions: Seq<FunctionModel>,
    names: Map<u32, Seq<char>>,
    dwarf: Map<usize, DwarfFunctionModel>,
)
    ensures
        forall|i: int|
            0 <= i < all_samples(file, code_section_offset, functions, names, dwarf).len()
                ==> of_aligned_function(
                #[trigger] all_samples(file, code_section_offset, functions, names, dwarf)[i],
                code_section_offset,
                functions,
                dwarf,
            ),
    decreases functions.len(),
{
    if functions.len() > 0 {
        let function = functions[0];
        let rest = functions.drop_first();
        let relative_offset = function.body.offset - code_section_offset;
        let all = all_samples(file, code_section_offset, functions, names, dwarf);
        if relative_offset >= 0 && dwarf.contains_key(relative_offset as usize) {
            let described = dwarf[relative_offset as usize];
            let own = function_samples(file, function, name_of(names, function.idx), described);
            let fewer = dwarf.remove(relative_offset as usize);
            let later = all_samples(
                file,
                code_section_offset,
                rest,
                names.remove(function.idx),
                fewer,
            );
            lemma_samples_only_of_aligned_functions(
                file,
                code_section_offset,
                rest,
                names.remove(function.idx),
                fewer,
            );
            assert forall|i: int| 0 <= i < all.len() implies of_aligned_function(
                #[trigger] all[i],
                code_section_offset,
                functions,
                dwarf,
            ) by {
                if i < own.len() {
                    assert(all[i] == own[i]);
                    assert(is_aligned(code_section_offset, functions, dwarf, 0));
                    let params = param_samples(
                        file,
                        function,
                        name_of(names, function.idx),
                        described,
                        described.params.len() as int,
                    );
                    if i < params.len() {
                        assert(own[i] == params[i]);
                    }
                } else {
                    assert(all[i] == later[i - own.len()]);
                    assert(of_aligned_function(
                        later[i - own.len()],
                        code_section_offset,
                        rest,
                        fewer,
                    ));
                    let j = choose|j: int|
                        #[trigger] is_aligned(code_section_offset, rest, fewer, j) && (later[i
                            - own.len()] matches Ok(sample) ==> sample.function_idx
                            == rest[j].idx);
                    assert(functions[j + 1] == rest[j]);
                    assert(is_aligned(code_section_offset, functions, dwarf, j + 1));
                }
            }
        } else {
            lemma_samples_only_of_aligned_functions(
                file,
                code_section_offset,
                rest,
                names,
                dwarf,
            );
            let later = all_samples(file, code_section_offset, rest, names, dwarf);
            assert forall|i: int| 0 <= i < all.len() implies of_aligned_function(
                #[trigger] all[i],
                code_section_offset,
                functions,
                dwarf,
            ) by {
                assert(of_aligned_function(later[i], code_section_offset, rest, dwarf));
                let j = choose|j: int|
                    #[trigger] is_aligned(code_section_offset, rest, dwarf, j) && (
                    later[i] matches Ok(sample) ==> sample.function_idx == rest[j].idx);
                assert(functions[j + 1] == rest[j]);
                assert(is_aligned(code_section_offset, functions, dwarf, j + 1));
            }
        }
    }
}

/// The body of every sample is the body of one of the functions.
pub proof fn lemma_samples_have_bodies_of_functions(
    file: Seq<char>,
    code_section_offset: usize,
    functions: Seq<FunctionModel>,
    names: Map<u32, Seq<char>>,
    dwarf: Map<usize, DwarfFunctionModel>,
)
    ensures
        forall|i: int|
            0 <= i < all_samples(file, code_section_offset, functions, names, dwarf).len() ==> (
            #[trigger] all_samples(file, code_section_offset, functions, names, dwarf)[i] matches Ok(
                sample,
            ) ==> exists|j: int|
                0 <= j < functions.len() && (#[trigger] functions[j]).body == sample.wasm_body),
    decreases functions.len(),
{
    if functions.len() > 0 {
        let function = functions[0];
        let rest = functions.drop_first();
        let relative_offset = function.body.offset - code_section_offset;
        let all = all_samples(file, code_section_offset, functions, names, dwarf);
        if relative_offset >= 0 && dwarf.contains_key(relative_offset as usize) {
            let own = function_samples(
                file,
                function,
                name_of(names, function.idx),
                dwarf[relative_offset as usize],
            );
            let later = all_samples(
                file,
                code_section_offset,
                rest,
                names.remove(function.idx),
                dwarf.remove(relative_offset as usize),
            );
            lemma_samples_have_bodies_of_functions(
                file,
                code_section_offset,
                rest,
                names.remove(function.idx),
                dwarf.remove(relative_offset as usize),
            );
            assert forall|i: int| 0 <= i < all.len() implies (#[trigger] all[i] matches Ok(sample)
                ==> exists|j: int|
                0 <= j < functions.len() && (#[trigger] functions[j]).body
                    == sample.wasm_body) by {
                match all[i] {
                    Ok(sample) => {
                        if i < own.len() {
                            assert(all[i] == own[i]);
                            assert(functions[0].body == sample.wasm_body);
                        } else {
                            assert(all[i] == later[i - own.len()]);
                            let j = choose|j: int|
                                0 <= j < rest.len() && (#[trigger] rest[j]).body
                                    == sample.wasm_body;
                            assert(functions[j + 1] == rest[j]);
                        }
                    },
                    Err(_) => {},
                }
            }
        } else {
            lemma_samples_have_bodies_of_functions(file, code_section_offset, rest, names, dwarf);
            let later = all_samples(file, code_section_offset, rest, names, dwarf);
            assert forall|i: int| 0 <= i < all.len() implies (#[trigger] all[i] matches Ok(sample)
                ==> exists|j: int|
                0 <= j < functions.len() && (#[trigger] functions[j]).body
                    == sample.wasm_body) by {
                match all[i] {
                    Ok(sample) => {
                        let j = choose|j: int|
                            0 <= j < rest.len() && (#[trigger] rest[j]).body == sample.wasm_body;
                        assert(functions[j + 1] == rest[j]);
                    },
                    Err(_) => {},
                }
            }
        }
    }
}

} // verus!
