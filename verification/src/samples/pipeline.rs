//! One sample from the matcher to the writer: through the filters, the type
//! language and the rendering.

use vstd::prelude::*;
use rand::rngs::StdRng;
use crate::dwarf::util::DwarfEntry;
use crate::error::{ErrorModel, ExtractError};
use crate::options::{Options, WasmRepr as ReprChoice};
use crate::samples::extract::RawSample;
use crate::samples::filter::{body_uses, keeps_known_type, keeps_used_param};
use crate::samples::sample::{ParamOrReturn, WasmTypeSample};
use crate::samples::types::parse::{param_tokens, type_tokens, MAX_CHAIN};
use crate::samples::types::simplify::simplified;
use crate::samples::types::{SourceType, TokenModel, TypeToken};
use crate::samples::wasm_repr::{
    focus, full_of_body, hash_repr, printed_type, repr_result, subrange_of_body, text_views,
    windows_of_body, ReprModel, WasmRepr,
};
use crate::wasm::fmt::FloatText;
use crate::wasm::parse::WasmBody;

verus! {

/// A sample as it is written: with the rendering of its function's body and
/// its type in the type language.
pub type Sample = WasmTypeSample<WasmRepr, SourceType>;

/// What became of a sample.
pub enum Finished {
    /// The sample, ready to be written, and the names of its type before the
    /// type was made simpler, where statistics on names were asked for.
    Kept { sample: Sample, names: Vec<String> },
    /// The sample was dropped: its parameter is never used in the body.
    UnusedParam,
    /// The sample was dropped: nothing is known of its type.
    UnknownType,
}

/// The tokens of the type of a sample: those of a parameter for the sample
/// of a parameter, those of the type itself for the sample of a return
/// value.
pub open spec fn sample_tokens(focus: ParamOrReturn, entry: DwarfEntry) -> Result<
    Seq<TokenModel>,
    ErrorModel,
> {
    match focus {
        ParamOrReturn::Param { .. } => param_tokens(entry, MAX_CHAIN as nat),
        ParamOrReturn::Return => type_tokens(entry, MAX_CHAIN as nat),
    }
}

/// Whether the sample is dropped because its parameter is never used.
pub open spec fn drops_unused(options: Options, focus: ParamOrReturn, body: WasmBody) -> bool {
    options.wasm_filter_unused_param && match focus {
        ParamOrReturn::Param { idx, .. } => !body_uses(body, idx),
        ParamOrReturn::Return => false,
    }
}

/// Whether `repr` is the rendering of the body that was chosen, for a sample
/// about `focus` of type `wasm_type`.
///
/// The renderings by hash, in full and by subrange are what their
/// definitions say. Of the rendering by windows the order is left to the
/// generator: it holds the texts of the windows, each as often as it is
/// kept, and no other.
pub open spec fn is_rendering(
    repr: Result<WasmRepr, ExtractError>,
    choice: ReprChoice,
    options: Options,
    focus: ParamOrReturn,
    wasm_type: wasmparser::Type,
    body: WasmBody,
    floats: Seq<FloatText>,
) -> bool {
    let param = crate::samples::wasm_repr::focus(focus);
    let ty = printed_type(options.wasm_add_raw_type, wasm_type);
    match choice {
        ReprChoice::Hash => repr_result(repr) == Ok::<ReprModel, ErrorModel>(
            hash_repr(body.bytes@, ty),
        ),
        ReprChoice::Full => repr_result(repr) == full_of_body(body, param, ty, floats),
        ReprChoice::Subrange(n) => repr_result(repr) == subrange_of_body(
            body,
            param,
            n as nat,
            ty,
            floats,
        ),
        ReprChoice::Windows(n) => match windows_of_body(body, param, n as nat, floats) {
            Ok(texts) => repr matches Ok(WasmRepr::Windows(printed, windows)) && printed == ty
                && text_views(windows@).to_multiset() == texts.to_multiset(),
            Err(error) => repr matches Err(found) && found@ == error,
        },
    }
}

/// The names among `tokens`, in their order.
pub open spec fn names_among(tokens: Seq<TypeToken>) -> Seq<String>
    decreases tokens.len(),
{
    if tokens.len() == 0 {
        Seq::empty()
    } else {
        let earlier = names_among(tokens.drop_last());
        match tokens.last() {
            TypeToken::Typedef(name) => earlier.push(name),
            TypeToken::Nominal(name) => earlier.push(name),
            _ => earlier,
        }
    }
}

/// The names among the tokens of a type, in their order.
pub fn type_names(ty: &SourceType) -> (names: Vec<String>)
    ensures
        names@ == names_among(ty.0@),
{
    let mut names: Vec<String> = Vec::new();
    let mut i: usize = 0;
    assert(ty.0@.take(0) =~= Seq::<TypeToken>::empty());
    while i < ty.0.len()
        invariant
            i <= ty.0.len(),
            names@ == names_among(ty.0@.take(i as int)),
        decreases ty.0.len() - i,
    {
        proof {
            assert(ty.0@.take(i + 1).drop_last() =~= ty.0@.take(i as int));
        }
        match &ty.0[i] {
            TypeToken::Typedef(name) => names.push(name.clone()),
            TypeToken::Nominal(name) => names.push(name.clone()),
            _ => {},
        }
        i = i + 1;
    }
    assert(ty.0@.take(ty.0.len() as int) =~= ty.0@);
    names
}

/// Whether `finished` is what becomes of the sample.
///
/// In this order: the sample of a parameter that the body never uses is
/// dropped, if the options ask for it; the type is read, and a failure to
/// read it is the failure of the sample; the body is rendered, likewise; a
/// sample of unknown type is dropped, if the options ask for it; the names
/// of the type are noted, if statistics on names are asked for; and the type
/// is made simpler as the options ask. All else of the sample stays as it
/// is.
pub open spec fn is_finished(
    finished: Result<Finished, ExtractError>,
    sample: RawSample,
    options: Options,
    choice: ReprChoice,
    keep: Option<&Vec<String>>,
    floats: Seq<FloatText>,
) -> bool {
    if drops_unused(options, sample.param_or_return, sample.wasm_body) {
        finished matches Ok(Finished::UnusedParam)
    } else {
        match sample_tokens(sample.param_or_return, sample.type_) {
            Err(error) => finished matches Err(found) && found@ == error,
            Ok(tokens) => match finished {
                Err(error) => is_rendering(
                    Err(error),
                    choice,
                    options,
                    sample.param_or_return,
                    sample.wasm_type,
                    sample.wasm_body,
                    floats,
                ),
                Ok(Finished::UnusedParam) => false,
                Ok(Finished::UnknownType) => options.type_filter_unknown && tokens
                    == seq![TokenModel::Unknown] && exists|repr: WasmRepr|
                    #[trigger] is_rendering(
                        Ok(repr),
                        choice,
                        options,
                        sample.param_or_return,
                        sample.wasm_type,
                        sample.wasm_body,
                        floats,
                    ),
                Ok(Finished::Kept { sample: kept, names }) => {
                    &&& !(options.type_filter_unknown && tokens == seq![TokenModel::Unknown])
                    &&& is_rendering(
                        Ok(kept.wasm_body),
                        choice,
                        options,
                        sample.param_or_return,
                        sample.wasm_type,
                        sample.wasm_body,
                        floats,
                    )
                    &&& exists|read: SourceType|
                        #![trigger read@]
                        read@ == tokens && kept.type_.0@ == simplified(read.0@, options, keep)
                            && names@ == if options.type_save_name_stats is Some {
                            names_among(read.0@)
                        } else {
                            Seq::empty()
                        }
                    &&& kept.type_.wf()
                    &&& kept.file == sample.file
                    &&& kept.compilation_unit == sample.compilation_unit
                    &&& kept.function_idx == sample.function_idx
                    &&& kept.function_name_wasm == sample.function_name_wasm
                    &&& kept.function_name_dwarf == sample.function_name_dwarf
                    &&& kept.param_or_return == sample.param_or_return
                    &&& kept.wasm_type == sample.wasm_type
                },
            },
        }
    }
}

/// Takes one sample through the filters, the type language and the
/// rendering: see [`is_finished`].
///
/// `floats` holds the text of each floating-point constant of the body.
pub fn finish_sample(
    sample: RawSample,
    options: &Options,
    choice: ReprChoice,
    keep: Option<&Vec<String>>,
    floats: &Vec<FloatText>,
    rng: &mut StdRng,
) -> (finished: Result<Finished, ExtractError>)
    requires
        sample.wasm_body.wf(),
    ensures
        is_finished(finished, sample, *options, choice, keep, floats@),
{
    if options.wasm_filter_unused_param && !keeps_used_param(&sample) {
        return Ok(Finished::UnusedParam);
    }
    let ty = match &sample.param_or_return {
        ParamOrReturn::Param { .. } => SourceType::parse_param(&sample.type_),
        ParamOrReturn::Return => SourceType::parse_type(&sample.type_),
    }?;
    let with_type = options.wasm_add_raw_type;
    let repr = match choice {
        ReprChoice::Hash => Ok(WasmRepr::new_hash(&sample, with_type)),
        ReprChoice::Full => WasmRepr::new_full(&sample, with_type, floats),
        ReprChoice::Subrange(size) => WasmRepr::new_subrange(&sample, size, with_type, floats),
        ReprChoice::Windows(size) => WasmRepr::new_windows(&sample, size, with_type, rng, floats),
    };
    assert(is_rendering(
        repr,
        choice,
        *options,
        sample.param_or_return,
        sample.wasm_type,
        sample.wasm_body,
        floats@,
    ));
    let repr = repr?;
    let ghost read = ty;
    let unknown = ty.is_unknown();
    proof {
        if unknown {
            assert(ty@ =~= seq![TokenModel::Unknown]);
        } else if ty@ == seq![TokenModel::Unknown] {
            assert(ty@.len() == 1);
            assert(ty@[0] == ty.0@[0]@);
            assert(ty.0@ =~= seq![TypeToken::Unknown]);
        }
    }
    if options.type_filter_unknown && unknown {
        return Ok(Finished::UnknownType);
    }
    let names = if options.type_save_name_stats.is_some() {
        type_names(&ty)
    } else {
        Vec::new()
    };
    let mut ty = ty;
    ty.simplify(options, keep);
    let kept = sample.with_type(ty).with_wasm_body(repr);
    Ok(Finished::Kept { sample: kept, names })
}

} // verus!
