//! The four renderings of a function body for one sample.

use vstd::prelude::*;
use rand::rngs::StdRng;
use rand::seq::SliceRandom;
use wasmparser::{BinaryReaderError, Operator, Type};
use crate::error::{ErrorModel, ExtractError};
use crate::fold::{lemma_try_fold_all, lemma_try_fold_failure, lemma_try_fold_next, try_fold};
use crate::hash::{sha256, sha256_digest};
use crate::samples::sample::{ParamOrReturn, WasmTypeSample};
use crate::text::{hex, push_hex};
use crate::wasm::decode::{double_bits, single_bits, Decoded, Outcome};
use crate::wasm::fmt::{
    accesses_local, fmt_instr, instr_text, is_local_access, is_value_type, operand_failure,
    type_str, value_type_text, FloatBits, FloatText,
};
use crate::wasm::parse::WasmBody;

verus! {

/// The rendering of a function body for one sample: by which strategy it was
/// made, the WebAssembly type of the sample if that is to be printed, and the
/// text, or for windows the texts.
#[derive(Debug)]
pub enum WasmRepr {
    Hash(Option<Type>, String),
    Full(Option<Type>, String),
    Subrange(Option<Type>, String),
    Windows(Option<Type>, Vec<String>),
}

/// A [`WasmRepr`] with each text as a sequence of characters.
pub enum ReprModel {
    Hash(Option<Type>, Seq<char>),
    Full(Option<Type>, Seq<char>),
    Subrange(Option<Type>, Seq<char>),
    Windows(Option<Type>, Seq<Seq<char>>),
}

/// The characters of each text of a list.
pub open spec fn text_views(texts: Seq<String>) -> Seq<Seq<char>> {
    Seq::new(texts.len(), |i: int| texts[i]@)
}

impl View for WasmRepr {
    type V = ReprModel;

    open spec fn view(&self) -> ReprModel {
        match *self {
            WasmRepr::Hash(ty, text) => ReprModel::Hash(ty, text@),
            WasmRepr::Full(ty, text) => ReprModel::Full(ty, text@),
            WasmRepr::Subrange(ty, text) => ReprModel::Subrange(ty, text@),
            WasmRepr::Windows(ty, windows) => ReprModel::Windows(ty, text_views(windows@)),
        }
    }
}

/// A rendering or the failure to make it, each as its model.
pub open spec fn repr_result(repr: Result<WasmRepr, ExtractError>) -> Result<ReprModel, ErrorModel> {
    match repr {
        Ok(repr) => Ok(repr@),
        Err(error) => Err(error@),
    }
}

/// The local that a sample is about: the parameter's index, and none for the
/// return value.
pub open spec fn focus(param_or_return: ParamOrReturn) -> Option<u32> {
    match param_or_return {
        ParamOrReturn::Param { idx, .. } => Some(idx),
        ParamOrReturn::Return => None,
    }
}

/// The error of the first instruction whose operands cannot be read, if
/// there is such an instruction.
pub open spec fn first_failure(instructions: Seq<Operator>) -> Option<BinaryReaderError>
    decreases instructions.len(),
{
    if instructions.len() == 0 {
        None
    } else {
        match first_failure(instructions.drop_last()) {
            Some(error) => Some(error),
            None => operand_failure(instructions.last()),
        }
    }
}

/// The texts of the instructions with ` ; ` between them.
pub open spec fn instructions_text(
    instructions: Seq<Operator>,
    param: Option<u32>,
    floats: Seq<FloatText>,
) -> Seq<char>
    decreases instructions.len(),
{
    if instructions.len() == 0 {
        Seq::empty()
    } else if instructions.len() == 1 {
        instr_text(instructions[0], param, floats)
    } else {
        instructions_text(instructions.drop_last(), param, floats) + " ; "@ + instr_text(
            instructions.last(),
            param,
            floats,
        )
    }
}

/// The text of a list of instructions, or the error of the first whose
/// operands cannot be read.
pub open spec fn rendered(
    instructions: Seq<Operator>,
    param: Option<u32>,
    floats: Seq<FloatText>,
) -> Result<Seq<char>, ErrorModel> {
    match first_failure(instructions) {
        Some(error) => Err(ErrorModel::Wasm(error)),
        None => Ok(instructions_text(instructions, param, floats)),
    }
}

/// The instructions of a subrange of size `n`: the first `n` for a
/// parameter, the last `n` for the return value, and all of them where there
/// are no more.
pub open spec fn subrange_of(instructions: Seq<Operator>, param: Option<u32>, n: nat) -> Seq<
    Operator,
> {
    let count = instructions.len();
    let taken = if n < count {
        n
    } else {
        count
    };
    match param {
        Some(_) => instructions.take(taken as int),
        None => instructions.subrange(count - taken, count as int),
    }
}

/// The window of size `n` whose centre is instruction `centre`.
///
/// The window holds `n / 2` instructions before the centre, the centre, and
/// the instructions after it up to `n` in all; where the body begins or ends
/// within the window, the window is shorter.
pub open spec fn window_around(instructions: Seq<Operator>, centre: int, n: nat) -> Seq<
    Operator,
> {
    let before = n / 2;
    let after = n - before;
    let from = if centre < before {
        0
    } else {
        centre - before
    };
    let to = if centre + after > instructions.len() {
        instructions.len() as int
    } else {
        centre + after
    };
    instructions.subrange(from, to)
}

/// The window of size `n` that ends before instruction `end`: the `n`
/// instructions before it, or all of them where there are fewer.
pub open spec fn window_before(instructions: Seq<Operator>, end: int, n: nat) -> Seq<Operator> {
    let from = if end < n {
        0
    } else {
        end - n
    };
    instructions.subrange(from, end)
}

/// Whether the window that ends before instruction `end` is kept for a
/// return value: it ends with a `return`, or it ends just before the last
/// instruction of the body, which is its `end`.
pub open spec fn ends_function(instructions: Seq<Operator>, end: int) -> bool {
    (1 <= end <= instructions.len() && instructions[end - 1] is Return) || end + 1
        == instructions.len()
}

/// How many places of a body are looked at for windows: every instruction
/// as a centre for a parameter, and for the return value every instruction
/// and the end of the body as what a window ends before.
pub open spec fn places(instructions: Seq<Operator>, param: Option<u32>) -> nat {
    match param {
        Some(_) => instructions.len(),
        None => instructions.len() + 1,
    }
}

/// Whether a window is kept at place `i`: for a parameter, the instruction
/// there reads or writes it; for the return value, see [`ends_function`].
pub open spec fn keeps_window(instructions: Seq<Operator>, param: Option<u32>, i: int) -> bool {
    match param {
        Some(_) => accesses_local(instructions[i], param),
        None => ends_function(instructions, i),
    }
}

/// The window of size `n` at place `i`: around the instruction there for a
/// parameter, before it for the return value.
pub open spec fn window_at(instructions: Seq<Operator>, param: Option<u32>, n: nat, i: int) -> Seq<
    Operator,
> {
    match param {
        Some(_) => window_around(instructions, i, n),
        None => window_before(instructions, i, n),
    }
}

/// The texts of the windows so far, and after them that of the window at
/// place `i` if one is kept there.
pub open spec fn with_window_at(
    texts: Seq<Seq<char>>,
    instructions: Seq<Operator>,
    param: Option<u32>,
    n: nat,
    floats: Seq<FloatText>,
    i: int,
) -> Result<Seq<Seq<char>>, ErrorModel> {
    if keeps_window(instructions, param, i) {
        match rendered(window_at(instructions, param, n, i), param, floats) {
            Ok(text) => Ok(texts.push(text)),
            Err(error) => Err(error),
        }
    } else {
        Ok(texts)
    }
}

/// [`with_window_at`] as a step of a fold.
pub open spec fn window_adder(
    instructions: Seq<Operator>,
    param: Option<u32>,
    n: nat,
    floats: Seq<FloatText>,
) -> spec_fn(Seq<Seq<char>>, int) -> Result<Seq<Seq<char>>, ErrorModel> {
    |texts: Seq<Seq<char>>, i: int| with_window_at(texts, instructions, param, n, floats, i)
}

/// The numbers from 0 up to `n`.
pub open spec fn indices(n: nat) -> Seq<int> {
    Seq::new(n, |i: int| i)
}

/// The texts of the windows of size `n` that are kept for a sample, in the
/// order of the body.
///
/// A window size of zero is a failure. So is an instruction of a kept
/// window whose operands cannot be read: the first such instruction of the
/// first such window.
pub open spec fn window_texts(
    instructions: Seq<Operator>,
    param: Option<u32>,
    n: nat,
    floats: Seq<FloatText>,
) -> Result<Seq<Seq<char>>, ErrorModel> {
    if n == 0 {
        Err(ErrorModel::EmptyWindow)
    } else {
        try_fold(
            indices(places(instructions, param)),
            Seq::empty(),
            window_adder(instructions, param, n, floats),
        )
    }
}

/// The bit patterns of the floating-point constants among `instructions`, in
/// the order of the body.
pub open spec fn float_bits_of(instructions: Seq<Operator>) -> Seq<FloatBits>
    decreases instructions.len(),
{
    if instructions.len() == 0 {
        Seq::empty()
    } else {
        let earlier = float_bits_of(instructions.drop_last());
        match instructions.last() {
            Operator::F32Const { value } => earlier.push(FloatBits::Single(single_bits(value))),
            Operator::F64Const { value } => earlier.push(FloatBits::Double(double_bits(value))),
            _ => earlier,
        }
    }
}

/// The type that is printed before the text: that of the sample where
/// `with_type` asks for it.
pub open spec fn printed_type(with_type: bool, wasm_type: Type) -> Option<Type> {
    if with_type {
        Some(wasm_type)
    } else {
        None
    }
}

/// The texts of a list, with ` <window> ` between them.
pub open spec fn joined_windows(windows: Seq<Seq<char>>) -> Seq<char>
    decreases windows.len(),
{
    if windows.len() == 0 {
        Seq::empty()
    } else if windows.len() == 1 {
        windows[0]
    } else {
        joined_windows(windows.drop_last()) + " <window> "@ + windows.last()
    }
}

/// What is printed before the text of a rendering: the type and ` <begin> `
/// where there is a type, and nothing otherwise.
pub open spec fn type_prefix(ty: Option<Type>) -> Seq<char> {
    match ty {
        Some(ty) => value_type_text(ty) + " <begin> "@,
        None => Seq::empty(),
    }
}

/// The instructions that were decoded, if the decoder accepted the whole
/// body, and its error otherwise.
pub open spec fn whole(decoded: Result<Outcome<Operator<'static>>, BinaryReaderError>) -> Result<
    Seq<Operator<'static>>,
    ErrorModel,
> {
    match decoded {
        Err(error) => Err(ErrorModel::Wasm(error)),
        Ok(outcome) => match outcome.failure {
            Some(error) => Err(ErrorModel::Wasm(error)),
            None => Ok(outcome.items),
        },
    }
}

/// The first `n` instructions that were decoded, if the decoder accepted
/// that many or the whole body, and its error otherwise.
pub open spec fn beginning(
    decoded: Result<Outcome<Operator<'static>>, BinaryReaderError>,
    n: nat,
) -> Result<Seq<Operator<'static>>, ErrorModel> {
    match decoded {
        Err(error) => Err(ErrorModel::Wasm(error)),
        Ok(outcome) => if outcome.items.len() >= n {
            Ok(outcome.items.take(n as int))
        } else {
            match outcome.failure {
                Some(error) => Err(ErrorModel::Wasm(error)),
                None => Ok(outcome.items),
            }
        },
    }
}

/// The rendering by hash of a body with these bytes: the digest in
/// hexadecimal.
pub open spec fn hash_repr(bytes: Seq<u8>, ty: Option<Type>) -> ReprModel {
    ReprModel::Hash(ty, hex(sha256(bytes)))
}

/// The full rendering of a body with these instructions.
pub open spec fn full_repr(
    instructions: Seq<Operator>,
    param: Option<u32>,
    ty: Option<Type>,
    floats: Seq<FloatText>,
) -> Result<ReprModel, ErrorModel> {
    match rendered(instructions, param, floats) {
        Ok(text) => Ok(ReprModel::Full(ty, text)),
        Err(error) => Err(error),
    }
}

/// The rendering of a subrange of size `n` of these instructions.
pub open spec fn subrange_repr(
    instructions: Seq<Operator>,
    param: Option<u32>,
    n: nat,
    ty: Option<Type>,
    floats: Seq<FloatText>,
) -> Result<ReprModel, ErrorModel> {
    match rendered(subrange_of(instructions, param, n), param, floats) {
        Ok(text) => Ok(ReprModel::Subrange(ty, text)),
        Err(error) => Err(error),
    }
}

/// The full rendering of a body for a sample about `param`: the body is
/// decoded to its end, and all its instructions are rendered.
pub open spec fn full_of_body(
    body: WasmBody,
    param: Option<u32>,
    ty: Option<Type>,
    floats: Seq<FloatText>,
) -> Result<ReprModel, ErrorModel> {
    match whole(body.decoded()) {
        Err(error) => Err(error),
        Ok(instructions) => full_repr(instructions, param, ty, floats),
    }
}

/// The rendering of a subrange of a body for a sample about `param`. For a
/// parameter the body is decoded only as far as the subrange reaches, for
/// the return value to its end.
pub open spec fn subrange_of_body(
    body: WasmBody,
    param: Option<u32>,
    n: nat,
    ty: Option<Type>,
    floats: Seq<FloatText>,
) -> Result<ReprModel, ErrorModel> {
    let decoded = match param {
        Some(_) => beginning(body.decoded(), n),
        None => whole(body.decoded()),
    };
    match decoded {
        Err(error) => Err(error),
        Ok(instructions) => subrange_repr(instructions, param, n, ty, floats),
    }
}

/// The texts of the windows of a body for a sample about `param`, in the
/// order of the body: the body is decoded to its end.
pub open spec fn windows_of_body(
    body: WasmBody,
    param: Option<u32>,
    n: nat,
    floats: Seq<FloatText>,
) -> Result<Seq<Seq<char>>, ErrorModel> {
    match whole(body.decoded()) {
        Err(error) => Err(error),
        Ok(instructions) => window_texts(instructions, param, n, floats),
    }
}

impl WasmRepr {
    /// The type that is printed before the text, if any.
    pub open spec fn printed(&self) -> Option<Type> {
        match *self {
            WasmRepr::Hash(ty, _) => ty,
            WasmRepr::Full(ty, _) => ty,
            WasmRepr::Subrange(ty, _) => ty,
            WasmRepr::Windows(ty, _) => ty,
        }
    }

    /// The line that is written for this rendering.
    pub open spec fn line(&self) -> Seq<char> {
        type_prefix(self.printed()) + match *self {
            WasmRepr::Hash(_, text) => text@,
            WasmRepr::Full(_, text) => text@,
            WasmRepr::Subrange(_, text) => text@,
            WasmRepr::Windows(_, windows) => joined_windows(text_views(windows@)),
        }
    }

    /// The type that is printed before the text, if any.
    pub fn type_(&self) -> (ty: Option<Type>)
        ensures
            ty == self.printed(),
    {
        match self {
            WasmRepr::Hash(ty, _) => *ty,
            WasmRepr::Full(ty, _) => *ty,
            WasmRepr::Subrange(ty, _) => *ty,
            WasmRepr::Windows(ty, _) => *ty,
        }
    }

    /// The line that is written for this rendering: the type and ` <begin> `
    /// where the type is printed, then the text, the windows with
    /// ` <window> ` between them.
    pub fn to_text(&self) -> (line: String)
        requires
            self.printed() matches Some(ty) ==> is_value_type(ty),
        ensures
            line@ == self.line(),
    {
        let mut line = String::new();
        match self.type_() {
            Some(ty) => {
                line.append(type_str(ty));
                line.append(" <begin> ");
            },
            None => {},
        }
        assert(line@ =~= type_prefix(self.printed()));
        match self {
            WasmRepr::Hash(_, text) => line.append(text.as_str()),
            WasmRepr::Full(_, text) => line.append(text.as_str()),
            WasmRepr::Subrange(_, text) => line.append(text.as_str()),
            WasmRepr::Windows(_, windows) => {
                let ghost views = text_views(windows@);
                let ghost prefix = line@;
                let mut i: usize = 0;
                assert(views.take(0) =~= Seq::<Seq<char>>::empty());
                while i < windows.len()
                    invariant
                        i <= windows.len(),
                        views == text_views(windows@),
                        line@ == prefix + joined_windows(views.take(i as int)),
                    decreases windows.len() - i,
                {
                    proof {
                        assert(views.take(i + 1).drop_last() =~= views.take(i as int));
                        assert(views.take(i + 1).last() == windows@[i as int]@);
                    }
                    if i > 0 {
                        line.append(" <window> ");
                    }
                    line.append(windows[i].as_str());
                    assert(line@ =~= prefix + joined_windows(views.take(i + 1)));
                    i = i + 1;
                }
                assert(views.take(windows.len() as int) =~= views);
            },
        }
        line
    }
}

/// The local that a sample is about.
pub fn focus_of(param_or_return: &ParamOrReturn) -> (param: Option<u32>)
    ensures
        param == focus(*param_or_return),
{
    match param_or_return {
        ParamOrReturn::Param { idx, .. } => Some(*idx),
        ParamOrReturn::Return => None,
    }
}

/// The texts of the instructions from `from` up to `to`, with ` ; ` between
/// them, or the error of the first instruction among them whose operands
/// cannot be read.
fn range_to_string(
    instructions: &Vec<Operator>,
    from: usize,
    to: usize,
    param: Option<u32>,
    floats: &Vec<FloatText>,
) -> (text: Result<String, ExtractError>)
    requires
        from <= to <= instructions.len(),
    ensures
        match rendered(instructions@.subrange(from as int, to as int), param, floats@) {
            Ok(rendered) => text matches Ok(text) && text@ == rendered,
            Err(error) => text matches Err(found) && found@ == error,
        },
{
    let ghost range = instructions@.subrange(from as int, to as int);
    let mut text = String::new();
    let mut i: usize = from;
    assert(range.take(0) =~= Seq::<Operator>::empty());
    while i < to
        invariant
            from <= i <= to <= instructions.len(),
            range == instructions@.subrange(from as int, to as int),
            first_failure(range.take(i - from)) is None,
            text@ == instructions_text(range.take(i - from), param, floats@),
        decreases to - i,
    {
        let ghost done = range.take(i - from);
        let ghost next = range.take(i - from + 1);
        proof {
            assert(next.drop_last() =~= done);
            assert(next.last() == instructions@[i as int]);
        }
        if i > from {
            text.append(" ; ");
        }
        match fmt_instr(&mut text, &instructions[i], param, floats) {
            Ok(()) => {},
            Err(error) => {
                proof {
                    lemma_first_failure_stays(range, i - from + 1);
                }
                return Err(error);
            },
        }
        proof {
            assert(text@ =~= instructions_text(next, param, floats@));
        }
        i = i + 1;
    }
    assert(range.take(to - from) =~= range);
    Ok(text)
}

/// The first failure among the first `k` instructions, if there is one, is
/// the first failure among all.
proof fn lemma_first_failure_stays(instructions: Seq<Operator>, k: int)
    requires
        0 <= k <= instructions.len(),
        first_failure(instructions.take(k)) is Some,
    ensures
        first_failure(instructions) == first_failure(instructions.take(k)),
    decreases instructions.len() - k,
{
    if k == instructions.len() {
        assert(instructions.take(k) =~= instructions);
    } else {
        assert(instructions.take(k + 1).drop_last() =~= instructions.take(k));
        lemma_first_failure_stays(instructions, k + 1);
    }
}

/// `SliceRandom::shuffle` with the generator `rng`: the texts are put in
/// another order, and none is added, dropped or changed. Which order it is
/// depends on the generator.
#[verifier::external_body]
fn shuffle_windows(windows: &mut Vec<String>, rng: &mut StdRng)
    ensures
        text_views(final(windows)@).to_multiset() == text_views(old(windows)@).to_multiset(),
{
    windows.shuffle(rng);
}

/// The instructions that were decoded, if the decoder accepted the whole
/// body, and its error otherwise.
pub fn complete<'a>(decoded: Result<Decoded<Operator<'a>>, BinaryReaderError>) -> (instructions:
    Result<Vec<Operator<'a>>, ExtractError>)
    ensures
        match decoded {
            Err(error) => instructions matches Err(found) && found == ExtractError::Wasm(error),
            Ok(decoded) => match decoded.failure {
                None => instructions == Ok::<Vec<Operator>, ExtractError>(decoded.items),
                Some(error) => instructions matches Err(found) && found == ExtractError::Wasm(
                    error,
                ),
            },
        },
{
    match decoded {
        Err(error) => Err(ExtractError::Wasm(error)),
        Ok(decoded) => {
            let Decoded { items, failure } = decoded;
            match failure {
                None => Ok(items),
                Some(error) => Err(ExtractError::Wasm(error)),
            }
        },
    }
}

/// The first `n` instructions that were decoded, if the decoder accepted
/// that many or the whole body, and its error otherwise.
pub fn complete_prefix<'a>(
    decoded: Result<Decoded<Operator<'a>>, BinaryReaderError>,
    n: usize,
) -> (instructions: Result<Vec<Operator<'a>>, ExtractError>)
    ensures
        match decoded {
            Err(error) => instructions matches Err(found) && found == ExtractError::Wasm(error),
            Ok(decoded) => if decoded.items@.len() >= n {
                instructions matches Ok(taken) && taken@ == decoded.items@.take(n as int)
            } else {
                match decoded.failure {
                    None => instructions == Ok::<Vec<Operator>, ExtractError>(decoded.items),
                    Some(error) => instructions matches Err(found) && found == ExtractError::Wasm(
                        error,
                    ),
                }
            },
        },
{
    match decoded {
        Err(error) => Err(ExtractError::Wasm(error)),
        Ok(decoded) => {
            let Decoded { items, failure } = decoded;
            let mut items = items;
            if items.len() >= n {
                items.truncate(n);
                Ok(items)
            } else {
                match failure {
                    None => Ok(items),
                    Some(error) => Err(ExtractError::Wasm(error)),
                }
            }
        },
    }
}

impl WasmRepr {
    /// The texts of `instructions` with ` ; ` between them, the index of the
    /// sample's parameter replaced by `<param>`; or the error of the first
    /// instruction whose operands cannot be read.
    pub fn instructions_to_string(
        instructions: &Vec<Operator>,
        abstract_param: &ParamOrReturn,
        floats: &Vec<FloatText>,
    ) -> (text: Result<String, ExtractError>)
        ensures
            match rendered(instructions@, focus(*abstract_param), floats@) {
                Ok(rendered) => text matches Ok(text) && text@ == rendered,
                Err(error) => text matches Err(found) && found@ == error,
            },
    {
        assert(instructions@.subrange(0, instructions@.len() as int) =~= instructions@);
        range_to_string(instructions, 0, instructions.len(), focus_of(abstract_param), floats)
    }

    /// The bit patterns of the floating-point constants among
    /// `instructions`, in the order of the body: those for which a rendering
    /// needs a text.
    pub fn float_constants(instructions: &Vec<Operator>) -> (constants: Vec<FloatBits>)
        ensures
            constants@ == float_bits_of(instructions@),
    {
        let mut constants: Vec<FloatBits> = Vec::new();
        let mut i: usize = 0;
        assert(instructions@.take(0) =~= Seq::<Operator>::empty());
        while i < instructions.len()
            invariant
                i <= instructions.len(),
                constants@ == float_bits_of(instructions@.take(i as int)),
            decreases instructions.len() - i,
        {
            proof {
                assert(instructions@.take(i + 1).drop_last() =~= instructions@.take(i as int));
            }
            match &instructions[i] {
                Operator::F32Const { value } => constants.push(FloatBits::Single(value.bits())),
                Operator::F64Const { value } => constants.push(FloatBits::Double(value.bits())),
                _ => {},
            }
            i = i + 1;
        }
        assert(instructions@.take(instructions.len() as int) =~= instructions@);
        constants
    }

    /// The rendering by hash of the body `bytes`: the digest in hexadecimal.
    pub fn hash_of(bytes: &[u8], ty: Option<Type>) -> (repr: WasmRepr)
        ensures
            repr@ == hash_repr(bytes@, ty),
    {
        let digest = sha256_digest(bytes);
        let mut text = String::new();
        push_hex(&mut text, digest.as_slice());
        WasmRepr::Hash(ty, text)
    }

    /// The full rendering of a body with these instructions: see
    /// [`full_repr`].
    pub fn full_of(
        instructions: &Vec<Operator>,
        param_or_return: &ParamOrReturn,
        ty: Option<Type>,
        floats: &Vec<FloatText>,
    ) -> (repr: Result<WasmRepr, ExtractError>)
        ensures
            repr_result(repr) == full_repr(instructions@, focus(*param_or_return), ty, floats@),
    {
        match WasmRepr::instructions_to_string(instructions, param_or_return, floats) {
            Ok(text) => Ok(WasmRepr::Full(ty, text)),
            Err(error) => Err(error),
        }
    }

    /// The rendering of a subrange of size `n_instructions` of a body with
    /// these instructions: its first instructions for a parameter, its last
    /// ones for the return value. See [`subrange_repr`].
    pub fn subrange_of(
        instructions: &Vec<Operator>,
        param_or_return: &ParamOrReturn,
        n_instructions: usize,
        ty: Option<Type>,
        floats: &Vec<FloatText>,
    ) -> (repr: Result<WasmRepr, ExtractError>)
        ensures
            repr_result(repr) == subrange_repr(
                instructions@,
                focus(*param_or_return),
                n_instructions as nat,
                ty,
                floats@,
            ),
    {
        let count = instructions.len();
        let taken = if n_instructions < count {
            n_instructions
        } else {
            count
        };
        let text = match param_or_return {
            ParamOrReturn::Param { .. } => range_to_string(
                instructions,
                0,
                taken,
                focus_of(param_or_return),
                floats,
            ),
            ParamOrReturn::Return => range_to_string(
                instructions,
                count - taken,
                count,
                focus_of(param_or_return),
                floats,
            ),
        };
        match text {
            Ok(text) => Ok(WasmRepr::Subrange(ty, text)),
            Err(error) => Err(error),
        }
    }

    /// The texts of the windows of size `window_size` that are kept for a
    /// sample, in the order of the body: see [`window_texts`].
    ///
    /// For a parameter a window is kept around every instruction that reads
    /// or writes it; for the return value, before every `return` and before
    /// the last instruction of the body.
    pub fn select_windows(
        instructions: &Vec<Operator>,
        param_or_return: &ParamOrReturn,
        window_size: usize,
        floats: &Vec<FloatText>,
    ) -> (windows: Result<Vec<String>, ExtractError>)
        ensures
            match window_texts(
                instructions@,
                focus(*param_or_return),
                window_size as nat,
                floats@,
            ) {
                Ok(texts) => windows matches Ok(windows) && text_views(windows@) == texts,
                Err(error) => windows matches Err(found) && found@ == error,
            },
    {
        if window_size == 0 {
            return Err(ExtractError::EmptyWindow);
        }
        let count = instructions.len();
        let n = window_size;
        let param = focus_of(param_or_return);
        let ghost size = window_size as nat;
        let ghost step = window_adder(instructions@, param, size, floats@);
        let ghost all = indices(places(instructions@, param));
        let mut windows: Vec<String> = Vec::new();
        proof {
            lemma_try_fold_all(all, Seq::<Seq<char>>::empty(), step);
            assert(text_views(windows@) =~= Seq::<Seq<char>>::empty());
        }
        let mut place: usize = 0;
        loop
            invariant_except_break
                try_fold(all.take(place as int), Seq::<Seq<char>>::empty(), step) == Ok::<
                    Seq<Seq<char>>,
                    ErrorModel,
                >(text_views(windows@)),
            invariant
                place <= count == instructions.len(),
                n == window_size > 0,
                size == window_size as nat,
                param == focus(*param_or_return),
                step == window_adder(instructions@, param, size, floats@),
                all == indices(places(instructions@, param)),
            ensures
                try_fold(all, Seq::<Seq<char>>::empty(), step) == Ok::<
                    Seq<Seq<char>>,
                    ErrorModel,
                >(text_views(windows@)),
            decreases count - place,
        {
            if place == count && param.is_some() {
                proof {
                    lemma_try_fold_all(all, Seq::<Seq<char>>::empty(), step);
                }
                break ;
            }
            proof {
                lemma_try_fold_next(all, place as int, Seq::<Seq<char>>::empty(), step);
                assert(all[place as int] == place as int);
            }
            let kept = match param {
                Some(_) => is_local_access(&instructions[place], param),
                None => {
                    let after_return = place >= 1 && match &instructions[place - 1] {
                        Operator::Return => true,
                        _ => false,
                    };
                    after_return || (count >= 1 && place == count - 1)
                },
            };
            if kept {
                let (from, to) = match param {
                    Some(_) => {
                        let before = n / 2;
                        let after = n - before;
                        let from = if place < before {
                            0
                        } else {
                            place - before
                        };
                        let to = if after > count - place {
                            count
                        } else {
                            place + after
                        };
                        (from, to)
                    },
                    None => {
                        let from = if place < n {
                            0
                        } else {
                            place - n
                        };
                        (from, place)
                    },
                };
                proof {
                    assert(window_at(instructions@, param, size, place as int)
                        == instructions@.subrange(from as int, to as int));
                }
                match range_to_string(instructions, from, to, param, floats) {
                    Ok(text) => {
                        let ghost texts = windows@;
                        windows.push(text);
                        assert(text_views(windows@) =~= text_views(texts).push(text@));
                    },
                    Err(error) => {
                        proof {
                            lemma_try_fold_failure(
                                all,
                                place + 1,
                                Seq::<Seq<char>>::empty(),
                                step,
                            );
                        }
                        return Err(error);
                    },
                }
            }
            if place == count {
                proof {
                    lemma_try_fold_all(all, Seq::<Seq<char>>::empty(), step);
                }
                break ;
            }
            place = place + 1;
        }
        Ok(windows)
    }

    /// Content hash of the full raw body bytes; used only for measuring
    /// non-determinism, not as model input.
    pub fn new_hash<T, U>(sample: &WasmTypeSample<WasmBody, T, U>, with_type: bool) -> (repr:
        WasmRepr)
        ensures
            repr@ == hash_repr(
                sample.wasm_body.bytes@,
                printed_type(with_type, sample.wasm_type),
            ),
    {
        let ty = if with_type {
            Some(sample.wasm_type)
        } else {
            None
        };
        WasmRepr::hash_of(sample.wasm_body.bytes.as_slice(), ty)
    }

    /// Every instruction of the body, rendered: see [`full_of_body`].
    pub fn new_full<T, U>(
        sample: &WasmTypeSample<WasmBody, T, U>,
        with_type: bool,
        floats: &Vec<FloatText>,
    ) -> (repr: Result<WasmRepr, ExtractError>)
        requires
            sample.wasm_body.wf(),
        ensures
            repr_result(repr) == full_of_body(
                sample.wasm_body,
                focus(sample.param_or_return),
                printed_type(with_type, sample.wasm_type),
                floats@,
            ),
    {
        let ty = if with_type {
            Some(sample.wasm_type)
        } else {
            None
        };
        let instructions = complete(sample.wasm_body.instructions())?;
        WasmRepr::full_of(&instructions, &sample.param_or_return, ty, floats)
    }

    /// For a parameter sample, the first `n_instructions` instructions of
    /// the body; for a return sample, the last ones: see
    /// [`subrange_of_body`].
    pub fn new_subrange<T, U>(
        sample: &WasmTypeSample<WasmBody, T, U>,
        n_instructions: usize,
        with_type: bool,
        floats: &Vec<FloatText>,
    ) -> (repr: Result<WasmRepr, ExtractError>)
        requires
            sample.wasm_body.wf(),
        ensures
            repr_result(repr) == subrange_of_body(
                sample.wasm_body,
                focus(sample.param_or_return),
                n_instructions as nat,
                printed_type(with_type, sample.wasm_type),
                floats@,
            ),
    {
        let ty = if with_type {
            Some(sample.wasm_type)
        } else {
            None
        };
        let decoded = sample.wasm_body.instructions();
        let instructions = match &sample.param_or_return {
            ParamOrReturn::Param { .. } => complete_prefix(decoded, n_instructions)?,
            ParamOrReturn::Return => complete(decoded)?,
        };
        WasmRepr::subrange_of(&instructions, &sample.param_or_return, n_instructions, ty, floats)
    }

    /// The windows of the body that are kept for the sample, in an order
    /// that `rng` decides.
    ///
    /// The result is a failure exactly where [`windows_of_body`] is one, and
    /// it is that failure. Otherwise it holds the texts of
    /// [`windows_of_body`]: each as often as it occurs there, and no other.
    pub fn new_windows<T, U>(
        sample: &WasmTypeSample<WasmBody, T, U>,
        window_size: usize,
        with_type: bool,
        rng: &mut StdRng,
        floats: &Vec<FloatText>,
    ) -> (repr: Result<WasmRepr, ExtractError>)
        requires
            sample.wasm_body.wf(),
        ensures
            match windows_of_body(
                sample.wasm_body,
                focus(sample.param_or_return),
                window_size as nat,
                floats@,
            ) {
                Ok(texts) => repr matches Ok(WasmRepr::Windows(printed, windows)) && printed
                    == printed_type(with_type, sample.wasm_type) && text_views(
                    windows@,
                ).to_multiset() == texts.to_multiset(),
                Err(error) => repr matches Err(found) && found@ == error,
            },
    {
        let ty = if with_type {
            Some(sample.wasm_type)
        } else {
            None
        };
        let instructions = complete(sample.wasm_body.instructions())?;
        let windows = WasmRepr::select_windows(
            &instructions,
            &sample.param_or_return,
            window_size,
            floats,
        )?;
        Ok(WasmRepr::shuffled(windows, ty, rng))
    }

    /// The rendering by windows with these texts, in an order that `rng`
    /// decides: none is added, dropped or changed.
    pub fn shuffled(windows: Vec<String>, ty: Option<Type>, rng: &mut StdRng) -> (repr: WasmRepr)
        ensures
            repr matches WasmRepr::Windows(printed, shuffled) && printed == ty && text_views(
                shuffled@,
            ).to_multiset() == text_views(windows@).to_multiset(),
    {
        let mut windows = windows;
        shuffle_windows(&mut windows, rng);
        WasmRepr::Windows(ty, windows)
    }
}

} // verus!
