//! The filters that drop samples from the dataset.

use vstd::prelude::*;
use wasmparser::Operator;
use crate::samples::sample::{ParamOrReturn, WasmTypeSample};
use crate::samples::types::{SourceType, TypeToken};
use crate::wasm::fmt::{accesses_local, is_local_access};
use crate::wasm::parse::WasmBody;

verus! {

/// Whether some instruction reads or writes the local `param`.
pub open spec fn uses_local(instructions: Seq<Operator>, param: u32) -> bool {
    exists|i: int|
        0 <= i < instructions.len() && accesses_local(#[trigger] instructions[i], Some(param))
}

/// Whether some instruction reads or writes the local `param`.
pub fn is_param_used(instructions: &Vec<Operator>, param: u32) -> (used: bool)
    ensures
        used == uses_local(instructions@, param),
{
    let mut i: usize = 0;
    while i < instructions.len()
        invariant
            i <= instructions.len(),
            forall|k: int| 0 <= k < i ==> !accesses_local(#[trigger] instructions@[k], Some(param)),
        decreases instructions.len() - i,
    {
        if is_local_access(&instructions[i], Some(param)) {
            return true;
        }
        i = i + 1;
    }
    false
}

/// Whether the body uses the local `param`: an instruction that the decoder
/// accepts reads or writes it. Of a body that the decoder rejects, the
/// instructions before the rejected one count, and none where the decoder
/// rejects the declarations of locals.
pub open spec fn body_uses(body: WasmBody, param: u32) -> bool {
    match body.decoded() {
        Ok(outcome) => uses_local(outcome.items, param),
        Err(_) => false,
    }
}

/// Whether a sample stays when samples of unused parameters are dropped:
/// the sample of a return value stays, and the sample of a parameter stays
/// if the body uses the parameter.
pub fn keeps_used_param<T, U>(sample: &WasmTypeSample<WasmBody, T, U>) -> (kept: bool)
    requires
        sample.wasm_body.wf(),
    ensures
        kept == match sample.param_or_return {
            ParamOrReturn::Return => true,
            ParamOrReturn::Param { idx, .. } => body_uses(sample.wasm_body, idx),
        },
{
    match &sample.param_or_return {
        ParamOrReturn::Return => true,
        ParamOrReturn::Param { idx, .. } => match sample.wasm_body.instructions() {
            Ok(decoded) => is_param_used(&decoded.items, *idx),
            Err(_) => false,
        },
    }
}

/// Whether a sample stays when samples of unknown type are dropped: its
/// type is not the single token `Unknown`.
pub fn keeps_known_type<T, U>(sample: &WasmTypeSample<T, SourceType, U>) -> (kept: bool)
    ensures
        kept <==> sample.type_.0@ != seq![TypeToken::Unknown],
{
    !sample.type_.is_unknown()
}

} // verus!
