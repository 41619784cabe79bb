//! Figures of one binary, and the signature by which binaries that differ
//! only in names, indices and constants are recognised as one.

use vstd::prelude::*;
use vstd::slice::slice_subrange;
use vstd::utf8::encode_utf8;
use wasmparser::Operator;
use crate::error::ExtractError;
use crate::hash::{sha256, sha256_digest};
use crate::error::ErrorModel;
use crate::fold::{lemma_try_fold_all, lemma_try_fold_failure, lemma_try_fold_next, try_fold};
use crate::wasm::decode::{
    body_operators, decode_operators, module_payloads, payload_section, payloads_of, section_of,
    Decoded, Section,
};
use crate::wasm::fmt::{instr_name, mnemonic};

verus! {

/// The mnemonics of a list of instructions, one after the other with nothing
/// between them, as bytes.
pub open spec fn mnemonic_bytes(instructions: Seq<Operator>) -> Seq<u8>
    decreases instructions.len(),
{
    if instructions.len() == 0 {
        Seq::empty()
    } else {
        mnemonic_bytes(instructions.drop_last()) + encode_utf8(mnemonic(instructions.last()))
    }
}

/// The digest of one function body: that of the mnemonics of its
/// instructions. No operand enters it.
pub open spec fn body_digest(instructions: Seq<Operator>) -> Seq<u8> {
    sha256(mnemonic_bytes(instructions))
}

/// The digests of the bodies of a binary, one after the other.
pub open spec fn body_digests(bodies: Seq<Seq<Operator>>) -> Seq<u8>
    decreases bodies.len(),
{
    if bodies.len() == 0 {
        Seq::empty()
    } else {
        body_digests(bodies.drop_last()) + body_digest(bodies.last())
    }
}

/// The structural signature of a binary: the digest of the digests of its
/// function bodies.
pub open spec fn structural_signature(bodies: Seq<Seq<Operator>>) -> Seq<u8> {
    sha256(body_digests(bodies))
}

/// The total number of instructions in `bodies`.
pub open spec fn instruction_total(bodies: Seq<Seq<Operator>>) -> nat
    decreases bodies.len(),
{
    if bodies.len() == 0 {
        0
    } else {
        instruction_total(bodies.drop_last()) + bodies.last().len()
    }
}

/// `n`, or the largest `u64` where `n` is larger.
pub open spec fn saturated(n: nat) -> u64 {
    if n > u64::MAX {
        u64::MAX
    } else {
        n as u64
    }
}

/// Two binaries whose bodies carry the same mnemonics, instruction by
/// instruction, have the same structural signature, whatever the operands of
/// their instructions are: renumbering functions, locals and globals or
/// changing constants does not change it.
pub proof fn lemma_signature_ignores_operands(a: Seq<Seq<Operator>>, b: Seq<Seq<Operator>>)
    requires
        a.len() == b.len(),
        forall|i: int| 0 <= i < a.len() ==> (#[trigger] a[i]).len() == b[i].len(),
        forall|i: int, j: int|
            0 <= i < a.len() && 0 <= j < a[i].len() ==> mnemonic(#[trigger] a[i][j]) == mnemonic(
                b[i][j],
            ),
    ensures
        structural_signature(a) == structural_signature(b),
    decreases a.len(),
{
    lemma_body_digests_ignore_operands(a, b);
}

/// The body digests of two binaries whose bodies carry the same mnemonics
/// are equal.
proof fn lemma_body_digests_ignore_operands(a: Seq<Seq<Operator>>, b: Seq<Seq<Operator>>)
    requires
        a.len() == b.len(),
        forall|i: int| 0 <= i < a.len() ==> (#[trigger] a[i]).len() == b[i].len(),
        forall|i: int, j: int|
            0 <= i < a.len() && 0 <= j < a[i].len() ==> mnemonic(#[trigger] a[i][j]) == mnemonic(
                b[i][j],
            ),
    ensures
        body_digests(a) == body_digests(b),
    decreases a.len(),
{
    if a.len() > 0 {
        lemma_body_digests_ignore_operands(a.drop_last(), b.drop_last());
        lemma_mnemonic_bytes_ignore_operands(a.last(), b.last());
    }
}

/// The mnemonic bytes of two instruction lists that carry the same mnemonics
/// are equal.
proof fn lemma_mnemonic_bytes_ignore_operands(a: Seq<Operator>, b: Seq<Operator>)
    requires
        a.len() == b.len(),
        forall|j: int| 0 <= j < a.len() ==> mnemonic(#[trigger] a[j]) == mnemonic(b[j]),
    ensures
        mnemonic_bytes(a) == mnemonic_bytes(b),
    decreases a.len(),
{
    if a.len() > 0 {
        lemma_mnemonic_bytes_ignore_operands(a.drop_last(), b.drop_last());
    }
}

/// The mnemonic of an instruction that takes an index or a constant is the
/// same for every index and every constant.
pub proof fn lemma_mnemonic_ignores_operand(a: Operator, b: Operator)
    requires
        (a is Call && b is Call) || (a is LocalGet && b is LocalGet) || (a is LocalSet
            && b is LocalSet) || (a is LocalTee && b is LocalTee) || (a is GlobalGet
            && b is GlobalGet) || (a is GlobalSet && b is GlobalSet) || (a is I32Const
            && b is I32Const) || (a is I64Const && b is I64Const) || (a is F32Const
            && b is F32Const) || (a is F64Const && b is F64Const) || (a is V128Const
            && b is V128Const) || (a is RefFunc && b is RefFunc) || (a is ReturnCall
            && b is ReturnCall) || (a is CallIndirect && b is CallIndirect) || (a is Br && b is Br)
            || (a is BrIf && b is BrIf),
    ensures
        mnemonic(a) == mnemonic(b),
{
}

/// The function bodies of a binary that were decoded so far: their
/// instructions, and how many bytes they fill.
pub struct Bodies {
    pub bodies: Seq<Seq<Operator<'static>>>,
    pub bytes: u64,
}

/// No body.
pub open spec fn no_bodies() -> Bodies {
    Bodies { bodies: Seq::empty(), bytes: 0 }
}

/// The bodies after one more part of the module `bytes`: a function body is
/// decoded to its end and added, and any other part is passed over. A body
/// that the decoder rejects is a failure.
pub open spec fn with_body(found: Bodies, payload: wasmparser::Payload<'static>, bytes: Seq<u8>) -> Result<
    Bodies,
    ErrorModel,
> {
    match payload_section(payload) {
        Section::CodeEntry { start, end } => if !(start <= end <= bytes.len()) {
            Err(ErrorModel::RangeOutsideModule { start, end })
        } else {
            match body_operators(bytes.subrange(start as int, end as int), start) {
                Err(error) => Err(ErrorModel::Wasm(error)),
                Ok(outcome) => match outcome.failure {
                    Some(error) => Err(ErrorModel::Wasm(error)),
                    None => Ok(
                        Bodies {
                            bodies: found.bodies.push(outcome.items),
                            bytes: saturated((found.bytes + (end - start)) as nat),
                        },
                    ),
                },
            }
        },
        _ => Ok(found),
    }
}

/// [`with_body`] as a step of a fold.
pub open spec fn body_adder(bytes: Seq<u8>) -> spec_fn(Bodies, wasmparser::Payload<'static>) -> Result<
    Bodies,
    ErrorModel,
> {
    |found: Bodies, payload: wasmparser::Payload<'static>| with_body(found, payload, bytes)
}

/// The figures of a binary, with each digest as a sequence of bytes.
pub struct StatsModel {
    pub file_size: u64,
    pub file_sha256: Seq<u8>,
    pub instruction_count: u64,
    pub function_bodies_count: u64,
    pub function_bodies_bytes: u64,
    pub binary_signature: Seq<u8>,
}

/// The figures of the binary `bytes` whose function bodies hold `bodies`
/// and fill `bodies_bytes` bytes in all. The counts stop at the largest
/// `u64`.
pub open spec fn figures(bytes: Seq<u8>, bodies: Seq<Seq<Operator>>, bodies_bytes: u64) -> StatsModel {
    StatsModel {
        file_size: saturated(bytes.len()),
        file_sha256: sha256(bytes),
        instruction_count: saturated(instruction_total(bodies)),
        function_bodies_count: saturated(bodies.len()),
        function_bodies_bytes: bodies_bytes,
        binary_signature: structural_signature(bodies),
    }
}

/// The figures of the binary `bytes`: every function body is decoded, and
/// the first part of the module or instruction that the decoder rejects is
/// the failure.
pub open spec fn figures_of(bytes: Seq<u8>) -> Result<StatsModel, ErrorModel> {
    let payloads = payloads_of(bytes);
    match try_fold(payloads.items, no_bodies(), body_adder(bytes)) {
        Err(error) => Err(error),
        Ok(found) => match payloads.failure {
            Some(error) => Err(ErrorModel::Wasm(error)),
            None => Ok(figures(bytes, found.bodies, found.bytes)),
        },
    }
}

/// Figures of one binary.
#[derive(Debug)]
pub struct WasmBinaryStats {
    pub file_size: u64,
    pub file_sha256: Vec<u8>,
    pub instruction_count: u64,
    pub function_bodies_count: u64,
    pub function_bodies_bytes: u64,
    pub binary_signature: Vec<u8>,
}

impl View for WasmBinaryStats {
    type V = StatsModel;

    open spec fn view(&self) -> StatsModel {
        StatsModel {
            file_size: self.file_size,
            file_sha256: self.file_sha256@,
            instruction_count: self.instruction_count,
            function_bodies_count: self.function_bodies_count,
            function_bodies_bytes: self.function_bodies_bytes,
            binary_signature: self.binary_signature@,
        }
    }
}

/// Appends the bytes of `text`.
fn push_bytes(out: &mut Vec<u8>, text: &str)
    ensures
        final(out)@ == old(out)@ + encode_utf8(text@),
{
    let bytes = text.as_bytes();
    let mut i: usize = 0;
    while i < bytes.len()
        invariant
            i <= bytes.len(),
            bytes@ == encode_utf8(text@),
            out@ == old(out)@ + bytes@.take(i as int),
        decreases bytes.len() - i,
    {
        out.push(bytes[i]);
        assert(out@ =~= old(out)@ + bytes@.take(i + 1));
        i = i + 1;
    }
    assert(bytes@.take(bytes.len() as int) =~= bytes@);
}

/// The digest of one function body.
pub fn digest_body(instructions: &Vec<Operator>) -> (digest: Vec<u8>)
    ensures
        digest@ == body_digest(instructions@),
        digest@.len() == 32,
{
    let mut names: Vec<u8> = Vec::new();
    let mut i: usize = 0;
    assert(instructions@.take(0) =~= Seq::<Operator>::empty());
    while i < instructions.len()
        invariant
            i <= instructions.len(),
            names@ == mnemonic_bytes(instructions@.take(i as int)),
        decreases instructions.len() - i,
    {
        proof {
            assert(instructions@.take(i + 1).drop_last() =~= instructions@.take(i as int));
        }
        push_bytes(&mut names, instr_name(&instructions[i]));
        i = i + 1;
    }
    assert(instructions@.take(instructions.len() as int) =~= instructions@);
    sha256_digest(names.as_slice())
}

/// `total + more`, or the largest `u64` where that is larger.
fn add_saturating(total: u64, more: usize) -> (sum: u64)
    ensures
        sum == saturated((total + more) as nat),
{
    if more as u64 > u64::MAX - total {
        u64::MAX
    } else {
        total + more as u64
    }
}

/// The instruction lists of `bodies`, each as a sequence.
pub open spec fn body_views(bodies: Seq<Vec<Operator>>) -> Seq<Seq<Operator>> {
    Seq::new(bodies.len(), |i: int| bodies[i]@)
}

impl WasmBinaryStats {
    /// The figures of the binary `bytes` whose function bodies hold
    /// `bodies` and fill `bodies_bytes` bytes in all.
    ///
    /// The counts stop at the largest `u64`.
    pub fn from_bodies(bytes: &[u8], bodies: &Vec<Vec<Operator>>, bodies_bytes: u64) -> (stats:
        WasmBinaryStats)
        ensures
            stats@ == figures(bytes@, body_views(bodies@), bodies_bytes),
    {
        let mut digests: Vec<u8> = Vec::new();
        let mut instruction_count: u64 = 0;
        let mut i: usize = 0;
        let ghost views = body_views(bodies@);
        assert(views.take(0) =~= Seq::<Seq<Operator>>::empty());
        while i < bodies.len()
            invariant
                i <= bodies.len(),
                views == body_views(bodies@),
                digests@ == body_digests(views.take(i as int)),
                instruction_count == saturated(instruction_total(views.take(i as int))),
            decreases bodies.len() - i,
        {
            proof {
                assert(views.take(i + 1).drop_last() =~= views.take(i as int));
                assert(views.take(i + 1).last() == bodies@[i as int]@);
            }
            let mut digest = digest_body(&bodies[i]);
            digests.append(&mut digest);
            instruction_count = add_saturating(instruction_count, bodies[i].len());
            i = i + 1;
        }
        assert(views.take(bodies.len() as int) =~= views);
        WasmBinaryStats {
            file_size: add_saturating(0, bytes.len()),
            file_sha256: sha256_digest(bytes),
            instruction_count,
            function_bodies_count: add_saturating(0, bodies.len()),
            function_bodies_bytes: bodies_bytes,
            binary_signature: sha256_digest(digests.as_slice()),
        }
    }

    /// The figures of the binary `bytes`, the contents of a file: see
    /// [`figures_of`].
    pub fn from_file(bytes: &[u8]) -> (stats: Result<WasmBinaryStats, ExtractError>)
        ensures
            match figures_of(bytes@) {
                Ok(figures) => stats matches Ok(stats) && stats@ == figures,
                Err(error) => stats matches Err(found) && found@ == error,
            },
    {
        let Decoded { items, failure } = module_payloads(bytes);
        let ghost payloads = items@;
        let ghost step = body_adder(bytes@);
        let mut bodies: Vec<Vec<Operator>> = Vec::new();
        let mut bodies_bytes: u64 = 0;
        proof {
            lemma_try_fold_all(payloads, no_bodies(), step);
            assert(body_views(bodies@) =~= Seq::<Seq<Operator>>::empty());
        }
        for payload in iter: items
            invariant
                iter.seq() == payloads,
                payloads == payloads_of(bytes@).items,
                failure == payloads_of(bytes@).failure,
                step == body_adder(bytes@),
                try_fold(payloads.take(iter.index() as int), no_bodies(), step) == Ok::<
                    Bodies,
                    ErrorModel,
                >(Bodies { bodies: body_views(bodies@), bytes: bodies_bytes }),
        {
            let ghost k = iter.index() as int;
            proof {
                lemma_try_fold_next(payloads, k, no_bodies(), step);
            }
            match section_of(payload) {
                Section::CodeEntry { start, end } => {
                    if !(start <= end && end <= bytes.len()) {
                        proof {
                            lemma_try_fold_failure(payloads, k + 1, no_bodies(), step);
                        }
                        return Err(ExtractError::RangeOutsideModule { start, end });
                    }
                    let body_bytes = add_saturating(bodies_bytes, end - start);
                    match decode_operators(start, slice_subrange(bytes, start, end)) {
                        Err(error) => {
                            proof {
                                lemma_try_fold_failure(payloads, k + 1, no_bodies(), step);
                            }
                            return Err(ExtractError::Wasm(error));
                        },
                        Ok(decoded) => {
                            let Decoded { items, failure } = decoded;
                            match failure {
                                Some(error) => {
                                    proof {
                                        lemma_try_fold_failure(payloads, k + 1, no_bodies(), step);
                                    }
                                    return Err(ExtractError::Wasm(error));
                                },
                                None => {
                                    let ghost before = body_views(bodies@);
                                    bodies.push(items);
                                    bodies_bytes = body_bytes;
                                    assert(body_views(bodies@) =~= before.push(items@));
                                },
                            }
                        },
                    }
                },
                _ => {},
            }
        }
        proof {
            lemma_try_fold_all(payloads, no_bodies(), step);
        }
        match failure {
            Some(error) => Err(ExtractError::Wasm(error)),
            None => Ok(WasmBinaryStats::from_bodies(bytes, &bodies, bodies_bytes)),
        }
    }
}

} // verus!
