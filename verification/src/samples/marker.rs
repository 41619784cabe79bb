//! The marker between windows occurs in no rendered text.

use vstd::prelude::*;
use wasmparser::{MemoryImmediate, Operator};
use crate::samples::wasm_repr::{
    full_repr, hash_repr, instructions_text, rendered, subrange_repr, window_adder, window_texts,
    with_window_at, ReprModel,
};
use crate::fold::try_fold;
use crate::text::{decimal, digit_char, hex, hex_byte, signed_decimal};
use crate::wasm::decode::{branch_targets, double_bits, single_bits, vector_bytes};
use crate::wasm::fmt::{
    accesses_local, float_text, instr_text, lanes_text, memarg_text, mnemonic, number_text,
    numbers_text, operand_text, vector_text, word_text, FloatBits, FloatText,
};

verus! {

/// Whether the text holds no `<`.
pub open spec fn plain(text: Seq<char>) -> bool {
    forall|i: int| 0 <= i < text.len() ==> #[trigger] text[i] != '<'
}

/// Whether every `<` of the text is followed by a `p`, as that of `<param>`
/// is.
pub open spec fn marks_params_only(text: Seq<char>) -> bool {
    forall|i: int|
        0 <= i < text.len() && #[trigger] text[i] == '<' ==> i + 1 < text.len() && text[i + 1]
            == 'p'
}

/// Whether the marker that stands between windows occurs in the text.
pub open spec fn holds_window_marker(text: Seq<char>) -> bool {
    exists|i: int| 0 <= i && i + 8 <= text.len() && #[trigger] text.subrange(i, i + 8) == "<window>"@
}

/// Whether no text for a floating-point constant holds a `<`.
pub open spec fn plain_floats(floats: Seq<FloatText>) -> bool {
    forall|k: int| 0 <= k < floats.len() ==> plain(#[trigger] floats[k].text@)
}

/// Whether the marker between windows occurs in no text of a rendering.
pub open spec fn free_of_window_marker(repr: ReprModel) -> bool {
    match repr {
        ReprModel::Hash(_, text) => !holds_window_marker(text),
        ReprModel::Full(_, text) => !holds_window_marker(text),
        ReprModel::Subrange(_, text) => !holds_window_marker(text),
        ReprModel::Windows(_, windows) => forall|k: int|
            0 <= k < windows.len() ==> !holds_window_marker(#[trigger] windows[k]),
    }
}

/// Two texts without `<`, one after the other, hold no `<`.
proof fn lemma_plain_concat(a: Seq<char>, b: Seq<char>)
    requires
        plain(a),
        plain(b),
    ensures
        plain(a + b),
{
}

/// Two texts that mark parameters only do so one after the other.
proof fn lemma_marks_concat(a: Seq<char>, b: Seq<char>)
    requires
        marks_params_only(a),
        marks_params_only(b),
    ensures
        marks_params_only(a + b),
{
    assert forall|i: int| 0 <= i < (a + b).len() && #[trigger] (a + b)[i] == '<' implies i + 1 < (a
        + b).len() && (a + b)[i + 1] == 'p' by {
        if i < a.len() {
            assert(a[i] == '<');
            assert((a + b)[i + 1] == a[i + 1]);
        } else {
            assert(b[i - a.len()] == '<');
            assert((a + b)[i + 1] == b[i + 1 - a.len()]);
        }
    }
}

/// A text that marks parameters only does not hold the marker between
/// windows.
proof fn lemma_no_window_marker(text: Seq<char>)
    requires
        marks_params_only(text),
    ensures
        !holds_window_marker(text),
{
    reveal_strlit("<window>");
    if holds_window_marker(text) {
        let i = choose|i: int|
            0 <= i && i + 8 <= text.len() && #[trigger] text.subrange(i, i + 8) == "<window>"@;
        let marker = text.subrange(i, i + 8);
        assert(marker[0] == text[i]);
        assert(marker[1] == text[i + 1]);
    }
}

/// The digits of a number hold no `<`.
proof fn lemma_decimal_plain(n: nat)
    ensures
        plain(decimal(n)),
    decreases n,
{
    if n >= 10 {
        lemma_decimal_plain(n / 10);
    }
}

/// A blank and a number hold no `<`.
proof fn lemma_number_plain(n: nat)
    ensures
        plain(number_text(n)),
{
    reveal_strlit(" ");
    lemma_decimal_plain(n);
}

/// Numbers after blanks hold no `<`.
proof fn lemma_numbers_plain(numbers: Seq<u32>)
    ensures
        plain(numbers_text(numbers)),
    decreases numbers.len(),
{
    if numbers.len() > 0 {
        lemma_numbers_plain(numbers.drop_last());
        lemma_number_plain(numbers.last() as nat);
    }
}

/// Lane indices after blanks hold no `<`.
proof fn lemma_lanes_plain(lanes: Seq<u8>)
    ensures
        plain(lanes_text(lanes)),
    decreases lanes.len(),
{
    if lanes.len() > 0 {
        lemma_lanes_plain(lanes.drop_last());
        lemma_number_plain(lanes.last() as nat);
    }
}

/// The operands of a memory access hold no `<`.
proof fn lemma_memarg_plain(memarg: MemoryImmediate)
    ensures
        plain(memarg_text(memarg)),
{
    reveal_strlit(" (memory ");
    reveal_strlit(")");
    reveal_strlit(" offset=");
    lemma_decimal_plain(memarg.memory as nat);
    lemma_decimal_plain(memarg.offset as nat);
}

/// One word of a vector constant holds no `<`.
proof fn lemma_word_plain(bytes: Seq<u8>, word: int)
    ensures
        plain(word_text(bytes, word)),
{
    assert(plain(" 0x"@)) by {
        reveal_strlit(" 0x");
    }
    assert(plain(hex_byte(bytes[4 * word + 3])));
    assert(plain(hex_byte(bytes[4 * word + 2])));
    assert(plain(hex_byte(bytes[4 * word + 1])));
    assert(plain(hex_byte(bytes[4 * word])));
}

/// A vector constant holds no `<`.
proof fn lemma_vector_plain(bytes: Seq<u8>)
    ensures
        plain(vector_text(bytes)),
{
    lemma_word_plain(bytes, 0);
    lemma_word_plain(bytes, 1);
    lemma_word_plain(bytes, 2);
    lemma_word_plain(bytes, 3);
}

/// The text for a floating-point constant holds no `<` where none of the
/// texts does.
proof fn lemma_float_plain(floats: Seq<FloatText>, bits: FloatBits)
    requires
        plain_floats(floats),
    ensures
        plain(float_text(floats, bits)),
    decreases floats.len(),
{
    if floats.len() > 0 {
        assert(plain(floats[0].text@));
        assert forall|k: int| 0 <= k < floats.drop_first().len() implies plain(
            #[trigger] floats.drop_first()[k].text@,
        ) by {
            assert(floats.drop_first()[k] == floats[k + 1]);
        }
        lemma_float_plain(floats.drop_first(), bits);
    }
}

/// The hexadecimal digits of a byte string hold no `<`.
proof fn lemma_hex_plain(bytes: Seq<u8>)
    ensures
        plain(hex(bytes)),
    decreases bytes.len(),
{
    if bytes.len() > 0 {
        lemma_hex_plain(bytes.drop_last());
    }
}

/// No mnemonic holds a `<`.
pub proof fn lemma_mnemonic_plain(op: Operator)
    ensures
        plain(mnemonic(op)),
{
    match op {
        Operator::Unreachable => assert(plain("unreachable"@)) by { reveal_strlit("unreachable"); },
        Operator::Nop => assert(plain("nop"@)) by { reveal_strlit("nop"); },
        Operator::Block { .. } => assert(plain("block"@)) by { reveal_strlit("block"); },
        Operator::Loop { .. } => assert(plain("loop"@)) by { reveal_strlit("loop"); },
        Operator::If { .. } => assert(plain("if"@)) by { reveal_strlit("if"); },
        Operator::Else => assert(plain("else"@)) by { reveal_strlit("else"); },
        Operator::Try { .. } => assert(plain("try"@)) by { reveal_strlit("try"); },
        Operator::Catch { .. } => assert(plain("catch"@)) by { reveal_strlit("catch"); },
        Operator::Throw { .. } => assert(plain("throw"@)) by { reveal_strlit("throw"); },
        Operator::Rethrow { .. } => assert(plain("rethrow"@)) by { reveal_strlit("rethrow"); },
        Operator::Unwind => assert(plain("unwind"@)) by { reveal_strlit("unwind"); },
        Operator::End => assert(plain("end"@)) by { reveal_strlit("end"); },
        Operator::Br { .. } => assert(plain("br"@)) by { reveal_strlit("br"); },
        Operator::BrIf { .. } => assert(plain("br_if"@)) by { reveal_strlit("br_if"); },
        Operator::BrTable { .. } => assert(plain("br_table"@)) by { reveal_strlit("br_table"); },
        Operator::Return => assert(plain("return"@)) by { reveal_strlit("return"); },
        Operator::Call { .. } => assert(plain("call"@)) by { reveal_strlit("call"); },
        Operator::CallIndirect { .. } => assert(plain("call_indirect"@)) by { reveal_strlit("call_indirect"); },
        Operator::ReturnCall { .. } => assert(plain("return_call"@)) by { reveal_strlit("return_call"); },
        Operator::ReturnCallIndirect { .. } => assert(plain("return_call_indirect"@)) by { reveal_strlit("return_call_indirect"); },
        Operator::Delegate { .. } => assert(plain("delegate"@)) by { reveal_strlit("delegate"); },
        Operator::CatchAll => assert(plain("catch_all"@)) by { reveal_strlit("catch_all"); },
        Operator::Drop => assert(plain("drop"@)) by { reveal_strlit("drop"); },
        Operator::Select => assert(plain("select"@)) by { reveal_strlit("select"); },
        Operator::TypedSelect { .. } => assert(plain("select"@)) by { reveal_strlit("select"); },
        Operator::LocalGet { .. } => assert(plain("local.get"@)) by { reveal_strlit("local.get"); },
        Operator::LocalSet { .. } => assert(plain("local.set"@)) by { reveal_strlit("local.set"); },
        Operator::LocalTee { .. } => assert(plain("local.tee"@)) by { reveal_strlit("local.tee"); },
        Operator::GlobalGet { .. } => assert(plain("global.get"@)) by { reveal_strlit("global.get"); },
        Operator::GlobalSet { .. } => assert(plain("global.set"@)) by { reveal_strlit("global.set"); },
        Operator::I32Load { .. } => assert(plain("i32.load"@)) by { reveal_strlit("i32.load"); },
        Operator::I64Load { .. } => assert(plain("i64.load"@)) by { reveal_strlit("i64.load"); },
        Operator::F32Load { .. } => assert(plain("f32.load"@)) by { reveal_strlit("f32.load"); },
        Operator::F64Load { .. } => assert(plain("f64.load"@)) by { reveal_strlit("f64.load"); },
        Operator::I32Load8S { .. } => assert(plain("i32.load8_s"@)) by { reveal_strlit("i32.load8_s"); },
        Operator::I32Load8U { .. } => assert(plain("i32.load8_u"@)) by { reveal_strlit("i32.load8_u"); },
        Operator::I32Load16S { .. } => assert(plain("i32.load16_s"@)) by { reveal_strlit("i32.load16_s"); },
        Operator::I32Load16U { .. } => assert(plain("i32.load16_u"@)) by { reveal_strlit("i32.load16_u"); },
        Operator::I64Load8S { .. } => assert(plain("i64.load8_s"@)) by { reveal_strlit("i64.load8_s"); },
        Operator::I64Load8U { .. } => assert(plain("i64.load8_u"@)) by { reveal_strlit("i64.load8_u"); },
        Operator::I64Load16S { .. } => assert(plain("i64.load16_s"@)) by { reveal_strlit("i64.load16_s"); },
        Operator::I64Load16U { .. } => assert(plain("i64.load16_u"@)) by { reveal_strlit("i64.load16_u"); },
        Operator::I64Load32S { .. } => assert(plain("i64.load32_s"@)) by { reveal_strlit("i64.load32_s"); },
        Operator::I64Load32U { .. } => assert(plain("i64.load32_u"@)) by { reveal_strlit("i64.load32_u"); },
        Operator::I32Store { .. } => assert(plain("i32.store"@)) by { reveal_strlit("i32.store"); },
        Operator::I64Store { .. } => assert(plain("i64.store"@)) by { reveal_strlit("i64.store"); },
        Operator::F32Store { .. } => assert(plain("f32.store"@)) by { reveal_strlit("f32.store"); },
        Operator::F64Store { .. } => assert(plain("f64.store"@)) by { reveal_strlit("f64.store"); },
        Operator::I32Store8 { .. } => assert(plain("i32.store8"@)) by { reveal_strlit("i32.store8"); },
        Operator::I32Store16 { .. } => assert(plain("i32.store16"@)) by { reveal_strlit("i32.store16"); },
        Operator::I64Store8 { .. } => assert(plain("i64.store8"@)) by { reveal_strlit("i64.store8"); },
        Operator::I64Store16 { .. } => assert(plain("i64.store16"@)) by { reveal_strlit("i64.store16"); },
        Operator::I64Store32 { .. } => assert(plain("i64.store32"@)) by { reveal_strlit("i64.store32"); },
        Operator::MemorySize { .. } => assert(plain("memory.size"@)) by { reveal_strlit("memory.size"); },
        Operator::MemoryGrow { .. } => assert(plain("memory.grow"@)) by { reveal_strlit("memory.grow"); },
        Operator::I32Const { .. } => assert(plain("i32.const"@)) by { reveal_strlit("i32.const"); },
        Operator::I64Const { .. } => assert(plain("i64.const"@)) by { reveal_strlit("i64.const"); },
        Operator::F32Const { .. } => assert(plain("f32.const"@)) by { reveal_strlit("f32.const"); },
        Operator::F64Const { .. } => assert(plain("f64.const"@)) by { reveal_strlit("f64.const"); },
        Operator::RefNull { .. } => assert(plain("ref.null"@)) by { reveal_strlit("ref.null"); },
        Operator::RefIsNull => assert(plain("ref.is_null"@)) by { reveal_strlit("ref.is_null"); },
        Operator::RefFunc { .. } => assert(plain("ref.func"@)) by { reveal_strlit("ref.func"); },
        Operator::I32Eqz => assert(plain("i32.eqz"@)) by { reveal_strlit("i32.eqz"); },
        Operator::I32Eq => assert(plain("i32.eq"@)) by { reveal_strlit("i32.eq"); },
        Operator::I32Ne => assert(plain("i32.ne"@)) by { reveal_strlit("i32.ne"); },
        Operator::I32LtS => assert(plain("i32.lt_s"@)) by { reveal_strlit("i32.lt_s"); },
        Operator::I32LtU => assert(plain("i32.lt_u"@)) by { reveal_strlit("i32.lt_u"); },
        Operator::I32GtS => assert(plain("i32.gt_s"@)) by { reveal_strlit("i32.gt_s"); },
        Operator::I32GtU => assert(plain("i32.gt_u"@)) by { reveal_strlit("i32.gt_u"); },
        Operator::I32LeS => assert(plain("i32.le_s"@)) by { reveal_strlit("i32.le_s"); },
        Operator::I32LeU => assert(plain("i32.le_u"@)) by { reveal_strlit("i32.le_u"); },
        Operator::I32GeS => assert(plain("i32.ge_s"@)) by { reveal_strlit("i32.ge_s"); },
        Operator::I32GeU => assert(plain("i32.ge_u"@)) by { reveal_strlit("i32.ge_u"); },
        Operator::I64Eqz => assert(plain("i64.eqz"@)) by { reveal_strlit("i64.eqz"); },
        Operator::I64Eq => assert(plain("i64.eq"@)) by { reveal_strlit("i64.eq"); },
        Operator::I64Ne => assert(plain("i64.ne"@)) by { reveal_strlit("i64.ne"); },
        Operator::I64LtS => assert(plain("i64.lt_s"@)) by { reveal_strlit("i64.lt_s"); },
        Operator::I64LtU => assert(plain("i64.lt_u"@)) by { reveal_strlit("i64.lt_u"); },
        Operator::I64GtS => assert(plain("i64.gt_s"@)) by { reveal_strlit("i64.gt_s"); },
        Operator::I64GtU => assert(plain("i64.gt_u"@)) by { reveal_strlit("i64.gt_u"); },
        Operator::I64LeS => assert(plain("i64.le_s"@)) by { reveal_strlit("i64.le_s"); },
        Operator::I64LeU => assert(plain("i64.le_u"@)) by { reveal_strlit("i64.le_u"); },
        Operator::I64GeS => assert(plain("i64.ge_s"@)) by { reveal_strlit("i64.ge_s"); },
        Operator::I64GeU => assert(plain("i64.ge_u"@)) by { reveal_strlit("i64.ge_u"); },
        Operator::F32Eq => assert(plain("f32.eq"@)) by { reveal_strlit("f32.eq"); },
        Operator::F32Ne => assert(plain("f32.ne"@)) by { reveal_strlit("f32.ne"); },
        Operator::F32Lt => assert(plain("f32.lt"@)) by { reveal_strlit("f32.lt"); },
        Operator::F32Gt => assert(plain("f32.gt"@)) by { reveal_strlit("f32.gt"); },
        Operator::F32Le => assert(plain("f32.le"@)) by { reveal_strlit("f32.le"); },
        Operator::F32Ge => assert(plain("f32.ge"@)) by { reveal_strlit("f32.ge"); },
        Operator::F64Eq => assert(plain("f64.eq"@)) by { reveal_strlit("f64.eq"); },
        Operator::F64Ne => assert(plain("f64.ne"@)) by { reveal_strlit("f64.ne"); },
        Operator::F64Lt => assert(plain("f64.lt"@)) by { reveal_strlit("f64.lt"); },
        Operator::F64Gt => assert(plain("f64.gt"@)) by { reveal_strlit("f64.gt"); },
        Operator::F64Le => assert(plain("f64.le"@)) by { reveal_strlit("f64.le"); },
        Operator::F64Ge => assert(plain("f64.ge"@)) by { reveal_strlit("f64.ge"); },
        Operator::I32Clz => assert(plain("i32.clz"@)) by { reveal_strlit("i32.clz"); },
        Operator::I32Ctz => assert(plain("i32.ctz"@)) by { reveal_strlit("i32.ctz"); },
        Operator::I32Popcnt => assert(plain("i32.popcnt"@)) by { reveal_strlit("i32.popcnt"); },
        Operator::I32Add => assert(plain("i32.add"@)) by { reveal_strlit("i32.add"); },
        Operator::I32Sub => assert(plain("i32.sub"@)) by { reveal_strlit("i32.sub"); },
        Operator::I32Mul => assert(plain("i32.mul"@)) by { reveal_strlit("i32.mul"); },
        Operator::I32DivS => assert(plain("i32.div_s"@)) by { reveal_strlit("i32.div_s"); },
        Operator::I32DivU => assert(plain("i32.div_u"@)) by { reveal_strlit("i32.div_u"); },
        Operator::I32RemS => assert(plain("i32.rem_s"@)) by { reveal_strlit("i32.rem_s"); },
        Operator::I32RemU => assert(plain("i32.rem_u"@)) by { reveal_strlit("i32.rem_u"); },
        Operator::I32And => assert(plain("i32.and"@)) by { reveal_strlit("i32.and"); },
        Operator::I32Or => assert(plain("i32.or"@)) by { reveal_strlit("i32.or"); },
        Operator::I32Xor => assert(plain("i32.xor"@)) by { reveal_strlit("i32.xor"); },
        Operator::I32Shl => assert(plain("i32.shl"@)) by { reveal_strlit("i32.shl"); },
        Operator::I32ShrS => assert(plain("i32.shr_s"@)) by { reveal_strlit("i32.shr_s"); },
        Operator::I32ShrU => assert(plain("i32.shr_u"@)) by { reveal_strlit("i32.shr_u"); },
        Operator::I32Rotl => assert(plain("i32.rotl"@)) by { reveal_strlit("i32.rotl"); },
        Operator::I32Rotr => assert(plain("i32.rotr"@)) by { reveal_strlit("i32.rotr"); },
        Operator::I64Clz => assert(plain("i64.clz"@)) by { reveal_strlit("i64.clz"); },
        Operator::I64Ctz => assert(plain("i64.ctz"@)) by { reveal_strlit("i64.ctz"); },
        Operator::I64Popcnt => assert(plain("i64.popcnt"@)) by { reveal_strlit("i64.popcnt"); },
        Operator::I64Add => assert(plain("i64.add"@)) by { reveal_strlit("i64.add"); },
        Operator::I64Sub => assert(plain("i64.sub"@)) by { reveal_strlit("i64.sub"); },
        Operator::I64Mul => assert(plain("i64.mul"@)) by { reveal_strlit("i64.mul"); },
        Operator::I64DivS => assert(plain("i64.div_s"@)) by { reveal_strlit("i64.div_s"); },
        Operator::I64DivU => assert(plain("i64.div_u"@)) by { reveal_strlit("i64.div_u"); },
        Operator::I64RemS => assert(plain("i64.rem_s"@)) by { reveal_strlit("i64.rem_s"); },
        Operator::I64RemU => assert(plain("i64.rem_u"@)) by { reveal_strlit("i64.rem_u"); },
        Operator::I64And => assert(plain("i64.and"@)) by { reveal_strlit("i64.and"); },
        Operator::I64Or => assert(plain("i64.or"@)) by { reveal_strlit("i64.or"); },
        Operator::I64Xor => assert(plain("i64.xor"@)) by { reveal_strlit("i64.xor"); },
        Operator::I64Shl => assert(plain("i64.shl"@)) by { reveal_strlit("i64.shl"); },
        Operator::I64ShrS => assert(plain("i64.shr_s"@)) by { reveal_strlit("i64.shr_s"); },
        Operator::I64ShrU => assert(plain("i64.shr_u"@)) by { reveal_strlit("i64.shr_u"); },
        Operator::I64Rotl => assert(plain("i64.rotl"@)) by { reveal_strlit("i64.rotl"); },
        Operator::I64Rotr => assert(plain("i64.rotr"@)) by { reveal_strlit("i64.rotr"); },
        Operator::F32Abs => assert(plain("f32.abs"@)) by { reveal_strlit("f32.abs"); },
        Operator::F32Neg => assert(plain("f32.neg"@)) by { reveal_strlit("f32.neg"); },
        Operator::F32Ceil => assert(plain("f32.ceil"@)) by { reveal_strlit("f32.ceil"); },
        Operator::F32Floor => assert(plain("f32.floor"@)) by { reveal_strlit("f32.floor"); },
        Operator::F32Trunc => assert(plain("f32.trunc"@)) by { reveal_strlit("f32.trunc"); },
        Operator::F32Nearest => assert(plain("f32.nearest"@)) by { reveal_strlit("f32.nearest"); },
        Operator::F32Sqrt => assert(plain("f32.sqrt"@)) by { reveal_strlit("f32.sqrt"); },
        Operator::F32Add => assert(plain("f32.add"@)) by { reveal_strlit("f32.add"); },
        Operator::F32Sub => assert(plain("f32.sub"@)) by { reveal_strlit("f32.sub"); },
        Operator::F32Mul => assert(plain("f32.mul"@)) by { reveal_strlit("f32.mul"); },
        Operator::F32Div => assert(plain("f32.div"@)) by { reveal_strlit("f32.div"); },
        Operator::F32Min => assert(plain("f32.min"@)) by { reveal_strlit("f32.min"); },
        Operator::F32Max => assert(plain("f32.max"@)) by { reveal_strlit("f32.max"); },
        Operator::F32Copysign => assert(plain("f32.copysign"@)) by { reveal_strlit("f32.copysign"); },
        Operator::F64Abs => assert(plain("f64.abs"@)) by { reveal_strlit("f64.abs"); },
        Operator::F64Neg => assert(plain("f64.neg"@)) by { reveal_strlit("f64.neg"); },
        Operator::F64Ceil => assert(plain("f64.ceil"@)) by { reveal_strlit("f64.ceil"); },
        Operator::F64Floor => assert(plain("f64.floor"@)) by { reveal_strlit("f64.floor"); },
        Operator::F64Trunc => assert(plain("f64.trunc"@)) by { reveal_strlit("f64.trunc"); },
        Operator::F64Nearest => assert(plain("f64.nearest"@)) by { reveal_strlit("f64.nearest"); },
        Operator::F64Sqrt => assert(plain("f64.sqrt"@)) by { reveal_strlit("f64.sqrt"); },
        Operator::F64Add => assert(plain("f64.add"@)) by { reveal_strlit("f64.add"); },
        Operator::F64Sub => assert(plain("f64.sub"@)) by { reveal_strlit("f64.sub"); },
        Operator::F64Mul => assert(plain("f64.mul"@)) by { reveal_strlit("f64.mul"); },
        Operator::F64Div => assert(plain("f64.div"@)) by { reveal_strlit("f64.div"); },
        Operator::F64Min => assert(plain("f64.min"@)) by { reveal_strlit("f64.min"); },
        Operator::F64Max => assert(plain("f64.max"@)) by { reveal_strlit("f64.max"); },
        Operator::F64Copysign => assert(plain("f64.copysign"@)) by { reveal_strlit("f64.copysign"); },
        Operator::I32WrapI64 => assert(plain("i32.wrap_i64"@)) by { reveal_strlit("i32.wrap_i64"); },
        Operator::I32TruncF32S => assert(plain("i32.trunc_f32_s"@)) by { reveal_strlit("i32.trunc_f32_s"); },
        Operator::I32TruncF32U => assert(plain("i32.trunc_f32_u"@)) by { reveal_strlit("i32.trunc_f32_u"); },
        Operator::I32TruncF64S => assert(plain("i32.trunc_f64_s"@)) by { reveal_strlit("i32.trunc_f64_s"); },
        Operator::I32TruncF64U => assert(plain("i32.trunc_f64_u"@)) by { reveal_strlit("i32.trunc_f64_u"); },
        Operator::I64ExtendI32S => assert(plain("i64.extend_i32_s"@)) by { reveal_strlit("i64.extend_i32_s"); },
        Operator::I64ExtendI32U => assert(plain("i64.extend_i32_u"@)) by { reveal_strlit("i64.extend_i32_u"); },
        Operator::I64TruncF32S => assert(plain("i64.trunc_f32_s"@)) by { reveal_strlit("i64.trunc_f32_s"); },
        Operator::I64TruncF32U => assert(plain("i64.trunc_f32_u"@)) by { reveal_strlit("i64.trunc_f32_u"); },
        Operator::I64TruncF64S => assert(plain("i64.trunc_f64_s"@)) by { reveal_strlit("i64.trunc_f64_s"); },
        Operator::I64TruncF64U => assert(plain("i64.trunc_f64_u"@)) by { reveal_strlit("i64.trunc_f64_u"); },
        Operator::F32ConvertI32S => assert(plain("f32.convert_i32_s"@)) by { reveal_strlit("f32.convert_i32_s"); },
        Operator::F32ConvertI32U => assert(plain("f32.convert_i32_u"@)) by { reveal_strlit("f32.convert_i32_u"); },
        Operator::F32ConvertI64S => assert(plain("f32.convert_i64_s"@)) by { reveal_strlit("f32.convert_i64_s"); },
        Operator::F32ConvertI64U => assert(plain("f32.convert_i64_u"@)) by { reveal_strlit("f32.convert_i64_u"); },
        Operator::F32DemoteF64 => assert(plain("f32.demote_f64"@)) by { reveal_strlit("f32.demote_f64"); },
        Operator::F64ConvertI32S => assert(plain("f64.convert_i32_s"@)) by { reveal_strlit("f64.convert_i32_s"); },
        Operator::F64ConvertI32U => assert(plain("f64.convert_i32_u"@)) by { reveal_strlit("f64.convert_i32_u"); },
        Operator::F64ConvertI64S => assert(plain("f64.convert_i64_s"@)) by { reveal_strlit("f64.convert_i64_s"); },
        Operator::F64ConvertI64U => assert(plain("f64.convert_i64_u"@)) by { reveal_strlit("f64.convert_i64_u"); },
        Operator::F64PromoteF32 => assert(plain("f64.promote_f32"@)) by { reveal_strlit("f64.promote_f32"); },
        Operator::I32ReinterpretF32 => assert(plain("i32.reinterpret_f32"@)) by { reveal_strlit("i32.reinterpret_f32"); },
        Operator::I64ReinterpretF64 => assert(plain("i64.reinterpret_f64"@)) by { reveal_strlit("i64.reinterpret_f64"); },
        Operator::F32ReinterpretI32 => assert(plain("f32.reinterpret_i32"@)) by { reveal_strlit("f32.reinterpret_i32"); },
        Operator::F64ReinterpretI64 => assert(plain("f64.reinterpret_i64"@)) by { reveal_strlit("f64.reinterpret_i64"); },
        Operator::I32Extend8S => assert(plain("i32.extend8_s"@)) by { reveal_strlit("i32.extend8_s"); },
        Operator::I32Extend16S => assert(plain("i32.extend16_s"@)) by { reveal_strlit("i32.extend16_s"); },
        Operator::I64Extend8S => assert(plain("i64.extend8_s"@)) by { reveal_strlit("i64.extend8_s"); },
        Operator::I64Extend16S => assert(plain("i64.extend16_s"@)) by { reveal_strlit("i64.extend16_s"); },
        Operator::I64Extend32S => assert(plain("i64.extend32_s"@)) by { reveal_strlit("i64.extend32_s"); },
        Operator::I32TruncSatF32S => assert(plain("i32.trunc_sat_f32_s"@)) by { reveal_strlit("i32.trunc_sat_f32_s"); },
        Operator::I32TruncSatF32U => assert(plain("i32.trunc_sat_f32_u"@)) by { reveal_strlit("i32.trunc_sat_f32_u"); },
        Operator::I32TruncSatF64S => assert(plain("i32.trunc_sat_f64_s"@)) by { reveal_strlit("i32.trunc_sat_f64_s"); },
        Operator::I32TruncSatF64U => assert(plain("i32.trunc_sat_f64_u"@)) by { reveal_strlit("i32.trunc_sat_f64_u"); },
        Operator::I64TruncSatF32S => assert(plain("i64.trunc_sat_f32_s"@)) by { reveal_strlit("i64.trunc_sat_f32_s"); },
        Operator::I64TruncSatF32U => assert(plain("i64.trunc_sat_f32_u"@)) by { reveal_strlit("i64.trunc_sat_f32_u"); },
        Operator::I64TruncSatF64S => assert(plain("i64.trunc_sat_f64_s"@)) by { reveal_strlit("i64.trunc_sat_f64_s"); },
        Operator::I64TruncSatF64U => assert(plain("i64.trunc_sat_f64_u"@)) by { reveal_strlit("i64.trunc_sat_f64_u"); },
        Operator::MemoryInit { .. } => assert(plain("memory.init"@)) by { reveal_strlit("memory.init"); },
        Operator::DataDrop { .. } => assert(plain("data.drop"@)) by { reveal_strlit("data.drop"); },
        Operator::MemoryCopy { .. } => assert(plain("memory.copy"@)) by { reveal_strlit("memory.copy"); },
        Operator::MemoryFill { .. } => assert(plain("memory.fill"@)) by { reveal_strlit("memory.fill"); },
        Operator::TableInit { .. } => assert(plain("table.init"@)) by { reveal_strlit("table.init"); },
        Operator::ElemDrop { .. } => assert(plain("elem.drop"@)) by { reveal_strlit("elem.drop"); },
        Operator::TableCopy { .. } => assert(plain("table.copy"@)) by { reveal_strlit("table.copy"); },
        Operator::TableFill { .. } => assert(plain("table.fill"@)) by { reveal_strlit("table.fill"); },
        Operator::TableGet { .. } => assert(plain("table.get"@)) by { reveal_strlit("table.get"); },
        Operator::TableSet { .. } => assert(plain("table.set"@)) by { reveal_strlit("table.set"); },
        Operator::TableGrow { .. } => assert(plain("table.grow"@)) by { reveal_strlit("table.grow"); },
        Operator::TableSize { .. } => assert(plain("table.size"@)) by { reveal_strlit("table.size"); },
        Operator::MemoryAtomicNotify { .. } => assert(plain("memory.atomic.notify"@)) by { reveal_strlit("memory.atomic.notify"); },
        Operator::MemoryAtomicWait32 { .. } => assert(plain("memory.atomic.wait32"@)) by { reveal_strlit("memory.atomic.wait32"); },
        Operator::MemoryAtomicWait64 { .. } => assert(plain("memory.atomic.wait64"@)) by { reveal_strlit("memory.atomic.wait64"); },
        Operator::AtomicFence { .. } => assert(plain("atomic.fence"@)) by { reveal_strlit("atomic.fence"); },
        Operator::I32AtomicLoad { .. } => assert(plain("i32.atomic.load"@)) by { reveal_strlit("i32.atomic.load"); },
        Operator::I64AtomicLoad { .. } => assert(plain("i64.atomic.load"@)) by { reveal_strlit("i64.atomic.load"); },
        Operator::I32AtomicLoad8U { .. } => assert(plain("i32.atomic.load8_u"@)) by { reveal_strlit("i32.atomic.load8_u"); },
        Operator::I32AtomicLoad16U { .. } => assert(plain("i32.atomic.load16_u"@)) by { reveal_strlit("i32.atomic.load16_u"); },
        Operator::I64AtomicLoad8U { .. } => assert(plain("i64.atomic.load8_u"@)) by { reveal_strlit("i64.atomic.load8_u"); },
        Operator::I64AtomicLoad16U { .. } => assert(plain("i64.atomic.load16_u"@)) by { reveal_strlit("i64.atomic.load16_u"); },
        Operator::I64AtomicLoad32U { .. } => assert(plain("i64.atomic.load32_u"@)) by { reveal_strlit("i64.atomic.load32_u"); },
        Operator::I32AtomicStore { .. } => assert(plain("i32.atomic.store"@)) by { reveal_strlit("i32.atomic.store"); },
        Operator::I64AtomicStore { .. } => assert(plain("i64.atomic.store"@)) by { reveal_strlit("i64.atomic.store"); },
        Operator::I32AtomicStore8 { .. } => assert(plain("i32.atomic.store8"@)) by { reveal_strlit("i32.atomic.store8"); },
        Operator::I32AtomicStore16 { .. } => assert(plain("i32.atomic.store16"@)) by { reveal_strlit("i32.atomic.store16"); },
        Operator::I64AtomicStore8 { .. } => assert(plain("i64.atomic.store8"@)) by { reveal_strlit("i64.atomic.store8"); },
        Operator::I64AtomicStore16 { .. } => assert(plain("i64.atomic.store16"@)) by { reveal_strlit("i64.atomic.store16"); },
        Operator::I64AtomicStore32 { .. } => assert(plain("i64.atomic.store32"@)) by { reveal_strlit("i64.atomic.store32"); },
        Operator::I32AtomicRmwAdd { .. } => assert(plain("i32.atomic.rmw.add"@)) by { reveal_strlit("i32.atomic.rmw.add"); },
        Operator::I64AtomicRmwAdd { .. } => assert(plain("i64.atomic.rmw.add"@)) by { reveal_strlit("i64.atomic.rmw.add"); },
        Operator::I32AtomicRmw8AddU { .. } => assert(plain("i32.atomic.rmw8.add_u"@)) by { reveal_strlit("i32.atomic.rmw8.add_u"); },
        Operator::I32AtomicRmw16AddU { .. } => assert(plain("i32.atomic.rmw16.add_u"@)) by { reveal_strlit("i32.atomic.rmw16.add_u"); },
        Operator::I64AtomicRmw8AddU { .. } => assert(plain("i64.atomic.rmw8.add_u"@)) by { reveal_strlit("i64.atomic.rmw8.add_u"); },
        Operator::I64AtomicRmw16AddU { .. } => assert(plain("i64.atomic.rmw16.add_u"@)) by { reveal_strlit("i64.atomic.rmw16.add_u"); },
        Operator::I64AtomicRmw32AddU { .. } => assert(plain("i64.atomic.rmw32.add_u"@)) by { reveal_strlit("i64.atomic.rmw32.add_u"); },
        Operator::I32AtomicRmwSub { .. } => assert(plain("i32.atomic.rmw.sub"@)) by { reveal_strlit("i32.atomic.rmw.sub"); },
        Operator::I64AtomicRmwSub { .. } => assert(plain("i64.atomic.rmw.sub"@)) by { reveal_strlit("i64.atomic.rmw.sub"); },
        Operator::I32AtomicRmw8SubU { .. } => assert(plain("i32.atomic.rmw8.sub_u"@)) by { reveal_strlit("i32.atomic.rmw8.sub_u"); },
        Operator::I32AtomicRmw16SubU { .. } => assert(plain("i32.atomic.rmw16.sub_u"@)) by { reveal_strlit("i32.atomic.rmw16.sub_u"); },
        Operator::I64AtomicRmw8SubU { .. } => assert(plain("i64.atomic.rmw8.sub_u"@)) by { reveal_strlit("i64.atomic.rmw8.sub_u"); },
        Operator::I64AtomicRmw16SubU { .. } => assert(plain("i64.atomic.rmw16.sub_u"@)) by { reveal_strlit("i64.atomic.rmw16.sub_u"); },
        Operator::I64AtomicRmw32SubU { .. } => assert(plain("i64.atomic.rmw32.sub_u"@)) by { reveal_strlit("i64.atomic.rmw32.sub_u"); },
        Operator::I32AtomicRmwAnd { .. } => assert(plain("i32.atomic.rmw.and"@)) by { reveal_strlit("i32.atomic.rmw.and"); },
        Operator::I64AtomicRmwAnd { .. } => assert(plain("i64.atomic.rmw.and"@)) by { reveal_strlit("i64.atomic.rmw.and"); },
        Operator::I32AtomicRmw8AndU { .. } => assert(plain("i32.atomic.rmw8.and_u"@)) by { reveal_strlit("i32.atomic.rmw8.and_u"); },
        Operator::I32AtomicRmw16AndU { .. } => assert(plain("i32.atomic.rmw16.and_u"@)) by { reveal_strlit("i32.atomic.rmw16.and_u"); },
        Operator::I64AtomicRmw8AndU { .. } => assert(plain("i64.atomic.rmw8.and_u"@)) by { reveal_strlit("i64.atomic.rmw8.and_u"); },
        Operator::I64AtomicRmw16AndU { .. } => assert(plain("i64.atomic.rmw16.and_u"@)) by { reveal_strlit("i64.atomic.rmw16.and_u"); },
        Operator::I64AtomicRmw32AndU { .. } => assert(plain("i64.atomic.rmw32.and_u"@)) by { reveal_strlit("i64.atomic.rmw32.and_u"); },
        Operator::I32AtomicRmwOr { .. } => assert(plain("i32.atomic.rmw.or"@)) by { reveal_strlit("i32.atomic.rmw.or"); },
        Operator::I64AtomicRmwOr { .. } => assert(plain("i64.atomic.rmw.or"@)) by { reveal_strlit("i64.atomic.rmw.or"); },
        Operator::I32AtomicRmw8OrU { .. } => assert(plain("i32.atomic.rmw8.or_u"@)) by { reveal_strlit("i32.atomic.rmw8.or_u"); },
        Operator::I32AtomicRmw16OrU { .. } => assert(plain("i32.atomic.rmw16.or_u"@)) by { reveal_strlit("i32.atomic.rmw16.or_u"); },
        Operator::I64AtomicRmw8OrU { .. } => assert(plain("i64.atomic.rmw8.or_u"@)) by { reveal_strlit("i64.atomic.rmw8.or_u"); },
        Operator::I64AtomicRmw16OrU { .. } => assert(plain("i64.atomic.rmw16.or_u"@)) by { reveal_strlit("i64.atomic.rmw16.or_u"); },
        Operator::I64AtomicRmw32OrU { .. } => assert(plain("i64.atomic.rmw32.or_u"@)) by { reveal_strlit("i64.atomic.rmw32.or_u"); },
        Operator::I32AtomicRmwXor { .. } => assert(plain("i32.atomic.rmw.xor"@)) by { reveal_strlit("i32.atomic.rmw.xor"); },
        Operator::I64AtomicRmwXor { .. } => assert(plain("i64.atomic.rmw.xor"@)) by { reveal_strlit("i64.atomic.rmw.xor"); },
        Operator::I32AtomicRmw8XorU { .. } => assert(plain("i32.atomic.rmw8.xor_u"@)) by { reveal_strlit("i32.atomic.rmw8.xor_u"); },
        Operator::I32AtomicRmw16XorU { .. } => assert(plain("i32.atomic.rmw16.xor_u"@)) by { reveal_strlit("i32.atomic.rmw16.xor_u"); },
        Operator::I64AtomicRmw8XorU { .. } => assert(plain("i64.atomic.rmw8.xor_u"@)) by { reveal_strlit("i64.atomic.rmw8.xor_u"); },
        Operator::I64AtomicRmw16XorU { .. } => assert(plain("i64.atomic.rmw16.xor_u"@)) by { reveal_strlit("i64.atomic.rmw16.xor_u"); },
        Operator::I64AtomicRmw32XorU { .. } => assert(plain("i64.atomic.rmw32.xor_u"@)) by { reveal_strlit("i64.atomic.rmw32.xor_u"); },
        Operator::I32AtomicRmwXchg { .. } => assert(plain("i32.atomic.rmw.xchg"@)) by { reveal_strlit("i32.atomic.rmw.xchg"); },
        Operator::I64AtomicRmwXchg { .. } => assert(plain("i64.atomic.rmw.xchg"@)) by { reveal_strlit("i64.atomic.rmw.xchg"); },
        Operator::I32AtomicRmw8XchgU { .. } => assert(plain("i32.atomic.rmw8.xchg_u"@)) by { reveal_strlit("i32.atomic.rmw8.xchg_u"); },
        Operator::I32AtomicRmw16XchgU { .. } => assert(plain("i32.atomic.rmw16.xchg_u"@)) by { reveal_strlit("i32.atomic.rmw16.xchg_u"); },
        Operator::I64AtomicRmw8XchgU { .. } => assert(plain("i64.atomic.rmw8.xchg_u"@)) by { reveal_strlit("i64.atomic.rmw8.xchg_u"); },
        Operator::I64AtomicRmw16XchgU { .. } => assert(plain("i64.atomic.rmw16.xchg_u"@)) by { reveal_strlit("i64.atomic.rmw16.xchg_u"); },
        Operator::I64AtomicRmw32XchgU { .. } => assert(plain("i64.atomic.rmw32.xchg_u"@)) by { reveal_strlit("i64.atomic.rmw32.xchg_u"); },
        Operator::I32AtomicRmwCmpxchg { .. } => assert(plain("i32.atomic.rmw.cmpxchg"@)) by { reveal_strlit("i32.atomic.rmw.cmpxchg"); },
        Operator::I64AtomicRmwCmpxchg { .. } => assert(plain("i64.atomic.rmw.cmpxchg"@)) by { reveal_strlit("i64.atomic.rmw.cmpxchg"); },
        Operator::I32AtomicRmw8CmpxchgU { .. } => assert(plain("i32.atomic.rmw8.cmpxchg_u"@)) by { reveal_strlit("i32.atomic.rmw8.cmpxchg_u"); },
        Operator::I32AtomicRmw16CmpxchgU { .. } => assert(plain("i32.atomic.rmw16.cmpxchg_u"@)) by { reveal_strlit("i32.atomic.rmw16.cmpxchg_u"); },
        Operator::I64AtomicRmw8CmpxchgU { .. } => assert(plain("i64.atomic.rmw8.cmpxchg_u"@)) by { reveal_strlit("i64.atomic.rmw8.cmpxchg_u"); },
        Operator::I64AtomicRmw16CmpxchgU { .. } => assert(plain("i64.atomic.rmw16.cmpxchg_u"@)) by { reveal_strlit("i64.atomic.rmw16.cmpxchg_u"); },
        Operator::I64AtomicRmw32CmpxchgU { .. } => assert(plain("i64.atomic.rmw32.cmpxchg_u"@)) by { reveal_strlit("i64.atomic.rmw32.cmpxchg_u"); },
        Operator::V128Load { .. } => assert(plain("v128.load"@)) by { reveal_strlit("v128.load"); },
        Operator::V128Load8x8S { .. } => assert(plain("v128.load8x8_s"@)) by { reveal_strlit("v128.load8x8_s"); },
        Operator::V128Load8x8U { .. } => assert(plain("v128.load8x8_u"@)) by { reveal_strlit("v128.load8x8_u"); },
        Operator::V128Load16x4S { .. } => assert(plain("v128.load16x4_s"@)) by { reveal_strlit("v128.load16x4_s"); },
        Operator::V128Load16x4U { .. } => assert(plain("v128.load16x4_u"@)) by { reveal_strlit("v128.load16x4_u"); },
        Operator::V128Load32x2S { .. } => assert(plain("v128.load32x2_s"@)) by { reveal_strlit("v128.load32x2_s"); },
        Operator::V128Load32x2U { .. } => assert(plain("v128.load32x2_u"@)) by { reveal_strlit("v128.load32x2_u"); },
        Operator::V128Load8Splat { .. } => assert(plain("v128.load8_splat"@)) by { reveal_strlit("v128.load8_splat"); },
        Operator::V128Load16Splat { .. } => assert(plain("v128.load16_splat"@)) by { reveal_strlit("v128.load16_splat"); },
        Operator::V128Load32Splat { .. } => assert(plain("v128.load32_splat"@)) by { reveal_strlit("v128.load32_splat"); },
        Operator::V128Load64Splat { .. } => assert(plain("v128.load64_splat"@)) by { reveal_strlit("v128.load64_splat"); },
        Operator::V128Load32Zero { .. } => assert(plain("v128.load32_zero"@)) by { reveal_strlit("v128.load32_zero"); },
        Operator::V128Load64Zero { .. } => assert(plain("v128.load64_zero"@)) by { reveal_strlit("v128.load64_zero"); },
        Operator::V128Store { .. } => assert(plain("v128.store"@)) by { reveal_strlit("v128.store"); },
        Operator::V128Load8Lane { .. } => assert(plain("v128.load8_lane"@)) by { reveal_strlit("v128.load8_lane"); },
        Operator::V128Load16Lane { .. } => assert(plain("v128.load16_lane"@)) by { reveal_strlit("v128.load16_lane"); },
        Operator::V128Load32Lane { .. } => assert(plain("v128.load32_lane"@)) by { reveal_strlit("v128.load32_lane"); },
        Operator::V128Load64Lane { .. } => assert(plain("v128.load64_lane"@)) by { reveal_strlit("v128.load64_lane"); },
        Operator::V128Store8Lane { .. } => assert(plain("v128.store8_lane"@)) by { reveal_strlit("v128.store8_lane"); },
        Operator::V128Store16Lane { .. } => assert(plain("v128.store16_lane"@)) by { reveal_strlit("v128.store16_lane"); },
        Operator::V128Store32Lane { .. } => assert(plain("v128.store32_lane"@)) by { reveal_strlit("v128.store32_lane"); },
        Operator::V128Store64Lane { .. } => assert(plain("v128.store64_lane"@)) by { reveal_strlit("v128.store64_lane"); },
        Operator::V128Const { .. } => assert(plain("v128.const i32x4"@)) by { reveal_strlit("v128.const i32x4"); },
        Operator::I8x16Shuffle { .. } => assert(plain("i8x16.shuffle"@)) by { reveal_strlit("i8x16.shuffle"); },
        Operator::I8x16ExtractLaneS { .. } => assert(plain("i8x16.extract_lane_s"@)) by { reveal_strlit("i8x16.extract_lane_s"); },
        Operator::I8x16ExtractLaneU { .. } => assert(plain("i8x16.extract_lane_u"@)) by { reveal_strlit("i8x16.extract_lane_u"); },
        Operator::I8x16ReplaceLane { .. } => assert(plain("i8x16.replace_lane"@)) by { reveal_strlit("i8x16.replace_lane"); },
        Operator::I16x8ExtractLaneS { .. } => assert(plain("i16x8.extract_lane_s"@)) by { reveal_strlit("i16x8.extract_lane_s"); },
        Operator::I16x8ExtractLaneU { .. } => assert(plain("i16x8.extract_lane_u"@)) by { reveal_strlit("i16x8.extract_lane_u"); },
        Operator::I16x8ReplaceLane { .. } => assert(plain("i16x8.replace_lane"@)) by { reveal_strlit("i16x8.replace_lane"); },
        Operator::I32x4ExtractLane { .. } => assert(plain("i32x4.extract_lane"@)) by { reveal_strlit("i32x4.extract_lane"); },
        Operator::I32x4ReplaceLane { .. } => assert(plain("i32x4.replace_lane"@)) by { reveal_strlit("i32x4.replace_lane"); },
        Operator::I64x2ExtractLane { .. } => assert(plain("i64x2.extract_lane"@)) by { reveal_strlit("i64x2.extract_lane"); },
        Operator::I64x2ReplaceLane { .. } => assert(plain("i64x2.replace_lane"@)) by { reveal_strlit("i64x2.replace_lane"); },
        Operator::F32x4ExtractLane { .. } => assert(plain("f32x4.extract_lane"@)) by { reveal_strlit("f32x4.extract_lane"); },
        Operator::F32x4ReplaceLane { .. } => assert(plain("f32x4.replace_lane"@)) by { reveal_strlit("f32x4.replace_lane"); },
        Operator::F64x2ExtractLane { .. } => assert(plain("f64x2.extract_lane"@)) by { reveal_strlit("f64x2.extract_lane"); },
        Operator::F64x2ReplaceLane { .. } => assert(plain("f64x2.replace_lane"@)) by { reveal_strlit("f64x2.replace_lane"); },
        Operator::I8x16Swizzle => assert(plain("i8x16.swizzle"@)) by { reveal_strlit("i8x16.swizzle"); },
        Operator::I8x16Splat => assert(plain("i8x16.splat"@)) by { reveal_strlit("i8x16.splat"); },
        Operator::I16x8Splat => assert(plain("i16x8.splat"@)) by { reveal_strlit("i16x8.splat"); },
        Operator::I32x4Splat => assert(plain("i32x4.splat"@)) by { reveal_strlit("i32x4.splat"); },
        Operator::I64x2Splat => assert(plain("i64x2.splat"@)) by { reveal_strlit("i64x2.splat"); },
        Operator::F32x4Splat => assert(plain("f32x4.splat"@)) by { reveal_strlit("f32x4.splat"); },
        Operator::F64x2Splat => assert(plain("f64x2.splat"@)) by { reveal_strlit("f64x2.splat"); },
        Operator::I8x16Eq => assert(plain("i8x16.eq"@)) by { reveal_strlit("i8x16.eq"); },
        Operator::I8x16Ne => assert(plain("i8x16.ne"@)) by { reveal_strlit("i8x16.ne"); },
        Operator::I8x16LtS => assert(plain("i8x16.lt_s"@)) by { reveal_strlit("i8x16.lt_s"); },
        Operator::I8x16LtU => assert(plain("i8x16.lt_u"@)) by { reveal_strlit("i8x16.lt_u"); },
        Operator::I8x16GtS => assert(plain("i8x16.gt_s"@)) by { reveal_strlit("i8x16.gt_s"); },
        Operator::I8x16GtU => assert(plain("i8x16.gt_u"@)) by { reveal_strlit("i8x16.gt_u"); },
        Operator::I8x16LeS => assert(plain("i8x16.le_s"@)) by { reveal_strlit("i8x16.le_s"); },
        Operator::I8x16LeU => assert(plain("i8x16.le_u"@)) by { reveal_strlit("i8x16.le_u"); },
        Operator::I8x16GeS => assert(plain("i8x16.ge_s"@)) by { reveal_strlit("i8x16.ge_s"); },
        Operator::I8x16GeU => assert(plain("i8x16.ge_u"@)) by { reveal_strlit("i8x16.ge_u"); },
        Operator::I16x8Eq => assert(plain("i16x8.eq"@)) by { reveal_strlit("i16x8.eq"); },
        Operator::I16x8Ne => assert(plain("i16x8.ne"@)) by { reveal_strlit("i16x8.ne"); },
        Operator::I16x8LtS => assert(plain("i16x8.lt_s"@)) by { reveal_strlit("i16x8.lt_s"); },
        Operator::I16x8LtU => assert(plain("i16x8.lt_u"@)) by { reveal_strlit("i16x8.lt_u"); },
        Operator::I16x8GtS => assert(plain("i16x8.gt_s"@)) by { reveal_strlit("i16x8.gt_s"); },
        Operator::I16x8GtU => assert(plain("i16x8.gt_u"@)) by { reveal_strlit("i16x8.gt_u"); },
        Operator::I16x8LeS => assert(plain("i16x8.le_s"@)) by { reveal_strlit("i16x8.le_s"); },
        Operator::I16x8LeU => assert(plain("i16x8.le_u"@)) by { reveal_strlit("i16x8.le_u"); },
        Operator::I16x8GeS => assert(plain("i16x8.ge_s"@)) by { reveal_strlit("i16x8.ge_s"); },
        Operator::I16x8GeU => assert(plain("i16x8.ge_u"@)) by { reveal_strlit("i16x8.ge_u"); },
        Operator::I32x4Eq => assert(plain("i32x4.eq"@)) by { reveal_strlit("i32x4.eq"); },
        Operator::I32x4Ne => assert(plain("i32x4.ne"@)) by { reveal_strlit("i32x4.ne"); },
        Operator::I32x4LtS => assert(plain("i32x4.lt_s"@)) by { reveal_strlit("i32x4.lt_s"); },
        Operator::I32x4LtU => assert(plain("i32x4.lt_u"@)) by { reveal_strlit("i32x4.lt_u"); },
        Operator::I32x4GtS => assert(plain("i32x4.gt_s"@)) by { reveal_strlit("i32x4.gt_s"); },
        Operator::I32x4GtU => assert(plain("i32x4.gt_u"@)) by { reveal_strlit("i32x4.gt_u"); },
        Operator::I32x4LeS => assert(plain("i32x4.le_s"@)) by { reveal_strlit("i32x4.le_s"); },
        Operator::I32x4LeU => assert(plain("i32x4.le_u"@)) by { reveal_strlit("i32x4.le_u"); },
        Operator::I32x4GeS => assert(plain("i32x4.ge_s"@)) by { reveal_strlit("i32x4.ge_s"); },
        Operator::I32x4GeU => assert(plain("i32x4.ge_u"@)) by { reveal_strlit("i32x4.ge_u"); },
        Operator::I64x2Eq => assert(plain("i64x2.eq"@)) by { reveal_strlit("i64x2.eq"); },
        Operator::I64x2Ne => assert(plain("i64x2.ne"@)) by { reveal_strlit("i64x2.ne"); },
        Operator::I64x2LtS => assert(plain("i64x2.lt_s"@)) by { reveal_strlit("i64x2.lt_s"); },
        Operator::I64x2GtS => assert(plain("i64x2.gt_s"@)) by { reveal_strlit("i64x2.gt_s"); },
        Operator::I64x2LeS => assert(plain("i64x2.le_s"@)) by { reveal_strlit("i64x2.le_s"); },
        Operator::I64x2GeS => assert(plain("i64x2.ge_s"@)) by { reveal_strlit("i64x2.ge_s"); },
        Operator::F32x4Eq => assert(plain("f32x4.eq"@)) by { reveal_strlit("f32x4.eq"); },
        Operator::F32x4Ne => assert(plain("f32x4.ne"@)) by { reveal_strlit("f32x4.ne"); },
        Operator::F32x4Lt => assert(plain("f32x4.lt"@)) by { reveal_strlit("f32x4.lt"); },
        Operator::F32x4Gt => assert(plain("f32x4.gt"@)) by { reveal_strlit("f32x4.gt"); },
        Operator::F32x4Le => assert(plain("f32x4.le"@)) by { reveal_strlit("f32x4.le"); },
        Operator::F32x4Ge => assert(plain("f32x4.ge"@)) by { reveal_strlit("f32x4.ge"); },
        Operator::F64x2Eq => assert(plain("f64x2.eq"@)) by { reveal_strlit("f64x2.eq"); },
        Operator::F64x2Ne => assert(plain("f64x2.ne"@)) by { reveal_strlit("f64x2.ne"); },
        Operator::F64x2Lt => assert(plain("f64x2.lt"@)) by { reveal_strlit("f64x2.lt"); },
        Operator::F64x2Gt => assert(plain("f64x2.gt"@)) by { reveal_strlit("f64x2.gt"); },
        Operator::F64x2Le => assert(plain("f64x2.le"@)) by { reveal_strlit("f64x2.le"); },
        Operator::F64x2Ge => assert(plain("f64x2.ge"@)) by { reveal_strlit("f64x2.ge"); },
        Operator::V128Not => assert(plain("v128.not"@)) by { reveal_strlit("v128.not"); },
        Operator::V128And => assert(plain("v128.and"@)) by { reveal_strlit("v128.and"); },
        Operator::V128AndNot => assert(plain("v128.andnot"@)) by { reveal_strlit("v128.andnot"); },
        Operator::V128Or => assert(plain("v128.or"@)) by { reveal_strlit("v128.or"); },
        Operator::V128Xor => assert(plain("v128.xor"@)) by { reveal_strlit("v128.xor"); },
        Operator::V128Bitselect => assert(plain("v128.bitselect"@)) by { reveal_strlit("v128.bitselect"); },
        Operator::V128AnyTrue => assert(plain("v128.any_true"@)) by { reveal_strlit("v128.any_true"); },
        Operator::I8x16Abs => assert(plain("i8x16.abs"@)) by { reveal_strlit("i8x16.abs"); },
        Operator::I8x16Neg => assert(plain("i8x16.neg"@)) by { reveal_strlit("i8x16.neg"); },
        Operator::I8x16Popcnt => assert(plain("i8x16.popcnt"@)) by { reveal_strlit("i8x16.popcnt"); },
        Operator::I8x16AllTrue => assert(plain("i8x16.all_true"@)) by { reveal_strlit("i8x16.all_true"); },
        Operator::I8x16Bitmask => assert(plain("i8x16.bitmask"@)) by { reveal_strlit("i8x16.bitmask"); },
        Operator::I8x16NarrowI16x8S => assert(plain("i8x16.narrow_i16x8_s"@)) by { reveal_strlit("i8x16.narrow_i16x8_s"); },
        Operator::I8x16NarrowI16x8U => assert(plain("i8x16.narrow_i16x8_u"@)) by { reveal_strlit("i8x16.narrow_i16x8_u"); },
        Operator::I8x16Shl => assert(plain("i8x16.shl"@)) by { reveal_strlit("i8x16.shl"); },
        Operator::I8x16ShrS => assert(plain("i8x16.shr_s"@)) by { reveal_strlit("i8x16.shr_s"); },
        Operator::I8x16ShrU => assert(plain("i8x16.shr_u"@)) by { reveal_strlit("i8x16.shr_u"); },
        Operator::I8x16Add => assert(plain("i8x16.add"@)) by { reveal_strlit("i8x16.add"); },
        Operator::I8x16AddSatS => assert(plain("i8x16.add_sat_s"@)) by { reveal_strlit("i8x16.add_sat_s"); },
        Operator::I8x16AddSatU => assert(plain("i8x16.add_sat_u"@)) by { reveal_strlit("i8x16.add_sat_u"); },
        Operator::I8x16Sub => assert(plain("i8x16.sub"@)) by { reveal_strlit("i8x16.sub"); },
        Operator::I8x16SubSatS => assert(plain("i8x16.sub_sat_s"@)) by { reveal_strlit("i8x16.sub_sat_s"); },
        Operator::I8x16SubSatU => assert(plain("i8x16.sub_sat_u"@)) by { reveal_strlit("i8x16.sub_sat_u"); },
        Operator::I8x16MinS => assert(plain("i8x16.min_s"@)) by { reveal_strlit("i8x16.min_s"); },
        Operator::I8x16MinU => assert(plain("i8x16.min_u"@)) by { reveal_strlit("i8x16.min_u"); },
        Operator::I8x16MaxS => assert(plain("i8x16.max_s"@)) by { reveal_strlit("i8x16.max_s"); },
        Operator::I8x16MaxU => assert(plain("i8x16.max_u"@)) by { reveal_strlit("i8x16.max_u"); },
        Operator::I8x16RoundingAverageU => assert(plain("i8x16.avgr_u"@)) by { reveal_strlit("i8x16.avgr_u"); },
        Operator::I16x8ExtAddPairwiseI8x16S => assert(plain("i16x8.extadd_pairwise_i8x16_s"@)) by { reveal_strlit("i16x8.extadd_pairwise_i8x16_s"); },
        Operator::I16x8ExtAddPairwiseI8x16U => assert(plain("i16x8.extadd_pairwise_i8x16_u"@)) by { reveal_strlit("i16x8.extadd_pairwise_i8x16_u"); },
        Operator::I16x8Abs => assert(plain("i16x8.abs"@)) by { reveal_strlit("i16x8.abs"); },
        Operator::I16x8Neg => assert(plain("i16x8.neg"@)) by { reveal_strlit("i16x8.neg"); },
        Operator::I16x8Q15MulrSatS => assert(plain("i16x8.q15mulr_sat_s"@)) by { reveal_strlit("i16x8.q15mulr_sat_s"); },
        Operator::I16x8AllTrue => assert(plain("i16x8.all_true"@)) by { reveal_strlit("i16x8.all_true"); },
        Operator::I16x8Bitmask => assert(plain("i16x8.bitmask"@)) by { reveal_strlit("i16x8.bitmask"); },
        Operator::I16x8NarrowI32x4S => assert(plain("i16x8.narrow_i32x4_s"@)) by { reveal_strlit("i16x8.narrow_i32x4_s"); },
        Operator::I16x8NarrowI32x4U => assert(plain("i16x8.narrow_i32x4_u"@)) by { reveal_strlit("i16x8.narrow_i32x4_u"); },
        Operator::I16x8ExtendLowI8x16S => assert(plain("i16x8.widen_low_i8x16_s"@)) by { reveal_strlit("i16x8.widen_low_i8x16_s"); },
        Operator::I16x8ExtendHighI8x16S => assert(plain("i16x8.widen_high_i8x16_s"@)) by { reveal_strlit("i16x8.widen_high_i8x16_s"); },
        Operator::I16x8ExtendLowI8x16U => assert(plain("i16x8.widen_low_i8x16_u"@)) by { reveal_strlit("i16x8.widen_low_i8x16_u"); },
        Operator::I16x8ExtendHighI8x16U => assert(plain("i16x8.widen_high_i8x16_u"@)) by { reveal_strlit("i16x8.widen_high_i8x16_u"); },
        Operator::I16x8Shl => assert(plain("i16x8.shl"@)) by { reveal_strlit("i16x8.shl"); },
        Operator::I16x8ShrS => assert(plain("i16x8.shr_s"@)) by { reveal_strlit("i16x8.shr_s"); },
        Operator::I16x8ShrU => assert(plain("i16x8.shr_u"@)) by { reveal_strlit("i16x8.shr_u"); },
        Operator::I16x8Add => assert(plain("i16x8.add"@)) by { reveal_strlit("i16x8.add"); },
        Operator::I16x8AddSatS => assert(plain("i16x8.add_sat_s"@)) by { reveal_strlit("i16x8.add_sat_s"); },
        Operator::I16x8AddSatU => assert(plain("i16x8.add_sat_u"@)) by { reveal_strlit("i16x8.add_sat_u"); },
        Operator::I16x8Sub => assert(plain("i16x8.sub"@)) by { reveal_strlit("i16x8.sub"); },
        Operator::I16x8SubSatS => assert(plain("i16x8.sub_sat_s"@)) by { reveal_strlit("i16x8.sub_sat_s"); },
        Operator::I16x8SubSatU => assert(plain("i16x8.sub_sat_u"@)) by { reveal_strlit("i16x8.sub_sat_u"); },
        Operator::I16x8Mul => assert(plain("i16x8.mul"@)) by { reveal_strlit("i16x8.mul"); },
        Operator::I16x8MinS => assert(plain("i16x8.min_s"@)) by { reveal_strlit("i16x8.min_s"); },
        Operator::I16x8MinU => assert(plain("i16x8.min_u"@)) by { reveal_strlit("i16x8.min_u"); },
        Operator::I16x8MaxS => assert(plain("i16x8.max_s"@)) by { reveal_strlit("i16x8.max_s"); },
        Operator::I16x8MaxU => assert(plain("i16x8.max_u"@)) by { reveal_strlit("i16x8.max_u"); },
        Operator::I16x8RoundingAverageU => assert(plain("i16x8.avgr_u"@)) by { reveal_strlit("i16x8.avgr_u"); },
        Operator::I16x8ExtMulLowI8x16S => assert(plain("i16x8.extmul_low_i8x16_s"@)) by { reveal_strlit("i16x8.extmul_low_i8x16_s"); },
        Operator::I16x8ExtMulHighI8x16S => assert(plain("i16x8.extmul_high_i8x16_s"@)) by { reveal_strlit("i16x8.extmul_high_i8x16_s"); },
        Operator::I16x8ExtMulLowI8x16U => assert(plain("i16x8.extmul_low_i8x16_u"@)) by { reveal_strlit("i16x8.extmul_low_i8x16_u"); },
        Operator::I16x8ExtMulHighI8x16U => assert(plain("i16x8.extmul_high_i8x16_u"@)) by { reveal_strlit("i16x8.extmul_high_i8x16_u"); },
        Operator::I32x4ExtAddPairwiseI16x8S => assert(plain("i32x4.extadd_pairwise_i16x8_s"@)) by { reveal_strlit("i32x4.extadd_pairwise_i16x8_s"); },
        Operator::I32x4ExtAddPairwiseI16x8U => assert(plain("i32x4.extadd_pairwise_i16x8_u"@)) by { reveal_strlit("i32x4.extadd_pairwise_i16x8_u"); },
        Operator::I32x4Abs => assert(plain("i32x4.abs"@)) by { reveal_strlit("i32x4.abs"); },
        Operator::I32x4Neg => assert(plain("i32x4.neg"@)) by { reveal_strlit("i32x4.neg"); },
        Operator::I32x4AllTrue => assert(plain("i32x4.all_true"@)) by { reveal_strlit("i32x4.all_true"); },
        Operator::I32x4Bitmask => assert(plain("i32x4.bitmask"@)) by { reveal_strlit("i32x4.bitmask"); },
        Operator::I32x4ExtendLowI16x8S => assert(plain("i32x4.widen_low_i16x8_s"@)) by { reveal_strlit("i32x4.widen_low_i16x8_s"); },
        Operator::I32x4ExtendHighI16x8S => assert(plain("i32x4.widen_high_i16x8_s"@)) by { reveal_strlit("i32x4.widen_high_i16x8_s"); },
        Operator::I32x4ExtendLowI16x8U => assert(plain("i32x4.widen_low_i16x8_u"@)) by { reveal_strlit("i32x4.widen_low_i16x8_u"); },
        Operator::I32x4ExtendHighI16x8U => assert(plain("i32x4.widen_high_i16x8_u"@)) by { reveal_strlit("i32x4.widen_high_i16x8_u"); },
        Operator::I32x4Shl => assert(plain("i32x4.shl"@)) by { reveal_strlit("i32x4.shl"); },
        Operator::I32x4ShrS => assert(plain("i32x4.shr_s"@)) by { reveal_strlit("i32x4.shr_s"); },
        Operator::I32x4ShrU => assert(plain("i32x4.shr_u"@)) by { reveal_strlit("i32x4.shr_u"); },
        Operator::I32x4Add => assert(plain("i32x4.add"@)) by { reveal_strlit("i32x4.add"); },
        Operator::I32x4Sub => assert(plain("i32x4.sub"@)) by { reveal_strlit("i32x4.sub"); },
        Operator::I32x4Mul => assert(plain("i32x4.mul"@)) by { reveal_strlit("i32x4.mul"); },
        Operator::I32x4MinS => assert(plain("i32x4.min_s"@)) by { reveal_strlit("i32x4.min_s"); },
        Operator::I32x4MinU => assert(plain("i32x4.min_u"@)) by { reveal_strlit("i32x4.min_u"); },
        Operator::I32x4MaxS => assert(plain("i32x4.max_s"@)) by { reveal_strlit("i32x4.max_s"); },
        Operator::I32x4MaxU => assert(plain("i32x4.max_u"@)) by { reveal_strlit("i32x4.max_u"); },
        Operator::I32x4DotI16x8S => assert(plain("i32x4.dot_i16x8_s"@)) by { reveal_strlit("i32x4.dot_i16x8_s"); },
        Operator::I32x4ExtMulLowI16x8S => assert(plain("i32x4.extmul_low_i16x8_s"@)) by { reveal_strlit("i32x4.extmul_low_i16x8_s"); },
        Operator::I32x4ExtMulHighI16x8S => assert(plain("i32x4.extmul_high_i16x8_s"@)) by { reveal_strlit("i32x4.extmul_high_i16x8_s"); },
        Operator::I32x4ExtMulLowI16x8U => assert(plain("i32x4.extmul_low_i16x8_u"@)) by { reveal_strlit("i32x4.extmul_low_i16x8_u"); },
        Operator::I32x4ExtMulHighI16x8U => assert(plain("i32x4.extmul_high_i16x8_u"@)) by { reveal_strlit("i32x4.extmul_high_i16x8_u"); },
        Operator::I64x2Abs => assert(plain("i64x2.abs"@)) by { reveal_strlit("i64x2.abs"); },
        Operator::I64x2Neg => assert(plain("i64x2.neg"@)) by { reveal_strlit("i64x2.neg"); },
        Operator::I64x2AllTrue => assert(plain("i64x2.all_true"@)) by { reveal_strlit("i64x2.all_true"); },
        Operator::I64x2Bitmask => assert(plain("i64x2.bitmask"@)) by { reveal_strlit("i64x2.bitmask"); },
        Operator::I64x2ExtendLowI32x4S => assert(plain("i64x2.widen_low_i32x4_s"@)) by { reveal_strlit("i64x2.widen_low_i32x4_s"); },
        Operator::I64x2ExtendHighI32x4S => assert(plain("i64x2.widen_high_i32x4_s"@)) by { reveal_strlit("i64x2.widen_high_i32x4_s"); },
        Operator::I64x2ExtendLowI32x4U => assert(plain("i64x2.widen_low_i32x4_u"@)) by { reveal_strlit("i64x2.widen_low_i32x4_u"); },
        Operator::I64x2ExtendHighI32x4U => assert(plain("i64x2.widen_high_i32x4_u"@)) by { reveal_strlit("i64x2.widen_high_i32x4_u"); },
        Operator::I64x2Shl => assert(plain("i64x2.shl"@)) by { reveal_strlit("i64x2.shl"); },
        Operator::I64x2ShrS => assert(plain("i64x2.shr_s"@)) by { reveal_strlit("i64x2.shr_s"); },
        Operator::I64x2ShrU => assert(plain("i64x2.shr_u"@)) by { reveal_strlit("i64x2.shr_u"); },
        Operator::I64x2Add => assert(plain("i64x2.add"@)) by { reveal_strlit("i64x2.add"); },
        Operator::I64x2Sub => assert(plain("i64x2.sub"@)) by { reveal_strlit("i64x2.sub"); },
        Operator::I64x2Mul => assert(plain("i64x2.mul"@)) by { reveal_strlit("i64x2.mul"); },
        Operator::I64x2ExtMulLowI32x4S => assert(plain("i64x2.extmul_low_i32x4_s"@)) by { reveal_strlit("i64x2.extmul_low_i32x4_s"); },
        Operator::I64x2ExtMulHighI32x4S => assert(plain("i64x2.extmul_high_i32x4_s"@)) by { reveal_strlit("i64x2.extmul_high_i32x4_s"); },
        Operator::I64x2ExtMulLowI32x4U => assert(plain("i64x2.extmul_low_i32x4_u"@)) by { reveal_strlit("i64x2.extmul_low_i32x4_u"); },
        Operator::I64x2ExtMulHighI32x4U => assert(plain("i64x2.extmul_high_i32x4_u"@)) by { reveal_strlit("i64x2.extmul_high_i32x4_u"); },
        Operator::F32x4Ceil => assert(plain("f32x4.ceil"@)) by { reveal_strlit("f32x4.ceil"); },
        Operator::F32x4Floor => assert(plain("f32x4.floor"@)) by { reveal_strlit("f32x4.floor"); },
        Operator::F32x4Trunc => assert(plain("f32x4.trunc"@)) by { reveal_strlit("f32x4.trunc"); },
        Operator::F32x4Nearest => assert(plain("f32x4.nearest"@)) by { reveal_strlit("f32x4.nearest"); },
        Operator::F32x4Abs => assert(plain("f32x4.abs"@)) by { reveal_strlit("f32x4.abs"); },
        Operator::F32x4Neg => assert(plain("f32x4.neg"@)) by { reveal_strlit("f32x4.neg"); },
        Operator::F32x4Sqrt => assert(plain("f32x4.sqrt"@)) by { reveal_strlit("f32x4.sqrt"); },
        Operator::F32x4Add => assert(plain("f32x4.add"@)) by { reveal_strlit("f32x4.add"); },
        Operator::F32x4Sub => assert(plain("f32x4.sub"@)) by { reveal_strlit("f32x4.sub"); },
        Operator::F32x4Mul => assert(plain("f32x4.mul"@)) by { reveal_strlit("f32x4.mul"); },
        Operator::F32x4Div => assert(plain("f32x4.div"@)) by { reveal_strlit("f32x4.div"); },
        Operator::F32x4Min => assert(plain("f32x4.min"@)) by { reveal_strlit("f32x4.min"); },
        Operator::F32x4Max => assert(plain("f32x4.max"@)) by { reveal_strlit("f32x4.max"); },
        Operator::F32x4PMin => assert(plain("f32x4.pmin"@)) by { reveal_strlit("f32x4.pmin"); },
        Operator::F32x4PMax => assert(plain("f32x4.pmax"@)) by { reveal_strlit("f32x4.pmax"); },
        Operator::F64x2Ceil => assert(plain("f64x2.ceil"@)) by { reveal_strlit("f64x2.ceil"); },
        Operator::F64x2Floor => assert(plain("f64x2.floor"@)) by { reveal_strlit("f64x2.floor"); },
        Operator::F64x2Trunc => assert(plain("f64x2.trunc"@)) by { reveal_strlit("f64x2.trunc"); },
        Operator::F64x2Nearest => assert(plain("f64x2.nearest"@)) by { reveal_strlit("f64x2.nearest"); },
        Operator::F64x2Abs => assert(plain("f64x2.abs"@)) by { reveal_strlit("f64x2.abs"); },
        Operator::F64x2Neg => assert(plain("f64x2.neg"@)) by { reveal_strlit("f64x2.neg"); },
        Operator::F64x2Sqrt => assert(plain("f64x2.sqrt"@)) by { reveal_strlit("f64x2.sqrt"); },
        Operator::F64x2Add => assert(plain("f64x2.add"@)) by { reveal_strlit("f64x2.add"); },
        Operator::F64x2Sub => assert(plain("f64x2.sub"@)) by { reveal_strlit("f64x2.sub"); },
        Operator::F64x2Mul => assert(plain("f64x2.mul"@)) by { reveal_strlit("f64x2.mul"); },
        Operator::F64x2Div => assert(plain("f64x2.div"@)) by { reveal_strlit("f64x2.div"); },
        Operator::F64x2Min => assert(plain("f64x2.min"@)) by { reveal_strlit("f64x2.min"); },
        Operator::F64x2Max => assert(plain("f64x2.max"@)) by { reveal_strlit("f64x2.max"); },
        Operator::F64x2PMin => assert(plain("f64x2.pmin"@)) by { reveal_strlit("f64x2.pmin"); },
        Operator::F64x2PMax => assert(plain("f64x2.pmax"@)) by { reveal_strlit("f64x2.pmax"); },
        Operator::I32x4TruncSatF32x4S => assert(plain("i32x4.trunc_sat_f32x4_s"@)) by { reveal_strlit("i32x4.trunc_sat_f32x4_s"); },
        Operator::I32x4TruncSatF32x4U => assert(plain("i32x4.trunc_sat_f32x4_u"@)) by { reveal_strlit("i32x4.trunc_sat_f32x4_u"); },
        Operator::F32x4ConvertI32x4S => assert(plain("f32x4.convert_i32x4_s"@)) by { reveal_strlit("f32x4.convert_i32x4_s"); },
        Operator::F32x4ConvertI32x4U => assert(plain("f32x4.convert_i32x4_u"@)) by { reveal_strlit("f32x4.convert_i32x4_u"); },
        Operator::I32x4TruncSatF64x2SZero => assert(plain("i32x4.trunc_sat_f64x2_s_zero"@)) by { reveal_strlit("i32x4.trunc_sat_f64x2_s_zero"); },
        Operator::I32x4TruncSatF64x2UZero => assert(plain("i32x4.trunc_sat_f64x2_u_zero"@)) by { reveal_strlit("i32x4.trunc_sat_f64x2_u_zero"); },
        Operator::F64x2ConvertLowI32x4S => assert(plain("f64x2.convert_low_i32x4_s"@)) by { reveal_strlit("f64x2.convert_low_i32x4_s"); },
        Operator::F64x2ConvertLowI32x4U => assert(plain("f64x2.convert_low_i32x4_u"@)) by { reveal_strlit("f64x2.convert_low_i32x4_u"); },
        Operator::F32x4DemoteF64x2Zero => assert(plain("f32x4.demote_f64x2_zero"@)) by { reveal_strlit("f32x4.demote_f64x2_zero"); },
        Operator::F64x2PromoteLowF32x4 => assert(plain("f64x2.promote_low_f32x4"@)) by { reveal_strlit("f64x2.promote_low_f32x4"); },
    }
}

/// The operands of an instruction hold no `<` where no text for a
/// floating-point constant does.
pub proof fn lemma_operands_plain(op: Operator, floats: Seq<FloatText>)
    requires
        plain_floats(floats),
    ensures
        plain(operand_text(op, floats)),
{
    reveal_strlit(" ");
    match op {
        Operator::Rethrow { relative_depth }
        | Operator::Br { relative_depth }
        | Operator::BrIf { relative_depth } => {
            lemma_number_plain(relative_depth as nat);
        },
        Operator::BrTable { table } => {
            match branch_targets(table) {
                Ok(targets) => {
                    lemma_numbers_plain(targets);
                },
                Err(_) => {},
            }
        },
        Operator::LocalGet { local_index }
        | Operator::LocalSet { local_index }
        | Operator::LocalTee { local_index } => {
            lemma_number_plain(local_index as nat);
        },
        Operator::GlobalGet { global_index } | Operator::GlobalSet { global_index } => {
            lemma_number_plain(global_index as nat);
        },
        Operator::MemorySize { mem, .. } | Operator::MemoryGrow { mem, .. } => {
            lemma_number_plain(mem as nat);
        },
        Operator::I32Const { value } => {
            lemma_decimal_plain((-(value as int)) as nat);
            lemma_decimal_plain(value as nat);
        },
        Operator::I64Const { value } => {
            lemma_decimal_plain((-(value as int)) as nat);
            lemma_decimal_plain(value as nat);
        },
        Operator::F32Const { value } => {
            lemma_float_plain(floats, FloatBits::Single(single_bits(value)));
        },
        Operator::F64Const { value } => {
            lemma_float_plain(floats, FloatBits::Double(double_bits(value)));
        },
        Operator::MemoryInit { segment, mem } => {
            lemma_number_plain(segment as nat);
            lemma_number_plain(mem as nat);
        },
        Operator::DataDrop { segment } => {
            lemma_number_plain(segment as nat);
        },
        Operator::MemoryCopy { src, dst } => {
            lemma_number_plain(src as nat);
            lemma_number_plain(dst as nat);
        },
        Operator::MemoryFill { mem } => {
            lemma_number_plain(mem as nat);
        },
        Operator::TableInit { segment, table } => {
            lemma_number_plain(table as nat);
            lemma_number_plain(segment as nat);
        },
        Operator::ElemDrop { segment } => {
            lemma_number_plain(segment as nat);
        },
        Operator::TableCopy { dst_table, src_table } => {
            lemma_number_plain(src_table as nat);
            lemma_number_plain(dst_table as nat);
        },
        Operator::TableGet { table }
        | Operator::TableSet { table }
        | Operator::TableGrow { table }
        | Operator::TableSize { table }
        | Operator::TableFill { table } => {
            lemma_number_plain(table as nat);
        },
        Operator::I32Load { memarg }
        | Operator::I64Load { memarg }
        | Operator::F32Load { memarg }
        | Operator::F64Load { memarg }
        | Operator::I32Load8S { memarg }
        | Operator::I32Load8U { memarg }
        | Operator::I32Load16S { memarg }
        | Operator::I32Load16U { memarg }
        | Operator::I64Load8S { memarg }
        | Operator::I64Load8U { memarg }
        | Operator::I64Load16S { memarg }
        | Operator::I64Load16U { memarg }
        | Operator::I64Load32S { memarg }
        | Operator::I64Load32U { memarg }
        | Operator::I32Store { memarg }
        | Operator::I64Store { memarg }
        | Operator::F32Store { memarg }
        | Operator::F64Store { memarg }
        | Operator::I32Store8 { memarg }
        | Operator::I32Store16 { memarg }
        | Operator::I64Store8 { memarg }
        | Operator::I64Store16 { memarg }
        | Operator::I64Store32 { memarg }
        | Operator::MemoryAtomicNotify { memarg }
        | Operator::MemoryAtomicWait32 { memarg }
        | Operator::MemoryAtomicWait64 { memarg }
        | Operator::I32AtomicLoad { memarg }
        | Operator::I64AtomicLoad { memarg }
        | Operator::I32AtomicLoad8U { memarg }
        | Operator::I32AtomicLoad16U { memarg }
        | Operator::I64AtomicLoad8U { memarg }
        | Operator::I64AtomicLoad16U { memarg }
        | Operator::I64AtomicLoad32U { memarg }
        | Operator::I32AtomicStore { memarg }
        | Operator::I64AtomicStore { memarg }
        | Operator::I32AtomicStore8 { memarg }
        | Operator::I32AtomicStore16 { memarg }
        | Operator::I64AtomicStore8 { memarg }
        | Operator::I64AtomicStore16 { memarg }
        | Operator::I64AtomicStore32 { memarg }
        | Operator::I32AtomicRmwAdd { memarg }
        | Operator::I64AtomicRmwAdd { memarg }
        | Operator::I32AtomicRmw8AddU { memarg }
        | Operator::I32AtomicRmw16AddU { memarg }
        | Operator::I64AtomicRmw8AddU { memarg }
        | Operator::I64AtomicRmw16AddU { memarg }
        | Operator::I64AtomicRmw32AddU { memarg }
        | Operator::I32AtomicRmwSub { memarg }
        | Operator::I64AtomicRmwSub { memarg }
        | Operator::I32AtomicRmw8SubU { memarg }
        | Operator::I32AtomicRmw16SubU { memarg }
        | Operator::I64AtomicRmw8SubU { memarg }
        | Operator::I64AtomicRmw16SubU { memarg }
        | Operator::I64AtomicRmw32SubU { memarg }
        | Operator::I32AtomicRmwAnd { memarg }
        | Operator::I64AtomicRmwAnd { memarg }
        | Operator::I32AtomicRmw8AndU { memarg }
        | Operator::I32AtomicRmw16AndU { memarg }
        | Operator::I64AtomicRmw8AndU { memarg }
        | Operator::I64AtomicRmw16AndU { memarg }
        | Operator::I64AtomicRmw32AndU { memarg }
        | Operator::I32AtomicRmwOr { memarg }
        | Operator::I64AtomicRmwOr { memarg }
        | Operator::I32AtomicRmw8OrU { memarg }
        | Operator::I32AtomicRmw16OrU { memarg }
        | Operator::I64AtomicRmw8OrU { memarg }
        | Operator::I64AtomicRmw16OrU { memarg }
        | Operator::I64AtomicRmw32OrU { memarg }
        | Operator::I32AtomicRmwXor { memarg }
        | Operator::I64AtomicRmwXor { memarg }
        | Operator::I32AtomicRmw8XorU { memarg }
        | Operator::I32AtomicRmw16XorU { memarg }
        | Operator::I64AtomicRmw8XorU { memarg }
        | Operator::I64AtomicRmw16XorU { memarg }
        | Operator::I64AtomicRmw32XorU { memarg }
        | Operator::I32AtomicRmwXchg { memarg }
        | Operator::I64AtomicRmwXchg { memarg }
        | Operator::I32AtomicRmw8XchgU { memarg }
        | Operator::I32AtomicRmw16XchgU { memarg }
        | Operator::I64AtomicRmw8XchgU { memarg }
        | Operator::I64AtomicRmw16XchgU { memarg }
        | Operator::I64AtomicRmw32XchgU { memarg }
        | Operator::I32AtomicRmwCmpxchg { memarg }
        | Operator::I64AtomicRmwCmpxchg { memarg }
        | Operator::I32AtomicRmw8CmpxchgU { memarg }
        | Operator::I32AtomicRmw16CmpxchgU { memarg }
        | Operator::I64AtomicRmw8CmpxchgU { memarg }
        | Operator::I64AtomicRmw16CmpxchgU { memarg }
        | Operator::I64AtomicRmw32CmpxchgU { memarg }
        | Operator::V128Load { memarg }
        | Operator::V128Load8x8S { memarg }
        | Operator::V128Load8x8U { memarg }
        | Operator::V128Load16x4S { memarg }
        | Operator::V128Load16x4U { memarg }
        | Operator::V128Load32x2S { memarg }
        | Operator::V128Load32x2U { memarg }
        | Operator::V128Load8Splat { memarg }
        | Operator::V128Load16Splat { memarg }
        | Operator::V128Load32Splat { memarg }
        | Operator::V128Load64Splat { memarg }
        | Operator::V128Load32Zero { memarg }
        | Operator::V128Load64Zero { memarg }
        | Operator::V128Store { memarg } => {
            lemma_memarg_plain(memarg);
        },
        Operator::V128Const { value } => {
            lemma_vector_plain(vector_bytes(value));
        },
        Operator::I8x16ExtractLaneS { lane }
        | Operator::I8x16ExtractLaneU { lane }
        | Operator::I8x16ReplaceLane { lane }
        | Operator::I16x8ExtractLaneS { lane }
        | Operator::I16x8ExtractLaneU { lane }
        | Operator::I16x8ReplaceLane { lane }
        | Operator::I32x4ExtractLane { lane }
        | Operator::I32x4ReplaceLane { lane }
        | Operator::I64x2ExtractLane { lane }
        | Operator::I64x2ReplaceLane { lane }
        | Operator::F32x4ExtractLane { lane }
        | Operator::F32x4ReplaceLane { lane }
        | Operator::F64x2ExtractLane { lane }
        | Operator::F64x2ReplaceLane { lane } => {
            lemma_number_plain(lane as nat);
        },
        Operator::I8x16Shuffle { lanes } => {
            lemma_lanes_plain(lanes@);
        },
        Operator::V128Load8Lane { memarg, lane }
        | Operator::V128Load16Lane { memarg, lane }
        | Operator::V128Load32Lane { memarg, lane }
        | Operator::V128Load64Lane { memarg, lane }
        | Operator::V128Store8Lane { memarg, lane }
        | Operator::V128Store16Lane { memarg, lane }
        | Operator::V128Store32Lane { memarg, lane }
        | Operator::V128Store64Lane { memarg, lane } => {
            lemma_memarg_plain(memarg);
            lemma_number_plain(lane as nat);
        },
        _ => {},
    }
}

/// The text of an instruction marks parameters only, where no text for a
/// floating-point constant holds a `<`.
pub proof fn lemma_instr_marks_params_only(op: Operator, param: Option<u32>, floats: Seq<FloatText>)
    requires
        plain_floats(floats),
    ensures
        marks_params_only(instr_text(op, param, floats)),
{
    lemma_mnemonic_plain(op);
    if accesses_local(op, param) {
        reveal_strlit(" <param>");
        lemma_marks_concat(mnemonic(op), " <param>"@);
    } else {
        lemma_operands_plain(op, floats);
        lemma_plain_concat(mnemonic(op), operand_text(op, floats));
    }
}

/// The text of a list of instructions marks parameters only, where no text
/// for a floating-point constant holds a `<`.
pub proof fn lemma_instructions_mark_params_only(
    instructions: Seq<Operator>,
    param: Option<u32>,
    floats: Seq<FloatText>,
)
    requires
        plain_floats(floats),
    ensures
        marks_params_only(instructions_text(instructions, param, floats)),
    decreases instructions.len(),
{
    if instructions.len() == 1 {
        lemma_instr_marks_params_only(instructions[0], param, floats);
    } else if instructions.len() > 1 {
        reveal_strlit(" ; ");
        lemma_instructions_mark_params_only(instructions.drop_last(), param, floats);
        lemma_instr_marks_params_only(instructions.last(), param, floats);
        lemma_marks_concat(
            instructions_text(instructions.drop_last(), param, floats),
            " ; "@,
        );
        lemma_marks_concat(
            instructions_text(instructions.drop_last(), param, floats) + " ; "@,
            instr_text(instructions.last(), param, floats),
        );
    }
}

/// The marker that stands between windows occurs in no rendered text: not in
/// a hash, not in the text of a full rendering or of a subrange, and in no
/// window. This holds where no text for a floating-point constant holds a
/// `<`, as no decimal number does.
pub proof fn lemma_renderings_hold_no_window_marker(
    instructions: Seq<Operator>,
    param: Option<u32>,
    n: nat,
    ty: Option<wasmparser::Type>,
    floats: Seq<FloatText>,
    bytes: Seq<u8>,
)
    requires
        plain_floats(floats),
    ensures
        free_of_window_marker(hash_repr(bytes, ty)),
        full_repr(instructions, param, ty, floats) matches Ok(repr) ==> free_of_window_marker(repr),
        subrange_repr(instructions, param, n, ty, floats) matches Ok(repr)
            ==> free_of_window_marker(repr),
        window_texts(instructions, param, n, floats) matches Ok(windows) ==> free_of_window_marker(
            ReprModel::Windows(ty, windows),
        ),
{
    lemma_hex_plain(crate::hash::sha256(bytes));
    lemma_no_window_marker(hex(crate::hash::sha256(bytes)));
    lemma_instructions_mark_params_only(instructions, param, floats);
    lemma_no_window_marker(instructions_text(instructions, param, floats));
    let part = crate::samples::wasm_repr::subrange_of(instructions, param, n);
    lemma_instructions_mark_params_only(part, param, floats);
    lemma_no_window_marker(instructions_text(part, param, floats));
    if n > 0 {
        lemma_windows_hold_no_marker(
            instructions,
            param,
            n,
            floats,
            crate::samples::wasm_repr::indices(
                crate::samples::wasm_repr::places(instructions, param),
            ),
        );
    }
}

/// The windows that are kept at some places of a body hold no marker.
proof fn lemma_windows_hold_no_marker(
    instructions: Seq<Operator>,
    param: Option<u32>,
    n: nat,
    floats: Seq<FloatText>,
    places: Seq<int>,
)
    requires
        plain_floats(floats),
    ensures
        try_fold(
            places,
            Seq::<Seq<char>>::empty(),
            window_adder(instructions, param, n, floats),
        ) matches Ok(windows) ==> forall|k: int|
            0 <= k < windows.len() ==> !holds_window_marker(#[trigger] windows[k]),
    decreases places.len(),
{
    if places.len() > 0 {
        lemma_windows_hold_no_marker(instructions, param, n, floats, places.drop_last());
        let step = window_adder(instructions, param, n, floats);
        match try_fold(places.drop_last(), Seq::<Seq<char>>::empty(), step) {
            Ok(earlier) => {
                let window = crate::samples::wasm_repr::window_at(
                    instructions,
                    param,
                    n,
                    places.last(),
                );
                lemma_instructions_mark_params_only(window, param, floats);
                lemma_no_window_marker(instructions_text(window, param, floats));
                match with_window_at(earlier, instructions, param, n, floats, places.last()) {
                    Ok(windows) => {
                        assert forall|k: int| 0 <= k < windows.len() implies !holds_window_marker(
                            #[trigger] windows[k],
                        ) by {
                            if k < earlier.len() {
                                assert(windows[k] == earlier[k]);
                            }
                        }
                    },
                    Err(_) => {},
                }
            },
            Err(_) => {},
        }
    }
}

} // verus!
