//! The text of instructions: the mnemonic of each operator and the operands
//! that are printed after it.

use vstd::prelude::*;
use wasmparser::{BinaryReaderError, MemoryImmediate, Operator, Type};
use crate::error::ExtractError;
use crate::text::{decimal, hex_byte, signed_decimal, push_decimal, push_hex_byte, push_signed_decimal};
use crate::wasm::decode::{branch_targets, br_table_targets, double_bits, single_bits, vector_bytes};

verus! {

/// The bit pattern of a floating-point constant.
#[derive(Clone, Copy, Debug)]
pub enum FloatBits {
    /// The bits of a 32-bit constant.
    Single(u32),
    /// The bits of a 64-bit constant.
    Double(u64),
}

/// The decimal text of one floating-point constant.
///
/// The library computes on integers only: whoever asks for a rendering hands
/// in, for each floating-point constant of the body, the text that is printed
/// for it.
#[derive(Debug)]
pub struct FloatText {
    pub bits: FloatBits,
    pub text: String,
}

/// The text that `floats` gives for the constant `bits`: that of the first
/// entry with this bit pattern, and the empty text where there is none.
pub open spec fn float_text(floats: Seq<FloatText>, bits: FloatBits) -> Seq<char>
    decreases floats.len(),
{
    if floats.len() == 0 {
        Seq::empty()
    } else if floats[0].bits == bits {
        floats[0].text@
    } else {
        float_text(floats.drop_first(), bits)
    }
}

/// Whether `ty` is the type of a value, which has a name, and no marker.
pub open spec fn is_value_type(ty: Type) -> bool {
    !(ty is Func) && !(ty is EmptyBlockType)
}

/// The name of a value type.
pub open spec fn value_type_text(ty: Type) -> Seq<char> {
    match ty {
        Type::I32 => "i32"@,
        Type::I64 => "i64"@,
        Type::F32 => "f32"@,
        Type::F64 => "f64"@,
        Type::V128 => "v128"@,
        Type::FuncRef => "funcref"@,
        Type::ExternRef => "externref"@,
        Type::ExnRef => "exnref"@,
        Type::Func => Seq::empty(),
        Type::EmptyBlockType => Seq::empty(),
    }
}

/// Tells whether `ty` is the type of a value.
pub fn has_type_str(ty: Type) -> (known: bool)
    ensures
        known == is_value_type(ty),
{
    match ty {
        Type::Func => false,
        Type::EmptyBlockType => false,
        _ => true,
    }
}

/// The name of a value type.
pub fn type_str(ty: Type) -> (name: &'static str)
    requires
        is_value_type(ty),
    ensures
        name@ == value_type_text(ty),
{
    match ty {
        Type::I32 => "i32",
        Type::I64 => "i64",
        Type::F32 => "f32",
        Type::F64 => "f64",
        Type::V128 => "v128",
        Type::FuncRef => "funcref",
        Type::ExternRef => "externref",
        Type::ExnRef => "exnref",
        Type::Func => "",
        Type::EmptyBlockType => "",
    }
}

/// The mnemonic of an operator. It depends on the kind of operator alone,
/// never on an operand.
pub open spec fn mnemonic(op: Operator) -> Seq<char> {
    match op {
        Operator::Unreachable => "unreachable"@,
        Operator::Nop => "nop"@,
        Operator::Block { .. } => "block"@,
        Operator::Loop { .. } => "loop"@,
        Operator::If { .. } => "if"@,
        Operator::Else => "else"@,
        Operator::Try { .. } => "try"@,
        Operator::Catch { .. } => "catch"@,
        Operator::Throw { .. } => "throw"@,
        Operator::Rethrow { .. } => "rethrow"@,
        Operator::Unwind => "unwind"@,
        Operator::End => "end"@,
        Operator::Br { .. } => "br"@,
        Operator::BrIf { .. } => "br_if"@,
        Operator::BrTable { .. } => "br_table"@,
        Operator::Return => "return"@,
        Operator::Call { .. } => "call"@,
        Operator::CallIndirect { .. } => "call_indirect"@,
        Operator::ReturnCall { .. } => "return_call"@,
        Operator::ReturnCallIndirect { .. } => "return_call_indirect"@,
        Operator::Delegate { .. } => "delegate"@,
        Operator::CatchAll => "catch_all"@,
        Operator::Drop => "drop"@,
        Operator::Select => "select"@,
        Operator::TypedSelect { .. } => "select"@,
        Operator::LocalGet { .. } => "local.get"@,
        Operator::LocalSet { .. } => "local.set"@,
        Operator::LocalTee { .. } => "local.tee"@,
        Operator::GlobalGet { .. } => "global.get"@,
        Operator::GlobalSet { .. } => "global.set"@,
        Operator::I32Load { .. } => "i32.load"@,
        Operator::I64Load { .. } => "i64.load"@,
        Operator::F32Load { .. } => "f32.load"@,
        Operator::F64Load { .. } => "f64.load"@,
        Operator::I32Load8S { .. } => "i32.load8_s"@,
        Operator::I32Load8U { .. } => "i32.load8_u"@,
        Operator::I32Load16S { .. } => "i32.load16_s"@,
        Operator::I32Load16U { .. } => "i32.load16_u"@,
        Operator::I64Load8S { .. } => "i64.load8_s"@,
        Operator::I64Load8U { .. } => "i64.load8_u"@,
        Operator::I64Load16S { .. } => "i64.load16_s"@,
        Operator::I64Load16U { .. } => "i64.load16_u"@,
        Operator::I64Load32S { .. } => "i64.load32_s"@,
        Operator::I64Load32U { .. } => "i64.load32_u"@,
        Operator::I32Store { .. } => "i32.store"@,
        Operator::I64Store { .. } => "i64.store"@,
        Operator::F32Store { .. } => "f32.store"@,
        Operator::F64Store { .. } => "f64.store"@,
        Operator::I32Store8 { .. } => "i32.store8"@,
        Operator::I32Store16 { .. } => "i32.store16"@,
        Operator::I64Store8 { .. } => "i64.store8"@,
        Operator::I64Store16 { .. } => "i64.store16"@,
        Operator::I64Store32 { .. } => "i64.store32"@,
        Operator::MemorySize { .. } => "memory.size"@,
        Operator::MemoryGrow { .. } => "memory.grow"@,
        Operator::I32Const { .. } => "i32.const"@,
        Operator::I64Const { .. } => "i64.const"@,
        Operator::F32Const { .. } => "f32.const"@,
        Operator::F64Const { .. } => "f64.const"@,
        Operator::RefNull { .. } => "ref.null"@,
        Operator::RefIsNull => "ref.is_null"@,
        Operator::RefFunc { .. } => "ref.func"@,
        Operator::I32Eqz => "i32.eqz"@,
        Operator::I32Eq => "i32.eq"@,
        Operator::I32Ne => "i32.ne"@,
        Operator::I32LtS => "i32.lt_s"@,
        Operator::I32LtU => "i32.lt_u"@,
        Operator::I32GtS => "i32.gt_s"@,
        Operator::I32GtU => "i32.gt_u"@,
        Operator::I32LeS => "i32.le_s"@,
        Operator::I32LeU => "i32.le_u"@,
        Operator::I32GeS => "i32.ge_s"@,
        Operator::I32GeU => "i32.ge_u"@,
        Operator::I64Eqz => "i64.eqz"@,
        Operator::I64Eq => "i64.eq"@,
        Operator::I64Ne => "i64.ne"@,
        Operator::I64LtS => "i64.lt_s"@,
        Operator::I64LtU => "i64.lt_u"@,
        Operator::I64GtS => "i64.gt_s"@,
        Operator::I64GtU => "i64.gt_u"@,
        Operator::I64LeS => "i64.le_s"@,
        Operator::I64LeU => "i64.le_u"@,
        Operator::I64GeS => "i64.ge_s"@,
        Operator::I64GeU => "i64.ge_u"@,
        Operator::F32Eq => "f32.eq"@,
        Operator::F32Ne => "f32.ne"@,
        Operator::F32Lt => "f32.lt"@,
        Operator::F32Gt => "f32.gt"@,
        Operator::F32Le => "f32.le"@,
        Operator::F32Ge => "f32.ge"@,
        Operator::F64Eq => "f64.eq"@,
        Operator::F64Ne => "f64.ne"@,
        Operator::F64Lt => "f64.lt"@,
        Operator::F64Gt => "f64.gt"@,
        Operator::F64Le => "f64.le"@,
        Operator::F64Ge => "f64.ge"@,
        Operator::I32Clz => "i32.clz"@,
        Operator::I32Ctz => "i32.ctz"@,
        Operator::I32Popcnt => "i32.popcnt"@,
        Operator::I32Add => "i32.add"@,
        Operator::I32Sub => "i32.sub"@,
        Operator::I32Mul => "i32.mul"@,
        Operator::I32DivS => "i32.div_s"@,
        Operator::I32DivU => "i32.div_u"@,
        Operator::I32RemS => "i32.rem_s"@,
        Operator::I32RemU => "i32.rem_u"@,
        Operator::I32And => "i32.and"@,
        Operator::I32Or => "i32.or"@,
        Operator::I32Xor => "i32.xor"@,
        Operator::I32Shl => "i32.shl"@,
        Operator::I32ShrS => "i32.shr_s"@,
        Operator::I32ShrU => "i32.shr_u"@,
        Operator::I32Rotl => "i32.rotl"@,
        Operator::I32Rotr => "i32.rotr"@,
        Operator::I64Clz => "i64.clz"@,
        Operator::I64Ctz => "i64.ctz"@,
        Operator::I64Popcnt => "i64.popcnt"@,
        Operator::I64Add => "i64.add"@,
        Operator::I64Sub => "i64.sub"@,
        Operator::I64Mul => "i64.mul"@,
        Operator::I64DivS => "i64.div_s"@,
        Operator::I64DivU => "i64.div_u"@,
        Operator::I64RemS => "i64.rem_s"@,
        Operator::I64RemU => "i64.rem_u"@,
        Operator::I64And => "i64.and"@,
        Operator::I64Or => "i64.or"@,
        Operator::I64Xor => "i64.xor"@,
        Operator::I64Shl => "i64.shl"@,
        Operator::I64ShrS => "i64.shr_s"@,
        Operator::I64ShrU => "i64.shr_u"@,
        Operator::I64Rotl => "i64.rotl"@,
        Operator::I64Rotr => "i64.rotr"@,
        Operator::F32Abs => "f32.abs"@,
        Operator::F32Neg => "f32.neg"@,
        Operator::F32Ceil => "f32.ceil"@,
        Operator::F32Floor => "f32.floor"@,
        Operator::F32Trunc => "f32.trunc"@,
        Operator::F32Nearest => "f32.nearest"@,
        Operator::F32Sqrt => "f32.sqrt"@,
        Operator::F32Add => "f32.add"@,
        Operator::F32Sub => "f32.sub"@,
        Operator::F32Mul => "f32.mul"@,
        Operator::F32Div => "f32.div"@,
        Operator::F32Min => "f32.min"@,
        Operator::F32Max => "f32.max"@,
        Operator::F32Copysign => "f32.copysign"@,
        Operator::F64Abs => "f64.abs"@,
        Operator::F64Neg => "f64.neg"@,
        Operator::F64Ceil => "f64.ceil"@,
        Operator::F64Floor => "f64.floor"@,
        Operator::F64Trunc => "f64.trunc"@,
        Operator::F64Nearest => "f64.nearest"@,
        Operator::F64Sqrt => "f64.sqrt"@,
        Operator::F64Add => "f64.add"@,
        Operator::F64Sub => "f64.sub"@,
        Operator::F64Mul => "f64.mul"@,
        Operator::F64Div => "f64.div"@,
        Operator::F64Min => "f64.min"@,
        Operator::F64Max => "f64.max"@,
        Operator::F64Copysign => "f64.copysign"@,
        Operator::I32WrapI64 => "i32.wrap_i64"@,
        Operator::I32TruncF32S => "i32.trunc_f32_s"@,
        Operator::I32TruncF32U => "i32.trunc_f32_u"@,
        Operator::I32TruncF64S => "i32.trunc_f64_s"@,
        Operator::I32TruncF64U => "i32.trunc_f64_u"@,
        Operator::I64ExtendI32S => "i64.extend_i32_s"@,
        Operator::I64ExtendI32U => "i64.extend_i32_u"@,
        Operator::I64TruncF32S => "i64.trunc_f32_s"@,
        Operator::I64TruncF32U => "i64.trunc_f32_u"@,
        Operator::I64TruncF64S => "i64.trunc_f64_s"@,
        Operator::I64TruncF64U => "i64.trunc_f64_u"@,
        Operator::F32ConvertI32S => "f32.convert_i32_s"@,
        Operator::F32ConvertI32U => "f32.convert_i32_u"@,
        Operator::F32ConvertI64S => "f32.convert_i64_s"@,
        Operator::F32ConvertI64U => "f32.convert_i64_u"@,
        Operator::F32DemoteF64 => "f32.demote_f64"@,
        Operator::F64ConvertI32S => "f64.convert_i32_s"@,
        Operator::F64ConvertI32U => "f64.convert_i32_u"@,
        Operator::F64ConvertI64S => "f64.convert_i64_s"@,
        Operator::F64ConvertI64U => "f64.convert_i64_u"@,
        Operator::F64PromoteF32 => "f64.promote_f32"@,
        Operator::I32ReinterpretF32 => "i32.reinterpret_f32"@,
        Operator::I64ReinterpretF64 => "i64.reinterpret_f64"@,
        Operator::F32ReinterpretI32 => "f32.reinterpret_i32"@,
        Operator::F64ReinterpretI64 => "f64.reinterpret_i64"@,
        Operator::I32Extend8S => "i32.extend8_s"@,
        Operator::I32Extend16S => "i32.extend16_s"@,
        Operator::I64Extend8S => "i64.extend8_s"@,
        Operator::I64Extend16S => "i64.extend16_s"@,
        Operator::I64Extend32S => "i64.extend32_s"@,
        Operator::I32TruncSatF32S => "i32.trunc_sat_f32_s"@,
        Operator::I32TruncSatF32U => "i32.trunc_sat_f32_u"@,
        Operator::I32TruncSatF64S => "i32.trunc_sat_f64_s"@,
        Operator::I32TruncSatF64U => "i32.trunc_sat_f64_u"@,
        Operator::I64TruncSatF32S => "i64.trunc_sat_f32_s"@,
        Operator::I64TruncSatF32U => "i64.trunc_sat_f32_u"@,
        Operator::I64TruncSatF64S => "i64.trunc_sat_f64_s"@,
        Operator::I64TruncSatF64U => "i64.trunc_sat_f64_u"@,
        Operator::MemoryInit { .. } => "memory.init"@,
        Operator::DataDrop { .. } => "data.drop"@,
        Operator::MemoryCopy { .. } => "memory.copy"@,
        Operator::MemoryFill { .. } => "memory.fill"@,
        Operator::TableInit { .. } => "table.init"@,
        Operator::ElemDrop { .. } => "elem.drop"@,
        Operator::TableCopy { .. } => "table.copy"@,
        Operator::TableFill { .. } => "table.fill"@,
        Operator::TableGet { .. } => "table.get"@,
        Operator::TableSet { .. } => "table.set"@,
        Operator::TableGrow { .. } => "table.grow"@,
        Operator::TableSize { .. } => "table.size"@,
        Operator::MemoryAtomicNotify { .. } => "memory.atomic.notify"@,
        Operator::MemoryAtomicWait32 { .. } => "memory.atomic.wait32"@,
        Operator::MemoryAtomicWait64 { .. } => "memory.atomic.wait64"@,
        Operator::AtomicFence { .. } => "atomic.fence"@,
        Operator::I32AtomicLoad { .. } => "i32.atomic.load"@,
        Operator::I64AtomicLoad { .. } => "i64.atomic.load"@,
        Operator::I32AtomicLoad8U { .. } => "i32.atomic.load8_u"@,
        Operator::I32AtomicLoad16U { .. } => "i32.atomic.load16_u"@,
        Operator::I64AtomicLoad8U { .. } => "i64.atomic.load8_u"@,
        Operator::I64AtomicLoad16U { .. } => "i64.atomic.load16_u"@,
        Operator::I64AtomicLoad32U { .. } => "i64.atomic.load32_u"@,
        Operator::I32AtomicStore { .. } => "i32.atomic.store"@,
        Operator::I64AtomicStore { .. } => "i64.atomic.store"@,
        Operator::I32AtomicStore8 { .. } => "i32.atomic.store8"@,
        Operator::I32AtomicStore16 { .. } => "i32.atomic.store16"@,
        Operator::I64AtomicStore8 { .. } => "i64.atomic.store8"@,
        Operator::I64AtomicStore16 { .. } => "i64.atomic.store16"@,
        Operator::I64AtomicStore32 { .. } => "i64.atomic.store32"@,
        Operator::I32AtomicRmwAdd { .. } => "i32.atomic.rmw.add"@,
        Operator::I64AtomicRmwAdd { .. } => "i64.atomic.rmw.add"@,
        Operator::I32AtomicRmw8AddU { .. } => "i32.atomic.rmw8.add_u"@,
        Operator::I32AtomicRmw16AddU { .. } => "i32.atomic.rmw16.add_u"@,
        Operator::I64AtomicRmw8AddU { .. } => "i64.atomic.rmw8.add_u"@,
        Operator::I64AtomicRmw16AddU { .. } => "i64.atomic.rmw16.add_u"@,
        Operator::I64AtomicRmw32AddU { .. } => "i64.atomic.rmw32.add_u"@,
        Operator::I32AtomicRmwSub { .. } => "i32.atomic.rmw.sub"@,
        Operator::I64AtomicRmwSub { .. } => "i64.atomic.rmw.sub"@,
        Operator::I32AtomicRmw8SubU { .. } => "i32.atomic.rmw8.sub_u"@,
        Operator::I32AtomicRmw16SubU { .. } => "i32.atomic.rmw16.sub_u"@,
        Operator::I64AtomicRmw8SubU { .. } => "i64.atomic.rmw8.sub_u"@,
        Operator::I64AtomicRmw16SubU { .. } => "i64.atomic.rmw16.sub_u"@,
        Operator::I64AtomicRmw32SubU { .. } => "i64.atomic.rmw32.sub_u"@,
        Operator::I32AtomicRmwAnd { .. } => "i32.atomic.rmw.and"@,
        Operator::I64AtomicRmwAnd { .. } => "i64.atomic.rmw.and"@,
        Operator::I32AtomicRmw8AndU { .. } => "i32.atomic.rmw8.and_u"@,
        Operator::I32AtomicRmw16AndU { .. } => "i32.atomic.rmw16.and_u"@,
        Operator::I64AtomicRmw8AndU { .. } => "i64.atomic.rmw8.and_u"@,
        Operator::I64AtomicRmw16AndU { .. } => "i64.atomic.rmw16.and_u"@,
        Operator::I64AtomicRmw32AndU { .. } => "i64.atomic.rmw32.and_u"@,
        Operator::I32AtomicRmwOr { .. } => "i32.atomic.rmw.or"@,
        Operator::I64AtomicRmwOr { .. } => "i64.atomic.rmw.or"@,
        Operator::I32AtomicRmw8OrU { .. } => "i32.atomic.rmw8.or_u"@,
        Operator::I32AtomicRmw16OrU { .. } => "i32.atomic.rmw16.or_u"@,
        Operator::I64AtomicRmw8OrU { .. } => "i64.atomic.rmw8.or_u"@,
        Operator::I64AtomicRmw16OrU { .. } => "i64.atomic.rmw16.or_u"@,
        Operator::I64AtomicRmw32OrU { .. } => "i64.atomic.rmw32.or_u"@,
        Operator::I32AtomicRmwXor { .. } => "i32.atomic.rmw.xor"@,
        Operator::I64AtomicRmwXor { .. } => "i64.atomic.rmw.xor"@,
        Operator::I32AtomicRmw8XorU { .. } => "i32.atomic.rmw8.xor_u"@,
        Operator::I32AtomicRmw16XorU { .. } => "i32.atomic.rmw16.xor_u"@,
        Operator::I64AtomicRmw8XorU { .. } => "i64.atomic.rmw8.xor_u"@,
        Operator::I64AtomicRmw16XorU { .. } => "i64.atomic.rmw16.xor_u"@,
        Operator::I64AtomicRmw32XorU { .. } => "i64.atomic.rmw32.xor_u"@,
        Operator::I32AtomicRmwXchg { .. } => "i32.atomic.rmw.xchg"@,
        Operator::I64AtomicRmwXchg { .. } => "i64.atomic.rmw.xchg"@,
        Operator::I32AtomicRmw8XchgU { .. } => "i32.atomic.rmw8.xchg_u"@,
        Operator::I32AtomicRmw16XchgU { .. } => "i32.atomic.rmw16.xchg_u"@,
        Operator::I64AtomicRmw8XchgU { .. } => "i64.atomic.rmw8.xchg_u"@,
        Operator::I64AtomicRmw16XchgU { .. } => "i64.atomic.rmw16.xchg_u"@,
        Operator::I64AtomicRmw32XchgU { .. } => "i64.atomic.rmw32.xchg_u"@,
        Operator::I32AtomicRmwCmpxchg { .. } => "i32.atomic.rmw.cmpxchg"@,
        Operator::I64AtomicRmwCmpxchg { .. } => "i64.atomic.rmw.cmpxchg"@,
        Operator::I32AtomicRmw8CmpxchgU { .. } => "i32.atomic.rmw8.cmpxchg_u"@,
        Operator::I32AtomicRmw16CmpxchgU { .. } => "i32.atomic.rmw16.cmpxchg_u"@,
        Operator::I64AtomicRmw8CmpxchgU { .. } => "i64.atomic.rmw8.cmpxchg_u"@,
        Operator::I64AtomicRmw16CmpxchgU { .. } => "i64.atomic.rmw16.cmpxchg_u"@,
        Operator::I64AtomicRmw32CmpxchgU { .. } => "i64.atomic.rmw32.cmpxchg_u"@,
        Operator::V128Load { .. } => "v128.load"@,
        Operator::V128Load8x8S { .. } => "v128.load8x8_s"@,
        Operator::V128Load8x8U { .. } => "v128.load8x8_u"@,
        Operator::V128Load16x4S { .. } => "v128.load16x4_s"@,
        Operator::V128Load16x4U { .. } => "v128.load16x4_u"@,
        Operator::V128Load32x2S { .. } => "v128.load32x2_s"@,
        Operator::V128Load32x2U { .. } => "v128.load32x2_u"@,
        Operator::V128Load8Splat { .. } => "v128.load8_splat"@,
        Operator::V128Load16Splat { .. } => "v128.load16_splat"@,
        Operator::V128Load32Splat { .. } => "v128.load32_splat"@,
        Operator::V128Load64Splat { .. } => "v128.load64_splat"@,
        Operator::V128Load32Zero { .. } => "v128.load32_zero"@,
        Operator::V128Load64Zero { .. } => "v128.load64_zero"@,
        Operator::V128Store { .. } => "v128.store"@,
        Operator::V128Load8Lane { .. } => "v128.load8_lane"@,
        Operator::V128Load16Lane { .. } => "v128.load16_lane"@,
        Operator::V128Load32Lane { .. } => "v128.load32_lane"@,
        Operator::V128Load64Lane { .. } => "v128.load64_lane"@,
        Operator::V128Store8Lane { .. } => "v128.store8_lane"@,
        Operator::V128Store16Lane { .. } => "v128.store16_lane"@,
        Operator::V128Store32Lane { .. } => "v128.store32_lane"@,
        Operator::V128Store64Lane { .. } => "v128.store64_lane"@,
        Operator::V128Const { .. } => "v128.const i32x4"@,
        Operator::I8x16Shuffle { .. } => "i8x16.shuffle"@,
        Operator::I8x16ExtractLaneS { .. } => "i8x16.extract_lane_s"@,
        Operator::I8x16ExtractLaneU { .. } => "i8x16.extract_lane_u"@,
        Operator::I8x16ReplaceLane { .. } => "i8x16.replace_lane"@,
        Operator::I16x8ExtractLaneS { .. } => "i16x8.extract_lane_s"@,
        Operator::I16x8ExtractLaneU { .. } => "i16x8.extract_lane_u"@,
        Operator::I16x8ReplaceLane { .. } => "i16x8.replace_lane"@,
        Operator::I32x4ExtractLane { .. } => "i32x4.extract_lane"@,
        Operator::I32x4ReplaceLane { .. } => "i32x4.replace_lane"@,
        Operator::I64x2ExtractLane { .. } => "i64x2.extract_lane"@,
        Operator::I64x2ReplaceLane { .. } => "i64x2.replace_lane"@,
        Operator::F32x4ExtractLane { .. } => "f32x4.extract_lane"@,
        Operator::F32x4ReplaceLane { .. } => "f32x4.replace_lane"@,
        Operator::F64x2ExtractLane { .. } => "f64x2.extract_lane"@,
        Operator::F64x2ReplaceLane { .. } => "f64x2.replace_lane"@,
        Operator::I8x16Swizzle => "i8x16.swizzle"@,
        Operator::I8x16Splat => "i8x16.splat"@,
        Operator::I16x8Splat => "i16x8.splat"@,
        Operator::I32x4Splat => "i32x4.splat"@,
        Operator::I64x2Splat => "i64x2.splat"@,
        Operator::F32x4Splat => "f32x4.splat"@,
        Operator::F64x2Splat => "f64x2.splat"@,
        Operator::I8x16Eq => "i8x16.eq"@,
        Operator::I8x16Ne => "i8x16.ne"@,
        Operator::I8x16LtS => "i8x16.lt_s"@,
        Operator::I8x16LtU => "i8x16.lt_u"@,
        Operator::I8x16GtS => "i8x16.gt_s"@,
        Operator::I8x16GtU => "i8x16.gt_u"@,
        Operator::I8x16LeS => "i8x16.le_s"@,
        Operator::I8x16LeU => "i8x16.le_u"@,
        Operator::I8x16GeS => "i8x16.ge_s"@,
        Operator::I8x16GeU => "i8x16.ge_u"@,
        Operator::I16x8Eq => "i16x8.eq"@,
        Operator::I16x8Ne => "i16x8.ne"@,
        Operator::I16x8LtS => "i16x8.lt_s"@,
        Operator::I16x8LtU => "i16x8.lt_u"@,
        Operator::I16x8GtS => "i16x8.gt_s"@,
        Operator::I16x8GtU => "i16x8.gt_u"@,
        Operator::I16x8LeS => "i16x8.le_s"@,
        Operator::I16x8LeU => "i16x8.le_u"@,
        Operator::I16x8GeS => "i16x8.ge_s"@,
        Operator::I16x8GeU => "i16x8.ge_u"@,
        Operator::I32x4Eq => "i32x4.eq"@,
        Operator::I32x4Ne => "i32x4.ne"@,
        Operator::I32x4LtS => "i32x4.lt_s"@,
        Operator::I32x4LtU => "i32x4.lt_u"@,
        Operator::I32x4GtS => "i32x4.gt_s"@,
        Operator::I32x4GtU => "i32x4.gt_u"@,
        Operator::I32x4LeS => "i32x4.le_s"@,
        Operator::I32x4LeU => "i32x4.le_u"@,
        Operator::I32x4GeS => "i32x4.ge_s"@,
        Operator::I32x4GeU => "i32x4.ge_u"@,
        Operator::I64x2Eq => "i64x2.eq"@,
        Operator::I64x2Ne => "i64x2.ne"@,
        Operator::I64x2LtS => "i64x2.lt_s"@,
        Operator::I64x2GtS => "i64x2.gt_s"@,
        Operator::I64x2LeS => "i64x2.le_s"@,
        Operator::I64x2GeS => "i64x2.ge_s"@,
        Operator::F32x4Eq => "f32x4.eq"@,
        Operator::F32x4Ne => "f32x4.ne"@,
        Operator::F32x4Lt => "f32x4.lt"@,
        Operator::F32x4Gt => "f32x4.gt"@,
        Operator::F32x4Le => "f32x4.le"@,
        Operator::F32x4Ge => "f32x4.ge"@,
        Operator::F64x2Eq => "f64x2.eq"@,
        Operator::F64x2Ne => "f64x2.ne"@,
        Operator::F64x2Lt => "f64x2.lt"@,
        Operator::F64x2Gt => "f64x2.gt"@,
        Operator::F64x2Le => "f64x2.le"@,
        Operator::F64x2Ge => "f64x2.ge"@,
        Operator::V128Not => "v128.not"@,
        Operator::V128And => "v128.and"@,
        Operator::V128AndNot => "v128.andnot"@,
        Operator::V128Or => "v128.or"@,
        Operator::V128Xor => "v128.xor"@,
        Operator::V128Bitselect => "v128.bitselect"@,
        Operator::V128AnyTrue => "v128.any_true"@,
        Operator::I8x16Abs => "i8x16.abs"@,
        Operator::I8x16Neg => "i8x16.neg"@,
        Operator::I8x16Popcnt => "i8x16.popcnt"@,
        Operator::I8x16AllTrue => "i8x16.all_true"@,
        Operator::I8x16Bitmask => "i8x16.bitmask"@,
        Operator::I8x16NarrowI16x8S => "i8x16.narrow_i16x8_s"@,
        Operator::I8x16NarrowI16x8U => "i8x16.narrow_i16x8_u"@,
        Operator::I8x16Shl => "i8x16.shl"@,
        Operator::I8x16ShrS => "i8x16.shr_s"@,
        Operator::I8x16ShrU => "i8x16.shr_u"@,
        Operator::I8x16Add => "i8x16.add"@,
        Operator::I8x16AddSatS => "i8x16.add_sat_s"@,
        Operator::I8x16AddSatU => "i8x16.add_sat_u"@,
        Operator::I8x16Sub => "i8x16.sub"@,
        Operator::I8x16SubSatS => "i8x16.sub_sat_s"@,
        Operator::I8x16SubSatU => "i8x16.sub_sat_u"@,
        Operator::I8x16MinS => "i8x16.min_s"@,
        Operator::I8x16MinU => "i8x16.min_u"@,
        Operator::I8x16MaxS => "i8x16.max_s"@,
        Operator::I8x16MaxU => "i8x16.max_u"@,
        Operator::I8x16RoundingAverageU => "i8x16.avgr_u"@,
        Operator::I16x8ExtAddPairwiseI8x16S => "i16x8.extadd_pairwise_i8x16_s"@,
        Operator::I16x8ExtAddPairwiseI8x16U => "i16x8.extadd_pairwise_i8x16_u"@,
        Operator::I16x8Abs => "i16x8.abs"@,
        Operator::I16x8Neg => "i16x8.neg"@,
        Operator::I16x8Q15MulrSatS => "i16x8.q15mulr_sat_s"@,
        Operator::I16x8AllTrue => "i16x8.all_true"@,
        Operator::I16x8Bitmask => "i16x8.bitmask"@,
        Operator::I16x8NarrowI32x4S => "i16x8.narrow_i32x4_s"@,
        Operator::I16x8NarrowI32x4U => "i16x8.narrow_i32x4_u"@,
        Operator::I16x8ExtendLowI8x16S => "i16x8.widen_low_i8x16_s"@,
        Operator::I16x8ExtendHighI8x16S => "i16x8.widen_high_i8x16_s"@,
        Operator::I16x8ExtendLowI8x16U => "i16x8.widen_low_i8x16_u"@,
        Operator::I16x8ExtendHighI8x16U => "i16x8.widen_high_i8x16_u"@,
        Operator::I16x8Shl => "i16x8.shl"@,
        Operator::I16x8ShrS => "i16x8.shr_s"@,
        Operator::I16x8ShrU => "i16x8.shr_u"@,
        Operator::I16x8Add => "i16x8.add"@,
        Operator::I16x8AddSatS => "i16x8.add_sat_s"@,
        Operator::I16x8AddSatU => "i16x8.add_sat_u"@,
        Operator::I16x8Sub => "i16x8.sub"@,
        Operator::I16x8SubSatS => "i16x8.sub_sat_s"@,
        Operator::I16x8SubSatU => "i16x8.sub_sat_u"@,
        Operator::I16x8Mul => "i16x8.mul"@,
        Operator::I16x8MinS => "i16x8.min_s"@,
        Operator::I16x8MinU => "i16x8.min_u"@,
        Operator::I16x8MaxS => "i16x8.max_s"@,
        Operator::I16x8MaxU => "i16x8.max_u"@,
        Operator::I16x8RoundingAverageU => "i16x8.avgr_u"@,
        Operator::I16x8ExtMulLowI8x16S => "i16x8.extmul_low_i8x16_s"@,
        Operator::I16x8ExtMulHighI8x16S => "i16x8.extmul_high_i8x16_s"@,
        Operator::I16x8ExtMulLowI8x16U => "i16x8.extmul_low_i8x16_u"@,
        Operator::I16x8ExtMulHighI8x16U => "i16x8.extmul_high_i8x16_u"@,
        Operator::I32x4ExtAddPairwiseI16x8S => "i32x4.extadd_pairwise_i16x8_s"@,
        Operator::I32x4ExtAddPairwiseI16x8U => "i32x4.extadd_pairwise_i16x8_u"@,
        Operator::I32x4Abs => "i32x4.abs"@,
        Operator::I32x4Neg => "i32x4.neg"@,
        Operator::I32x4AllTrue => "i32x4.all_true"@,
        Operator::I32x4Bitmask => "i32x4.bitmask"@,
        Operator::I32x4ExtendLowI16x8S => "i32x4.widen_low_i16x8_s"@,
        Operator::I32x4ExtendHighI16x8S => "i32x4.widen_high_i16x8_s"@,
        Operator::I32x4ExtendLowI16x8U => "i32x4.widen_low_i16x8_u"@,
        Operator::I32x4ExtendHighI16x8U => "i32x4.widen_high_i16x8_u"@,
        Operator::I32x4Shl => "i32x4.shl"@,
        Operator::I32x4ShrS => "i32x4.shr_s"@,
        Operator::I32x4ShrU => "i32x4.shr_u"@,
        Operator::I32x4Add => "i32x4.add"@,
        Operator::I32x4Sub => "i32x4.sub"@,
        Operator::I32x4Mul => "i32x4.mul"@,
        Operator::I32x4MinS => "i32x4.min_s"@,
        Operator::I32x4MinU => "i32x4.min_u"@,
        Operator::I32x4MaxS => "i32x4.max_s"@,
        Operator::I32x4MaxU => "i32x4.max_u"@,
        Operator::I32x4DotI16x8S => "i32x4.dot_i16x8_s"@,
        Operator::I32x4ExtMulLowI16x8S => "i32x4.extmul_low_i16x8_s"@,
        Operator::I32x4ExtMulHighI16x8S => "i32x4.extmul_high_i16x8_s"@,
        Operator::I32x4ExtMulLowI16x8U => "i32x4.extmul_low_i16x8_u"@,
        Operator::I32x4ExtMulHighI16x8U => "i32x4.extmul_high_i16x8_u"@,
        Operator::I64x2Abs => "i64x2.abs"@,
        Operator::I64x2Neg => "i64x2.neg"@,
        Operator::I64x2AllTrue => "i64x2.all_true"@,
        Operator::I64x2Bitmask => "i64x2.bitmask"@,
        Operator::I64x2ExtendLowI32x4S => "i64x2.widen_low_i32x4_s"@,
        Operator::I64x2ExtendHighI32x4S => "i64x2.widen_high_i32x4_s"@,
        Operator::I64x2ExtendLowI32x4U => "i64x2.widen_low_i32x4_u"@,
        Operator::I64x2ExtendHighI32x4U => "i64x2.widen_high_i32x4_u"@,
        Operator::I64x2Shl => "i64x2.shl"@,
        Operator::I64x2ShrS => "i64x2.shr_s"@,
        Operator::I64x2ShrU => "i64x2.shr_u"@,
        Operator::I64x2Add => "i64x2.add"@,
        Operator::I64x2Sub => "i64x2.sub"@,
        Operator::I64x2Mul => "i64x2.mul"@,
        Operator::I64x2ExtMulLowI32x4S => "i64x2.extmul_low_i32x4_s"@,
        Operator::I64x2ExtMulHighI32x4S => "i64x2.extmul_high_i32x4_s"@,
        Operator::I64x2ExtMulLowI32x4U => "i64x2.extmul_low_i32x4_u"@,
        Operator::I64x2ExtMulHighI32x4U => "i64x2.extmul_high_i32x4_u"@,
        Operator::F32x4Ceil => "f32x4.ceil"@,
        Operator::F32x4Floor => "f32x4.floor"@,
        Operator::F32x4Trunc => "f32x4.trunc"@,
        Operator::F32x4Nearest => "f32x4.nearest"@,
        Operator::F32x4Abs => "f32x4.abs"@,
        Operator::F32x4Neg => "f32x4.neg"@,
        Operator::F32x4Sqrt => "f32x4.sqrt"@,
        Operator::F32x4Add => "f32x4.add"@,
        Operator::F32x4Sub => "f32x4.sub"@,
        Operator::F32x4Mul => "f32x4.mul"@,
        Operator::F32x4Div => "f32x4.div"@,
        Operator::F32x4Min => "f32x4.min"@,
        Operator::F32x4Max => "f32x4.max"@,
        Operator::F32x4PMin => "f32x4.pmin"@,
        Operator::F32x4PMax => "f32x4.pmax"@,
        Operator::F64x2Ceil => "f64x2.ceil"@,
        Operator::F64x2Floor => "f64x2.floor"@,
        Operator::F64x2Trunc => "f64x2.trunc"@,
        Operator::F64x2Nearest => "f64x2.nearest"@,
        Operator::F64x2Abs => "f64x2.abs"@,
        Operator::F64x2Neg => "f64x2.neg"@,
        Operator::F64x2Sqrt => "f64x2.sqrt"@,
        Operator::F64x2Add => "f64x2.add"@,
        Operator::F64x2Sub => "f64x2.sub"@,
        Operator::F64x2Mul => "f64x2.mul"@,
        Operator::F64x2Div => "f64x2.div"@,
        Operator::F64x2Min => "f64x2.min"@,
        Operator::F64x2Max => "f64x2.max"@,
        Operator::F64x2PMin => "f64x2.pmin"@,
        Operator::F64x2PMax => "f64x2.pmax"@,
        Operator::I32x4TruncSatF32x4S => "i32x4.trunc_sat_f32x4_s"@,
        Operator::I32x4TruncSatF32x4U => "i32x4.trunc_sat_f32x4_u"@,
        Operator::F32x4ConvertI32x4S => "f32x4.convert_i32x4_s"@,
        Operator::F32x4ConvertI32x4U => "f32x4.convert_i32x4_u"@,
        Operator::I32x4TruncSatF64x2SZero => "i32x4.trunc_sat_f64x2_s_zero"@,
        Operator::I32x4TruncSatF64x2UZero => "i32x4.trunc_sat_f64x2_u_zero"@,
        Operator::F64x2ConvertLowI32x4S => "f64x2.convert_low_i32x4_s"@,
        Operator::F64x2ConvertLowI32x4U => "f64x2.convert_low_i32x4_u"@,
        Operator::F32x4DemoteF64x2Zero => "f32x4.demote_f64x2_zero"@,
        Operator::F64x2PromoteLowF32x4 => "f64x2.promote_low_f32x4"@,
    }
}

/// The mnemonic of an operator.
pub fn instr_name(op: &Operator) -> (name: &'static str)
    ensures
        name@ == mnemonic(*op),
{
    match op {
        Operator::Unreachable => "unreachable",
        Operator::Nop => "nop",
        Operator::Block { .. } => "block",
        Operator::Loop { .. } => "loop",
        Operator::If { .. } => "if",
        Operator::Else => "else",
        Operator::Try { .. } => "try",
        Operator::Catch { .. } => "catch",
        Operator::Throw { .. } => "throw",
        Operator::Rethrow { .. } => "rethrow",
        Operator::Unwind => "unwind",
        Operator::End => "end",
        Operator::Br { .. } => "br",
        Operator::BrIf { .. } => "br_if",
        Operator::BrTable { .. } => "br_table",
        Operator::Return => "return",
        Operator::Call { .. } => "call",
        Operator::CallIndirect { .. } => "call_indirect",
        Operator::ReturnCall { .. } => "return_call",
        Operator::ReturnCallIndirect { .. } => "return_call_indirect",
        Operator::Delegate { .. } => "delegate",
        Operator::CatchAll => "catch_all",
        Operator::Drop => "drop",
        Operator::Select => "select",
        Operator::TypedSelect { .. } => "select",
        Operator::LocalGet { .. } => "local.get",
        Operator::LocalSet { .. } => "local.set",
        Operator::LocalTee { .. } => "local.tee",
        Operator::GlobalGet { .. } => "global.get",
        Operator::GlobalSet { .. } => "global.set",
        Operator::I32Load { .. } => "i32.load",
        Operator::I64Load { .. } => "i64.load",
        Operator::F32Load { .. } => "f32.load",
        Operator::F64Load { .. } => "f64.load",
        Operator::I32Load8S { .. } => "i32.load8_s",
        Operator::I32Load8U { .. } => "i32.load8_u",
        Operator::I32Load16S { .. } => "i32.load16_s",
        Operator::I32Load16U { .. } => "i32.load16_u",
        Operator::I64Load8S { .. } => "i64.load8_s",
        Operator::I64Load8U { .. } => "i64.load8_u",
        Operator::I64Load16S { .. } => "i64.load16_s",
        Operator::I64Load16U { .. } => "i64.load16_u",
        Operator::I64Load32S { .. } => "i64.load32_s",
        Operator::I64Load32U { .. } => "i64.load32_u",
        Operator::I32Store { .. } => "i32.store",
        Operator::I64Store { .. } => "i64.store",
        Operator::F32Store { .. } => "f32.store",
        Operator::F64Store { .. } => "f64.store",
        Operator::I32Store8 { .. } => "i32.store8",
        Operator::I32Store16 { .. } => "i32.store16",
        Operator::I64Store8 { .. } => "i64.store8",
        Operator::I64Store16 { .. } => "i64.store16",
        Operator::I64Store32 { .. } => "i64.store32",
        Operator::MemorySize { .. } => "memory.size",
        Operator::MemoryGrow { .. } => "memory.grow",
        Operator::I32Const { .. } => "i32.const",
        Operator::I64Const { .. } => "i64.const",
        Operator::F32Const { .. } => "f32.const",
        Operator::F64Const { .. } => "f64.const",
        Operator::RefNull { .. } => "ref.null",
        Operator::RefIsNull => "ref.is_null",
        Operator::RefFunc { .. } => "ref.func",
        Operator::I32Eqz => "i32.eqz",
        Operator::I32Eq => "i32.eq",
        Operator::I32Ne => "i32.ne",
        Operator::I32LtS => "i32.lt_s",
        Operator::I32LtU => "i32.lt_u",
        Operator::I32GtS => "i32.gt_s",
        Operator::I32GtU => "i32.gt_u",
        Operator::I32LeS => "i32.le_s",
        Operator::I32LeU => "i32.le_u",
        Operator::I32GeS => "i32.ge_s",
        Operator::I32GeU => "i32.ge_u",
        Operator::I64Eqz => "i64.eqz",
        Operator::I64Eq => "i64.eq",
        Operator::I64Ne => "i64.ne",
        Operator::I64LtS => "i64.lt_s",
        Operator::I64LtU => "i64.lt_u",
        Operator::I64GtS => "i64.gt_s",
        Operator::I64GtU => "i64.gt_u",
        Operator::I64LeS => "i64.le_s",
        Operator::I64LeU => "i64.le_u",
        Operator::I64GeS => "i64.ge_s",
        Operator::I64GeU => "i64.ge_u",
        Operator::F32Eq => "f32.eq",
        Operator::F32Ne => "f32.ne",
        Operator::F32Lt => "f32.lt",
        Operator::F32Gt => "f32.gt",
        Operator::F32Le => "f32.le",
        Operator::F32Ge => "f32.ge",
        Operator::F64Eq => "f64.eq",
        Operator::F64Ne => "f64.ne",
        Operator::F64Lt => "f64.lt",
        Operator::F64Gt => "f64.gt",
        Operator::F64Le => "f64.le",
        Operator::F64Ge => "f64.ge",
        Operator::I32Clz => "i32.clz",
        Operator::I32Ctz => "i32.ctz",
        Operator::I32Popcnt => "i32.popcnt",
        Operator::I32Add => "i32.add",
        Operator::I32Sub => "i32.sub",
        Operator::I32Mul => "i32.mul",
        Operator::I32DivS => "i32.div_s",
        Operator::I32DivU => "i32.div_u",
        Operator::I32RemS => "i32.rem_s",
        Operator::I32RemU => "i32.rem_u",
        Operator::I32And => "i32.and",
        Operator::I32Or => "i32.or",
        Operator::I32Xor => "i32.xor",
        Operator::I32Shl => "i32.shl",
        Operator::I32ShrS => "i32.shr_s",
        Operator::I32ShrU => "i32.shr_u",
        Operator::I32Rotl => "i32.rotl",
        Operator::I32Rotr => "i32.rotr",
        Operator::I64Clz => "i64.clz",
        Operator::I64Ctz => "i64.ctz",
        Operator::I64Popcnt => "i64.popcnt",
        Operator::I64Add => "i64.add",
        Operator::I64Sub => "i64.sub",
        Operator::I64Mul => "i64.mul",
        Operator::I64DivS => "i64.div_s",
        Operator::I64DivU => "i64.div_u",
        Operator::I64RemS => "i64.rem_s",
        Operator::I64RemU => "i64.rem_u",
        Operator::I64And => "i64.and",
        Operator::I64Or => "i64.or",
        Operator::I64Xor => "i64.xor",
        Operator::I64Shl => "i64.shl",
        Operator::I64ShrS => "i64.shr_s",
        Operator::I64ShrU => "i64.shr_u",
        Operator::I64Rotl => "i64.rotl",
        Operator::I64Rotr => "i64.rotr",
        Operator::F32Abs => "f32.abs",
        Operator::F32Neg => "f32.neg",
        Operator::F32Ceil => "f32.ceil",
        Operator::F32Floor => "f32.floor",
        Operator::F32Trunc => "f32.trunc",
        Operator::F32Nearest => "f32.nearest",
        Operator::F32Sqrt => "f32.sqrt",
        Operator::F32Add => "f32.add",
        Operator::F32Sub => "f32.sub",
        Operator::F32Mul => "f32.mul",
        Operator::F32Div => "f32.div",
        Operator::F32Min => "f32.min",
        Operator::F32Max => "f32.max",
        Operator::F32Copysign => "f32.copysign",
        Operator::F64Abs => "f64.abs",
        Operator::F64Neg => "f64.neg",
        Operator::F64Ceil => "f64.ceil",
        Operator::F64Floor => "f64.floor",
        Operator::F64Trunc => "f64.trunc",
        Operator::F64Nearest => "f64.nearest",
        Operator::F64Sqrt => "f64.sqrt",
        Operator::F64Add => "f64.add",
        Operator::F64Sub => "f64.sub",
        Operator::F64Mul => "f64.mul",
        Operator::F64Div => "f64.div",
        Operator::F64Min => "f64.min",
        Operator::F64Max => "f64.max",
        Operator::F64Copysign => "f64.copysign",
        Operator::I32WrapI64 => "i32.wrap_i64",
        Operator::I32TruncF32S => "i32.trunc_f32_s",
        Operator::I32TruncF32U => "i32.trunc_f32_u",
        Operator::I32TruncF64S => "i32.trunc_f64_s",
        Operator::I32TruncF64U => "i32.trunc_f64_u",
        Operator::I64ExtendI32S => "i64.extend_i32_s",
        Operator::I64ExtendI32U => "i64.extend_i32_u",
        Operator::I64TruncF32S => "i64.trunc_f32_s",
        Operator::I64TruncF32U => "i64.trunc_f32_u",
        Operator::I64TruncF64S => "i64.trunc_f64_s",
        Operator::I64TruncF64U => "i64.trunc_f64_u",
        Operator::F32ConvertI32S => "f32.convert_i32_s",
        Operator::F32ConvertI32U => "f32.convert_i32_u",
        Operator::F32ConvertI64S => "f32.convert_i64_s",
        Operator::F32ConvertI64U => "f32.convert_i64_u",
        Operator::F32DemoteF64 => "f32.demote_f64",
        Operator::F64ConvertI32S => "f64.convert_i32_s",
        Operator::F64ConvertI32U => "f64.convert_i32_u",
        Operator::F64ConvertI64S => "f64.convert_i64_s",
        Operator::F64ConvertI64U => "f64.convert_i64_u",
        Operator::F64PromoteF32 => "f64.promote_f32",
        Operator::I32ReinterpretF32 => "i32.reinterpret_f32",
        Operator::I64ReinterpretF64 => "i64.reinterpret_f64",
        Operator::F32ReinterpretI32 => "f32.reinterpret_i32",
        Operator::F64ReinterpretI64 => "f64.reinterpret_i64",
        Operator::I32Extend8S => "i32.extend8_s",
        Operator::I32Extend16S => "i32.extend16_s",
        Operator::I64Extend8S => "i64.extend8_s",
        Operator::I64Extend16S => "i64.extend16_s",
        Operator::I64Extend32S => "i64.extend32_s",
        Operator::I32TruncSatF32S => "i32.trunc_sat_f32_s",
        Operator::I32TruncSatF32U => "i32.trunc_sat_f32_u",
        Operator::I32TruncSatF64S => "i32.trunc_sat_f64_s",
        Operator::I32TruncSatF64U => "i32.trunc_sat_f64_u",
        Operator::I64TruncSatF32S => "i64.trunc_sat_f32_s",
        Operator::I64TruncSatF32U => "i64.trunc_sat_f32_u",
        Operator::I64TruncSatF64S => "i64.trunc_sat_f64_s",
        Operator::I64TruncSatF64U => "i64.trunc_sat_f64_u",
        Operator::MemoryInit { .. } => "memory.init",
        Operator::DataDrop { .. } => "data.drop",
        Operator::MemoryCopy { .. } => "memory.copy",
        Operator::MemoryFill { .. } => "memory.fill",
        Operator::TableInit { .. } => "table.init",
        Operator::ElemDrop { .. } => "elem.drop",
        Operator::TableCopy { .. } => "table.copy",
        Operator::TableFill { .. } => "table.fill",
        Operator::TableGet { .. } => "table.get",
        Operator::TableSet { .. } => "table.set",
        Operator::TableGrow { .. } => "table.grow",
        Operator::TableSize { .. } => "table.size",
        Operator::MemoryAtomicNotify { .. } => "memory.atomic.notify",
        Operator::MemoryAtomicWait32 { .. } => "memory.atomic.wait32",
        Operator::MemoryAtomicWait64 { .. } => "memory.atomic.wait64",
        Operator::AtomicFence { .. } => "atomic.fence",
        Operator::I32AtomicLoad { .. } => "i32.atomic.load",
        Operator::I64AtomicLoad { .. } => "i64.atomic.load",
        Operator::I32AtomicLoad8U { .. } => "i32.atomic.load8_u",
        Operator::I32AtomicLoad16U { .. } => "i32.atomic.load16_u",
        Operator::I64AtomicLoad8U { .. } => "i64.atomic.load8_u",
        Operator::I64AtomicLoad16U { .. } => "i64.atomic.load16_u",
        Operator::I64AtomicLoad32U { .. } => "i64.atomic.load32_u",
        Operator::I32AtomicStore { .. } => "i32.atomic.store",
        Operator::I64AtomicStore { .. } => "i64.atomic.store",
        Operator::I32AtomicStore8 { .. } => "i32.atomic.store8",
        Operator::I32AtomicStore16 { .. } => "i32.atomic.store16",
        Operator::I64AtomicStore8 { .. } => "i64.atomic.store8",
        Operator::I64AtomicStore16 { .. } => "i64.atomic.store16",
        Operator::I64AtomicStore32 { .. } => "i64.atomic.store32",
        Operator::I32AtomicRmwAdd { .. } => "i32.atomic.rmw.add",
        Operator::I64AtomicRmwAdd { .. } => "i64.atomic.rmw.add",
        Operator::I32AtomicRmw8AddU { .. } => "i32.atomic.rmw8.add_u",
        Operator::I32AtomicRmw16AddU { .. } => "i32.atomic.rmw16.add_u",
        Operator::I64AtomicRmw8AddU { .. } => "i64.atomic.rmw8.add_u",
        Operator::I64AtomicRmw16AddU { .. } => "i64.atomic.rmw16.add_u",
        Operator::I64AtomicRmw32AddU { .. } => "i64.atomic.rmw32.add_u",
        Operator::I32AtomicRmwSub { .. } => "i32.atomic.rmw.sub",
        Operator::I64AtomicRmwSub { .. } => "i64.atomic.rmw.sub",
        Operator::I32AtomicRmw8SubU { .. } => "i32.atomic.rmw8.sub_u",
        Operator::I32AtomicRmw16SubU { .. } => "i32.atomic.rmw16.sub_u",
        Operator::I64AtomicRmw8SubU { .. } => "i64.atomic.rmw8.sub_u",
        Operator::I64AtomicRmw16SubU { .. } => "i64.atomic.rmw16.sub_u",
        Operator::I64AtomicRmw32SubU { .. } => "i64.atomic.rmw32.sub_u",
        Operator::I32AtomicRmwAnd { .. } => "i32.atomic.rmw.and",
        Operator::I64AtomicRmwAnd { .. } => "i64.atomic.rmw.and",
        Operator::I32AtomicRmw8AndU { .. } => "i32.atomic.rmw8.and_u",
        Operator::I32AtomicRmw16AndU { .. } => "i32.atomic.rmw16.and_u",
        Operator::I64AtomicRmw8AndU { .. } => "i64.atomic.rmw8.and_u",
        Operator::I64AtomicRmw16AndU { .. } => "i64.atomic.rmw16.and_u",
        Operator::I64AtomicRmw32AndU { .. } => "i64.atomic.rmw32.and_u",
        Operator::I32AtomicRmwOr { .. } => "i32.atomic.rmw.or",
        Operator::I64AtomicRmwOr { .. } => "i64.atomic.rmw.or",
        Operator::I32AtomicRmw8OrU { .. } => "i32.atomic.rmw8.or_u",
        Operator::I32AtomicRmw16OrU { .. } => "i32.atomic.rmw16.or_u",
        Operator::I64AtomicRmw8OrU { .. } => "i64.atomic.rmw8.or_u",
        Operator::I64AtomicRmw16OrU { .. } => "i64.atomic.rmw16.or_u",
        Operator::I64AtomicRmw32OrU { .. } => "i64.atomic.rmw32.or_u",
        Operator::I32AtomicRmwXor { .. } => "i32.atomic.rmw.xor",
        Operator::I64AtomicRmwXor { .. } => "i64.atomic.rmw.xor",
        Operator::I32AtomicRmw8XorU { .. } => "i32.atomic.rmw8.xor_u",
        Operator::I32AtomicRmw16XorU { .. } => "i32.atomic.rmw16.xor_u",
        Operator::I64AtomicRmw8XorU { .. } => "i64.atomic.rmw8.xor_u",
        Operator::I64AtomicRmw16XorU { .. } => "i64.atomic.rmw16.xor_u",
        Operator::I64AtomicRmw32XorU { .. } => "i64.atomic.rmw32.xor_u",
        Operator::I32AtomicRmwXchg { .. } => "i32.atomic.rmw.xchg",
        Operator::I64AtomicRmwXchg { .. } => "i64.atomic.rmw.xchg",
        Operator::I32AtomicRmw8XchgU { .. } => "i32.atomic.rmw8.xchg_u",
        Operator::I32AtomicRmw16XchgU { .. } => "i32.atomic.rmw16.xchg_u",
        Operator::I64AtomicRmw8XchgU { .. } => "i64.atomic.rmw8.xchg_u",
        Operator::I64AtomicRmw16XchgU { .. } => "i64.atomic.rmw16.xchg_u",
        Operator::I64AtomicRmw32XchgU { .. } => "i64.atomic.rmw32.xchg_u",
        Operator::I32AtomicRmwCmpxchg { .. } => "i32.atomic.rmw.cmpxchg",
        Operator::I64AtomicRmwCmpxchg { .. } => "i64.atomic.rmw.cmpxchg",
        Operator::I32AtomicRmw8CmpxchgU { .. } => "i32.atomic.rmw8.cmpxchg_u",
        Operator::I32AtomicRmw16CmpxchgU { .. } => "i32.atomic.rmw16.cmpxchg_u",
        Operator::I64AtomicRmw8CmpxchgU { .. } => "i64.atomic.rmw8.cmpxchg_u",
        Operator::I64AtomicRmw16CmpxchgU { .. } => "i64.atomic.rmw16.cmpxchg_u",
        Operator::I64AtomicRmw32CmpxchgU { .. } => "i64.atomic.rmw32.cmpxchg_u",
        Operator::V128Load { .. } => "v128.load",
        Operator::V128Load8x8S { .. } => "v128.load8x8_s",
        Operator::V128Load8x8U { .. } => "v128.load8x8_u",
        Operator::V128Load16x4S { .. } => "v128.load16x4_s",
        Operator::V128Load16x4U { .. } => "v128.load16x4_u",
        Operator::V128Load32x2S { .. } => "v128.load32x2_s",
        Operator::V128Load32x2U { .. } => "v128.load32x2_u",
        Operator::V128Load8Splat { .. } => "v128.load8_splat",
        Operator::V128Load16Splat { .. } => "v128.load16_splat",
        Operator::V128Load32Splat { .. } => "v128.load32_splat",
        Operator::V128Load64Splat { .. } => "v128.load64_splat",
        Operator::V128Load32Zero { .. } => "v128.load32_zero",
        Operator::V128Load64Zero { .. } => "v128.load64_zero",
        Operator::V128Store { .. } => "v128.store",
        Operator::V128Load8Lane { .. } => "v128.load8_lane",
        Operator::V128Load16Lane { .. } => "v128.load16_lane",
        Operator::V128Load32Lane { .. } => "v128.load32_lane",
        Operator::V128Load64Lane { .. } => "v128.load64_lane",
        Operator::V128Store8Lane { .. } => "v128.store8_lane",
        Operator::V128Store16Lane { .. } => "v128.store16_lane",
        Operator::V128Store32Lane { .. } => "v128.store32_lane",
        Operator::V128Store64Lane { .. } => "v128.store64_lane",
        Operator::V128Const { .. } => "v128.const i32x4",
        Operator::I8x16Shuffle { .. } => "i8x16.shuffle",
        Operator::I8x16ExtractLaneS { .. } => "i8x16.extract_lane_s",
        Operator::I8x16ExtractLaneU { .. } => "i8x16.extract_lane_u",
        Operator::I8x16ReplaceLane { .. } => "i8x16.replace_lane",
        Operator::I16x8ExtractLaneS { .. } => "i16x8.extract_lane_s",
        Operator::I16x8ExtractLaneU { .. } => "i16x8.extract_lane_u",
        Operator::I16x8ReplaceLane { .. } => "i16x8.replace_lane",
        Operator::I32x4ExtractLane { .. } => "i32x4.extract_lane",
        Operator::I32x4ReplaceLane { .. } => "i32x4.replace_lane",
        Operator::I64x2ExtractLane { .. } => "i64x2.extract_lane",
        Operator::I64x2ReplaceLane { .. } => "i64x2.replace_lane",
        Operator::F32x4ExtractLane { .. } => "f32x4.extract_lane",
        Operator::F32x4ReplaceLane { .. } => "f32x4.replace_lane",
        Operator::F64x2ExtractLane { .. } => "f64x2.extract_lane",
        Operator::F64x2ReplaceLane { .. } => "f64x2.replace_lane",
        Operator::I8x16Swizzle => "i8x16.swizzle",
        Operator::I8x16Splat => "i8x16.splat",
        Operator::I16x8Splat => "i16x8.splat",
        Operator::I32x4Splat => "i32x4.splat",
        Operator::I64x2Splat => "i64x2.splat",
        Operator::F32x4Splat => "f32x4.splat",
        Operator::F64x2Splat => "f64x2.splat",
        Operator::I8x16Eq => "i8x16.eq",
        Operator::I8x16Ne => "i8x16.ne",
        Operator::I8x16LtS => "i8x16.lt_s",
        Operator::I8x16LtU => "i8x16.lt_u",
        Operator::I8x16GtS => "i8x16.gt_s",
        Operator::I8x16GtU => "i8x16.gt_u",
        Operator::I8x16LeS => "i8x16.le_s",
        Operator::I8x16LeU => "i8x16.le_u",
        Operator::I8x16GeS => "i8x16.ge_s",
        Operator::I8x16GeU => "i8x16.ge_u",
        Operator::I16x8Eq => "i16x8.eq",
        Operator::I16x8Ne => "i16x8.ne",
        Operator::I16x8LtS => "i16x8.lt_s",
        Operator::I16x8LtU => "i16x8.lt_u",
        Operator::I16x8GtS => "i16x8.gt_s",
        Operator::I16x8GtU => "i16x8.gt_u",
        Operator::I16x8LeS => "i16x8.le_s",
        Operator::I16x8LeU => "i16x8.le_u",
        Operator::I16x8GeS => "i16x8.ge_s",
        Operator::I16x8GeU => "i16x8.ge_u",
        Operator::I32x4Eq => "i32x4.eq",
        Operator::I32x4Ne => "i32x4.ne",
        Operator::I32x4LtS => "i32x4.lt_s",
        Operator::I32x4LtU => "i32x4.lt_u",
        Operator::I32x4GtS => "i32x4.gt_s",
        Operator::I32x4GtU => "i32x4.gt_u",
        Operator::I32x4LeS => "i32x4.le_s",
        Operator::I32x4LeU => "i32x4.le_u",
        Operator::I32x4GeS => "i32x4.ge_s",
        Operator::I32x4GeU => "i32x4.ge_u",
        Operator::I64x2Eq => "i64x2.eq",
        Operator::I64x2Ne => "i64x2.ne",
        Operator::I64x2LtS => "i64x2.lt_s",
        Operator::I64x2GtS => "i64x2.gt_s",
        Operator::I64x2LeS => "i64x2.le_s",
        Operator::I64x2GeS => "i64x2.ge_s",
        Operator::F32x4Eq => "f32x4.eq",
        Operator::F32x4Ne => "f32x4.ne",
        Operator::F32x4Lt => "f32x4.lt",
        Operator::F32x4Gt => "f32x4.gt",
        Operator::F32x4Le => "f32x4.le",
        Operator::F32x4Ge => "f32x4.ge",
        Operator::F64x2Eq => "f64x2.eq",
        Operator::F64x2Ne => "f64x2.ne",
        Operator::F64x2Lt => "f64x2.lt",
        Operator::F64x2Gt => "f64x2.gt",
        Operator::F64x2Le => "f64x2.le",
        Operator::F64x2Ge => "f64x2.ge",
        Operator::V128Not => "v128.not",
        Operator::V128And => "v128.and",
        Operator::V128AndNot => "v128.andnot",
        Operator::V128Or => "v128.or",
        Operator::V128Xor => "v128.xor",
        Operator::V128Bitselect => "v128.bitselect",
        Operator::V128AnyTrue => "v128.any_true",
        Operator::I8x16Abs => "i8x16.abs",
        Operator::I8x16Neg => "i8x16.neg",
        Operator::I8x16Popcnt => "i8x16.popcnt",
        Operator::I8x16AllTrue => "i8x16.all_true",
        Operator::I8x16Bitmask => "i8x16.bitmask",
        Operator::I8x16NarrowI16x8S => "i8x16.narrow_i16x8_s",
        Operator::I8x16NarrowI16x8U => "i8x16.narrow_i16x8_u",
        Operator::I8x16Shl => "i8x16.shl",
        Operator::I8x16ShrS => "i8x16.shr_s",
        Operator::I8x16ShrU => "i8x16.shr_u",
        Operator::I8x16Add => "i8x16.add",
        Operator::I8x16AddSatS => "i8x16.add_sat_s",
        Operator::I8x16AddSatU => "i8x16.add_sat_u",
        Operator::I8x16Sub => "i8x16.sub",
        Operator::I8x16SubSatS => "i8x16.sub_sat_s",
        Operator::I8x16SubSatU => "i8x16.sub_sat_u",
        Operator::I8x16MinS => "i8x16.min_s",
        Operator::I8x16MinU => "i8x16.min_u",
        Operator::I8x16MaxS => "i8x16.max_s",
        Operator::I8x16MaxU => "i8x16.max_u",
        Operator::I8x16RoundingAverageU => "i8x16.avgr_u",
        Operator::I16x8ExtAddPairwiseI8x16S => "i16x8.extadd_pairwise_i8x16_s",
        Operator::I16x8ExtAddPairwiseI8x16U => "i16x8.extadd_pairwise_i8x16_u",
        Operator::I16x8Abs => "i16x8.abs",
        Operator::I16x8Neg => "i16x8.neg",
        Operator::I16x8Q15MulrSatS => "i16x8.q15mulr_sat_s",
        Operator::I16x8AllTrue => "i16x8.all_true",
        Operator::I16x8Bitmask => "i16x8.bitmask",
        Operator::I16x8NarrowI32x4S => "i16x8.narrow_i32x4_s",
        Operator::I16x8NarrowI32x4U => "i16x8.narrow_i32x4_u",
        Operator::I16x8ExtendLowI8x16S => "i16x8.widen_low_i8x16_s",
        Operator::I16x8ExtendHighI8x16S => "i16x8.widen_high_i8x16_s",
        Operator::I16x8ExtendLowI8x16U => "i16x8.widen_low_i8x16_u",
        Operator::I16x8ExtendHighI8x16U => "i16x8.widen_high_i8x16_u",
        Operator::I16x8Shl => "i16x8.shl",
        Operator::I16x8ShrS => "i16x8.shr_s",
        Operator::I16x8ShrU => "i16x8.shr_u",
        Operator::I16x8Add => "i16x8.add",
        Operator::I16x8AddSatS => "i16x8.add_sat_s",
        Operator::I16x8AddSatU => "i16x8.add_sat_u",
        Operator::I16x8Sub => "i16x8.sub",
        Operator::I16x8SubSatS => "i16x8.sub_sat_s",
        Operator::I16x8SubSatU => "i16x8.sub_sat_u",
        Operator::I16x8Mul => "i16x8.mul",
        Operator::I16x8MinS => "i16x8.min_s",
        Operator::I16x8MinU => "i16x8.min_u",
        Operator::I16x8MaxS => "i16x8.max_s",
        Operator::I16x8MaxU => "i16x8.max_u",
        Operator::I16x8RoundingAverageU => "i16x8.avgr_u",
        Operator::I16x8ExtMulLowI8x16S => "i16x8.extmul_low_i8x16_s",
        Operator::I16x8ExtMulHighI8x16S => "i16x8.extmul_high_i8x16_s",
        Operator::I16x8ExtMulLowI8x16U => "i16x8.extmul_low_i8x16_u",
        Operator::I16x8ExtMulHighI8x16U => "i16x8.extmul_high_i8x16_u",
        Operator::I32x4ExtAddPairwiseI16x8S => "i32x4.extadd_pairwise_i16x8_s",
        Operator::I32x4ExtAddPairwiseI16x8U => "i32x4.extadd_pairwise_i16x8_u",
        Operator::I32x4Abs => "i32x4.abs",
        Operator::I32x4Neg => "i32x4.neg",
        Operator::I32x4AllTrue => "i32x4.all_true",
        Operator::I32x4Bitmask => "i32x4.bitmask",
        Operator::I32x4ExtendLowI16x8S => "i32x4.widen_low_i16x8_s",
        Operator::I32x4ExtendHighI16x8S => "i32x4.widen_high_i16x8_s",
        Operator::I32x4ExtendLowI16x8U => "i32x4.widen_low_i16x8_u",
        Operator::I32x4ExtendHighI16x8U => "i32x4.widen_high_i16x8_u",
        Operator::I32x4Shl => "i32x4.shl",
        Operator::I32x4ShrS => "i32x4.shr_s",
        Operator::I32x4ShrU => "i32x4.shr_u",
        Operator::I32x4Add => "i32x4.add",
        Operator::I32x4Sub => "i32x4.sub",
        Operator::I32x4Mul => "i32x4.mul",
        Operator::I32x4MinS => "i32x4.min_s",
        Operator::I32x4MinU => "i32x4.min_u",
        Operator::I32x4MaxS => "i32x4.max_s",
        Operator::I32x4MaxU => "i32x4.max_u",
        Operator::I32x4DotI16x8S => "i32x4.dot_i16x8_s",
        Operator::I32x4ExtMulLowI16x8S => "i32x4.extmul_low_i16x8_s",
        Operator::I32x4ExtMulHighI16x8S => "i32x4.extmul_high_i16x8_s",
        Operator::I32x4ExtMulLowI16x8U => "i32x4.extmul_low_i16x8_u",
        Operator::I32x4ExtMulHighI16x8U => "i32x4.extmul_high_i16x8_u",
        Operator::I64x2Abs => "i64x2.abs",
        Operator::I64x2Neg => "i64x2.neg",
        Operator::I64x2AllTrue => "i64x2.all_true",
        Operator::I64x2Bitmask => "i64x2.bitmask",
        Operator::I64x2ExtendLowI32x4S => "i64x2.widen_low_i32x4_s",
        Operator::I64x2ExtendHighI32x4S => "i64x2.widen_high_i32x4_s",
        Operator::I64x2ExtendLowI32x4U => "i64x2.widen_low_i32x4_u",
        Operator::I64x2ExtendHighI32x4U => "i64x2.widen_high_i32x4_u",
        Operator::I64x2Shl => "i64x2.shl",
        Operator::I64x2ShrS => "i64x2.shr_s",
        Operator::I64x2ShrU => "i64x2.shr_u",
        Operator::I64x2Add => "i64x2.add",
        Operator::I64x2Sub => "i64x2.sub",
        Operator::I64x2Mul => "i64x2.mul",
        Operator::I64x2ExtMulLowI32x4S => "i64x2.extmul_low_i32x4_s",
        Operator::I64x2ExtMulHighI32x4S => "i64x2.extmul_high_i32x4_s",
        Operator::I64x2ExtMulLowI32x4U => "i64x2.extmul_low_i32x4_u",
        Operator::I64x2ExtMulHighI32x4U => "i64x2.extmul_high_i32x4_u",
        Operator::F32x4Ceil => "f32x4.ceil",
        Operator::F32x4Floor => "f32x4.floor",
        Operator::F32x4Trunc => "f32x4.trunc",
        Operator::F32x4Nearest => "f32x4.nearest",
        Operator::F32x4Abs => "f32x4.abs",
        Operator::F32x4Neg => "f32x4.neg",
        Operator::F32x4Sqrt => "f32x4.sqrt",
        Operator::F32x4Add => "f32x4.add",
        Operator::F32x4Sub => "f32x4.sub",
        Operator::F32x4Mul => "f32x4.mul",
        Operator::F32x4Div => "f32x4.div",
        Operator::F32x4Min => "f32x4.min",
        Operator::F32x4Max => "f32x4.max",
        Operator::F32x4PMin => "f32x4.pmin",
        Operator::F32x4PMax => "f32x4.pmax",
        Operator::F64x2Ceil => "f64x2.ceil",
        Operator::F64x2Floor => "f64x2.floor",
        Operator::F64x2Trunc => "f64x2.trunc",
        Operator::F64x2Nearest => "f64x2.nearest",
        Operator::F64x2Abs => "f64x2.abs",
        Operator::F64x2Neg => "f64x2.neg",
        Operator::F64x2Sqrt => "f64x2.sqrt",
        Operator::F64x2Add => "f64x2.add",
        Operator::F64x2Sub => "f64x2.sub",
        Operator::F64x2Mul => "f64x2.mul",
        Operator::F64x2Div => "f64x2.div",
        Operator::F64x2Min => "f64x2.min",
        Operator::F64x2Max => "f64x2.max",
        Operator::F64x2PMin => "f64x2.pmin",
        Operator::F64x2PMax => "f64x2.pmax",
        Operator::I32x4TruncSatF32x4S => "i32x4.trunc_sat_f32x4_s",
        Operator::I32x4TruncSatF32x4U => "i32x4.trunc_sat_f32x4_u",
        Operator::F32x4ConvertI32x4S => "f32x4.convert_i32x4_s",
        Operator::F32x4ConvertI32x4U => "f32x4.convert_i32x4_u",
        Operator::I32x4TruncSatF64x2SZero => "i32x4.trunc_sat_f64x2_s_zero",
        Operator::I32x4TruncSatF64x2UZero => "i32x4.trunc_sat_f64x2_u_zero",
        Operator::F64x2ConvertLowI32x4S => "f64x2.convert_low_i32x4_s",
        Operator::F64x2ConvertLowI32x4U => "f64x2.convert_low_i32x4_u",
        Operator::F32x4DemoteF64x2Zero => "f32x4.demote_f64x2_zero",
        Operator::F64x2PromoteLowF32x4 => "f64x2.promote_low_f32x4",
    }
}

/// Whether `op` reads or writes the local `param`.
pub open spec fn accesses_local(op: Operator, param: Option<u32>) -> bool {
    match op {
        Operator::LocalGet { local_index }
        | Operator::LocalSet { local_index }
        | Operator::LocalTee { local_index } => param == Some(local_index),
        _ => false,
    }
}

/// Tells whether `op` reads or writes the local `param`.
pub fn is_local_access(op: &Operator, param: Option<u32>) -> (found: bool)
    ensures
        found == accesses_local(*op, param),
{
    match op {
        Operator::LocalGet { local_index }
        | Operator::LocalSet { local_index }
        | Operator::LocalTee { local_index } => match param {
            Some(index) => index == *local_index,
            None => false,
        },
        _ => false,
    }
}

/// A blank and the decimal rendering of `n`.
pub open spec fn number_text(n: nat) -> Seq<char> {
    " "@ + decimal(n)
}

/// Each number of `numbers` after a blank.
pub open spec fn numbers_text(numbers: Seq<u32>) -> Seq<char>
    decreases numbers.len(),
{
    if numbers.len() == 0 {
        Seq::empty()
    } else {
        numbers_text(numbers.drop_last()) + number_text(numbers.last() as nat)
    }
}

/// Each lane index of `lanes` after a blank.
pub open spec fn lanes_text(lanes: Seq<u8>) -> Seq<char>
    decreases lanes.len(),
{
    if lanes.len() == 0 {
        Seq::empty()
    } else {
        lanes_text(lanes.drop_last()) + number_text(lanes.last() as nat)
    }
}

/// The operands of a memory access: the memory where it is not memory 0, the
/// offset where it is not 0. The alignment is not printed.
pub open spec fn memarg_text(memarg: MemoryImmediate) -> Seq<char> {
    (if memarg.memory != 0 {
        " (memory "@ + decimal(memarg.memory as nat) + ")"@
    } else {
        Seq::empty()
    }) + (if memarg.offset != 0 {
        " offset="@ + decimal(memarg.offset as nat)
    } else {
        Seq::empty()
    })
}

/// One 32-bit word of a vector constant, the word's most significant byte
/// first.
pub open spec fn word_text(bytes: Seq<u8>, word: int) -> Seq<char> {
    " 0x"@ + hex_byte(bytes[4 * word + 3]) + hex_byte(bytes[4 * word + 2]) + hex_byte(
        bytes[4 * word + 1],
    ) + hex_byte(bytes[4 * word])
}

/// The four 32-bit words of a vector constant.
pub open spec fn vector_text(bytes: Seq<u8>) -> Seq<char> {
    word_text(bytes, 0) + word_text(bytes, 1) + word_text(bytes, 2) + word_text(bytes, 3)
}

/// The error with which the operands of `op` cannot be read, if there is
/// one: that of a `br_table` whose targets the decoder rejects.
pub open spec fn operand_failure(op: Operator) -> Option<BinaryReaderError> {
    match op {
        Operator::BrTable { table } => match branch_targets(table) {
            Ok(_) => None,
            Err(error) => Some(error),
        },
        _ => None,
    }
}

/// The operands that are printed after the mnemonic of `op`.
///
/// Branch targets, local, global, table, segment and lane indices, integer and
/// vector constants and the text of floating-point constants are printed, and
/// so are the memory indices of the bulk memory instructions. Administrative
/// operands that say nothing of types are not: block types, call targets, the
/// alignment of a memory access, the offset of a memory access where it is
/// zero, and the memory index of a memory access, of `memory.size` and of
/// `memory.grow` where it is zero.
pub open spec fn operand_text(op: Operator, floats: Seq<FloatText>) -> Seq<char> {
    match op {
        Operator::Rethrow { relative_depth }
        | Operator::Br { relative_depth }
        | Operator::BrIf { relative_depth } => number_text(relative_depth as nat),
        Operator::BrTable { table } => match branch_targets(table) {
            Ok(targets) => numbers_text(targets),
            Err(_) => Seq::empty(),
        },
        Operator::LocalGet { local_index }
        | Operator::LocalSet { local_index }
        | Operator::LocalTee { local_index } => number_text(local_index as nat),
        Operator::GlobalGet { global_index }
        | Operator::GlobalSet { global_index } => number_text(global_index as nat),
        Operator::MemorySize { mem, .. } | Operator::MemoryGrow { mem, .. } => if mem == 0 {
            Seq::empty()
        } else {
            number_text(mem as nat)
        },
        Operator::I32Const { value } => " "@ + signed_decimal(value as int),
        Operator::I64Const { value } => " "@ + signed_decimal(value as int),
        Operator::F32Const { value } => " "@ + float_text(
            floats,
            FloatBits::Single(single_bits(value)),
        ),
        Operator::F64Const { value } => " "@ + float_text(
            floats,
            FloatBits::Double(double_bits(value)),
        ),
        Operator::MemoryInit { segment, mem } => number_text(segment as nat) + number_text(
            mem as nat,
        ),
        Operator::DataDrop { segment } => number_text(segment as nat),
        Operator::MemoryCopy { src, dst } => number_text(src as nat) + number_text(dst as nat),
        Operator::MemoryFill { mem } => number_text(mem as nat),
        Operator::TableInit { segment, table } => number_text(table as nat) + number_text(
            segment as nat,
        ),
        Operator::ElemDrop { segment } => number_text(segment as nat),
        Operator::TableCopy { dst_table, src_table } => number_text(src_table as nat)
            + number_text(dst_table as nat),
        Operator::TableGet { table }
        | Operator::TableSet { table }
        | Operator::TableGrow { table }
        | Operator::TableSize { table }
        | Operator::TableFill { table } => number_text(table as nat),
        Operator::I32Load { memarg }
        | Operator::I64Load { memarg }
        | Operator::F32Load { memarg }
        | Operator::F64Load { memarg }
        | Operator::I32Load8S { memarg }
        | Operator::I32Load8U { memarg }
        | Operator::I32Load16S { memarg }
        | Operator::I32Load16U { memarg }
        | Operator::I64Load8S { memarg }
        | Operator::I64Load8U { memarg }
        | Operator::I64Load16S { memarg }
        | Operator::I64Load16U { memarg }
        | Operator::I64Load32S { memarg }
        | Operator::I64Load32U { memarg }
        | Operator::I32Store { memarg }
        | Operator::I64Store { memarg }
        | Operator::F32Store { memarg }
        | Operator::F64Store { memarg }
        | Operator::I32Store8 { memarg }
        | Operator::I32Store16 { memarg }
        | Operator::I64Store8 { memarg }
        | Operator::I64Store16 { memarg }
        | Operator::I64Store32 { memarg }
        | Operator::MemoryAtomicNotify { memarg }
        | Operator::MemoryAtomicWait32 { memarg }
        | Operator::MemoryAtomicWait64 { memarg }
        | Operator::I32AtomicLoad { memarg }
        | Operator::I64AtomicLoad { memarg }
        | Operator::I32AtomicLoad8U { memarg }
        | Operator::I32AtomicLoad16U { memarg }
        | Operator::I64AtomicLoad8U { memarg }
        | Operator::I64AtomicLoad16U { memarg }
        | Operator::I64AtomicLoad32U { memarg }
        | Operator::I32AtomicStore { memarg }
        | Operator::I64AtomicStore { memarg }
        | Operator::I32AtomicStore8 { memarg }
        | Operator::I32AtomicStore16 { memarg }
        | Operator::I64AtomicStore8 { memarg }
        | Operator::I64AtomicStore16 { memarg }
        | Operator::I64AtomicStore32 { memarg }
        | Operator::I32AtomicRmwAdd { memarg }
        | Operator::I64AtomicRmwAdd { memarg }
        | Operator::I32AtomicRmw8AddU { memarg }
        | Operator::I32AtomicRmw16AddU { memarg }
        | Operator::I64AtomicRmw8AddU { memarg }
        | Operator::I64AtomicRmw16AddU { memarg }
        | Operator::I64AtomicRmw32AddU { memarg }
        | Operator::I32AtomicRmwSub { memarg }
        | Operator::I64AtomicRmwSub { memarg }
        | Operator::I32AtomicRmw8SubU { memarg }
        | Operator::I32AtomicRmw16SubU { memarg }
        | Operator::I64AtomicRmw8SubU { memarg }
        | Operator::I64AtomicRmw16SubU { memarg }
        | Operator::I64AtomicRmw32SubU { memarg }
        | Operator::I32AtomicRmwAnd { memarg }
        | Operator::I64AtomicRmwAnd { memarg }
        | Operator::I32AtomicRmw8AndU { memarg }
        | Operator::I32AtomicRmw16AndU { memarg }
        | Operator::I64AtomicRmw8AndU { memarg }
        | Operator::I64AtomicRmw16AndU { memarg }
        | Operator::I64AtomicRmw32AndU { memarg }
        | Operator::I32AtomicRmwOr { memarg }
        | Operator::I64AtomicRmwOr { memarg }
        | Operator::I32AtomicRmw8OrU { memarg }
        | Operator::I32AtomicRmw16OrU { memarg }
        | Operator::I64AtomicRmw8OrU { memarg }
        | Operator::I64AtomicRmw16OrU { memarg }
        | Operator::I64AtomicRmw32OrU { memarg }
        | Operator::I32AtomicRmwXor { memarg }
        | Operator::I64AtomicRmwXor { memarg }
        | Operator::I32AtomicRmw8XorU { memarg }
        | Operator::I32AtomicRmw16XorU { memarg }
        | Operator::I64AtomicRmw8XorU { memarg }
        | Operator::I64AtomicRmw16XorU { memarg }
        | Operator::I64AtomicRmw32XorU { memarg }
        | Operator::I32AtomicRmwXchg { memarg }
        | Operator::I64AtomicRmwXchg { memarg }
        | Operator::I32AtomicRmw8XchgU { memarg }
        | Operator::I32AtomicRmw16XchgU { memarg }
        | Operator::I64AtomicRmw8XchgU { memarg }
        | Operator::I64AtomicRmw16XchgU { memarg }
        | Operator::I64AtomicRmw32XchgU { memarg }
        | Operator::I32AtomicRmwCmpxchg { memarg }
        | Operator::I64AtomicRmwCmpxchg { memarg }
        | Operator::I32AtomicRmw8CmpxchgU { memarg }
        | Operator::I32AtomicRmw16CmpxchgU { memarg }
        | Operator::I64AtomicRmw8CmpxchgU { memarg }
        | Operator::I64AtomicRmw16CmpxchgU { memarg }
        | Operator::I64AtomicRmw32CmpxchgU { memarg }
        | Operator::V128Load { memarg }
        | Operator::V128Load8x8S { memarg }
        | Operator::V128Load8x8U { memarg }
        | Operator::V128Load16x4S { memarg }
        | Operator::V128Load16x4U { memarg }
        | Operator::V128Load32x2S { memarg }
        | Operator::V128Load32x2U { memarg }
        | Operator::V128Load8Splat { memarg }
        | Operator::V128Load16Splat { memarg }
        | Operator::V128Load32Splat { memarg }
        | Operator::V128Load64Splat { memarg }
        | Operator::V128Load32Zero { memarg }
        | Operator::V128Load64Zero { memarg }
        | Operator::V128Store { memarg } => memarg_text(memarg),
        Operator::V128Const { value } => vector_text(vector_bytes(value)),
        Operator::I8x16ExtractLaneS { lane }
        | Operator::I8x16ExtractLaneU { lane }
        | Operator::I8x16ReplaceLane { lane }
        | Operator::I16x8ExtractLaneS { lane }
        | Operator::I16x8ExtractLaneU { lane }
        | Operator::I16x8ReplaceLane { lane }
        | Operator::I32x4ExtractLane { lane }
        | Operator::I32x4ReplaceLane { lane }
        | Operator::I64x2ExtractLane { lane }
        | Operator::I64x2ReplaceLane { lane }
        | Operator::F32x4ExtractLane { lane }
        | Operator::F32x4ReplaceLane { lane }
        | Operator::F64x2ExtractLane { lane }
        | Operator::F64x2ReplaceLane { lane } => number_text(lane as nat),
        Operator::I8x16Shuffle { lanes } => lanes_text(lanes@),
        Operator::V128Load8Lane { memarg, lane }
        | Operator::V128Load16Lane { memarg, lane }
        | Operator::V128Load32Lane { memarg, lane }
        | Operator::V128Load64Lane { memarg, lane }
        | Operator::V128Store8Lane { memarg, lane }
        | Operator::V128Store16Lane { memarg, lane }
        | Operator::V128Store32Lane { memarg, lane }
        | Operator::V128Store64Lane { memarg, lane } => memarg_text(memarg) + number_text(lane as nat),
        _ => Seq::empty(),
    }
}

/// The text of one instruction: its mnemonic, then ` <param>` in place of the
/// index where it reads or writes the local `param`, and its operands
/// otherwise.
pub open spec fn instr_text(op: Operator, param: Option<u32>, floats: Seq<FloatText>) -> Seq<char> {
    mnemonic(op) + (if accesses_local(op, param) {
        " <param>"@
    } else {
        operand_text(op, floats)
    })
}

/// Appends a blank and `n`.
fn push_number(out: &mut String, n: u64)
    ensures
        final(out)@ == old(out)@ + number_text(n as nat),
{
    out.append(" ");
    push_decimal(out, n);
    assert(out@ =~= old(out)@ + number_text(n as nat));
}

/// Appends each number of `numbers` after a blank.
fn push_numbers(out: &mut String, numbers: &Vec<u32>)
    ensures
        final(out)@ == old(out)@ + numbers_text(numbers@),
{
    let mut i: usize = 0;
    assert(numbers@.subrange(0, 0) =~= Seq::<u32>::empty());
    while i < numbers.len()
        invariant
            i <= numbers.len(),
            out@ == old(out)@ + numbers_text(numbers@.subrange(0, i as int)),
        decreases numbers.len() - i,
    {
        push_number(out, numbers[i] as u64);
        proof {
            let next = numbers@.subrange(0, i + 1);
            assert(next.drop_last() =~= numbers@.subrange(0, i as int));
            assert(next.last() == numbers@[i as int]);
            assert(out@ =~= old(out)@ + numbers_text(next));
        }
        i = i + 1;
    }
    assert(numbers@.subrange(0, numbers.len() as int) =~= numbers@);
}

/// Appends each lane index of `lanes` after a blank.
fn push_lanes(out: &mut String, lanes: &[u8; 16])
    ensures
        final(out)@ == old(out)@ + lanes_text(lanes@),
{
    let mut i: usize = 0;
    assert(lanes@.subrange(0, 0) =~= Seq::<u8>::empty());
    while i < 16
        invariant
            i <= 16,
            lanes@.len() == 16,
            out@ == old(out)@ + lanes_text(lanes@.subrange(0, i as int)),
        decreases 16 - i,
    {
        push_number(out, lanes[i] as u64);
        proof {
            let next = lanes@.subrange(0, i + 1);
            assert(next.drop_last() =~= lanes@.subrange(0, i as int));
            assert(next.last() == lanes@[i as int]);
            assert(out@ =~= old(out)@ + lanes_text(next));
        }
        i = i + 1;
    }
    assert(lanes@.subrange(0, 16) =~= lanes@);
}

/// Appends the operands of a memory access.
fn fmt_memarg(out: &mut String, memarg: &MemoryImmediate)
    ensures
        final(out)@ == old(out)@ + memarg_text(*memarg),
{
    if memarg.memory != 0 {
        out.append(" (memory ");
        push_decimal(out, memarg.memory as u64);
        out.append(")");
    }
    if memarg.offset != 0 {
        out.append(" offset=");
        push_decimal(out, memarg.offset as u64);
    }
    assert(out@ =~= old(out)@ + memarg_text(*memarg));
}

/// Appends one 32-bit word of a vector constant.
fn fmt_word(out: &mut String, bytes: &[u8; 16], word: usize)
    requires
        word < 4,
    ensures
        final(out)@ == old(out)@ + word_text(bytes@, word as int),
{
    out.append(" 0x");
    push_hex_byte(out, bytes[4 * word + 3]);
    push_hex_byte(out, bytes[4 * word + 2]);
    push_hex_byte(out, bytes[4 * word + 1]);
    push_hex_byte(out, bytes[4 * word]);
    assert(out@ =~= old(out)@ + word_text(bytes@, word as int));
}

/// Appends the four 32-bit words of a vector constant.
fn fmt_v128(out: &mut String, bytes: &[u8; 16])
    ensures
        final(out)@ == old(out)@ + vector_text(bytes@),
{
    fmt_word(out, bytes, 0);
    fmt_word(out, bytes, 1);
    fmt_word(out, bytes, 2);
    fmt_word(out, bytes, 3);
    assert(out@ =~= old(out)@ + vector_text(bytes@));
}

/// The text that `floats` gives for the constant `bits`.
pub fn find_float_text<'a>(floats: &'a Vec<FloatText>, bits: FloatBits) -> (text: &'a str)
    ensures
        text@ == float_text(floats@, bits),
{
    let mut i: usize = 0;
    assert(floats@.subrange(0, floats.len() as int) =~= floats@);
    while i < floats.len()
        invariant
            i <= floats.len(),
            float_text(floats@, bits) == float_text(
                floats@.subrange(i as int, floats.len() as int),
                bits,
            ),
        decreases floats.len() - i,
    {
        let same = match (floats[i].bits, bits) {
            (FloatBits::Single(a), FloatBits::Single(b)) => a == b,
            (FloatBits::Double(a), FloatBits::Double(b)) => a == b,
            _ => false,
        };
        proof {
            let rest = floats@.subrange(i as int, floats.len() as int);
            assert(rest[0] == floats@[i as int]);
            assert(rest.drop_first() =~= floats@.subrange(i + 1, floats.len() as int));
        }
        if same {
            return floats[i].text.as_str();
        }
        i = i + 1;
    }
    proof {
        reveal_strlit("");
        assert(""@ =~= Seq::<char>::empty());
    }
    ""
}

/// Appends the operands of `op`.
///
/// Fails, and appends nothing, only for a `br_table` whose targets cannot be
/// read.
pub fn fmt_instr_args(out: &mut String, op: &Operator, floats: &Vec<FloatText>) -> (done: Result<
    (),
    ExtractError,
>)
    ensures
        match operand_failure(*op) {
            None => done is Ok && final(out)@ == old(out)@ + operand_text(*op, floats@),
            Some(error) => done matches Err(found) && found == ExtractError::Wasm(error)
                && final(out)@ == old(out)@,
        },
{
    match op {
        Operator::Rethrow { relative_depth }
        | Operator::Br { relative_depth }
        | Operator::BrIf { relative_depth } => push_number(out, *relative_depth as u64),
        Operator::BrTable { table } => {
            match br_table_targets(table) {
                Ok(targets) => push_numbers(out, &targets),
                Err(error) => {
                    return Err(ExtractError::Wasm(error));
                },
            }
        },
        Operator::LocalGet { local_index }
        | Operator::LocalSet { local_index }
        | Operator::LocalTee { local_index } => push_number(out, *local_index as u64),
        Operator::GlobalGet { global_index }
        | Operator::GlobalSet { global_index } => push_number(out, *global_index as u64),
        Operator::MemorySize { mem, .. } | Operator::MemoryGrow { mem, .. } => {
            if *mem != 0 {
                push_number(out, *mem as u64);
            }
        },
        Operator::I32Const { value } => {
            out.append(" ");
            push_signed_decimal(out, *value as i64);
        },
        Operator::I64Const { value } => {
            out.append(" ");
            push_signed_decimal(out, *value);
        },
        Operator::F32Const { value } => {
            out.append(" ");
            out.append(find_float_text(floats, FloatBits::Single(value.bits())));
        },
        Operator::F64Const { value } => {
            out.append(" ");
            out.append(find_float_text(floats, FloatBits::Double(value.bits())));
        },
        Operator::MemoryInit { segment, mem } => {
            push_number(out, *segment as u64);
            push_number(out, *mem as u64);
        },
        Operator::DataDrop { segment } => push_number(out, *segment as u64),
        Operator::MemoryCopy { src, dst } => {
            push_number(out, *src as u64);
            push_number(out, *dst as u64);
        },
        Operator::MemoryFill { mem } => push_number(out, *mem as u64),
        Operator::TableInit { segment, table } => {
            push_number(out, *table as u64);
            push_number(out, *segment as u64);
        },
        Operator::ElemDrop { segment } => push_number(out, *segment as u64),
        Operator::TableCopy { dst_table, src_table } => {
            push_number(out, *src_table as u64);
            push_number(out, *dst_table as u64);
        },
        Operator::TableGet { table }
        | Operator::TableSet { table }
        | Operator::TableGrow { table }
        | Operator::TableSize { table }
        | Operator::TableFill { table } => push_number(out, *table as u64),
        Operator::I32Load { memarg }
        | Operator::I64Load { memarg }
        | Operator::F32Load { memarg }
        | Operator::F64Load { memarg }
        | Operator::I32Load8S { memarg }
        | Operator::I32Load8U { memarg }
        | Operator::I32Load16S { memarg }
        | Operator::I32Load16U { memarg }
        | Operator::I64Load8S { memarg }
        | Operator::I64Load8U { memarg }
        | Operator::I64Load16S { memarg }
        | Operator::I64Load16U { memarg }
        | Operator::I64Load32S { memarg }
        | Operator::I64Load32U { memarg }
        | Operator::I32Store { memarg }
        | Operator::I64Store { memarg }
        | Operator::F32Store { memarg }
        | Operator::F64Store { memarg }
        | Operator::I32Store8 { memarg }
        | Operator::I32Store16 { memarg }
        | Operator::I64Store8 { memarg }
        | Operator::I64Store16 { memarg }
        | Operator::I64Store32 { memarg }
        | Operator::MemoryAtomicNotify { memarg }
        | Operator::MemoryAtomicWait32 { memarg }
        | Operator::MemoryAtomicWait64 { memarg }
        | Operator::I32AtomicLoad { memarg }
        | Operator::I64AtomicLoad { memarg }
        | Operator::I32AtomicLoad8U { memarg }
        | Operator::I32AtomicLoad16U { memarg }
        | Operator::I64AtomicLoad8U { memarg }
        | Operator::I64AtomicLoad16U { memarg }
        | Operator::I64AtomicLoad32U { memarg }
        | Operator::I32AtomicStore { memarg }
        | Operator::I64AtomicStore { memarg }
        | Operator::I32AtomicStore8 { memarg }
        | Operator::I32AtomicStore16 { memarg }
        | Operator::I64AtomicStore8 { memarg }
        | Operator::I64AtomicStore16 { memarg }
        | Operator::I64AtomicStore32 { memarg }
        | Operator::I32AtomicRmwAdd { memarg }
        | Operator::I64AtomicRmwAdd { memarg }
        | Operator::I32AtomicRmw8AddU { memarg }
        | Operator::I32AtomicRmw16AddU { memarg }
        | Operator::I64AtomicRmw8AddU { memarg }
        | Operator::I64AtomicRmw16AddU { memarg }
        | Operator::I64AtomicRmw32AddU { memarg }
        | Operator::I32AtomicRmwSub { memarg }
        | Operator::I64AtomicRmwSub { memarg }
        | Operator::I32AtomicRmw8SubU { memarg }
        | Operator::I32AtomicRmw16SubU { memarg }
        | Operator::I64AtomicRmw8SubU { memarg }
        | Operator::I64AtomicRmw16SubU { memarg }
        | Operator::I64AtomicRmw32SubU { memarg }
        | Operator::I32AtomicRmwAnd { memarg }
        | Operator::I64AtomicRmwAnd { memarg }
        | Operator::I32AtomicRmw8AndU { memarg }
        | Operator::I32AtomicRmw16AndU { memarg }
        | Operator::I64AtomicRmw8AndU { memarg }
        | Operator::I64AtomicRmw16AndU { memarg }
        | Operator::I64AtomicRmw32AndU { memarg }
        | Operator::I32AtomicRmwOr { memarg }
        | Operator::I64AtomicRmwOr { memarg }
        | Operator::I32AtomicRmw8OrU { memarg }
        | Operator::I32AtomicRmw16OrU { memarg }
        | Operator::I64AtomicRmw8OrU { memarg }
        | Operator::I64AtomicRmw16OrU { memarg }
        | Operator::I64AtomicRmw32OrU { memarg }
        | Operator::I32AtomicRmwXor { memarg }
        | Operator::I64AtomicRmwXor { memarg }
        | Operator::I32AtomicRmw8XorU { memarg }
        | Operator::I32AtomicRmw16XorU { memarg }
        | Operator::I64AtomicRmw8XorU { memarg }
        | Operator::I64AtomicRmw16XorU { memarg }
        | Operator::I64AtomicRmw32XorU { memarg }
        | Operator::I32AtomicRmwXchg { memarg }
        | Operator::I64AtomicRmwXchg { memarg }
        | Operator::I32AtomicRmw8XchgU { memarg }
        | Operator::I32AtomicRmw16XchgU { memarg }
        | Operator::I64AtomicRmw8XchgU { memarg }
        | Operator::I64AtomicRmw16XchgU { memarg }
        | Operator::I64AtomicRmw32XchgU { memarg }
        | Operator::I32AtomicRmwCmpxchg { memarg }
        | Operator::I64AtomicRmwCmpxchg { memarg }
        | Operator::I32AtomicRmw8CmpxchgU { memarg }
        | Operator::I32AtomicRmw16CmpxchgU { memarg }
        | Operator::I64AtomicRmw8CmpxchgU { memarg }
        | Operator::I64AtomicRmw16CmpxchgU { memarg }
        | Operator::I64AtomicRmw32CmpxchgU { memarg }
        | Operator::V128Load { memarg }
        | Operator::V128Load8x8S { memarg }
        | Operator::V128Load8x8U { memarg }
        | Operator::V128Load16x4S { memarg }
        | Operator::V128Load16x4U { memarg }
        | Operator::V128Load32x2S { memarg }
        | Operator::V128Load32x2U { memarg }
        | Operator::V128Load8Splat { memarg }
        | Operator::V128Load16Splat { memarg }
        | Operator::V128Load32Splat { memarg }
        | Operator::V128Load64Splat { memarg }
        | Operator::V128Load32Zero { memarg }
        | Operator::V128Load64Zero { memarg }
        | Operator::V128Store { memarg } => fmt_memarg(out, memarg),
        Operator::V128Const { value } => fmt_v128(out, value.bytes()),
        Operator::I8x16ExtractLaneS { lane }
        | Operator::I8x16ExtractLaneU { lane }
        | Operator::I8x16ReplaceLane { lane }
        | Operator::I16x8ExtractLaneS { lane }
        | Operator::I16x8ExtractLaneU { lane }
        | Operator::I16x8ReplaceLane { lane }
        | Operator::I32x4ExtractLane { lane }
        | Operator::I32x4ReplaceLane { lane }
        | Operator::I64x2ExtractLane { lane }
        | Operator::I64x2ReplaceLane { lane }
        | Operator::F32x4ExtractLane { lane }
        | Operator::F32x4ReplaceLane { lane }
        | Operator::F64x2ExtractLane { lane }
        | Operator::F64x2ReplaceLane { lane } => push_number(out, *lane as u64),
        Operator::I8x16Shuffle { lanes } => push_lanes(out, lanes),
        Operator::V128Load8Lane { memarg, lane }
        | Operator::V128Load16Lane { memarg, lane }
        | Operator::V128Load32Lane { memarg, lane }
        | Operator::V128Load64Lane { memarg, lane }
        | Operator::V128Store8Lane { memarg, lane }
        | Operator::V128Store16Lane { memarg, lane }
        | Operator::V128Store32Lane { memarg, lane }
        | Operator::V128Store64Lane { memarg, lane } => {
            fmt_memarg(out, memarg);
            push_number(out, *lane as u64);
        },
        _ => {},
    }
    assert(out@ =~= old(out)@ + operand_text(*op, floats@));
    Ok(())
}

/// Appends the text of one instruction.
///
/// Fails, and appends nothing, only for a `br_table` whose targets cannot be
/// read.
pub fn fmt_instr(
    out: &mut String,
    op: &Operator,
    param_local_idx: Option<u32>,
    floats: &Vec<FloatText>,
) -> (done: Result<(), ExtractError>)
    ensures
        match operand_failure(*op) {
            None => done is Ok && final(out)@ == old(out)@ + instr_text(
                *op,
                param_local_idx,
                floats@,
            ),
            Some(error) => done matches Err(found) && found == ExtractError::Wasm(error)
                && final(out)@ == old(out)@,
        },
{
    if is_local_access(op, param_local_idx) {
        out.append(instr_name(op));
        out.append(" <param>");
        assert(out@ =~= old(out)@ + instr_text(*op, param_local_idx, floats@));
        Ok(())
    } else {
        let mut operands = String::new();
        match fmt_instr_args(&mut operands, op, floats) {
            Ok(()) => {
                out.append(instr_name(op));
                out.append(operands.as_str());
                assert(out@ =~= old(out)@ + instr_text(*op, param_local_idx, floats@));
                Ok(())
            },
            Err(error) => Err(error),
        }
    }
}

} // verus!
