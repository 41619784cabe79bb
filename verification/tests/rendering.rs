use std::rc::Rc;

use wasmparser::Operator::{
    AtomicFence, Call, CatchAll, End, F64ReinterpretI64, GlobalGet, I16x8ExtendLowI8x16S,
    I32Const, I32TruncSatF64U, I32x4ExtAddPairwiseI16x8U, I64Rotr, I64x2ExtendHighI32x4U,
    I8x16RoundingAverageU, LocalGet, LocalSet, LocalTee, MemoryCopy, Nop, Return, Select,
    TypedSelect, Unreachable, Unwind,
};
use wasmparser::Type::{EmptyBlockType, ExnRef, ExternRef, FuncRef, Func, F32, F64, I32, I64, V128};

use wasm_type_samples::error::ExtractError;
use wasm_type_samples::samples::sample::ParamOrReturn;
use wasm_type_samples::samples::wasm_repr::{complete, complete_prefix, WasmRepr};
use wasm_type_samples::text::{push_decimal, push_hex, push_signed_decimal, same_text};
use wasm_type_samples::wasm::fmt::{
    find_float_text, fmt_instr, fmt_instr_args, has_type_str, instr_name, is_local_access,
    type_str, FloatBits, FloatText,
};
use wasm_type_samples::wasm::parse::WasmBody;

fn body(code: &[u8]) -> WasmBody {
    let mut bytes = vec![0x00];
    bytes.extend_from_slice(code);
    WasmBody { offset: 0, bytes: Rc::new(bytes) }
}

/// The text of each instruction of `code`, for a sample about local 0.
fn texts(code: &[u8]) -> Vec<String> {
    let body = body(code);
    let instructions = complete(body.instructions()).unwrap();
    instructions
        .iter()
        .map(|op| {
            let mut text = String::new();
            fmt_instr(&mut text, op, Some(0), &vec![]).unwrap();
            text
        })
        .collect()
}

fn text(code: &[u8]) -> String {
    let texts = texts(code);
    assert_eq!(texts.len(), 1);
    texts.into_iter().next().unwrap()
}

#[test]
fn decimal_numbers() {
    let mut out = String::from(">");
    push_decimal(&mut out, 0);
    out.push(' ');
    push_decimal(&mut out, 9);
    out.push(' ');
    push_decimal(&mut out, 10);
    out.push(' ');
    push_decimal(&mut out, 1234567890);
    out.push(' ');
    push_decimal(&mut out, u64::MAX);
    assert_eq!(out, ">0 9 10 1234567890 18446744073709551615");
}

#[test]
fn signed_decimal_numbers() {
    let mut out = String::new();
    push_signed_decimal(&mut out, 0);
    out.push(' ');
    push_signed_decimal(&mut out, -1);
    out.push(' ');
    push_signed_decimal(&mut out, 42);
    out.push(' ');
    push_signed_decimal(&mut out, i64::MIN);
    out.push(' ');
    push_signed_decimal(&mut out, i64::MAX);
    assert_eq!(out, "0 -1 42 -9223372036854775808 9223372036854775807");
}

#[test]
fn hexadecimal_bytes() {
    let mut out = String::from("x");
    push_hex(&mut out, &[0x00, 0x0f, 0xa0, 0xff, 0x5c]);
    assert_eq!(out, "x000fa0ff5c");
    let mut empty = String::new();
    push_hex(&mut empty, &[]);
    assert_eq!(empty, "");
}

#[test]
fn texts_are_compared_by_their_characters() {
    assert!(same_text("name", "name"));
    assert!(!same_text("name", "names"));
    assert!(!same_text("", "a"));
    assert!(same_text("", ""));
}

#[test]
fn value_types_have_names() {
    let names: Vec<_> = [I32, I64, F32, F64, V128, FuncRef, ExternRef, ExnRef]
        .iter()
        .map(|ty| {
            assert!(has_type_str(*ty));
            type_str(*ty)
        })
        .collect();
    assert_eq!(names, vec!["i32", "i64", "f32", "f64", "v128", "funcref", "externref", "exnref"]);
    assert!(!has_type_str(Func));
    assert!(!has_type_str(EmptyBlockType));
}

#[test]
fn mnemonics() {
    assert_eq!(instr_name(&Nop), "nop");
    assert_eq!(instr_name(&Unreachable), "unreachable");
    assert_eq!(instr_name(&End), "end");
    assert_eq!(instr_name(&Return), "return");
    assert_eq!(instr_name(&Select), "select");
    assert_eq!(instr_name(&TypedSelect { ty: I32 }), "select");
    assert_eq!(instr_name(&LocalGet { local_index: 7 }), "local.get");
    assert_eq!(instr_name(&LocalGet { local_index: 0 }), "local.get");
    assert_eq!(instr_name(&I32Const { value: 1 }), instr_name(&I32Const { value: -1 }));
    assert_eq!(instr_name(&Call { function_index: 1 }), "call");
    assert_eq!(instr_name(&I64Rotr), "i64.rotr");
    assert_eq!(instr_name(&F64ReinterpretI64), "f64.reinterpret_i64");
    assert_eq!(instr_name(&I32TruncSatF64U), "i32.trunc_sat_f64_u");
    assert_eq!(instr_name(&MemoryCopy { src: 0, dst: 0 }), "memory.copy");
    assert_eq!(instr_name(&MemoryCopy { src: 1, dst: 2 }), "memory.copy");
    assert_eq!(instr_name(&AtomicFence { flags: 0 }), "atomic.fence");
    assert_eq!(instr_name(&I16x8ExtendLowI8x16S), "i16x8.widen_low_i8x16_s");
    assert_eq!(instr_name(&I64x2ExtendHighI32x4U), "i64x2.widen_high_i32x4_u");
    assert_eq!(instr_name(&I8x16RoundingAverageU), "i8x16.avgr_u");
    assert_eq!(instr_name(&I32x4ExtAddPairwiseI16x8U), "i32x4.extadd_pairwise_i16x8_u");
    assert_eq!(instr_name(&Unwind), "unwind");
    assert_eq!(instr_name(&CatchAll), "catch_all");
}

#[test]
fn local_accesses_of_the_parameter() {
    assert!(is_local_access(&LocalGet { local_index: 2 }, Some(2)));
    assert!(is_local_access(&LocalSet { local_index: 2 }, Some(2)));
    assert!(is_local_access(&LocalTee { local_index: 2 }, Some(2)));
    assert!(!is_local_access(&LocalGet { local_index: 2 }, Some(3)));
    assert!(!is_local_access(&LocalGet { local_index: 2 }, None));
    assert!(!is_local_access(&GlobalGet { global_index: 2 }, Some(2)));
    assert!(!is_local_access(&I32Const { value: 2 }, Some(2)));
}

#[test]
fn branches_print_their_targets() {
    assert_eq!(text(&[0x0c, 0x02]), "br 2");
    assert_eq!(text(&[0x0d, 0x00]), "br_if 0");
    assert_eq!(text(&[0x0e, 0x02, 0x01, 0x02, 0x00]), "br_table 1 2 0");
    assert_eq!(text(&[0x0e, 0x00, 0x85, 0x01]), "br_table 133");
}

#[test]
fn branch_table_that_cannot_be_read_is_a_failure() {
    // The only target is written in five bytes with bits beyond the 32nd.
    let body = body(&[0x0e, 0x00, 0x80, 0x80, 0x80, 0x80, 0x7f, 0x0b]);
    let instructions = complete(body.instructions()).unwrap();
    assert_eq!(instructions.len(), 2);
    let mut out = String::from("before");
    let result = fmt_instr(&mut out, &instructions[0], None, &vec![]);
    assert!(matches!(result, Err(ExtractError::Wasm(_))));
    assert_eq!(out, "before");
    let result = fmt_instr_args(&mut out, &instructions[0], &vec![]);
    assert!(matches!(result, Err(ExtractError::Wasm(_))));
    assert_eq!(out, "before");
    let rendered =
        WasmRepr::instructions_to_string(&instructions, &ParamOrReturn::Return, &vec![]);
    assert!(matches!(rendered, Err(ExtractError::Wasm(_))));
    // A window that does not hold the instruction is rendered.
    let windows =
        WasmRepr::select_windows(&instructions, &ParamOrReturn::Return, 1, &vec![]);
    assert!(matches!(windows, Err(ExtractError::Wasm(_))));
    let subrange =
        WasmRepr::subrange_of(&instructions, &ParamOrReturn::Return, 1, None, &vec![]).unwrap();
    assert_eq!(subrange.to_text(), "end");
}

#[test]
fn administrative_operands_are_not_printed() {
    assert_eq!(text(&[0x02, 0x40]), "block");
    assert_eq!(text(&[0x03, 0x7f]), "loop");
    assert_eq!(text(&[0x04, 0x40]), "if");
    assert_eq!(text(&[0x10, 0x05]), "call");
    assert_eq!(text(&[0x11, 0x01, 0x00]), "call_indirect");
    assert_eq!(text(&[0x3f, 0x00]), "memory.size");
    assert_eq!(text(&[0x40, 0x00]), "memory.grow");
    assert_eq!(text(&[0xd2, 0x03]), "ref.func");
    assert_eq!(text(&[0xd0, 0x70]), "ref.null");
    assert_eq!(text(&[0x1c, 0x01, 0x7f]), "select");
}

#[test]
fn locals_and_globals_print_their_index() {
    assert_eq!(text(&[0x20, 0x00]), "local.get <param>");
    assert_eq!(text(&[0x21, 0x00]), "local.set <param>");
    assert_eq!(text(&[0x22, 0x00]), "local.tee <param>");
    assert_eq!(text(&[0x20, 0x03]), "local.get 3");
    assert_eq!(text(&[0x21, 0x80, 0x01]), "local.set 128");
    assert_eq!(text(&[0x23, 0x00]), "global.get 0");
    assert_eq!(text(&[0x24, 0x07]), "global.set 7");
}

#[test]
fn integer_constants_print_their_value() {
    assert_eq!(text(&[0x41, 0x00]), "i32.const 0");
    assert_eq!(text(&[0x41, 0x7d]), "i32.const -3");
    assert_eq!(text(&[0x41, 0x80, 0x80, 0x80, 0x80, 0x78]), "i32.const -2147483648");
    assert_eq!(text(&[0x41, 0xff, 0xff, 0xff, 0xff, 0x07]), "i32.const 2147483647");
    assert_eq!(text(&[0x42, 0x2a]), "i64.const 42");
    assert_eq!(
        text(&[0x42, 0x80, 0x80, 0x80, 0x80, 0x80, 0x80, 0x80, 0x80, 0x80, 0x7f]),
        "i64.const -9223372036854775808"
    );
}

#[test]
fn float_constants_print_the_text_for_their_bits() {
    let floats = vec![
        FloatText { bits: FloatBits::Single(1), text: "single one".to_string() },
        FloatText { bits: FloatBits::Double(1), text: "double one".to_string() },
        FloatText { bits: FloatBits::Single(1), text: "later".to_string() },
    ];
    assert_eq!(find_float_text(&floats, FloatBits::Single(1)), "single one");
    assert_eq!(find_float_text(&floats, FloatBits::Double(1)), "double one");
    assert_eq!(find_float_text(&floats, FloatBits::Double(2)), "");
    let body = body(&[0x43, 0x01, 0x00, 0x00, 0x00, 0x44, 0x01, 0, 0, 0, 0, 0, 0, 0, 0x43, 0, 0, 0, 0]);
    let instructions = complete(body.instructions()).unwrap();
    let constants = WasmRepr::float_constants(&instructions);
    assert_eq!(constants.len(), 3);
    assert!(matches!(constants[0], FloatBits::Single(1)));
    assert!(matches!(constants[1], FloatBits::Double(1)));
    assert!(matches!(constants[2], FloatBits::Single(0)));
    let text =
        WasmRepr::instructions_to_string(&instructions, &ParamOrReturn::Return, &floats).unwrap();
    assert_eq!(text, "f32.const single one ; f64.const double one ; f32.const ");
}

#[test]
fn memory_accesses_print_memory_and_offset() {
    assert_eq!(text(&[0x28, 0x02, 0x00]), "i32.load");
    assert_eq!(text(&[0x28, 0x02, 0x10]), "i32.load offset=16");
    assert_eq!(text(&[0x36, 0x02, 0x88, 0x01]), "i32.store offset=136");
    assert_eq!(text(&[0x29, 0x43, 0x08, 0x01]), "i64.load (memory 1) offset=8");
    assert_eq!(text(&[0x2d, 0x40, 0x00, 0x02]), "i32.load8_u (memory 2)");
    assert_eq!(text(&[0xfe, 0x10, 0x02, 0x04]), "i32.atomic.load offset=4");
    assert_eq!(text(&[0xfd, 0x00, 0x04, 0x20]), "v128.load offset=32");
    assert_eq!(text(&[0x3f, 0x01]), "memory.size 1");
    assert_eq!(text(&[0x40, 0x02]), "memory.grow 2");
}

#[test]
fn bulk_memory_and_tables_print_their_indices() {
    assert_eq!(text(&[0xfc, 0x08, 0x01, 0x00]), "memory.init 1 0");
    assert_eq!(text(&[0xfc, 0x09, 0x03]), "data.drop 3");
    assert_eq!(text(&[0xfc, 0x0a, 0x00, 0x00]), "memory.copy 0 0");
    assert_eq!(text(&[0xfc, 0x0b, 0x00]), "memory.fill 0");
    assert_eq!(text(&[0xfc, 0x0c, 0x05, 0x02]), "table.init 2 5");
    assert_eq!(text(&[0xfc, 0x0d, 0x04]), "elem.drop 4");
    assert_eq!(text(&[0xfc, 0x0e, 0x01, 0x02]), "table.copy 2 1");
    assert_eq!(text(&[0x25, 0x00]), "table.get 0");
    assert_eq!(text(&[0x26, 0x03]), "table.set 3");
    assert_eq!(text(&[0xfc, 0x0f, 0x01]), "table.grow 1");
    assert_eq!(text(&[0xfc, 0x10, 0x01]), "table.size 1");
    assert_eq!(text(&[0xfc, 0x11, 0x01]), "table.fill 1");
}

#[test]
fn vectors_print_constants_and_lanes() {
    let mut constant = vec![0xfd, 0x0c];
    constant.extend((0u8..16).map(|byte| byte * 0x11));
    assert_eq!(
        text(&constant),
        "v128.const i32x4 0x33221100 0x77665544 0xbbaa9988 0xffeeddcc"
    );
    let mut shuffle = vec![0xfd, 0x0d];
    shuffle.extend(0u8..16);
    assert_eq!(text(&shuffle), "i8x16.shuffle 0 1 2 3 4 5 6 7 8 9 10 11 12 13 14 15");
    assert_eq!(text(&[0xfd, 0x15, 0x0f]), "i8x16.extract_lane_s 15");
    assert_eq!(text(&[0xfd, 0x54, 0x00, 0x08, 0x03]), "v128.load8_lane offset=8 3");
    assert_eq!(text(&[0xfd, 0x54, 0x00, 0x00, 0x00]), "v128.load8_lane 0");
    assert_eq!(text(&[0xfd, 0x87, 0x01]), "i16x8.widen_low_i8x16_s");
}

#[test]
fn instructions_are_joined_with_semicolons() {
    let body = body(&[0x20, 0x01, 0x20, 0x00, 0x6a, 0x0b]);
    let instructions = complete(body.instructions()).unwrap();
    let param = ParamOrReturn::Param { idx: 1, name: Some("x".to_string()) };
    let text = WasmRepr::instructions_to_string(&instructions, &param, &vec![]).unwrap();
    assert_eq!(text, "local.get <param> ; local.get 0 ; i32.add ; end");
    let none = WasmRepr::instructions_to_string(&vec![], &param, &vec![]).unwrap();
    assert_eq!(none, "");
}

#[test]
fn decoded_instructions_up_to_a_broken_one() {
    let broken = body(&[0x01, 0x01, 0xff, 0x01]);
    let decoded = broken.instructions().unwrap();
    assert_eq!(decoded.items.len(), 2);
    assert!(decoded.failure.is_some());
    assert!(complete(broken.instructions()).is_err());
    assert_eq!(complete_prefix(broken.instructions(), 2).unwrap().len(), 2);
    assert_eq!(complete_prefix(broken.instructions(), 1).unwrap().len(), 1);
    assert!(complete_prefix(broken.instructions(), 3).is_err());
    let sound = body(&[0x01, 0x0b]);
    assert_eq!(complete_prefix(sound.instructions(), 5).unwrap().len(), 2);
    // Declarations of locals that end too early.
    let no_locals = WasmBody { offset: 0, bytes: Rc::new(vec![0x01]) };
    assert!(no_locals.instructions().is_err());
    assert!(complete_prefix(no_locals.instructions(), 0).is_err());
}

#[test]
fn bodies_are_cut_from_their_module() {
    let module = [9u8, 8, 7, 6, 5];
    let body = WasmBody::from(1, 4, &module).unwrap();
    assert_eq!(body.offset, 1);
    assert_eq!(body.bytes.as_slice(), &[8, 7, 6]);
    assert_eq!(WasmBody::from(2, 2, &module).unwrap().bytes.len(), 0);
    assert!(WasmBody::from(3, 2, &module).is_none());
    assert!(WasmBody::from(0, 6, &module).is_none());
    let shared = body.share();
    assert_eq!(shared.offset, 1);
    assert!(Rc::ptr_eq(&shared.bytes, &body.bytes));
}

#[test]
fn windows_around_a_parameter_at_the_edges() {
    // local.get 0 ; nop ; nop ; nop ; local.set 0
    let body = body(&[0x20, 0x00, 0x01, 0x01, 0x01, 0x21, 0x00]);
    let instructions = complete(body.instructions()).unwrap();
    let param = ParamOrReturn::Param { idx: 0, name: None };
    let windows = |size: usize| {
        WasmRepr::select_windows(&instructions, &param, size, &vec![]).unwrap()
    };
    assert_eq!(windows(1), vec!["local.get <param>", "local.set <param>"]);
    assert_eq!(windows(2), vec!["local.get <param>", "nop ; local.set <param>"]);
    assert_eq!(windows(3), vec!["local.get <param> ; nop", "nop ; local.set <param>"]);
    assert_eq!(
        windows(4),
        vec!["local.get <param> ; nop", "nop ; nop ; local.set <param>"]
    );
    assert_eq!(
        windows(100),
        vec![
            "local.get <param> ; nop ; nop ; nop ; local.set <param>",
            "local.get <param> ; nop ; nop ; nop ; local.set <param>"
        ]
    );
    assert!(matches!(
        WasmRepr::select_windows(&instructions, &param, 0, &vec![]),
        Err(ExtractError::EmptyWindow)
    ));
}

#[test]
fn windows_before_returns() {
    // nop ; return ; nop ; return ; end
    let body = body(&[0x01, 0x0f, 0x01, 0x0f, 0x0b]);
    let instructions = complete(body.instructions()).unwrap();
    let windows = |size: usize| {
        WasmRepr::select_windows(&instructions, &ParamOrReturn::Return, size, &vec![]).unwrap()
    };
    // The window before the last instruction ends with a return as well,
    // and is kept once.
    assert_eq!(windows(1), vec!["return", "return"]);
    assert_eq!(windows(3), vec!["nop ; return", "return ; nop ; return"]);
    let none = WasmRepr::select_windows(&vec![], &ParamOrReturn::Return, 3, &vec![]).unwrap();
    assert!(none.is_empty());
}

#[test]
fn lines_of_renderings() {
    let windows = WasmRepr::Windows(
        Some(wasmparser::Type::F64),
        vec!["a ; b".to_string(), "c".to_string(), String::new()],
    );
    assert_eq!(windows.to_text(), "f64 <begin> a ; b <window> c <window> ");
    assert_eq!(WasmRepr::Windows(None, vec![]).to_text(), "");
    assert_eq!(WasmRepr::Full(None, "nop".to_string()).to_text(), "nop");
    assert_eq!(
        WasmRepr::Subrange(Some(wasmparser::Type::I64), "nop".to_string()).to_text(),
        "i64 <begin> nop"
    );
    assert_eq!(WasmRepr::Hash(Some(wasmparser::Type::V128), "00".to_string()).to_text(), "v128 <begin> 00");
    assert_eq!(windows.type_(), Some(wasmparser::Type::F64));
    let hash = WasmRepr::hash_of(b"", None).to_text();
    assert_eq!(hash, "e3b0c44298fc1c149afbf4c8996fb92427ae41e4649b934ca495991b7852b855");
}

#[test]
fn no_rendered_text_holds_the_marker_between_windows() {
    // local.get 0 ; i32.const -5 ; i32.load offset=4 ; br_table 0 1 ; local.tee 0 ; return ; end
    let body = body(&[
        0x20, 0x00, 0x41, 0x7b, 0x28, 0x02, 0x04, 0x0e, 0x01, 0x00, 0x01, 0x22, 0x00, 0x0f, 0x0b,
    ]);
    let instructions = complete(body.instructions()).unwrap();
    let param = ParamOrReturn::Param { idx: 0, name: None };
    let full = WasmRepr::instructions_to_string(&instructions, &param, &vec![]).unwrap();
    assert!(!full.contains("<window>"));
    assert!(full.contains("<param>"));
    for focus in [&param, &ParamOrReturn::Return] {
        for size in 1..9 {
            let windows = WasmRepr::select_windows(&instructions, focus, size, &vec![]).unwrap();
            assert!(!windows.is_empty());
            for window in &windows {
                assert!(!window.contains("<window>"), "{}", window);
            }
            let line = WasmRepr::Windows(None, windows.clone()).to_text();
            assert_eq!(line.matches(" <window> ").count(), windows.len() - 1);
        }
    }
}
