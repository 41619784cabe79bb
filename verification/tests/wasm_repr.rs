use std::rc::Rc;

use rand::rngs::StdRng;
use rand::{RngCore, SeedableRng};
use wasm_type_samples::options::{Options, Typedefs, WasmReprOption};
use wasm_type_samples::samples::sample::{ParamOrReturn, WasmTypeSample};
use wasm_type_samples::samples::wasm_repr::WasmRepr;
use wasm_type_samples::wasm::fmt::{FloatBits, FloatText};
use wasm_type_samples::wasm::parse::WasmBody;

fn options(seed: u64) -> Options {
    Options {
        inputs: vec![],
        output_dir: "out/".to_string(),
        log: None,
        verbose: false,
        stats_max: 20,
        rand_seed: seed,
        wasm_filter_unused_param: true,
        wasm_add_raw_type: true,
        wasm_repr: WasmReprOption::Windows,
        wasm_repr_size: Some(3),
        type_filter_unknown: true,
        type_remove_names: false,
        type_remove_const: false,
        type_class_to_struct: false,
        type_typedefs: Typedefs::Keep,
        type_save_name_stats: None,
        type_keep_name_list: None,
        type_name_flatten_outermost: false,
    }
}

fn sample(code: &[u8], param_or_return: ParamOrReturn) -> WasmTypeSample<WasmBody, ()> {
    // A body without declarations of locals.
    let mut bytes = vec![0x00];
    bytes.extend_from_slice(code);
    WasmTypeSample {
        file: "test.wasm".to_string(),
        compilation_unit: None,
        function_idx: 0,
        function_name_wasm: None,
        function_name_dwarf: None,
        param_or_return,
        wasm_type: wasmparser::Type::I32,
        wasm_body: WasmBody { offset: 0, bytes: Rc::new(bytes) },
        type_: (),
        aux: (),
    }
}

fn param(idx: u32) -> ParamOrReturn {
    ParamOrReturn::Param { idx, name: None }
}

const LOCAL_GET_0_ADD_END: [u8; 4] = [0x20, 0x00, 0x6a, 0x0b];

#[test]
fn windows_have_the_parameter_in_their_centre() {
    let sample = sample(&LOCAL_GET_0_ADD_END, param(0));
    let mut rng = options(0).rng_with_seed();
    let repr = WasmRepr::new_windows(&sample, 3, false, &mut rng, &vec![]).unwrap();
    match &repr {
        WasmRepr::Windows(None, windows) => {
            assert_eq!(windows, &vec!["local.get <param> ; i32.add".to_string()]);
        }
        other => panic!("{:?}", other),
    }
    assert_eq!(repr.to_text(), "local.get <param> ; i32.add");
}

#[test]
fn windows_of_another_parameter_are_empty() {
    let sample = sample(&LOCAL_GET_0_ADD_END, param(1));
    let mut rng = options(0).rng_with_seed();
    let repr = WasmRepr::new_windows(&sample, 3, true, &mut rng, &vec![]).unwrap();
    assert_eq!(repr.to_text(), "i32 <begin> ");
}

#[test]
fn window_size_zero_is_refused() {
    let sample = sample(&LOCAL_GET_0_ADD_END, param(0));
    let mut rng = options(0).rng_with_seed();
    assert!(WasmRepr::new_windows(&sample, 0, false, &mut rng, &vec![]).is_err());
}

#[test]
fn return_windows_end_before_return_and_before_the_last_instruction() {
    // local.get 0 ; return ; i32.const 7 ; end
    let sample = sample(&[0x20, 0x00, 0x0f, 0x41, 0x07, 0x0b], ParamOrReturn::Return);
    let decoded = sample.wasm_body.instructions().unwrap();
    assert!(decoded.failure.is_none());
    let windows =
        WasmRepr::select_windows(&decoded.items, &ParamOrReturn::Return, 2, &vec![]).unwrap();
    assert_eq!(
        windows,
        vec!["local.get 0 ; return".to_string(), "return ; i32.const 7".to_string()]
    );
}

#[test]
fn return_window_of_a_body_of_one_instruction_is_empty() {
    let sample = sample(&[0x0b], ParamOrReturn::Return);
    let decoded = sample.wasm_body.instructions().unwrap();
    let windows =
        WasmRepr::select_windows(&decoded.items, &ParamOrReturn::Return, 3, &vec![]).unwrap();
    assert_eq!(windows, vec![String::new()]);
}

#[test]
fn shuffling_keeps_every_window() {
    // local.get 0 ; local.set 0 ; local.tee 0 ; drop ; end
    let sample = sample(&[0x20, 0x00, 0x21, 0x00, 0x22, 0x00, 0x1a, 0x0b], param(0));
    let decoded = sample.wasm_body.instructions().unwrap();
    let mut selected = WasmRepr::select_windows(&decoded.items, &param(0), 1, &vec![]).unwrap();
    assert_eq!(selected, vec!["local.get <param>", "local.set <param>", "local.tee <param>"]);
    let mut rng = options(7).rng_with_seed();
    let repr = WasmRepr::new_windows(&sample, 1, false, &mut rng, &vec![]).unwrap();
    let WasmRepr::Windows(_, mut shuffled) = repr else { panic!() };
    shuffled.sort();
    selected.sort();
    assert_eq!(shuffled, selected);
}

#[test]
fn same_seed_gives_the_same_order() {
    let sample = sample(&[0x20, 0x00, 0x21, 0x00, 0x22, 0x00, 0x20, 0x00, 0x1a, 0x0b], param(0));
    let first = WasmRepr::new_windows(&sample, 3, true, &mut options(5).rng_with_seed(), &vec![])
        .unwrap()
        .to_text();
    let second = WasmRepr::new_windows(&sample, 3, true, &mut options(5).rng_with_seed(), &vec![])
        .unwrap()
        .to_text();
    assert_eq!(first, second);
    assert_eq!(first.matches(" <window> ").count(), 3);
}

#[test]
fn full_rendering_joins_all_instructions() {
    let sample = sample(&LOCAL_GET_0_ADD_END, param(0));
    let repr = WasmRepr::new_full(&sample, true, &vec![]).unwrap();
    assert_eq!(repr.to_text(), "i32 <begin> local.get <param> ; i32.add ; end");
    let other = WasmRepr::new_full(&sample_return(), false, &vec![]).unwrap();
    assert_eq!(other.to_text(), "local.get 0 ; i32.add ; end");
}

fn sample_return() -> WasmTypeSample<WasmBody, ()> {
    sample(&LOCAL_GET_0_ADD_END, ParamOrReturn::Return)
}

#[test]
fn subrange_takes_the_first_instructions_for_a_parameter() {
    let sample = sample(&LOCAL_GET_0_ADD_END, param(0));
    let repr = WasmRepr::new_subrange(&sample, 2, false, &vec![]).unwrap();
    assert_eq!(repr.to_text(), "local.get <param> ; i32.add");
    let all = WasmRepr::new_subrange(&sample, 10, false, &vec![]).unwrap();
    assert_eq!(all.to_text(), "local.get <param> ; i32.add ; end");
    let none = WasmRepr::new_subrange(&sample, 0, false, &vec![]).unwrap();
    assert_eq!(none.to_text(), "");
}

#[test]
fn subrange_takes_the_last_instructions_for_the_return_value() {
    let repr = WasmRepr::new_subrange(&sample_return(), 2, false, &vec![]).unwrap();
    assert_eq!(repr.to_text(), "i32.add ; end");
}

#[test]
fn subrange_of_a_parameter_stops_before_a_broken_instruction() {
    // local.get 0 ; i32.add ; an opcode that does not exist
    let sample = sample(&[0x20, 0x00, 0x6a, 0xff], param(0));
    let repr = WasmRepr::new_subrange(&sample, 2, false, &vec![]).unwrap();
    assert_eq!(repr.to_text(), "local.get <param> ; i32.add");
    assert!(WasmRepr::new_subrange(&sample, 3, false, &vec![]).is_err());
    assert!(WasmRepr::new_full(&sample, false, &vec![]).is_err());
    let as_return = WasmTypeSample { param_or_return: ParamOrReturn::Return, ..sample };
    assert!(WasmRepr::new_subrange(&as_return, 1, false, &vec![]).is_err());
}

#[test]
fn hash_is_the_digest_of_the_body_bytes() {
    let sample = WasmTypeSample {
        wasm_body: WasmBody { offset: 0, bytes: Rc::new(b"abc".to_vec()) },
        ..sample_return()
    };
    let repr = WasmRepr::new_hash(&sample, false);
    assert_eq!(
        repr.to_text(),
        "ba7816bf8f01cfea414140de5dae2223b00361a396177a9cb410ff61f20015ad"
    );
    let with_type = WasmRepr::new_hash(&sample, true);
    assert!(with_type.to_text().starts_with("i32 <begin> ba7816bf"));
}

#[test]
fn float_constants_are_printed_with_the_text_that_was_handed_in() {
    // f32.const 1.5 ; f64.const -2.0 ; end
    let mut code = vec![0x43];
    code.extend_from_slice(&1.5f32.to_bits().to_le_bytes());
    code.push(0x44);
    code.extend_from_slice(&(-2.0f64).to_bits().to_le_bytes());
    code.push(0x0b);
    let sample = sample(&code, ParamOrReturn::Return);
    let decoded = sample.wasm_body.instructions().unwrap();
    let constants = WasmRepr::float_constants(&decoded.items);
    let floats: Vec<FloatText> = constants
        .iter()
        .map(|bits| FloatText {
            bits: *bits,
            text: match bits {
                FloatBits::Single(bits) => f32::from_bits(*bits).to_string(),
                FloatBits::Double(bits) => f64::from_bits(*bits).to_string(),
            },
        })
        .collect();
    assert_eq!(floats.len(), 2);
    let repr = WasmRepr::new_full(&sample, false, &floats).unwrap();
    assert_eq!(repr.to_text(), "f32.const 1.5 ; f64.const -2 ; end");
}

#[test]
fn the_generator_follows_from_the_seed() {
    assert_eq!(options(5).rng_with_seed(), options(5).rng_with_seed());
    assert_eq!(options(5).rng_with_seed(), StdRng::seed_from_u64(5));
    assert_ne!(options(5).rng_with_seed(), options(6).rng_with_seed());
    let mut first = options(11).rng_with_seed();
    let mut second = options(11).rng_with_seed();
    let drawn: Vec<u64> = (0..4).map(|_| first.next_u64()).collect();
    let again: Vec<u64> = (0..4).map(|_| second.next_u64()).collect();
    assert_eq!(drawn, again);
}

#[test]
fn no_other_option_changes_the_generator() {
    let mut other = options(5);
    other.wasm_repr = WasmReprOption::Full;
    other.wasm_repr_size = None;
    other.verbose = true;
    assert_eq!(other.rng_with_seed(), options(5).rng_with_seed());
}
