use wasm_type_samples::dedup::{group_neighbours, unique_binaries, Candidate};
use wasm_type_samples::error::{ErrorCategory, ExtractError};
use wasm_type_samples::samples::sample::{ParamOrReturn, WasmTypeSample};
use wasm_type_samples::util::file_error::{ErrorWithFile, FileError, ResultWithFile};
use wasm_type_samples::util::handle_errors::HandleErrorsIterExt;
use wasm_type_samples::util::sample_writer::{ParamReturn, SampleInfo, WasmTypeInfo};
use wasm_type_samples::wasm::binary_stats::WasmBinaryStats;
use wasm_type_samples::wasm::magic_bytes::is_wasm_by_magic_bytes;

#[test]
fn magic_bytes_and_version() {
    assert!(is_wasm_by_magic_bytes(b"\0asm\x01\0\0\0"));
    assert!(is_wasm_by_magic_bytes(b"\0asm\x01\0\0\0 and more"));
    assert!(!is_wasm_by_magic_bytes(b"\0asm\x02\0\0\0"));
    assert!(!is_wasm_by_magic_bytes(b"\0asm\x01\0\0"));
    assert!(!is_wasm_by_magic_bytes(b"\x7fELF\x01\0\0\0"));
    assert!(!is_wasm_by_magic_bytes(b"\0asm\x01\0\0\x01"));
    assert!(!is_wasm_by_magic_bytes(b""));
}

#[test]
fn errors_are_set_aside_in_order() {
    let results: Vec<Result<u32, String>> =
        vec![Ok(1), Err("a".to_string()), Ok(2), Ok(3), Err("b".to_string())];
    let mut errors = vec!["earlier".to_string()];
    let items = results.collect_errors(&mut errors);
    assert_eq!(items, vec![1, 2, 3]);
    assert_eq!(errors, vec!["earlier", "a", "b"]);
    let none: Vec<Result<u32, String>> = vec![];
    assert!(none.collect_errors(&mut errors).is_empty());
    assert_eq!(errors.len(), 3);
}

#[test]
fn errors_carry_their_file() {
    let error: FileError<u32> = ErrorWithFile::with_file(7u32, "dir/a.wasm");
    assert_eq!(error.file, "dir/a.wasm");
    assert_eq!(error.error, 7);
    assert_eq!(error.line("seven"), "dir/a.wasm: seven");
    let failure: Result<u8, &str> = Err("broken");
    let attached = ResultWithFile::with_file(failure, "b.wasm").unwrap_err();
    assert_eq!(attached.file, "b.wasm");
    assert_eq!(attached.error, "broken");
    let success: Result<u8, &str> = Ok(3);
    assert_eq!(ResultWithFile::with_file(success, "b.wasm").unwrap(), 3);
}

#[test]
fn names_of_the_sample_files() {
    assert_eq!(WasmTypeInfo::Wasm.to_str(), "wasm");
    assert_eq!(WasmTypeInfo::Type.to_str(), "type");
    assert_eq!(WasmTypeInfo::Info.to_str(), "info");
    assert_eq!(WasmTypeInfo::Wasm.file_name(), "wasm.txt");
    assert_eq!(WasmTypeInfo::Type.file_name(), "type.txt");
    assert_eq!(WasmTypeInfo::Info.file_name(), "info.jsonl");
    assert_eq!(WasmTypeInfo::Info.extension(), "jsonl");
    assert_eq!(ParamReturn::Param.to_str(), "param");
    assert_eq!(ParamReturn::Return.to_str(), "return");
    assert_eq!(ParamReturn::of(&ParamOrReturn::Return), ParamReturn::Return);
    assert_eq!(ParamReturn::of(&ParamOrReturn::Param { idx: 0, name: None }), ParamReturn::Param);
}

fn sample(param_or_return: ParamOrReturn) -> WasmTypeSample<&'static str, u8> {
    WasmTypeSample {
        file: "a.wasm".to_string(),
        compilation_unit: Some("a.c".to_string()),
        function_idx: 12,
        function_name_wasm: None,
        function_name_dwarf: Some("main".to_string()),
        param_or_return,
        wasm_type: wasmparser::Type::I32,
        wasm_body: "body",
        type_: 5,
        aux: (),
    }
}

#[test]
fn record_of_a_sample() {
    let param = sample(ParamOrReturn::Param { idx: 3, name: Some("argc".to_string()) });
    let info = SampleInfo::from(&param);
    assert_eq!(info.file, "a.wasm");
    assert_eq!(info.compilation_unit.as_deref(), Some("a.c"));
    assert_eq!(info.function_idx, 12);
    assert_eq!(info.function_name_wasm, None);
    assert_eq!(info.function_name_dwarf.as_deref(), Some("main"));
    assert_eq!(info.param_idx, Some(3));
    assert_eq!(info.param_name.as_deref(), Some("argc"));
    let returned = SampleInfo::from(&sample(ParamOrReturn::Return));
    assert_eq!(returned.param_idx, None);
    assert_eq!(returned.param_name, None);
}

#[test]
fn samples_change_their_body_and_type() {
    let start = sample(ParamOrReturn::Return);
    let rendered = start.with_wasm_body(vec![1u8, 2]);
    assert_eq!(rendered.wasm_body, vec![1, 2]);
    assert_eq!(rendered.type_, 5);
    let typed = rendered.with_type("int");
    assert_eq!(typed.type_, "int");
    assert_eq!(typed.function_idx, 12);
    let mapped = typed.map_wasm_body(|body| body.len()).map_type(|ty| ty.len());
    assert_eq!(mapped.wasm_body, 2);
    assert_eq!(mapped.type_, 3);
    assert_eq!(mapped.file, "a.wasm");
    assert!(matches!(mapped.param_or_return, ParamOrReturn::Return));
}

fn candidate(path: &str, signature: &[u8]) -> Candidate {
    Candidate {
        path: path.to_string(),
        stats: WasmBinaryStats {
            file_size: path.len() as u64,
            file_sha256: path.as_bytes().to_vec(),
            instruction_count: 0,
            function_bodies_count: 0,
            function_bodies_bytes: 0,
            binary_signature: signature.to_vec(),
        },
    }
}

#[test]
fn one_binary_for_each_signature() {
    let unique = unique_binaries(vec![
        candidate("z/first", &[2, 0]),
        candidate("b", &[1, 9]),
        candidate("a", &[2, 0]),
        candidate("c", &[1, 9]),
        candidate("m", &[2, 0]),
        candidate("only", &[1]),
    ]);
    let list: Vec<_> = unique
        .iter()
        .map(|unique| (unique.count, unique.path.as_str(), unique.stats.binary_signature.clone()))
        .collect();
    assert_eq!(
        list,
        vec![(1, "only", vec![1]), (2, "b", vec![1, 9]), (3, "a", vec![2, 0])]
    );
    assert_eq!(unique[2].stats.file_sha256, b"a".to_vec());
    assert!(unique_binaries(vec![]).is_empty());
}

#[test]
fn neighbours_with_one_signature_are_grouped() {
    let unique = group_neighbours(vec![
        candidate("a", &[1]),
        candidate("b", &[1]),
        candidate("c", &[2]),
        candidate("d", &[1]),
    ]);
    let list: Vec<_> = unique.iter().map(|unique| (unique.count, unique.path.as_str())).collect();
    assert_eq!(list, vec![(2, "a"), (1, "c"), (1, "d")]);
}

#[test]
fn failures_belong_to_a_kind() {
    assert_eq!(ExtractError::MissingCodeSection.category(), ErrorCategory::MalformedModule);
    assert_eq!(
        ExtractError::DuplicateName { index: 0, first: String::new(), second: String::new() }
            .category(),
        ErrorCategory::MalformedModule
    );
    assert_eq!(
        ExtractError::InconsistentEntries { relative_offset: 4 }.category(),
        ErrorCategory::MalformedDebugInfo
    );
    assert_eq!(ExtractError::ChainTooLong.category(), ErrorCategory::MalformedDebugInfo);
    assert_eq!(
        ExtractError::UnknownTypeTag { tag: 0x34 }.category(),
        ErrorCategory::UnsupportedConstruct
    );
    assert_eq!(
        ExtractError::UnsupportedAttributeValue { attribute: 0x49 }.category(),
        ErrorCategory::UnsupportedConstruct
    );
    assert_eq!(ExtractError::EmptyWindow.category(), ErrorCategory::Options);
}
