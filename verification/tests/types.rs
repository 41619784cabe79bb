use wasm_type_samples::options::{Options, OptionsError, Typedefs, WasmRepr, WasmReprOption};
use wasm_type_samples::samples::types::simplify::{is_listed, is_name, Drop};
use wasm_type_samples::samples::types::{PrimitiveType, SourceType, TypeToken};

fn options() -> Options {
    Options {
        inputs: vec![],
        output_dir: "out/".to_string(),
        log: None,
        verbose: false,
        stats_max: 20,
        rand_seed: 0,
        wasm_filter_unused_param: true,
        wasm_add_raw_type: true,
        wasm_repr: WasmReprOption::Full,
        wasm_repr_size: None,
        type_filter_unknown: true,
        type_remove_names: false,
        type_remove_const: false,
        type_class_to_struct: false,
        type_typedefs: Typedefs::Keep,
        type_save_name_stats: None,
        type_keep_name_list: None,
        type_name_flatten_outermost: false,
    }
}

fn int_token() -> TypeToken {
    TypeToken::Primitive(
        PrimitiveType::new("int".to_string(), gimli::DW_ATE_signed, 4).unwrap(),
    )
}

fn typedef(name: &str) -> TypeToken {
    TypeToken::Typedef(name.to_string())
}

fn nominal(name: &str) -> TypeToken {
    TypeToken::Nominal(name.to_string())
}

/// `typedef "handle" pointer const name "Widget" class`
fn handle() -> SourceType {
    SourceType(vec![
        typedef("handle"),
        TypeToken::Pointer,
        TypeToken::Const,
        nominal("Widget"),
        TypeToken::Class,
    ])
}

fn simplified(ty: SourceType, options: &Options, keep: Option<&Vec<String>>) -> String {
    let mut ty = ty;
    ty.simplify(options, keep);
    ty.to_text()
}

#[test]
fn tokens_are_printed_with_blanks_between_them() {
    assert_eq!(handle().to_text(), "typedef \"handle\" pointer const name \"Widget\" class");
    assert_eq!(SourceType(vec![]).to_text(), "");
    assert_eq!(SourceType::unknown().to_text(), "unknown");
    let all = SourceType(vec![
        TypeToken::Unknown,
        int_token(),
        TypeToken::Pointer,
        TypeToken::Array,
        TypeToken::Const,
        TypeToken::Struct,
        TypeToken::Class,
        TypeToken::Union,
        TypeToken::Enum,
        TypeToken::Function,
        nominal("n"),
        typedef("t"),
        TypeToken::End,
    ]);
    assert_eq!(
        all.to_text(),
        "unknown primitive int32_t pointer array const struct class union enum function \
         name \"n\" typedef \"t\" end"
    );
    assert_eq!(nominal("a\tb\n").to_text(), "name \"a\\tb\\n\"");
    assert_eq!(typedef("").to_text(), "typedef \"\"");
}

#[test]
fn only_the_single_unknown_token_is_the_unknown_type() {
    assert!(SourceType::unknown().is_unknown());
    assert!(SourceType(vec![TypeToken::Unknown]).is_unknown());
    assert!(!SourceType(vec![]).is_unknown());
    assert!(!SourceType(vec![TypeToken::Pointer, TypeToken::Unknown]).is_unknown());
    assert!(!SourceType(vec![TypeToken::Unknown, TypeToken::Unknown]).is_unknown());
    assert!(!SourceType(vec![TypeToken::Pointer]).is_unknown());
}

#[test]
fn options_that_ask_for_nothing_change_nothing() {
    assert_eq!(
        simplified(handle(), &options(), None),
        "typedef \"handle\" pointer const name \"Widget\" class"
    );
}

#[test]
fn names_are_removed() {
    let options = Options { type_remove_names: true, ..options() };
    assert_eq!(simplified(handle(), &options, None), "pointer const class");
    // The list of names to keep is passed over when all names go.
    let keep = vec!["handle".to_string()];
    assert_eq!(simplified(handle(), &options, Some(&keep)), "pointer const class");
}

#[test]
fn names_on_the_list_are_kept() {
    let keep = vec!["size_t".to_string(), "Widget".to_string()];
    assert_eq!(simplified(handle(), &options(), Some(&keep)), "pointer const name \"Widget\" class");
    let none: Vec<String> = vec![];
    assert_eq!(simplified(handle(), &options(), Some(&none)), "pointer const class");
    assert!(is_listed(&keep, "size_t"));
    assert!(!is_listed(&keep, "size"));
    assert!(!is_listed(&none, ""));
}

#[test]
fn typedefs_become_names_or_are_removed() {
    let to_nominal = Options { type_typedefs: Typedefs::ToNominal, ..options() };
    assert_eq!(
        simplified(handle(), &to_nominal, None),
        "name \"handle\" pointer const name \"Widget\" class"
    );
    let remove = Options { type_typedefs: Typedefs::Remove, ..options() };
    assert_eq!(simplified(handle(), &remove, None), "pointer const name \"Widget\" class");
}

#[test]
fn only_the_outermost_name_stays() {
    let flatten = Options { type_name_flatten_outermost: true, ..options() };
    assert_eq!(simplified(handle(), &flatten, None), "typedef \"handle\" pointer const class");
    let nested = SourceType(vec![typedef("a"), typedef("b"), nominal("c"), TypeToken::Struct]);
    assert_eq!(simplified(nested, &flatten, None), "typedef \"a\" struct");
    // With typedefs removed first, the outermost name is the next one.
    let both = Options { type_typedefs: Typedefs::Remove, ..flatten };
    assert_eq!(simplified(handle(), &both, None), "pointer const name \"Widget\" class");
}

#[test]
fn const_is_removed_and_classes_become_structs() {
    let no_const = Options { type_remove_const: true, ..options() };
    assert_eq!(
        simplified(handle(), &no_const, None),
        "typedef \"handle\" pointer name \"Widget\" class"
    );
    let structs = Options { type_class_to_struct: true, ..options() };
    assert_eq!(
        simplified(handle(), &structs, None),
        "typedef \"handle\" pointer const name \"Widget\" struct"
    );
    let everything = Options {
        type_remove_names: true,
        type_remove_const: true,
        type_class_to_struct: true,
        type_typedefs: Typedefs::Remove,
        type_name_flatten_outermost: true,
        ..options()
    };
    assert_eq!(simplified(handle(), &everything, None), "pointer struct");
}

#[test]
fn single_rules() {
    let mut ty = handle();
    ty.remove(Drop::Const);
    assert_eq!(ty.to_text(), "typedef \"handle\" pointer name \"Widget\" class");
    ty.remove(Drop::Typedefs);
    assert_eq!(ty.to_text(), "pointer name \"Widget\" class");
    ty.class_to_struct();
    assert_eq!(ty.to_text(), "pointer name \"Widget\" struct");
    let mut ty = handle();
    ty.typedefs_to_nominal();
    ty.remove(Drop::NamesAfterFirst);
    assert_eq!(ty.to_text(), "name \"handle\" pointer const class");
    ty.remove(Drop::Names);
    assert_eq!(ty.to_text(), "pointer const class");
    assert!(is_name(&typedef("x")));
    assert!(is_name(&nominal("x")));
    assert!(!is_name(&TypeToken::Struct));
}

#[test]
fn representation_needs_a_size_or_none() {
    let choose = |wasm_repr, wasm_repr_size| {
        Options { wasm_repr, wasm_repr_size, ..options() }.wasm_repr()
    };
    assert_eq!(choose(WasmReprOption::Hash, None), Ok(WasmRepr::Hash));
    assert_eq!(choose(WasmReprOption::Full, None), Ok(WasmRepr::Full));
    assert_eq!(choose(WasmReprOption::Subrange, Some(20)), Ok(WasmRepr::Subrange(20)));
    assert_eq!(choose(WasmReprOption::Windows, Some(0)), Ok(WasmRepr::Windows(0)));
    assert_eq!(choose(WasmReprOption::Hash, Some(1)), Err(OptionsError::SizeWithoutUse));
    assert_eq!(choose(WasmReprOption::Full, Some(1)), Err(OptionsError::SizeWithoutUse));
    assert_eq!(choose(WasmReprOption::Subrange, None), Err(OptionsError::MissingSize));
    assert_eq!(choose(WasmReprOption::Windows, None), Err(OptionsError::MissingSize));
}
