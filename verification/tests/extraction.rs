use sha2::{Digest, Sha256};
use wasm_type_samples::dedup::{unique_binaries, Candidate};
use wasm_type_samples::dwarf::parse::{DwarfBinary, DwarfFunction, FunctionIndex};
use wasm_type_samples::dwarf::util::DwarfEntry;
use wasm_type_samples::error::ExtractError;
use wasm_type_samples::options::{Options, Typedefs, WasmRepr as ReprChoice, WasmReprOption};
use wasm_type_samples::samples::extract::{extract_samples, match_samples, RawSample};
use wasm_type_samples::samples::pipeline::{finish_sample, Finished};
use wasm_type_samples::samples::filter::{is_param_used, keeps_known_type, keeps_used_param};
use wasm_type_samples::samples::sample::ParamOrReturn;
use wasm_type_samples::samples::types::{PrimitiveType, SourceType, TypeToken};
use wasm_type_samples::wasm::binary_stats::WasmBinaryStats;
use wasm_type_samples::wasm::decode::{Decoded, ImportKind};
use wasm_type_samples::wasm::parse::{
    decode_parts, find_section, FunctionType, NameItem, NameParts, Part, WasmBinary,
};

// The numbers of the DWARF standard that the tests write into their debug
// sections.
const TAG_ARRAY: u16 = 0x01;
const TAG_CLASS: u16 = 0x02;
const TAG_ENUMERATION: u16 = 0x04;
const TAG_FORMAL_PARAMETER: u16 = 0x05;
const TAG_LEXICAL_BLOCK: u16 = 0x0b;
const TAG_POINTER: u16 = 0x0f;
const TAG_REFERENCE: u16 = 0x10;
const TAG_COMPILE_UNIT: u16 = 0x11;
const TAG_STRUCTURE: u16 = 0x13;
const TAG_SUBROUTINE: u16 = 0x15;
const TAG_TYPEDEF: u16 = 0x16;
const TAG_UNION: u16 = 0x17;
const TAG_BASE: u16 = 0x24;
const TAG_CONST: u16 = 0x26;
const TAG_SUBPROGRAM: u16 = 0x2e;
const TAG_VARIABLE: u16 = 0x34;
const TAG_VOLATILE: u16 = 0x35;
const TAG_RESTRICT: u16 = 0x37;
const TAG_UNSPECIFIED: u16 = 0x3b;

const AT_NAME: u16 = 0x03;
const AT_BYTE_SIZE: u16 = 0x0b;
const AT_LOW_PC: u16 = 0x11;
const AT_ABSTRACT_ORIGIN: u16 = 0x31;
const AT_ENCODING: u16 = 0x3e;
const AT_TYPE: u16 = 0x49;

const ATE_BOOLEAN: u8 = 0x02;
const ATE_FLOAT: u8 = 0x04;
const ATE_SIGNED: u8 = 0x05;
const ATE_SIGNED_CHAR: u8 = 0x06;
const ATE_UNSIGNED: u8 = 0x07;
const ATE_UNSIGNED_CHAR: u8 = 0x08;
const ATE_UTF: u8 = 0x10;

fn uleb(mut n: u64, out: &mut Vec<u8>) {
    loop {
        let byte = (n & 0x7f) as u8;
        n >>= 7;
        if n == 0 {
            out.push(byte);
            return;
        }
        out.push(byte | 0x80);
    }
}

fn vector(bytes: &[u8], out: &mut Vec<u8>) {
    uleb(bytes.len() as u64, out);
    out.extend_from_slice(bytes);
}

#[derive(Clone)]
enum Value {
    Str(&'static str),
    /// A reference to the entry with this number, in the form `ref4`.
    Ref(usize),
    Addr(u32),
    Data1(u8),
    Udata(u64),
    /// A flag, a form that the library reads as no reference and no number.
    Flag(bool),
}

impl Value {
    fn form(&self) -> u64 {
        match self {
            Value::Str(_) => 0x08,
            Value::Ref(_) => 0x13,
            Value::Addr(_) => 0x01,
            Value::Data1(_) => 0x0b,
            Value::Udata(_) => 0x0f,
            Value::Flag(_) => 0x0c,
        }
    }

    fn size(&self) -> usize {
        match self {
            Value::Str(text) => text.len() + 1,
            Value::Ref(_) => 4,
            Value::Addr(_) => 4,
            Value::Data1(_) => 1,
            Value::Udata(n) => {
                let mut bytes = vec![];
                uleb(*n, &mut bytes);
                bytes.len()
            }
            Value::Flag(_) => 1,
        }
    }
}

struct Die {
    tag: u16,
    attrs: Vec<(u16, Value)>,
    children: Vec<usize>,
}

/// One unit of debug information, built entry by entry. Entry 0 is the unit
/// itself.
struct Unit {
    dies: Vec<Die>,
}

const UNIT_HEADER: usize = 11;

impl Unit {
    fn new(name: &'static str) -> Unit {
        Unit {
            dies: vec![Die {
                tag: TAG_COMPILE_UNIT,
                attrs: vec![(AT_NAME, Value::Str(name))],
                children: vec![],
            }],
        }
    }

    fn unnamed() -> Unit {
        Unit { dies: vec![Die { tag: TAG_COMPILE_UNIT, attrs: vec![], children: vec![] }] }
    }

    /// Adds an entry under `parent` and gives its number.
    fn add(&mut self, parent: usize, tag: u16, attrs: Vec<(u16, Value)>) -> usize {
        assert!(self.dies.len() < 100);
        self.dies.push(Die { tag, attrs, children: vec![] });
        let id = self.dies.len() - 1;
        self.dies[parent].children.push(id);
        id
    }

    /// Sets an attribute of an entry that was added before what it refers
    /// to.
    fn set(&mut self, id: usize, name: u16, value: Value) {
        self.dies[id].attrs.push((name, value));
    }

    fn layout(&self, id: usize, at: &mut usize, offsets: &mut Vec<usize>) {
        offsets[id] = *at;
        *at += 1;
        for (_, value) in &self.dies[id].attrs {
            *at += value.size();
        }
        if !self.dies[id].children.is_empty() {
            for child in &self.dies[id].children {
                self.layout(*child, at, offsets);
            }
            *at += 1;
        }
    }

    fn offsets(&self) -> Vec<usize> {
        let mut offsets = vec![0; self.dies.len()];
        let mut at = UNIT_HEADER;
        self.layout(0, &mut at, &mut offsets);
        offsets
    }

    fn emit(&self, id: usize, offsets: &[usize], out: &mut Vec<u8>) {
        out.push(id as u8 + 1);
        for (_, value) in &self.dies[id].attrs {
            match value {
                Value::Str(text) => {
                    out.extend_from_slice(text.as_bytes());
                    out.push(0);
                }
                Value::Ref(target) => out.extend_from_slice(&(offsets[*target] as u32).to_le_bytes()),
                Value::Addr(address) => out.extend_from_slice(&address.to_le_bytes()),
                Value::Data1(data) => out.push(*data),
                Value::Udata(data) => uleb(*data, out),
                Value::Flag(flag) => out.push(*flag as u8),
            }
        }
        if !self.dies[id].children.is_empty() {
            for child in &self.dies[id].children {
                self.emit(*child, offsets, out);
            }
            out.push(0);
        }
    }

    /// The contents of `.debug_info` and `.debug_abbrev`.
    fn sections(&self) -> (Vec<u8>, Vec<u8>) {
        let mut abbrev = vec![];
        for (id, die) in self.dies.iter().enumerate() {
            uleb(id as u64 + 1, &mut abbrev);
            uleb(die.tag as u64, &mut abbrev);
            abbrev.push(!die.children.is_empty() as u8);
            for (name, value) in &die.attrs {
                uleb(*name as u64, &mut abbrev);
                uleb(value.form(), &mut abbrev);
            }
            abbrev.extend_from_slice(&[0, 0]);
        }
        abbrev.push(0);
        let offsets = self.offsets();
        let mut entries = vec![];
        self.emit(0, &offsets, &mut entries);
        let mut info = vec![];
        info.extend_from_slice(&(entries.len() as u32 + 7).to_le_bytes());
        info.extend_from_slice(&4u16.to_le_bytes());
        info.extend_from_slice(&0u32.to_le_bytes());
        info.push(4);
        info.extend_from_slice(&entries);
        (info, abbrev)
    }
}

const I32: u8 = 0x7f;
const I64: u8 = 0x7e;

/// A module, built section by section.
#[derive(Default, Clone)]
struct Module {
    types: Vec<(Vec<u8>, Vec<u8>)>,
    imported_functions: u32,
    functions: Vec<u32>,
    /// The code of each body, without the declarations of locals.
    bodies: Vec<Vec<u8>>,
    names: Vec<(u32, &'static str)>,
    customs: Vec<(&'static str, Vec<u8>)>,
}

fn section(id: u8, contents: &[u8], out: &mut Vec<u8>) {
    out.push(id);
    vector(contents, out);
}

impl Module {
    /// A module whose functions have these types and bodies.
    fn with_functions(functions: Vec<(Vec<u8>, Vec<u8>, Vec<u8>)>) -> Module {
        let mut module = Module::default();
        for (params, results, code) in functions {
            module.types.push((params, results));
            module.functions.push(module.types.len() as u32 - 1);
            module.bodies.push(code);
        }
        module
    }

    fn debug(mut self, unit: &Unit) -> Module {
        let (info, abbrev) = unit.sections();
        self.customs.push((".debug_info", info));
        self.customs.push((".debug_abbrev", abbrev));
        self
    }

    /// The offset of body `i` from the start of the code section, for
    /// bodies of fewer than 127 bytes.
    fn relative_offset(&self, i: usize) -> u32 {
        let mut offset = 1;
        for body in &self.bodies[..i] {
            offset += 1 + 1 + body.len() as u32;
        }
        offset + 1
    }

    fn build(&self) -> Vec<u8> {
        let mut out = b"\0asm\x01\0\0\0".to_vec();
        let mut types = vec![];
        uleb(self.types.len() as u64, &mut types);
        for (params, results) in &self.types {
            types.push(0x60);
            vector(params, &mut types);
            vector(results, &mut types);
        }
        section(1, &types, &mut out);
        if self.imported_functions > 0 {
            let mut imports = vec![];
            uleb(self.imported_functions as u64, &mut imports);
            for _ in 0..self.imported_functions {
                vector(b"env", &mut imports);
                vector(b"f", &mut imports);
                imports.extend_from_slice(&[0x00, 0x00]);
            }
            section(2, &imports, &mut out);
        }
        let mut functions = vec![];
        uleb(self.functions.len() as u64, &mut functions);
        for type_index in &self.functions {
            uleb(*type_index as u64, &mut functions);
        }
        section(3, &functions, &mut out);
        let mut code = vec![];
        uleb(self.bodies.len() as u64, &mut code);
        for body in &self.bodies {
            uleb(body.len() as u64 + 1, &mut code);
            code.push(0);
            code.extend_from_slice(body);
        }
        section(10, &code, &mut out);
        if !self.names.is_empty() {
            let mut map = vec![];
            uleb(self.names.len() as u64, &mut map);
            for (index, name) in &self.names {
                uleb(*index as u64, &mut map);
                vector(name.as_bytes(), &mut map);
            }
            let mut contents = vec![];
            vector(b"name", &mut contents);
            contents.push(1);
            vector(&map, &mut contents);
            section(0, &contents, &mut out);
        }
        for (name, data) in &self.customs {
            let mut contents = vec![];
            vector(name.as_bytes(), &mut contents);
            contents.extend_from_slice(data);
            section(0, &contents, &mut out);
        }
        out
    }
}

const END: [u8; 1] = [0x0b];

/// A module with one function `() -> i32` whose subprogram returns the type
/// that `build` adds to the unit.
fn module_returning(build: impl FnOnce(&mut Unit) -> Option<usize>) -> Vec<u8> {
    let module = Module::with_functions(vec![(vec![], vec![I32], END.to_vec())]);
    let mut unit = Unit::new("unit.c");
    let mut attrs = vec![
        (AT_LOW_PC, Value::Addr(module.relative_offset(0))),
        (AT_NAME, Value::Str("f")),
    ];
    let function = unit.add(0, TAG_SUBPROGRAM, vec![]);
    if let Some(ty) = build(&mut unit) {
        attrs.push((AT_TYPE, Value::Ref(ty)));
    }
    unit.dies[function].attrs = attrs;
    module.debug(&unit).build()
}

fn functions_of(bytes: &[u8]) -> Result<DwarfBinary, ExtractError> {
    let wasm = WasmBinary::parse(bytes).unwrap();
    DwarfBinary::parse(&wasm.custom_sections)
}

/// The entry of the return type of the only subprogram.
fn return_type_of(bytes: &[u8]) -> DwarfEntry {
    let dwarf = functions_of(bytes).unwrap();
    let functions = dwarf.relative_offsets_to_function_entries;
    assert_eq!(functions.len(), 1);
    let function = functions.into_values().next().unwrap();
    function.return_type.unwrap()
}

fn tokens(build: impl FnOnce(&mut Unit) -> Option<usize>) -> Result<String, ExtractError> {
    let bytes = module_returning(build);
    SourceType::parse_type(&return_type_of(&bytes)).map(|ty| ty.to_text())
}

fn base(unit: &mut Unit, name: &'static str, encoding: u8, size: u8) -> usize {
    unit.add(
        0,
        TAG_BASE,
        vec![
            (AT_NAME, Value::Str(name)),
            (AT_ENCODING, Value::Data1(encoding)),
            (AT_BYTE_SIZE, Value::Data1(size)),
        ],
    )
}

fn int_type(unit: &mut Unit) -> usize {
    base(unit, "int", ATE_SIGNED, 4)
}

#[test]
fn pointer_to_const_int() {
    let bytes = module_returning(|unit| {
        let int = int_type(unit);
        let constant = unit.add(0, TAG_CONST, vec![(AT_TYPE, Value::Ref(int))]);
        Some(unit.add(0, TAG_POINTER, vec![(AT_TYPE, Value::Ref(constant))]))
    });
    let ty = SourceType::parse_type(&return_type_of(&bytes)).unwrap();
    assert_eq!(ty.0.len(), 3);
    assert!(matches!(ty.0[0], TypeToken::Pointer));
    assert!(matches!(ty.0[1], TypeToken::Const));
    match &ty.0[2] {
        TypeToken::Primitive(primitive) => {
            assert_eq!(primitive.normalized, "int32_t");
            assert_eq!(primitive.source_name, "int");
            assert_eq!(primitive.encoding, gimli::DW_ATE_signed);
            assert_eq!(primitive.byte_size, 4);
        }
        other => panic!("{:?}", other),
    }
    assert_eq!(ty.to_text(), "pointer const primitive int32_t");
}

#[test]
fn primitive_normalization() {
    let normalize = |name: &str, encoding: u8, size: u64| {
        PrimitiveType::normalize(name, gimli::DwAte(encoding), size)
    };
    assert_eq!(normalize("unsigned long", ATE_UNSIGNED, 8), Some("uint64_t"));
    assert_eq!(normalize("char", ATE_SIGNED_CHAR, 1), Some("char"));
    assert_eq!(normalize("short", ATE_SIGNED_CHAR, 1), Some("int8_t"));
    assert_eq!(normalize("char", ATE_UNSIGNED_CHAR, 1), Some("char"));
    assert_eq!(normalize("unsigned char", ATE_UNSIGNED_CHAR, 1), Some("uint8_t"));
    assert_eq!(normalize("char16_t", ATE_UTF, 2), Some("char16_t"));
    assert_eq!(normalize("char32_t", ATE_UTF, 4), Some("char32_t"));
    assert_eq!(normalize("short", ATE_SIGNED, 2), Some("int16_t"));
    assert_eq!(normalize("int", ATE_SIGNED, 4), Some("int32_t"));
    assert_eq!(normalize("long long", ATE_SIGNED, 8), Some("int64_t"));
    assert_eq!(normalize("unsigned short", ATE_UNSIGNED, 2), Some("uint16_t"));
    assert_eq!(normalize("unsigned", ATE_UNSIGNED, 4), Some("uint32_t"));
    assert_eq!(normalize("float", ATE_FLOAT, 4), Some("float32_t"));
    assert_eq!(normalize("double", ATE_FLOAT, 8), Some("float64_t"));
    assert_eq!(normalize("long double", ATE_FLOAT, 16), Some("float128_t"));
    assert_eq!(normalize("complex", 0x03, 16), Some("complex"));
    assert_eq!(normalize("complex", 0x03, 8), Some("complex"));
    assert_eq!(normalize("_Bool", ATE_BOOLEAN, 1), Some("bool"));
}

#[test]
fn primitives_without_a_name_are_refused() {
    let normalize = |name: &str, encoding: u8, size: u64| {
        PrimitiveType::normalize(name, gimli::DwAte(encoding), size)
    };
    assert_eq!(normalize("int", ATE_SIGNED, 1), None);
    assert_eq!(normalize("int", ATE_SIGNED, 16), None);
    assert_eq!(normalize("char16_t", ATE_UTF, 4), None);
    assert_eq!(normalize("wchar_t", ATE_UTF, 4), None);
    assert_eq!(normalize("float", ATE_FLOAT, 2), None);
    assert_eq!(normalize("bool", ATE_BOOLEAN, 4), None);
    assert_eq!(normalize("x", 0x7f, 4), None);
    assert!(PrimitiveType::new("int".to_string(), gimli::DwAte(ATE_SIGNED), 3).is_none());
    let long = PrimitiveType::new("long".to_string(), gimli::DwAte(ATE_SIGNED), 8).unwrap();
    assert_eq!(long.normalized, "int64_t");
}

#[test]
fn unknown_primitive_is_an_error_of_the_type() {
    let result = tokens(|unit| Some(base(unit, "int24", ATE_SIGNED, 3)));
    match result {
        Err(ExtractError::UnknownPrimitive { source_name, encoding, byte_size }) => {
            assert_eq!(source_name, "int24");
            assert_eq!(encoding, ATE_SIGNED);
            assert_eq!(byte_size, 3);
        }
        other => panic!("{:?}", other),
    }
}

#[test]
fn base_type_needs_name_encoding_and_size() {
    let no_name = tokens(|unit| {
        Some(unit.add(
            0,
            TAG_BASE,
            vec![(AT_ENCODING, Value::Data1(ATE_SIGNED)), (AT_BYTE_SIZE, Value::Data1(4))],
        ))
    });
    assert!(matches!(no_name, Err(ExtractError::MissingAttribute { attribute: AT_NAME })));
    let no_encoding = tokens(|unit| {
        Some(unit.add(
            0,
            TAG_BASE,
            vec![(AT_NAME, Value::Str("int")), (AT_BYTE_SIZE, Value::Data1(4))],
        ))
    });
    assert!(matches!(no_encoding, Err(ExtractError::MissingAttribute { attribute: AT_ENCODING })));
    let no_size = tokens(|unit| {
        Some(unit.add(
            0,
            TAG_BASE,
            vec![(AT_NAME, Value::Str("int")), (AT_ENCODING, Value::Data1(ATE_SIGNED))],
        ))
    });
    assert!(matches!(no_size, Err(ExtractError::MissingAttribute { attribute: AT_BYTE_SIZE })));
}

#[test]
fn byte_size_is_read_in_every_unsigned_form() {
    let as_udata = tokens(|unit| {
        Some(unit.add(
            0,
            TAG_BASE,
            vec![
                (AT_NAME, Value::Str("int")),
                (AT_ENCODING, Value::Data1(ATE_SIGNED)),
                (AT_BYTE_SIZE, Value::Udata(4)),
            ],
        ))
    });
    assert_eq!(as_udata.unwrap(), "primitive int32_t");
    let as_flag = tokens(|unit| {
        Some(unit.add(
            0,
            TAG_BASE,
            vec![
                (AT_NAME, Value::Str("int")),
                (AT_ENCODING, Value::Data1(ATE_SIGNED)),
                (AT_BYTE_SIZE, Value::Flag(true)),
            ],
        ))
    });
    assert!(matches!(
        as_flag,
        Err(ExtractError::UnsupportedAttributeValue { attribute: AT_BYTE_SIZE })
    ));
}

#[test]
fn references_are_pointers() {
    let text = tokens(|unit| {
        let int = int_type(unit);
        Some(unit.add(0, TAG_REFERENCE, vec![(AT_TYPE, Value::Ref(int))]))
    });
    assert_eq!(text.unwrap(), "pointer primitive int32_t");
    let rvalue = tokens(|unit| {
        let int = int_type(unit);
        Some(unit.add(0, 0x42, vec![(AT_TYPE, Value::Ref(int))]))
    });
    assert_eq!(rvalue.unwrap(), "pointer primitive int32_t");
    let member = tokens(|unit| {
        let int = int_type(unit);
        Some(unit.add(0, 0x1f, vec![(AT_TYPE, Value::Ref(int))]))
    });
    assert_eq!(member.unwrap(), "pointer primitive int32_t");
}

#[test]
fn pointer_without_a_type_points_to_unknown() {
    let text = tokens(|unit| Some(unit.add(0, TAG_POINTER, vec![])));
    assert_eq!(text.unwrap(), "pointer unknown");
}

#[test]
fn array_is_followed_by_its_element_type() {
    let text = tokens(|unit| {
        let int = int_type(unit);
        Some(unit.add(0, TAG_ARRAY, vec![(AT_TYPE, Value::Ref(int))]))
    });
    assert_eq!(text.unwrap(), "array primitive int32_t");
}

#[test]
fn volatile_and_restrict_leave_no_token() {
    let text = tokens(|unit| {
        let int = int_type(unit);
        let pointer = unit.add(0, TAG_POINTER, vec![(AT_TYPE, Value::Ref(int))]);
        let restrict = unit.add(0, TAG_RESTRICT, vec![(AT_TYPE, Value::Ref(pointer))]);
        Some(unit.add(0, TAG_VOLATILE, vec![(AT_TYPE, Value::Ref(restrict))]))
    });
    assert_eq!(text.unwrap(), "pointer primitive int32_t");
    let alone = tokens(|unit| Some(unit.add(0, TAG_VOLATILE, vec![])));
    assert_eq!(alone.unwrap(), "unknown");
}

#[test]
fn typedef_gives_its_name_and_its_type() {
    let text = tokens(|unit| {
        let unsigned = base(unit, "unsigned long", ATE_UNSIGNED, 4);
        Some(unit.add(
            0,
            TAG_TYPEDEF,
            vec![(AT_NAME, Value::Str("size_t")), (AT_TYPE, Value::Ref(unsigned))],
        ))
    });
    assert_eq!(text.unwrap(), "typedef \"size_t\" primitive uint32_t");
    let unnamed = tokens(|unit| {
        let int = int_type(unit);
        Some(unit.add(0, TAG_TYPEDEF, vec![(AT_TYPE, Value::Ref(int))]))
    });
    assert!(matches!(unnamed, Err(ExtractError::MissingAttribute { attribute: AT_NAME })));
}

#[test]
fn names_are_quoted_as_debug_prints_them() {
    let text = tokens(|unit| {
        Some(unit.add(0, TAG_STRUCTURE, vec![(AT_NAME, Value::Str("pair<\"a\", b\\c>"))]))
    });
    assert_eq!(text.unwrap(), "name \"pair<\\\"a\\\", b\\\\c>\" struct");
}

#[test]
fn enumeration_gives_name_kind_and_base_type() {
    let text = tokens(|unit| {
        let unsigned = base(unit, "unsigned int", ATE_UNSIGNED, 4);
        Some(unit.add(
            0,
            TAG_ENUMERATION,
            vec![(AT_NAME, Value::Str("Color")), (AT_TYPE, Value::Ref(unsigned))],
        ))
    });
    assert_eq!(text.unwrap(), "name \"Color\" enum primitive uint32_t");
    let unnamed = tokens(|unit| Some(unit.add(0, TAG_ENUMERATION, vec![])));
    assert_eq!(unnamed.unwrap(), "enum unknown");
}

#[test]
fn aggregates_give_name_and_kind_and_no_members() {
    let class = tokens(|unit| {
        let class = unit.add(0, TAG_CLASS, vec![(AT_NAME, Value::Str("Widget"))]);
        let int = int_type(unit);
        unit.add(class, 0x0d, vec![(AT_NAME, Value::Str("width")), (AT_TYPE, Value::Ref(int))]);
        Some(class)
    });
    assert_eq!(class.unwrap(), "name \"Widget\" class");
    let structure = tokens(|unit| Some(unit.add(0, TAG_STRUCTURE, vec![])));
    assert_eq!(structure.unwrap(), "struct");
    let union = tokens(|unit| Some(unit.add(0, TAG_UNION, vec![(AT_NAME, Value::Str("U"))])));
    assert_eq!(union.unwrap(), "name \"U\" union");
}

#[test]
fn subroutine_type_is_function() {
    let text = tokens(|unit| {
        let int = int_type(unit);
        let subroutine = unit.add(0, TAG_SUBROUTINE, vec![(AT_TYPE, Value::Ref(int))]);
        Some(unit.add(0, TAG_POINTER, vec![(AT_TYPE, Value::Ref(subroutine))]))
    });
    assert_eq!(text.unwrap(), "pointer function");
}

#[test]
fn null_pointer_type_is_a_pointer_to_unknown() {
    let text = tokens(|unit| {
        Some(unit.add(0, TAG_UNSPECIFIED, vec![(AT_NAME, Value::Str("decltype(nullptr)"))]))
    });
    assert_eq!(text.unwrap(), "pointer unknown");
}

#[test]
fn other_unspecified_types_are_refused() {
    let named = tokens(|unit| Some(unit.add(0, TAG_UNSPECIFIED, vec![(AT_NAME, Value::Str("void"))])));
    match named {
        Err(ExtractError::UnexpectedUnspecifiedType { name }) => {
            assert_eq!(name.as_deref(), Some("void"))
        }
        other => panic!("{:?}", other),
    }
    let unnamed = tokens(|unit| Some(unit.add(0, TAG_UNSPECIFIED, vec![])));
    assert!(matches!(unnamed, Err(ExtractError::UnexpectedUnspecifiedType { name: None })));
}

#[test]
fn unknown_tag_is_refused() {
    let text = tokens(|unit| Some(unit.add(0, TAG_VARIABLE, vec![(AT_NAME, Value::Str("v"))])));
    assert!(matches!(text, Err(ExtractError::UnknownTypeTag { tag: TAG_VARIABLE })));
}

#[test]
fn type_in_a_form_that_is_no_reference_is_refused() {
    let text = tokens(|unit| Some(unit.add(0, TAG_POINTER, vec![(AT_TYPE, Value::Flag(true))])));
    assert!(matches!(text, Err(ExtractError::UnsupportedAttributeValue { attribute: AT_TYPE })));
}

#[test]
fn a_type_that_refers_to_itself_is_refused() {
    let text = tokens(|unit| {
        let pointer = unit.add(0, TAG_POINTER, vec![]);
        unit.set(pointer, AT_TYPE, Value::Ref(pointer));
        Some(pointer)
    });
    assert!(matches!(text, Err(ExtractError::ChainTooLong)));
}

#[test]
fn a_deep_type_is_read() {
    let text = tokens(|unit| {
        let mut ty = int_type(unit);
        for _ in 0..40 {
            ty = unit.add(0, TAG_POINTER, vec![(AT_TYPE, Value::Ref(ty))]);
        }
        Some(ty)
    });
    let text = text.unwrap();
    assert_eq!(text.matches("pointer").count(), 40);
    assert!(text.ends_with("primitive int32_t"));
}

/// A module with one function `(i32, i64) -> i32` and the unit that `build`
/// fills; `build` gets the offset of the function's body.
fn module_with_unit(build: impl FnOnce(&mut Unit, u32)) -> Vec<u8> {
    let module = Module::with_functions(vec![(
        vec![I32, I64],
        vec![I32],
        vec![0x20, 0x00, 0x0b],
    )]);
    let mut unit = Unit::new("unit.c");
    build(&mut unit, module.relative_offset(0));
    module.debug(&unit).build()
}

fn subprogram(unit: &mut Unit, low_pc: u32, name: &'static str, ty: Option<usize>) -> usize {
    let mut attrs = vec![(AT_LOW_PC, Value::Addr(low_pc)), (AT_NAME, Value::Str(name))];
    if let Some(ty) = ty {
        attrs.push((AT_TYPE, Value::Ref(ty)));
    }
    unit.add(0, TAG_SUBPROGRAM, attrs)
}

fn parameter(unit: &mut Unit, function: usize, name: &'static str, ty: usize) -> usize {
    unit.add(
        function,
        TAG_FORMAL_PARAMETER,
        vec![(AT_NAME, Value::Str(name)), (AT_TYPE, Value::Ref(ty))],
    )
}

fn only_function(bytes: &[u8]) -> DwarfFunction {
    let functions = functions_of(bytes).unwrap().relative_offsets_to_function_entries;
    assert_eq!(functions.len(), 1);
    functions.into_values().next().unwrap()
}

#[test]
fn subprogram_gives_name_parameters_and_return_type() {
    let bytes = module_with_unit(|unit, low_pc| {
        let int = int_type(unit);
        let f = subprogram(unit, low_pc, "add", Some(int));
        parameter(unit, f, "a", int);
        unit.add(f, TAG_VARIABLE, vec![(AT_NAME, Value::Str("local")), (AT_TYPE, Value::Ref(int))]);
        parameter(unit, f, "b", int);
        let block = unit.add(f, TAG_LEXICAL_BLOCK, vec![]);
        parameter(unit, block, "not_mine", int);
    });
    let function = only_function(&bytes);
    assert_eq!(function.compilation_unit_name.as_deref(), Some("unit.c"));
    assert_eq!(function.name.as_deref(), Some("add"));
    assert_eq!(function.params.len(), 2);
    assert_eq!(function.params[0].tag, gimli::DW_TAG_formal_parameter);
    let names: Vec<_> = function
        .params
        .iter()
        .map(|param| param.attr_str(gimli::DW_AT_name).unwrap().unwrap())
        .collect();
    assert_eq!(names, vec!["a", "b"]);
    assert_eq!(function.return_type.unwrap().tag, gimli::DW_TAG_base_type);
}

#[test]
fn subprogram_without_children_has_no_parameters() {
    let bytes = module_with_unit(|unit, low_pc| {
        let int = int_type(unit);
        subprogram(unit, low_pc, "lonely", None);
        // What follows the subprogram in the unit is no child of it.
        let other = unit.add(0, TAG_SUBPROGRAM, vec![(AT_NAME, Value::Str("other"))]);
        parameter(unit, other, "x", int);
    });
    let function = only_function(&bytes);
    assert_eq!(function.name.as_deref(), Some("lonely"));
    assert_eq!(function.params.len(), 0);
    assert!(function.return_type.is_none());
}

#[test]
fn subprogram_without_an_address_is_not_indexed() {
    let bytes = module_with_unit(|unit, _| {
        unit.add(0, TAG_SUBPROGRAM, vec![(AT_NAME, Value::Str("declared"))]);
    });
    let functions = functions_of(&bytes).unwrap().relative_offsets_to_function_entries;
    assert!(functions.is_empty());
}

#[test]
fn address_in_another_form_is_refused() {
    let bytes = module_with_unit(|unit, _| {
        unit.add(0, TAG_SUBPROGRAM, vec![(AT_LOW_PC, Value::Data1(3))]);
    });
    assert!(matches!(
        functions_of(&bytes),
        Err(ExtractError::UnsupportedAttributeValue { attribute: AT_LOW_PC })
    ));
}

#[test]
fn abstract_origin_describes_the_function() {
    let bytes = module_with_unit(|unit, low_pc| {
        let int = int_type(unit);
        let origin = unit.add(
            0,
            TAG_SUBPROGRAM,
            vec![(AT_NAME, Value::Str("generic")), (AT_TYPE, Value::Ref(int))],
        );
        parameter(unit, origin, "x", int);
        let instance = unit.add(
            0,
            TAG_SUBPROGRAM,
            vec![
                (AT_LOW_PC, Value::Addr(low_pc)),
                (AT_NAME, Value::Str("weaker")),
                (AT_ABSTRACT_ORIGIN, Value::Ref(origin)),
            ],
        );
        unit.add(instance, TAG_FORMAL_PARAMETER, vec![]);
        unit.add(instance, TAG_FORMAL_PARAMETER, vec![]);
    });
    let function = only_function(&bytes);
    assert_eq!(function.name.as_deref(), Some("generic"));
    assert_eq!(function.params.len(), 1);
    assert!(function.return_type.is_some());
}

#[test]
fn abstract_origin_that_refers_to_itself_is_refused() {
    let bytes = module_with_unit(|unit, low_pc| {
        let f = subprogram(unit, low_pc, "f", None);
        unit.set(f, AT_ABSTRACT_ORIGIN, Value::Ref(f));
    });
    assert!(matches!(functions_of(&bytes), Err(ExtractError::ChainTooLong)));
}

#[test]
fn parameter_type_comes_from_the_abstract_origin() {
    let bytes = module_with_unit(|unit, low_pc| {
        let int = int_type(unit);
        let origin = unit.add(
            0,
            TAG_FORMAL_PARAMETER,
            vec![(AT_NAME, Value::Str("x")), (AT_TYPE, Value::Ref(int))],
        );
        let f = subprogram(unit, low_pc, "f", None);
        unit.add(f, TAG_FORMAL_PARAMETER, vec![(AT_ABSTRACT_ORIGIN, Value::Ref(origin))]);
        unit.add(f, TAG_FORMAL_PARAMETER, vec![]);
    });
    let function = only_function(&bytes);
    let first = SourceType::parse_param(&function.params[0]).unwrap();
    assert_eq!(first.to_text(), "primitive int32_t");
    let second = SourceType::parse_param(&function.params[1]).unwrap();
    assert_eq!(second.to_text(), "unknown");
    assert!(second.is_unknown());
    assert!(!first.is_unknown());
}

#[test]
fn consistent_duplicates_keep_the_first_entry() {
    let bytes = module_with_unit(|unit, low_pc| {
        let int = int_type(unit);
        let long = base(unit, "long", ATE_SIGNED, 8);
        let first = subprogram(unit, low_pc, "f", Some(int));
        parameter(unit, first, "a", int);
        let second = subprogram(unit, low_pc, "f", Some(long));
        parameter(unit, second, "other_name", long);
    });
    let function = only_function(&bytes);
    let name = function.params[0].attr_str(gimli::DW_AT_name).unwrap();
    assert_eq!(name.as_deref(), Some("a"));
    let ty = SourceType::parse_type(&function.return_type.unwrap()).unwrap();
    assert_eq!(ty.to_text(), "primitive int32_t");
}

fn inconsistent_at(offset_of: impl Fn(u32) -> u32, change: usize) -> Result<DwarfBinary, ExtractError> {
    let bytes = module_with_unit(|unit, low_pc| {
        let int = int_type(unit);
        let at = offset_of(low_pc);
        let first = subprogram(unit, at, "f", Some(int));
        parameter(unit, first, "a", int);
        let second = match change {
            0 => subprogram(unit, at, "g", Some(int)),
            1 => subprogram(unit, at, "f", None),
            _ => subprogram(unit, at, "f", Some(int)),
        };
        parameter(unit, second, "a", int);
        if change == 2 {
            parameter(unit, second, "b", int);
        }
    });
    functions_of(&bytes)
}

#[test]
fn inconsistent_duplicates_fail_the_binary() {
    for change in 0..3 {
        match inconsistent_at(|low_pc| low_pc, change) {
            Err(ExtractError::InconsistentEntries { relative_offset }) => {
                assert_eq!(relative_offset, 2)
            }
            other => panic!("{:?}", other.map(|_| ())),
        }
    }
}

#[test]
fn inconsistent_duplicates_at_offset_zero_are_dropped() {
    for change in 0..3 {
        let functions = inconsistent_at(|_| 0, change).unwrap();
        assert!(functions.relative_offsets_to_function_entries.is_empty());
    }
}

#[test]
fn a_third_entry_is_compared_with_the_first() {
    let bytes = module_with_unit(|unit, low_pc| {
        subprogram(unit, 0, "f", None);
        subprogram(unit, 0, "g", None);
        subprogram(unit, 0, "f", None);
        subprogram(unit, low_pc, "kept", None);
    });
    let function = only_function(&bytes);
    assert_eq!(function.name.as_deref(), Some("kept"));
}

#[test]
fn units_are_walked_in_order() {
    let module = Module::with_functions(vec![
        (vec![], vec![], END.to_vec()),
        (vec![], vec![], END.to_vec()),
    ]);
    let mut first = Unit::new("first.c");
    subprogram(&mut first, module.relative_offset(0), "f", None);
    let mut second = Unit::unnamed();
    subprogram(&mut second, module.relative_offset(1), "g", None);
    subprogram(&mut second, module.relative_offset(0), "f", None);
    let (mut info, mut abbrev) = first.sections();
    let (second_info, second_abbrev) = second.sections();
    // The second unit's abbreviations follow those of the first.
    let abbrev_offset = abbrev.len() as u32;
    let mut second_info = second_info;
    second_info[6..10].copy_from_slice(&abbrev_offset.to_le_bytes());
    info.extend_from_slice(&second_info);
    abbrev.extend_from_slice(&second_abbrev);
    let mut module = module;
    module.customs.push((".debug_info", info));
    module.customs.push((".debug_abbrev", abbrev));
    let functions = functions_of(&module.build()).unwrap().relative_offsets_to_function_entries;
    assert_eq!(functions.len(), 2);
    let f = &functions[&(module.relative_offset(0) as usize)];
    assert_eq!(f.compilation_unit_name.as_deref(), Some("first.c"));
    let g = &functions[&(module.relative_offset(1) as usize)];
    assert_eq!(g.compilation_unit_name, None);
    assert_eq!(g.name.as_deref(), Some("g"));
}

#[test]
fn broken_debug_information_fails_the_binary() {
    let mut module = Module::with_functions(vec![(vec![], vec![], END.to_vec())]);
    module.customs.push((".debug_info", vec![0xff, 0x00, 0x00, 0x00, 0x04, 0x00]));
    assert!(matches!(functions_of(&module.build()), Err(ExtractError::Dwarf(_))));
}

#[test]
fn module_without_debug_information_has_no_functions() {
    let module = Module::with_functions(vec![(vec![], vec![], END.to_vec())]);
    let bytes = module.build();
    assert!(functions_of(&bytes).unwrap().relative_offsets_to_function_entries.is_empty());
    assert!(extract_samples("plain.wasm", &bytes).unwrap().is_empty());
}

fn samples(bytes: &[u8]) -> Vec<RawSample> {
    extract_samples("test.wasm", bytes).unwrap().into_iter().map(|sample| sample.unwrap()).collect()
}

fn focus(sample: &RawSample) -> String {
    match &sample.param_or_return {
        ParamOrReturn::Param { idx, name } => format!("param {} {:?}", idx, name),
        ParamOrReturn::Return => "return".to_string(),
    }
}

#[test]
fn samples_for_each_parameter_and_the_return_value() {
    let mut module = Module::with_functions(vec![
        (vec![], vec![], END.to_vec()),
        (vec![I32, I64], vec![I32], vec![0x20, 0x00, 0x0b]),
    ]);
    module.imported_functions = 3;
    module.names = vec![(0, "imported"), (4, "add_wasm")];
    let mut unit = Unit::new("unit.c");
    let int = int_type(&mut unit);
    let long = base(&mut unit, "long long", ATE_SIGNED, 8);
    let f = subprogram(&mut unit, module.relative_offset(1), "add", Some(int));
    parameter(&mut unit, f, "a", int);
    unit.add(f, TAG_FORMAL_PARAMETER, vec![(AT_TYPE, Value::Ref(long))]);
    let bytes = module.debug(&unit).build();
    let samples = samples(&bytes);
    assert_eq!(samples.len(), 3);
    assert_eq!(focus(&samples[0]), "param 0 Some(\"a\")");
    assert_eq!(focus(&samples[1]), "param 1 None");
    assert_eq!(focus(&samples[2]), "return");
    for sample in &samples {
        assert_eq!(sample.file, "test.wasm");
        assert_eq!(sample.compilation_unit.as_deref(), Some("unit.c"));
        assert_eq!(sample.function_idx, 4);
        assert_eq!(sample.function_name_wasm.as_deref(), Some("add_wasm"));
        assert_eq!(sample.function_name_dwarf.as_deref(), Some("add"));
        assert_eq!(sample.wasm_body.bytes.as_slice(), &[0x00, 0x20, 0x00, 0x0b]);
    }
    assert_eq!(samples[0].wasm_type, wasmparser::Type::I32);
    assert_eq!(samples[1].wasm_type, wasmparser::Type::I64);
    assert_eq!(samples[2].wasm_type, wasmparser::Type::I32);
    let types: Vec<_> = vec![
        SourceType::parse_param(&samples[0].type_).unwrap().to_text(),
        SourceType::parse_param(&samples[1].type_).unwrap().to_text(),
        SourceType::parse_type(&samples[2].type_).unwrap().to_text(),
    ];
    assert_eq!(types, vec!["primitive int32_t", "primitive int64_t", "primitive int32_t"]);
    assert!(keeps_used_param(&samples[0]));
    assert!(!keeps_used_param(&samples[1]));
    assert!(keeps_used_param(&samples[2]));
}

#[test]
fn different_parameter_counts_give_no_sample() {
    let bytes = module_with_unit(|unit, low_pc| {
        let int = int_type(unit);
        let f = subprogram(unit, low_pc, "f", Some(int));
        parameter(unit, f, "only", int);
    });
    assert!(samples(&bytes).is_empty());
    let more = module_with_unit(|unit, low_pc| {
        let int = int_type(unit);
        let f = subprogram(unit, low_pc, "f", Some(int));
        parameter(unit, f, "a", int);
        parameter(unit, f, "b", int);
        parameter(unit, f, "c", int);
    });
    assert!(samples(&more).is_empty());
}

#[test]
fn return_sample_needs_a_return_on_both_sides() {
    let void_in_dwarf = module_with_unit(|unit, low_pc| {
        let int = int_type(unit);
        let f = subprogram(unit, low_pc, "f", None);
        parameter(unit, f, "a", int);
        parameter(unit, f, "b", int);
    });
    let list: Vec<_> = samples(&void_in_dwarf).iter().map(focus).collect();
    assert_eq!(list, vec!["param 0 Some(\"a\")", "param 1 Some(\"b\")"]);

    let module = Module::with_functions(vec![(vec![I32], vec![], END.to_vec())]);
    let mut unit = Unit::new("unit.c");
    let int = int_type(&mut unit);
    let f = subprogram(&mut unit, module.relative_offset(0), "f", Some(int));
    parameter(&mut unit, f, "a", int);
    let void_in_wasm = module.debug(&unit).build();
    let list: Vec<_> = samples(&void_in_wasm).iter().map(focus).collect();
    assert_eq!(list, vec!["param 0 Some(\"a\")"]);
}

#[test]
fn several_results_give_no_return_sample() {
    let module = Module::with_functions(vec![(vec![I32], vec![I32, I32], END.to_vec())]);
    let mut unit = Unit::new("unit.c");
    let int = int_type(&mut unit);
    let f = subprogram(&mut unit, module.relative_offset(0), "f", Some(int));
    parameter(&mut unit, f, "a", int);
    let list: Vec<_> = samples(&module.debug(&unit).build()).iter().map(focus).collect();
    assert_eq!(list, vec!["param 0 Some(\"a\")"]);
}

#[test]
fn function_without_a_subprogram_has_no_samples() {
    let module = Module::with_functions(vec![
        (vec![I32], vec![], END.to_vec()),
        (vec![I32], vec![], END.to_vec()),
    ]);
    let mut unit = Unit::new("unit.c");
    let int = int_type(&mut unit);
    let f = subprogram(&mut unit, module.relative_offset(1), "second", None);
    parameter(&mut unit, f, "a", int);
    let samples = samples(&module.debug(&unit).build());
    assert_eq!(samples.len(), 1);
    assert_eq!(samples[0].function_idx, 1);
    assert_eq!(samples[0].function_name_wasm, None);
}

#[test]
fn matching_takes_the_modules_as_values() {
    let bytes = module_with_unit(|unit, low_pc| {
        let int = int_type(unit);
        let f = subprogram(unit, low_pc, "f", Some(int));
        parameter(unit, f, "a", int);
        parameter(unit, f, "b", int);
    });
    let wasm = WasmBinary::parse(&bytes).unwrap();
    let dwarf = DwarfBinary::parse(&wasm.custom_sections).unwrap();
    let mut moved = WasmBinary::parse(&bytes).unwrap();
    // A code section that starts later moves every function away from its
    // subprogram.
    moved.code_section_offset += 1;
    assert_eq!(match_samples("a", wasm, dwarf).len(), 3);
    let dwarf = DwarfBinary::parse(&moved.custom_sections).unwrap();
    assert_eq!(match_samples("a", moved, dwarf).len(), 0);
}

#[test]
fn extraction_is_repeatable() {
    let bytes = module_with_unit(|unit, low_pc| {
        let int = int_type(unit);
        let f = subprogram(unit, low_pc, "f", Some(int));
        parameter(unit, f, "a", int);
        parameter(unit, f, "b", int);
    });
    let lines = |bytes: &[u8]| -> Vec<(String, String)> {
        samples(bytes)
            .into_iter()
            .map(|sample| {
                let ty = match sample.param_or_return {
                    ParamOrReturn::Param { .. } => SourceType::parse_param(&sample.type_),
                    ParamOrReturn::Return => SourceType::parse_type(&sample.type_),
                };
                (focus(&sample), ty.unwrap().to_text())
            })
            .collect()
    };
    assert_eq!(lines(&bytes), lines(&bytes));
    assert_eq!(lines(&bytes).len(), 3);
}

#[test]
fn module_parts_are_taken_in_order() {
    let mut module = Module::with_functions(vec![
        (vec![I32], vec![I64], vec![0x20, 0x00, 0x0b]),
        (vec![], vec![], END.to_vec()),
    ]);
    module.imported_functions = 2;
    module.names = vec![(2, "first"), (3, "second")];
    module.customs.push(("extra", vec![1, 2, 3]));
    module.customs.push(("extra", vec![4]));
    let bytes = module.build();
    let wasm = WasmBinary::parse(&bytes).unwrap();
    assert_eq!(wasm.functions.len(), 2);
    assert_eq!(wasm.functions[0].idx, 2);
    assert_eq!(wasm.functions[1].idx, 3);
    assert_eq!(wasm.functions[0].type_.params, vec![wasmparser::Type::I32]);
    assert_eq!(wasm.functions[0].type_.returns, vec![wasmparser::Type::I64]);
    assert_eq!(wasm.functions[0].body.bytes.as_slice(), &[0x00, 0x20, 0x00, 0x0b]);
    assert_eq!(
        wasm.functions[0].body.offset - wasm.code_section_offset,
        module.relative_offset(0) as usize
    );
    assert_eq!(
        wasm.functions[1].body.offset - wasm.code_section_offset,
        module.relative_offset(1) as usize
    );
    assert_eq!(wasm.function_names.len(), 2);
    assert_eq!(wasm.function_names[&2], "first");
    assert_eq!(wasm.function_names[&3], "second");
    let names: Vec<_> = wasm.custom_sections.iter().map(|section| section.name.as_str()).collect();
    assert_eq!(names, vec!["name", "extra", "extra"]);
    assert_eq!(find_section(&wasm.custom_sections, "extra").as_slice(), &[4]);
    assert!(find_section(&wasm.custom_sections, "missing").is_empty());
    let parts = decode_parts(&bytes);
    assert!(parts.failure.is_none());
    let again = WasmBinary::assemble(&bytes, parts).unwrap();
    assert_eq!(again.code_section_offset, wasm.code_section_offset);
}

#[test]
fn module_without_a_code_section_is_refused() {
    let bytes = b"\0asm\x01\0\0\0".to_vec();
    assert!(matches!(WasmBinary::parse(&bytes), Err(ExtractError::MissingCodeSection)));
}

#[test]
fn a_second_code_section_is_refused() {
    let module = Module::with_functions(vec![(vec![], vec![], END.to_vec())]);
    let mut bytes = module.build();
    let code: Vec<u8> = vec![10, 4, 1, 2, 0, 0x0b];
    let previous = bytes.len() - code.len() + 2;
    assert_eq!(&bytes[bytes.len() - code.len()..], &code[..]);
    bytes.extend_from_slice(&code);
    match WasmBinary::parse(&bytes) {
        Err(ExtractError::SecondCodeSection { previous_offset }) => {
            assert_eq!(previous_offset, previous)
        }
        other => panic!("{:?}", other.map(|_| ())),
    }
}

#[test]
fn body_without_a_type_index_is_refused() {
    let mut module = Module::with_functions(vec![(vec![], vec![], END.to_vec())]);
    module.functions.clear();
    module.imported_functions = 1;
    assert!(matches!(
        WasmBinary::parse(&module.build()),
        Err(ExtractError::MissingTypeIndex { function_index: 1 })
    ));
}

#[test]
fn type_index_without_a_type_is_refused() {
    let mut module = Module::with_functions(vec![(vec![], vec![], END.to_vec())]);
    module.functions = vec![7];
    assert!(matches!(
        WasmBinary::parse(&module.build()),
        Err(ExtractError::MissingType { type_index: 7 })
    ));
}

#[test]
fn a_second_name_for_a_function_is_refused() {
    let mut module = Module::with_functions(vec![(vec![], vec![], END.to_vec())]);
    module.names = vec![(0, "one"), (1, "other"), (0, "two")];
    match WasmBinary::parse(&module.build()) {
        Err(ExtractError::DuplicateName { index, first, second }) => {
            assert_eq!(index, 0);
            assert_eq!(first, "one");
            assert_eq!(second, "two");
        }
        other => panic!("{:?}", other.map(|_| ())),
    }
}

#[test]
fn a_broken_subsection_ends_the_reading_of_names() {
    let mut module = Module::with_functions(vec![(vec![], vec![], END.to_vec())]);
    let mut contents = vec![];
    // The function names of function 0, then a subsection of a kind that
    // does not exist, then more function names.
    contents.extend_from_slice(&[1, 4, 1, 0, 1, b'f']);
    contents.extend_from_slice(&[9, 1, 0]);
    contents.extend_from_slice(&[1, 4, 1, 1, 1, b'g']);
    module.customs.push(("name", contents));
    let wasm = WasmBinary::parse(&module.build()).unwrap();
    assert_eq!(wasm.function_names.len(), 1);
    assert_eq!(wasm.function_names[&0], "f");
}

#[test]
fn broken_function_names_are_refused() {
    let mut module = Module::with_functions(vec![(vec![], vec![], END.to_vec())]);
    // One name is announced, and its text ends too early.
    module.customs.push(("name", vec![1, 3, 1, 0, 5]));
    assert!(matches!(WasmBinary::parse(&module.build()), Err(ExtractError::Wasm(_))));
}

#[test]
fn truncated_module_is_refused() {
    let module = Module::with_functions(vec![(vec![], vec![], END.to_vec())]);
    let bytes = module.build();
    assert!(matches!(
        WasmBinary::parse(&bytes[..bytes.len() - 1]),
        Err(ExtractError::Wasm(_))
    ));
    assert!(matches!(
        WasmBinaryStats::from_file(&bytes[..bytes.len() - 1]),
        Err(ExtractError::Wasm(_))
    ));
    assert!(extract_samples("broken.wasm", &bytes[..bytes.len() - 1]).is_err());
}

fn stats(functions: Vec<Vec<u8>>) -> WasmBinaryStats {
    let module =
        Module::with_functions(functions.into_iter().map(|code| (vec![], vec![], code)).collect());
    WasmBinaryStats::from_file(&module.build()).unwrap()
}

#[test]
fn figures_of_a_binary() {
    let module = Module::with_functions(vec![
        (vec![], vec![], vec![0x20, 0x00, 0x1a, 0x0b]),
        (vec![], vec![], END.to_vec()),
    ]);
    let bytes = module.build();
    let stats = WasmBinaryStats::from_file(&bytes).unwrap();
    assert_eq!(stats.file_size, bytes.len() as u64);
    assert_eq!(stats.instruction_count, 4);
    assert_eq!(stats.function_bodies_count, 2);
    assert_eq!(stats.function_bodies_bytes, 7);
    assert_eq!(stats.file_sha256.len(), 32);
    assert_eq!(stats.binary_signature.len(), 32);
    assert_ne!(stats.file_sha256, stats.binary_signature);
}

#[test]
fn signature_ignores_indices_and_constants() {
    // local.get 0 ; i32.const 1 ; call 0 ; global.get 0 ; end
    let one = stats(vec![vec![0x20, 0x00, 0x41, 0x01, 0x10, 0x00, 0x23, 0x00, 0x0b], END.to_vec()]);
    // local.get 5 ; i32.const -3 ; call 1 ; global.get 9 ; end
    let other =
        stats(vec![vec![0x20, 0x05, 0x41, 0x7d, 0x10, 0x01, 0x23, 0x09, 0x0b], END.to_vec()]);
    assert_eq!(one.binary_signature, other.binary_signature);
    assert_ne!(one.file_sha256, other.file_sha256);
}

#[test]
fn signature_follows_the_mnemonics() {
    let get = stats(vec![vec![0x20, 0x00, 0x1a, 0x0b]]);
    // local.tee in place of local.get
    let tee = stats(vec![vec![0x22, 0x00, 0x1a, 0x0b]]);
    assert_ne!(get.binary_signature, tee.binary_signature);
    // The same instructions in two bodies and in one.
    let two = stats(vec![vec![0x01, 0x0b], vec![0x01, 0x0b]]);
    let one = stats(vec![vec![0x01, 0x0b, 0x01, 0x0b]]);
    assert_ne!(two.binary_signature, one.binary_signature);
}

#[test]
fn signature_is_the_digest_of_the_body_digests() {
    let stats = stats(vec![vec![0x20, 0x00, 0x6a, 0x0b], END.to_vec()]);
    let mut digests = Sha256::digest(b"local.geti32.addend").to_vec();
    digests.extend_from_slice(&Sha256::digest(b"end"));
    assert_eq!(stats.binary_signature, Sha256::digest(&digests).to_vec());
}

#[test]
fn binaries_that_differ_in_names_and_constants_have_one_signature() {
    let build = |unit_name: &'static str, constant: u8| {
        let module = Module::with_functions(vec![(
            vec![I32],
            vec![I32],
            vec![0x20, 0x00, 0x41, constant, 0x6a, 0x0b],
        )]);
        let mut unit = Unit::new(unit_name);
        let int = int_type(&mut unit);
        let f = subprogram(&mut unit, module.relative_offset(0), "f", Some(int));
        parameter(&mut unit, f, "a", int);
        module.debug(&unit).build()
    };
    let one = build("one.c", 1);
    let other = build("other.c", 2);
    assert_ne!(one, other);
    let signature = |bytes: &[u8]| WasmBinaryStats::from_file(bytes).unwrap().binary_signature;
    assert_eq!(signature(&one), signature(&other));

    // Of the two only one goes on to extraction, and it counts for both.
    let files = vec![("b/other.wasm", &other), ("a/one.wasm", &one)];
    let candidates = files
        .iter()
        .map(|(path, bytes)| Candidate {
            path: path.to_string(),
            stats: WasmBinaryStats::from_file(bytes).unwrap(),
        })
        .collect();
    let unique = unique_binaries(candidates);
    assert_eq!(unique.len(), 1);
    assert_eq!(unique[0].count, 2);
    assert_eq!(unique[0].path, "a/one.wasm");
    let extracted: Vec<_> = unique
        .iter()
        .flat_map(|unique| {
            let bytes = files.iter().find(|(path, _)| *path == unique.path).unwrap().1;
            extract_samples(&unique.path, bytes).unwrap()
        })
        .map(|sample| sample.unwrap())
        .collect();
    assert_eq!(extracted.len(), 2);
    for sample in &extracted {
        assert_eq!(sample.file, "a/one.wasm");
        assert_eq!(sample.compilation_unit.as_deref(), Some("one.c"));
    }
}

#[test]
fn used_parameters_are_found_in_the_body() {
    let module = Module::with_functions(vec![(
        vec![I32, I32, I32, I32],
        vec![],
        // local.get 0 ; local.set 1 ; i32.const 2 ; local.tee 3 ; drop ; end
        vec![0x20, 0x00, 0x21, 0x01, 0x41, 0x02, 0x22, 0x03, 0x1a, 0x0b],
    )]);
    let wasm = WasmBinary::parse(&module.build()).unwrap();
    let decoded = wasm.functions[0].body.instructions().unwrap();
    assert!(decoded.failure.is_none());
    assert!(is_param_used(&decoded.items, 0));
    assert!(is_param_used(&decoded.items, 1));
    assert!(!is_param_used(&decoded.items, 2));
    assert!(is_param_used(&decoded.items, 3));
    assert!(!is_param_used(&decoded.items, 4));
}

#[test]
fn unknown_types_are_dropped_by_the_filter() {
    let bytes = module_with_unit(|unit, low_pc| {
        let int = int_type(unit);
        let f = subprogram(unit, low_pc, "f", None);
        parameter(unit, f, "a", int);
        unit.add(f, TAG_FORMAL_PARAMETER, vec![]);
    });
    let kept: Vec<bool> = samples(&bytes)
        .into_iter()
        .map(|sample| {
            let ty = SourceType::parse_param(&sample.type_).unwrap();
            keeps_known_type(&sample.with_type(ty))
        })
        .collect();
    assert_eq!(kept, vec![true, false]);
}

fn finish_options() -> Options {
    Options {
        inputs: vec![],
        output_dir: "out/".to_string(),
        log: None,
        verbose: false,
        stats_max: 20,
        rand_seed: 0,
        wasm_filter_unused_param: true,
        wasm_add_raw_type: true,
        wasm_repr: WasmReprOption::Full,
        wasm_repr_size: None,
        type_filter_unknown: true,
        type_remove_names: false,
        type_remove_const: false,
        type_class_to_struct: false,
        type_typedefs: Typedefs::Keep,
        type_save_name_stats: None,
        type_keep_name_list: None,
        type_name_flatten_outermost: false,
    }
}

/// A module with one function `(i32, i32, i32) -> i32` that uses its first
/// parameter only; the first two parameters are a `const size_t` and of
/// unknown type.
fn module_to_finish() -> Vec<u8> {
    let module = Module::with_functions(vec![(
        vec![I32, I32, I32],
        vec![I32],
        vec![0x20, 0x00, 0x0b],
    )]);
    let mut unit = Unit::new("unit.c");
    let int = int_type(&mut unit);
    let size = unit.add(
        0,
        TAG_TYPEDEF,
        vec![(AT_NAME, Value::Str("size_t")), (AT_TYPE, Value::Ref(int))],
    );
    let constant = unit.add(0, TAG_CONST, vec![(AT_TYPE, Value::Ref(size))]);
    let f = subprogram(&mut unit, module.relative_offset(0), "f", Some(int));
    parameter(&mut unit, f, "n", constant);
    unit.add(f, TAG_FORMAL_PARAMETER, vec![]);
    parameter(&mut unit, f, "unused", int);
    module.debug(&unit).build()
}

fn finish(options: &Options, choice: ReprChoice) -> Vec<String> {
    samples(&module_to_finish())
        .into_iter()
        .map(|sample| {
            let mut rng = options.rng_with_seed();
            match finish_sample(sample, options, choice, None, &vec![], &mut rng).unwrap() {
                Finished::Kept { sample, names } => format!(
                    "{} | {} | {:?}",
                    sample.wasm_body.to_text(),
                    sample.type_.to_text(),
                    names
                ),
                Finished::UnusedParam => "unused".to_string(),
                Finished::UnknownType => "unknown".to_string(),
            }
        })
        .collect()
}

#[test]
fn samples_are_filtered_typed_and_rendered() {
    let all = Options {
        wasm_filter_unused_param: false,
        type_filter_unknown: false,
        ..finish_options()
    };
    assert_eq!(
        finish(&all, ReprChoice::Full),
        vec![
            "i32 <begin> local.get <param> ; end | const typedef \"size_t\" primitive int32_t | []",
            "i32 <begin> local.get 0 ; end | unknown | []",
            "i32 <begin> local.get 0 ; end | primitive int32_t | []",
            "i32 <begin> local.get 0 ; end | primitive int32_t | []",
        ]
    );
    assert_eq!(
        finish(&finish_options(), ReprChoice::Full),
        vec![
            "i32 <begin> local.get <param> ; end | const typedef \"size_t\" primitive int32_t | []",
            "unused",
            "unused",
            "i32 <begin> local.get 0 ; end | primitive int32_t | []",
        ]
    );
    let known = Options { wasm_filter_unused_param: false, ..finish_options() };
    assert_eq!(finish(&known, ReprChoice::Subrange(1))[1], "unknown");
    assert_eq!(
        finish(&known, ReprChoice::Subrange(1))[3],
        "i32 <begin> end | primitive int32_t | []"
    );
}

#[test]
fn names_are_noted_before_the_type_is_simplified() {
    let options = Options {
        wasm_add_raw_type: false,
        type_remove_names: true,
        type_remove_const: true,
        type_save_name_stats: Some(None),
        ..finish_options()
    };
    assert_eq!(
        finish(&options, ReprChoice::Windows(3))[0],
        "local.get <param> ; end | primitive int32_t | [\"size_t\"]"
    );
    let hash = finish(&options, ReprChoice::Hash);
    assert_eq!(
        hash[0],
        "64c0f71cec6230db7d5f968cd493661b5dff2d21746a96604bcb9604601497ba | primitive int32_t \
         | [\"size_t\"]"
    );
}

#[test]
fn a_sample_whose_type_cannot_be_read_fails_alone() {
    let bytes = module_with_unit(|unit, low_pc| {
        let int = int_type(unit);
        let odd = base(unit, "odd", ATE_SIGNED, 3);
        let f = subprogram(unit, low_pc, "f", Some(int));
        parameter(unit, f, "a", odd);
        parameter(unit, f, "b", int);
    });
    let options = Options { wasm_filter_unused_param: false, ..finish_options() };
    let finished: Vec<_> = samples(&bytes)
        .into_iter()
        .map(|sample| {
            let mut rng = options.rng_with_seed();
            finish_sample(sample, &options, ReprChoice::Full, None, &vec![], &mut rng)
        })
        .collect();
    assert!(matches!(finished[0], Err(ExtractError::UnknownPrimitive { .. })));
    assert!(matches!(finished[1], Ok(Finished::Kept { .. })));
    assert!(matches!(finished[2], Ok(Finished::Kept { .. })));
    let empty_window = samples(&bytes).into_iter().next().unwrap();
    let mut rng = options.rng_with_seed();
    assert!(matches!(
        finish_sample(empty_window, &options, ReprChoice::Windows(0), None, &vec![], &mut rng),
        Err(ExtractError::UnknownPrimitive { .. })
    ));
}

#[test]
fn type_index_of_another_kind_of_type_is_refused() {
    // The type section holds an instance type without exports; the only
    // function refers to it.
    let mut bytes = b"\0asm\x01\0\0\0".to_vec();
    section(1, &[1, 0x62, 0x00], &mut bytes);
    section(3, &[1, 0], &mut bytes);
    section(10, &[1, 2, 0, 0x0b], &mut bytes);
    assert!(matches!(
        WasmBinary::parse(&bytes),
        Err(ExtractError::NotAFunctionType { type_index: 0 })
    ));
}

fn read<T>(items: Vec<T>) -> Decoded<T> {
    Decoded { items, failure: None }
}

fn function_type(params: Vec<wasmparser::Type>, returns: Vec<wasmparser::Type>) -> Option<FunctionType> {
    Some(FunctionType { params, returns })
}

#[test]
fn module_is_put_together_from_its_parts() {
    let bytes: Vec<u8> = (0u8..32).collect();
    let parts = vec![
        Part::Types(read(vec![
            None,
            function_type(vec![wasmparser::Type::I32], vec![]),
            function_type(vec![], vec![wasmparser::Type::F64]),
        ])),
        Part::Imports(read(vec![ImportKind::Function, ImportKind::Other, ImportKind::Function])),
        Part::Other,
        Part::Functions(read(vec![2, 1])),
        Part::Custom {
            name: "name".to_string(),
            data: vec![1, 2, 3],
            names: NameParts::Read(Decoded {
                items: vec![
                    NameItem::Skipped,
                    NameItem::Functions(read(vec![(2, "two".to_string())])),
                    NameItem::Functions(read(vec![(0, "zero".to_string())])),
                ],
                failure: None,
            }),
        },
        Part::CodeStart { start: 10 },
        Part::CodeEntry { start: 12, end: 15 },
        Part::Imports(read(vec![ImportKind::Function])),
        Part::CodeEntry { start: 16, end: 16 },
        Part::Custom { name: "other".to_string(), data: vec![], names: NameParts::NotNames },
    ];
    let wasm = WasmBinary::assemble(&bytes, read(parts)).unwrap();
    assert_eq!(wasm.code_section_offset, 10);
    assert_eq!(wasm.functions.len(), 2);
    assert_eq!(wasm.functions[0].idx, 2);
    assert_eq!(wasm.functions[0].type_.returns, vec![wasmparser::Type::F64]);
    assert_eq!(wasm.functions[0].body.offset, 12);
    assert_eq!(wasm.functions[0].body.bytes.as_slice(), &[12, 13, 14]);
    // An import between two bodies moves the index of the later one.
    assert_eq!(wasm.functions[1].idx, 4);
    assert_eq!(wasm.functions[1].type_.params, vec![wasmparser::Type::I32]);
    assert!(wasm.functions[1].body.bytes.is_empty());
    assert_eq!(wasm.function_names.len(), 2);
    assert_eq!(wasm.function_names[&2], "two");
    assert_eq!(wasm.function_names[&0], "zero");
    assert_eq!(wasm.custom_sections.len(), 2);
    assert_eq!(wasm.custom_sections[0].data.as_slice(), &[1, 2, 3]);
}

fn assembled(bytes: &[u8], parts: Vec<Part>) -> Result<WasmBinary, ExtractError> {
    WasmBinary::assemble(bytes, read(parts))
}

#[test]
fn first_failure_among_the_parts_is_the_result() {
    let bytes = [0u8; 8];
    let types = || Part::Types(read(vec![function_type(vec![], vec![])]));
    let functions = || Part::Functions(read(vec![0]));
    assert!(matches!(
        assembled(&bytes, vec![types(), functions(), Part::CodeStart { start: 1 }]),
        Ok(_)
    ));
    assert!(matches!(
        assembled(&bytes, vec![types(), functions(), Part::CodeEntry { start: 1, end: 2 }]),
        Err(ExtractError::MissingCodeSection)
    ));
    assert!(matches!(assembled(&bytes, vec![]), Err(ExtractError::MissingCodeSection)));
    assert!(matches!(
        assembled(
            &bytes,
            vec![Part::CodeStart { start: 1 }, Part::CodeEntry { start: 1, end: 2 }, types()]
        ),
        Err(ExtractError::MissingTypeIndex { function_index: 0 })
    ));
    assert!(matches!(
        assembled(
            &bytes,
            vec![
                functions(),
                Part::CodeStart { start: 1 },
                Part::CodeEntry { start: 1, end: 2 },
                Part::CodeStart { start: 5 }
            ]
        ),
        Err(ExtractError::MissingType { type_index: 0 })
    ));
    assert!(matches!(
        assembled(
            &bytes,
            vec![types(), functions(), Part::CodeStart { start: 3 }, Part::CodeStart { start: 5 }]
        ),
        Err(ExtractError::SecondCodeSection { previous_offset: 3 })
    ));
    assert!(matches!(
        assembled(
            &bytes,
            vec![types(), functions(), Part::CodeStart { start: 1 }, Part::CodeEntry {
                start: 4,
                end: 9
            }]
        ),
        Err(ExtractError::RangeOutsideModule { start: 4, end: 9 })
    ));
    assert!(matches!(
        assembled(
            &bytes,
            vec![types(), functions(), Part::CodeStart { start: 1 }, Part::CodeEntry {
                start: 4,
                end: 3
            }]
        ),
        Err(ExtractError::RangeOutsideModule { start: 4, end: 3 })
    ));
    assert!(matches!(
        assembled(
            &bytes,
            vec![Part::CodeStart { start: 1 }, Part::Custom {
                name: "name".to_string(),
                data: vec![],
                names: NameParts::Unplaced { data_offset: 7 }
            }]
        ),
        Err(ExtractError::RangeOutsideModule { start: 7, end: usize::MAX })
    ));
    let twice = NameParts::Read(read(vec![
        NameItem::Functions(read(vec![(1, "a".to_string())])),
        NameItem::Functions(read(vec![(2, "b".to_string()), (1, "c".to_string())])),
    ]));
    match assembled(
        &bytes,
        vec![Part::Custom { name: "name".to_string(), data: vec![], names: twice }],
    ) {
        Err(ExtractError::DuplicateName { index: 1, first, second }) => {
            assert_eq!((first.as_str(), second.as_str()), ("a", "c"));
        }
        other => panic!("{:?}", other.map(|_| ())),
    }
}

#[test]
fn an_error_of_the_decoder_comes_after_the_parts_before_it() {
    let failure = || match WasmBinary::parse(b"\0asm\x01\0\0\0\x01") {
        Err(ExtractError::Wasm(error)) => error,
        other => panic!("{:?}", other.map(|_| ())),
    };
    let bytes = [0u8; 8];
    // The parts before the error hold a failure of their own, which comes
    // first.
    let parts = Decoded {
        items: vec![Part::CodeStart { start: 1 }, Part::CodeStart { start: 2 }],
        failure: Some(failure()),
    };
    assert!(matches!(
        WasmBinary::assemble(&bytes, parts),
        Err(ExtractError::SecondCodeSection { previous_offset: 1 })
    ));
    let parts = Decoded { items: vec![Part::CodeStart { start: 1 }], failure: Some(failure()) };
    assert!(matches!(WasmBinary::assemble(&bytes, parts), Err(ExtractError::Wasm(_))));
    // An error within a section comes when the section is reached.
    let broken = Part::Functions(Decoded { items: vec![0], failure: Some(failure()) });
    assert!(matches!(
        assembled(&bytes, vec![Part::CodeStart { start: 1 }, broken, Part::CodeStart { start: 2 }]),
        Err(ExtractError::Wasm(_))
    ));
}

fn described(name: &str) -> DwarfFunction {
    DwarfFunction {
        compilation_unit_name: None,
        name: Some(name.to_string()),
        params: vec![],
        return_type: None,
    }
}

#[test]
fn index_keeps_the_first_subprogram_and_flags_disagreement() {
    let mut index = FunctionIndex::new();
    index.record(4, described("f"));
    index.record(8, described("h"));
    index.record(4, described("f"));
    assert!(index.flagged.is_empty());
    index.record(0, described("a"));
    index.record(0, described("b"));
    index.record(4, described("g"));
    index.record(12, described("i"));
    index.record(12, described("j"));
    assert_eq!(index.flagged, vec![0, 4, 12]);
    assert_eq!(index.functions.len(), 4);
    assert_eq!(index.functions[&4].name.as_deref(), Some("f"));
    // The first flagged offset that is not zero is named.
    assert!(matches!(
        index.finish(),
        Err(ExtractError::InconsistentEntries { relative_offset: 4 })
    ));
}

#[test]
fn index_drops_offset_zero_without_a_failure() {
    let mut index = FunctionIndex::new();
    index.record(0, described("a"));
    index.record(4, described("f"));
    index.record(0, described("b"));
    index.record(0, described("c"));
    assert_eq!(index.flagged, vec![0, 0]);
    let functions = index.finish().unwrap();
    assert_eq!(functions.len(), 1);
    assert_eq!(functions[&4].name.as_deref(), Some("f"));

    let mut agreeing = FunctionIndex::new();
    agreeing.record(0, described("a"));
    agreeing.record(0, described("a"));
    let functions = agreeing.finish().unwrap();
    assert_eq!(functions.len(), 1);
    assert_eq!(functions[&0].name.as_deref(), Some("a"));
    assert!(FunctionIndex::new().finish().unwrap().is_empty());
}
