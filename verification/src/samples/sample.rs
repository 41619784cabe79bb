//! One training example, at any stage of the pipeline.

use vstd::prelude::*;
use wasmparser::Type;

verus! {

/// Whether a sample is for a parameter, and then for which, or for the return
/// value.
#[derive(Debug)]
pub enum ParamOrReturn {
    Param { idx: u32, name: Option<String> },
    Return,
}

/// One training example.
///
/// It is generic over the representation of the function body and of the
/// type: first it holds the undecoded body and the DWARF entry of the type,
/// later the rendered instructions and the type in the type language.
#[derive(Debug)]
pub struct WasmTypeSample<WasmRepr, TypeRepr, Aux = ()> {
    /// The file the sample comes from.
    pub file: String,
    pub compilation_unit: Option<String>,
    pub function_idx: u32,
    pub function_name_wasm: Option<String>,
    pub function_name_dwarf: Option<String>,
    pub param_or_return: ParamOrReturn,
    /// The WebAssembly type of the parameter or the return value.
    pub wasm_type: Type,
    pub wasm_body: WasmRepr,
    pub type_: TypeRepr,
    /// Whatever else is attached to the sample.
    pub aux: Aux,
}

impl<T, U, V> WasmTypeSample<T, U, V> {
    /// The sample with `wasm_body` in place of its body, and all else as it
    /// is.
    pub fn with_wasm_body<R>(self, wasm_body: R) -> (sample: WasmTypeSample<R, U, V>)
        ensures
            sample == (WasmTypeSample {
                file: self.file,
                compilation_unit: self.compilation_unit,
                function_idx: self.function_idx,
                function_name_wasm: self.function_name_wasm,
                function_name_dwarf: self.function_name_dwarf,
                param_or_return: self.param_or_return,
                wasm_type: self.wasm_type,
                wasm_body,
                type_: self.type_,
                aux: self.aux,
            }),
    {
        WasmTypeSample {
            file: self.file,
            compilation_unit: self.compilation_unit,
            function_idx: self.function_idx,
            function_name_wasm: self.function_name_wasm,
            function_name_dwarf: self.function_name_dwarf,
            param_or_return: self.param_or_return,
            wasm_type: self.wasm_type,
            wasm_body,
            type_: self.type_,
            aux: self.aux,
        }
    }

    /// The sample with `type_` in place of its type, and all else as it is.
    pub fn with_type<R>(self, type_: R) -> (sample: WasmTypeSample<T, R, V>)
        ensures
            sample == (WasmTypeSample {
                file: self.file,
                compilation_unit: self.compilation_unit,
                function_idx: self.function_idx,
                function_name_wasm: self.function_name_wasm,
                function_name_dwarf: self.function_name_dwarf,
                param_or_return: self.param_or_return,
                wasm_type: self.wasm_type,
                wasm_body: self.wasm_body,
                type_,
                aux: self.aux,
            }),
    {
        WasmTypeSample {
            file: self.file,
            compilation_unit: self.compilation_unit,
            function_idx: self.function_idx,
            function_name_wasm: self.function_name_wasm,
            function_name_dwarf: self.function_name_dwarf,
            param_or_return: self.param_or_return,
            wasm_type: self.wasm_type,
            wasm_body: self.wasm_body,
            type_,
            aux: self.aux,
        }
    }

    /// The sample with its body replaced by what `f` makes of it, and all
    /// else as it is.
    pub fn map_wasm_body<R, F: FnOnce(T) -> R>(self, f: F) -> (sample: WasmTypeSample<R, U, V>)
        requires
            f.requires((self.wasm_body,)),
        ensures
            f.ensures((self.wasm_body,), sample.wasm_body),
            sample.file == self.file,
            sample.compilation_unit == self.compilation_unit,
            sample.function_idx == self.function_idx,
            sample.function_name_wasm == self.function_name_wasm,
            sample.function_name_dwarf == self.function_name_dwarf,
            sample.param_or_return == self.param_or_return,
            sample.wasm_type == self.wasm_type,
            sample.type_ == self.type_,
            sample.aux == self.aux,
    {
        WasmTypeSample {
            file: self.file,
            compilation_unit: self.compilation_unit,
            function_idx: self.function_idx,
            function_name_wasm: self.function_name_wasm,
            function_name_dwarf: self.function_name_dwarf,
            param_or_return: self.param_or_return,
            wasm_type: self.wasm_type,
            wasm_body: f(self.wasm_body),
            type_: self.type_,
            aux: self.aux,
        }
    }

    /// The sample with its type replaced by what `f` makes of it, and all
    /// else as it is.
    pub fn map_type<R, F: FnOnce(U) -> R>(self, f: F) -> (sample: WasmTypeSample<T, R, V>)
        requires
            f.requires((self.type_,)),
        ensures
            f.ensures((self.type_,), sample.type_),
            sample.file == self.file,
            sample.compilation_unit == self.compilation_unit,
            sample.function_idx == self.function_idx,
            sample.function_name_wasm == self.function_name_wasm,
            sample.function_name_dwarf == self.function_name_dwarf,
            sample.param_or_return == self.param_or_return,
            sample.wasm_type == self.wasm_type,
            sample.wasm_body == self.wasm_body,
            sample.aux == self.aux,
    {
        WasmTypeSample {
            file: self.file,
            compilation_unit: self.compilation_unit,
            function_idx: self.function_idx,
            function_name_wasm: self.function_name_wasm,
            function_name_dwarf: self.function_name_dwarf,
            param_or_return: self.param_or_return,
            wasm_type: self.wasm_type,
            wasm_body: self.wasm_body,
            type_: f(self.type_),
            aux: self.aux,
        }
    }
}

} // verus!
