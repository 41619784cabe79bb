//! The names of the six sample files, and the record that is written for
//! each sample beside its two lines.

use vstd::prelude::*;
use crate::samples::sample::{ParamOrReturn, WasmTypeSample};

verus! {

/// The three files of a sample: the rendered body, the type, and the record
/// of where the sample comes from.
#[derive(Debug, Clone, Copy, PartialEq, Eq, Hash)]
pub enum WasmTypeInfo {
    Wasm,
    Type,
    Info,
}

impl WasmTypeInfo {
    /// The name of the file, without its extension.
    pub open spec fn text(self) -> Seq<char> {
        match self {
            WasmTypeInfo::Wasm => "wasm"@,
            WasmTypeInfo::Type => "type"@,
            WasmTypeInfo::Info => "info"@,
        }
    }

    /// The name of the file, without its extension.
    pub fn to_str(self) -> (name: &'static str)
        ensures
            name@ == self.text(),
    {
        match self {
            WasmTypeInfo::Wasm => "wasm",
            WasmTypeInfo::Type => "type",
            WasmTypeInfo::Info => "info",
        }
    }

    /// The file's extension: the record is a line of JSON, the two others
    /// are plain text.
    pub open spec fn extension_text(self) -> Seq<char> {
        match self {
            WasmTypeInfo::Wasm => "txt"@,
            WasmTypeInfo::Type => "txt"@,
            WasmTypeInfo::Info => "jsonl"@,
        }
    }

    /// The file's extension.
    pub fn extension(self) -> (extension: &'static str)
        ensures
            extension@ == self.extension_text(),
    {
        match self {
            WasmTypeInfo::Wasm => "txt",
            WasmTypeInfo::Type => "txt",
            WasmTypeInfo::Info => "jsonl",
        }
    }

    /// The file's name, such as `wasm.txt`.
    pub fn file_name(self) -> (name: String)
        ensures
            name@ == self.text() + "."@ + self.extension_text(),
    {
        let mut name = String::from_str(self.to_str());
        name.append(".");
        name.append(self.extension());
        name
    }
}

/// The two directories of samples: for parameters and for return values.
#[derive(Debug, Clone, Copy, PartialEq, Eq, Hash)]
pub enum ParamReturn {
    Param,
    Return,
}

impl ParamReturn {
    /// The name of the directory.
    pub open spec fn text(self) -> Seq<char> {
        match self {
            ParamReturn::Param => "param"@,
            ParamReturn::Return => "return"@,
        }
    }

    /// The name of the directory.
    pub fn to_str(self) -> (name: &'static str)
        ensures
            name@ == self.text(),
    {
        match self {
            ParamReturn::Param => "param",
            ParamReturn::Return => "return",
        }
    }

    /// The directory that a sample goes to.
    pub fn of(param_or_return: &ParamOrReturn) -> (directory: ParamReturn)
        ensures
            directory is Param <==> *param_or_return is Param,
    {
        match param_or_return {
            ParamOrReturn::Param { .. } => ParamReturn::Param,
            ParamOrReturn::Return => ParamReturn::Return,
        }
    }
}

/// The record of where a sample comes from.
#[derive(Debug)]
pub struct SampleInfo {
    pub file: String,
    pub compilation_unit: Option<String>,
    pub function_idx: u32,
    pub function_name_wasm: Option<String>,
    pub function_name_dwarf: Option<String>,
    /// `None` for the sample of a return value.
    pub param_idx: Option<u32>,
    pub param_name: Option<String>,
}

/// A copy of a text that may be absent.
fn copy_text(text: &Option<String>) -> (copy: Option<String>)
    ensures
        copy == *text,
{
    match text {
        Some(text) => Some(text.clone()),
        None => None,
    }
}

impl SampleInfo {
    /// The record of `sample`: where it comes from, and for a parameter its
    /// index and its name.
    pub fn from<T, U, R>(sample: &WasmTypeSample<T, U, R>) -> (info: SampleInfo)
        ensures
            info.file == sample.file,
            info.compilation_unit == sample.compilation_unit,
            info.function_idx == sample.function_idx,
            info.function_name_wasm == sample.function_name_wasm,
            info.function_name_dwarf == sample.function_name_dwarf,
            match sample.param_or_return {
                ParamOrReturn::Param { idx, name } => info.param_idx == Some(idx)
                    && info.param_name == name,
                ParamOrReturn::Return => info.param_idx is None && info.param_name is None,
            },
    {
        let (param_idx, param_name) = match &sample.param_or_return {
            ParamOrReturn::Param { idx, name } => (Some(*idx), copy_text(name)),
            ParamOrReturn::Return => (None, None),
        };
        SampleInfo {
            file: sample.file.clone(),
            compilation_unit: copy_text(&sample.compilation_unit),
            function_idx: sample.function_idx,
            function_name_wasm: copy_text(&sample.function_name_wasm),
            function_name_dwarf: copy_text(&sample.function_name_dwarf),
            param_idx,
            param_name,
        }
    }
}

} // verus!
