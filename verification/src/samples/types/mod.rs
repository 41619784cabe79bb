//! The type language: a type is a short list of tokens, read from the
//! outside in.

use vstd::prelude::*;
use gimli::DwAte;
use crate::text::same_text;
use crate::dwarf::constants::{
    DW_ATE_BOOLEAN, DW_ATE_COMPLEX_FLOAT, DW_ATE_FLOAT, DW_ATE_SIGNED, DW_ATE_SIGNED_CHAR,
    DW_ATE_UNSIGNED, DW_ATE_UNSIGNED_CHAR, DW_ATE_UTF,
};

pub mod parse;
pub mod simplify;

verus! {

/// A base type: its fixed-width name, and how the source named it.
#[derive(Debug)]
pub struct PrimitiveType {
    /// The fixed-width name, which alone is printed.
    pub normalized: &'static str,
    pub source_name: String,
    pub encoding: DwAte,
    pub byte_size: u64,
}

/// One token of a type.
#[derive(Debug)]
pub enum TypeToken {
    Unknown,
    Primitive(PrimitiveType),
    Pointer,
    Array,
    Const,
    Struct,
    Class,
    Union,
    Enum,
    Function,
    /// The name of a class, struct, union or enumeration.
    Nominal(String),
    /// The name of a typedef.
    Typedef(String),
    /// Closes a type with several parts.
    End,
}

/// A type of the source program: the tokens of its constructors from the
/// outside in.
#[derive(Debug)]
pub struct SourceType(pub Vec<TypeToken>);

/// A [`PrimitiveType`] with each text as a sequence of characters.
pub struct PrimitiveModel {
    pub normalized: Seq<char>,
    pub source_name: Seq<char>,
    pub encoding: u8,
    pub byte_size: u64,
}

impl View for PrimitiveType {
    type V = PrimitiveModel;

    open spec fn view(&self) -> PrimitiveModel {
        PrimitiveModel {
            normalized: self.normalized@,
            source_name: self.source_name@,
            encoding: self.encoding.0,
            byte_size: self.byte_size,
        }
    }
}

/// A [`TypeToken`] with each text as a sequence of characters.
pub enum TokenModel {
    Unknown,
    Primitive(PrimitiveModel),
    Pointer,
    Array,
    Const,
    Struct,
    Class,
    Union,
    Enum,
    Function,
    Nominal(Seq<char>),
    Typedef(Seq<char>),
    End,
}

impl View for TypeToken {
    type V = TokenModel;

    open spec fn view(&self) -> TokenModel {
        match *self {
            TypeToken::Unknown => TokenModel::Unknown,
            TypeToken::Primitive(primitive) => TokenModel::Primitive(primitive@),
            TypeToken::Pointer => TokenModel::Pointer,
            TypeToken::Array => TokenModel::Array,
            TypeToken::Const => TokenModel::Const,
            TypeToken::Struct => TokenModel::Struct,
            TypeToken::Class => TokenModel::Class,
            TypeToken::Union => TokenModel::Union,
            TypeToken::Enum => TokenModel::Enum,
            TypeToken::Function => TokenModel::Function,
            TypeToken::Nominal(name) => TokenModel::Nominal(name@),
            TypeToken::Typedef(name) => TokenModel::Typedef(name@),
            TypeToken::End => TokenModel::End,
        }
    }
}

/// The tokens of a list, each as its model.
pub open spec fn token_models(tokens: Seq<TypeToken>) -> Seq<TokenModel> {
    Seq::new(tokens.len(), |i: int| tokens[i]@)
}

impl View for SourceType {
    type V = Seq<TokenModel>;

    open spec fn view(&self) -> Seq<TokenModel> {
        token_models(self.0@)
    }
}

/// The text of `text` as `{:?}` prints it: between double quotes, with the
/// characters escaped that Rust escapes.
pub uninterp spec fn quoted(text: Seq<char>) -> Seq<char>;

/// `format!("{:?}", text)` for a string slice: the text between double
/// quotes with Rust's escapes, which is a function of the text alone.
#[verifier::external_body]
fn quote(text: &str) -> (quoted_text: String)
    ensures
        quoted_text@ == quoted(text@),
{
    format!("{:?}", text)
}

/// The fixed-width name of a base type, where one is defined.
///
/// Plain `char` keeps its name whatever its sign. `char16_t` and `char32_t`
/// keep theirs. Any other character type of one byte is an integer of 8
/// bits. Integers of 2, 4 and 8 bytes, floats of 4, 8 and 16 bytes, complex
/// floats of 8 and 16 bytes and booleans of one byte are named by kind and
/// width. Nothing else has a name.
pub open spec fn normalized_name(source_name: Seq<char>, encoding: u8, byte_size: u64) -> Option<
    Seq<char>,
> {
    if source_name == "char"@ && (encoding == DW_ATE_SIGNED_CHAR || encoding
        == DW_ATE_UNSIGNED_CHAR) && byte_size == 1 {
        Some("char"@)
    } else if source_name == "char16_t"@ && encoding == DW_ATE_UTF && byte_size == 2 {
        Some("char16_t"@)
    } else if source_name == "char32_t"@ && encoding == DW_ATE_UTF && byte_size == 4 {
        Some("char32_t"@)
    } else if encoding == DW_ATE_SIGNED_CHAR && byte_size == 1 {
        Some("int8_t"@)
    } else if encoding == DW_ATE_UNSIGNED_CHAR && byte_size == 1 {
        Some("uint8_t"@)
    } else if encoding == DW_ATE_SIGNED && byte_size == 2 {
        Some("int16_t"@)
    } else if encoding == DW_ATE_SIGNED && byte_size == 4 {
        Some("int32_t"@)
    } else if encoding == DW_ATE_SIGNED && byte_size == 8 {
        Some("int64_t"@)
    } else if encoding == DW_ATE_UNSIGNED && byte_size == 2 {
        Some("uint16_t"@)
    } else if encoding == DW_ATE_UNSIGNED && byte_size == 4 {
        Some("uint32_t"@)
    } else if encoding == DW_ATE_UNSIGNED && byte_size == 8 {
        Some("uint64_t"@)
    } else if encoding == DW_ATE_FLOAT && byte_size == 4 {
        Some("float32_t"@)
    } else if encoding == DW_ATE_FLOAT && byte_size == 8 {
        Some("float64_t"@)
    } else if encoding == DW_ATE_FLOAT && byte_size == 16 {
        Some("float128_t"@)
    } else if encoding == DW_ATE_COMPLEX_FLOAT && (byte_size == 16 || byte_size == 8) {
        Some("complex"@)
    } else if encoding == DW_ATE_BOOLEAN && byte_size == 1 {
        Some("bool"@)
    } else {
        None
    }
}

impl PrimitiveType {
    /// The fixed-width name of a base type, where one is defined: see
    /// [`normalized_name`].
    pub fn normalize(source_name: &str, encoding: DwAte, byte_size: u64) -> (name: Option<
        &'static str,
    >)
        ensures
            match name {
                Some(name) => normalized_name(source_name@, encoding.0, byte_size) == Some(name@),
                None => normalized_name(source_name@, encoding.0, byte_size) is None,
            },
    {
        let encoding = encoding.0;
        if same_text(source_name, "char") && (encoding == DW_ATE_SIGNED_CHAR || encoding
            == DW_ATE_UNSIGNED_CHAR) && byte_size == 1 {
            Some("char")
        } else if same_text(source_name, "char16_t") && encoding == DW_ATE_UTF && byte_size == 2 {
            Some("char16_t")
        } else if same_text(source_name, "char32_t") && encoding == DW_ATE_UTF && byte_size == 4 {
            Some("char32_t")
        } else if encoding == DW_ATE_SIGNED_CHAR && byte_size == 1 {
            Some("int8_t")
        } else if encoding == DW_ATE_UNSIGNED_CHAR && byte_size == 1 {
            Some("uint8_t")
        } else if encoding == DW_ATE_SIGNED && byte_size == 2 {
            Some("int16_t")
        } else if encoding == DW_ATE_SIGNED && byte_size == 4 {
            Some("int32_t")
        } else if encoding == DW_ATE_SIGNED && byte_size == 8 {
            Some("int64_t")
        } else if encoding == DW_ATE_UNSIGNED && byte_size == 2 {
            Some("uint16_t")
        } else if encoding == DW_ATE_UNSIGNED && byte_size == 4 {
            Some("uint32_t")
        } else if encoding == DW_ATE_UNSIGNED && byte_size == 8 {
            Some("uint64_t")
        } else if encoding == DW_ATE_FLOAT && byte_size == 4 {
            Some("float32_t")
        } else if encoding == DW_ATE_FLOAT && byte_size == 8 {
            Some("float64_t")
        } else if encoding == DW_ATE_FLOAT && byte_size == 16 {
            Some("float128_t")
        } else if encoding == DW_ATE_COMPLEX_FLOAT && (byte_size == 16 || byte_size == 8) {
            Some("complex")
        } else if encoding == DW_ATE_BOOLEAN && byte_size == 1 {
            Some("bool")
        } else {
            None
        }
    }

    /// Whether the fixed-width name is the one that is defined for the base
    /// type.
    pub open spec fn wf(&self) -> bool {
        normalized_name(self.source_name@, self.encoding.0, self.byte_size) == Some(
            self.normalized@,
        )
    }

    /// The base type with this name in the source, this encoding and this
    /// size, if a fixed-width name is defined for it.
    pub fn new(source_name: String, encoding: DwAte, byte_size: u64) -> (primitive: Option<
        PrimitiveType,
    >)
        ensures
            primitive is Some <==> normalized_name(source_name@, encoding.0, byte_size) is Some,
            primitive matches Some(primitive) ==> primitive.wf() && primitive.source_name
                == source_name && primitive.encoding == encoding && primitive.byte_size
                == byte_size,
    {
        match PrimitiveType::normalize(source_name.as_str(), encoding, byte_size) {
            Some(normalized) => Some(
                PrimitiveType { normalized, source_name, encoding, byte_size },
            ),
            None => None,
        }
    }
}

impl TypeToken {
    /// Whether the token is a name: that of a typedef or of a class, struct,
    /// union or enumeration.
    pub open spec fn is_name(&self) -> bool {
        *self is Nominal || *self is Typedef
    }

    /// Whether a type can end with the token: it stands for a whole type and
    /// asks for nothing after it.
    pub open spec fn is_terminal(&self) -> bool {
        *self is Unknown || *self is Primitive || *self is Struct || *self is Class
            || *self is Union || *self is Function
    }

    /// The text of the token.
    pub open spec fn text(&self) -> Seq<char> {
        match *self {
            TypeToken::Unknown => "unknown"@,
            TypeToken::Pointer => "pointer"@,
            TypeToken::Array => "array"@,
            TypeToken::Primitive(primitive) => "primitive "@ + primitive.normalized@,
            TypeToken::Const => "const"@,
            TypeToken::Struct => "struct"@,
            TypeToken::Class => "class"@,
            TypeToken::Union => "union"@,
            TypeToken::Enum => "enum"@,
            TypeToken::Function => "function"@,
            TypeToken::Nominal(name) => "name "@ + quoted(name@),
            TypeToken::Typedef(name) => "typedef "@ + quoted(name@),
            TypeToken::End => "end"@,
        }
    }

    /// Appends the text of the token.
    pub fn push_text(&self, out: &mut String)
        ensures
            final(out)@ == old(out)@ + self.text(),
    {
        match self {
            TypeToken::Unknown => out.append("unknown"),
            TypeToken::Pointer => out.append("pointer"),
            TypeToken::Array => out.append("array"),
            TypeToken::Primitive(primitive) => {
                out.append("primitive ");
                out.append(primitive.normalized);
                assert(out@ =~= old(out)@ + self.text());
            },
            TypeToken::Const => out.append("const"),
            TypeToken::Struct => out.append("struct"),
            TypeToken::Class => out.append("class"),
            TypeToken::Union => out.append("union"),
            TypeToken::Enum => out.append("enum"),
            TypeToken::Function => out.append("function"),
            TypeToken::Nominal(name) => {
                out.append("name ");
                let quoted_name = quote(name.as_str());
                out.append(quoted_name.as_str());
                assert(out@ =~= old(out)@ + self.text());
            },
            TypeToken::Typedef(name) => {
                out.append("typedef ");
                let quoted_name = quote(name.as_str());
                out.append(quoted_name.as_str());
                assert(out@ =~= old(out)@ + self.text());
            },
            TypeToken::End => out.append("end"),
        }
    }

    /// The text of the token.
    pub fn to_text(&self) -> (text: String)
        ensures
            text@ == self.text(),
    {
        let mut text = String::new();
        self.push_text(&mut text);
        text
    }
}

/// The texts of the tokens with a blank between them.
pub open spec fn tokens_text(tokens: Seq<TypeToken>) -> Seq<char>
    decreases tokens.len(),
{
    if tokens.len() == 0 {
        Seq::empty()
    } else if tokens.len() == 1 {
        tokens[0].text()
    } else {
        tokens_text(tokens.drop_last()) + " "@ + tokens.last().text()
    }
}

impl SourceType {
    /// What holds of every type that was read from debug information: it is
    /// not empty, and it ends with a token that stands for a whole type.
    pub open spec fn wf(&self) -> bool {
        self.0@.len() > 0 && self.0@.last().is_terminal()
    }

    /// The type of which nothing is known.
    pub fn unknown() -> (ty: SourceType)
        ensures
            ty.0@ == seq![TypeToken::Unknown],
            ty.wf(),
    {
        let mut tokens: Vec<TypeToken> = Vec::new();
        tokens.push(TypeToken::Unknown);
        SourceType(tokens)
    }

    /// Whether this is the type of which nothing is known: the single token
    /// `Unknown`.
    pub fn is_unknown(&self) -> (unknown: bool)
        ensures
            unknown <==> self.0@ == seq![TypeToken::Unknown],
    {
        let unknown = self.0.len() == 1 && match &self.0[0] {
            TypeToken::Unknown => true,
            _ => false,
        };
        proof {
            if unknown {
                assert(self.0@ =~= seq![TypeToken::Unknown]);
            } else if self.0@.len() == 1 {
                assert(seq![TypeToken::Unknown][0] == TypeToken::Unknown);
            }
        }
        unknown
    }

    /// The line that is written for the type: the texts of its tokens with a
    /// blank between them.
    pub fn to_text(&self) -> (line: String)
        ensures
            line@ == tokens_text(self.0@),
    {
        let mut line = String::new();
        let mut i: usize = 0;
        assert(self.0@.take(0) =~= Seq::<TypeToken>::empty());
        while i < self.0.len()
            invariant
                i <= self.0.len(),
                line@ == tokens_text(self.0@.take(i as int)),
            decreases self.0.len() - i,
        {
            proof {
                assert(self.0@.take(i + 1).drop_last() =~= self.0@.take(i as int));
                assert(self.0@.take(i + 1).last() == self.0@[i as int]);
            }
            if i > 0 {
                line.append(" ");
            }
            self.0[i].push_text(&mut line);
            assert(line@ =~= tokens_text(self.0@.take(i + 1)));
            i = i + 1;
        }
        assert(self.0@.take(self.0.len() as int) =~= self.0@);
        line
    }
}

} // verus!
