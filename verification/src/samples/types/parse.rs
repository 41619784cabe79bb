//! From a DWARF type entry to the type language.

use vstd::prelude::*;
use gimli::{DwAt, DwAte};
use crate::dwarf::constants::{
    DW_AT_ABSTRACT_ORIGIN, DW_AT_BYTE_SIZE, DW_AT_ENCODING, DW_AT_NAME, DW_AT_TYPE,
    DW_TAG_ARRAY_TYPE, DW_TAG_BASE_TYPE, DW_TAG_CLASS_TYPE, DW_TAG_CONST_TYPE,
    DW_TAG_ENUMERATION_TYPE, DW_TAG_POINTER_TYPE, DW_TAG_PTR_TO_MEMBER_TYPE,
    DW_TAG_REFERENCE_TYPE, DW_TAG_RESTRICT_TYPE, DW_TAG_RVALUE_REFERENCE_TYPE,
    DW_TAG_STRUCTURE_TYPE, DW_TAG_SUBROUTINE_TYPE, DW_TAG_TYPEDEF, DW_TAG_UNION_TYPE,
    DW_TAG_UNSPECIFIED_TYPE, DW_TAG_VOLATILE_TYPE,
};
use crate::dwarf::util::{AttrValue, DwarfEntry};
use crate::error::{ErrorModel, ExtractError};
use crate::samples::types::{
    normalized_name, token_models, PrimitiveModel, PrimitiveType, SourceType, TokenModel,
    TypeToken,
};
use crate::text::same_text;

verus! {

/// How many references from entry to entry are followed for one type or one
/// parameter. A longer chain is a failure: no type of a program is nested so
/// deep, and a chain that returns to itself has no end.
pub const MAX_CHAIN: usize = 256;

/// The base type that an entry describes: its name, its encoding and its
/// size, each of which it must have, and the fixed-width name that is
/// defined for them.
pub open spec fn primitive_of(entry: DwarfEntry) -> Result<PrimitiveModel, ErrorModel> {
    match entry.text(DW_AT_NAME) {
        Err(error) => Err(error),
        Ok(None) => Err(ErrorModel::MissingAttribute { attribute: DW_AT_NAME }),
        Ok(Some(source_name)) => match entry.attribute(DW_AT_ENCODING) {
            Err(error) => Err(error),
            Ok(None) => Err(ErrorModel::MissingAttribute { attribute: DW_AT_ENCODING }),
            Ok(Some(AttrValue::Encoding(encoding))) => match entry.uint(DW_AT_BYTE_SIZE) {
                Err(error) => Err(error),
                Ok(None) => Err(ErrorModel::MissingAttribute { attribute: DW_AT_BYTE_SIZE }),
                Ok(Some(byte_size)) => match normalized_name(source_name, encoding, byte_size) {
                    Some(normalized) => Ok(
                        PrimitiveModel { normalized, source_name, encoding, byte_size },
                    ),
                    None => Err(
                        ErrorModel::UnknownPrimitive { source_name, encoding, byte_size },
                    ),
                },
            },
            Ok(Some(_)) => Err(
                ErrorModel::UnsupportedAttributeValue { attribute: DW_AT_ENCODING },
            ),
        },
    }
}

/// The tokens `first`, and after them those of the type that `entry` refers
/// to.
pub open spec fn followed_by_inner(first: Seq<TokenModel>, entry: DwarfEntry, fuel: nat) -> Result<
    Seq<TokenModel>,
    ErrorModel,
>
    decreases fuel, 1nat,
{
    match inner_tokens(entry, fuel) {
        Ok(inner) => Ok(first + inner),
        Err(error) => Err(error),
    }
}

/// The tokens of the type that the attribute `DW_AT_type` of `entry` refers
/// to, and `Unknown` where the entry has no such attribute.
pub open spec fn inner_tokens(entry: DwarfEntry, fuel: nat) -> Result<Seq<TokenModel>, ErrorModel>
    decreases fuel, 0nat,
{
    if fuel == 0 {
        Err(ErrorModel::ChainTooLong)
    } else {
        match entry.reference(DW_AT_TYPE) {
            Err(error) => Err(error),
            Ok(None) => Ok(seq![TokenModel::Unknown]),
            Ok(Some(inner)) => type_tokens(inner, (fuel - 1) as nat),
        }
    }
}

/// The token for the name of `entry`, if it has a name.
pub open spec fn name_token(entry: DwarfEntry) -> Result<Seq<TokenModel>, ErrorModel> {
    match entry.text(DW_AT_NAME) {
        Err(error) => Err(error),
        Ok(None) => Ok(Seq::empty()),
        Ok(Some(name)) => Ok(seq![TokenModel::Nominal(name)]),
    }
}

/// The tokens of the type that `entry` describes, following at most `fuel`
/// references to inner types.
///
/// A base type is a primitive. Pointers, references of both kinds and
/// pointers to members are pointers to their inner type; `const` and arrays
/// are followed by their inner type; `volatile` and `restrict` leave no
/// token. A typedef gives its name, which it must have, and its inner type.
/// An enumeration gives its name if it has one, `Enum`, and its inner type;
/// a class, a struct and a union give their name and their kind, never
/// their members. A subroutine type is `Function`. The unspecified type
/// `decltype(nullptr)` is a pointer to an unknown type; any other
/// unspecified type and any other tag is a failure.
pub open spec fn type_tokens(entry: DwarfEntry, fuel: nat) -> Result<Seq<TokenModel>, ErrorModel>
    decreases fuel, 2nat,
{
    let tag = entry.tag.0;
    if tag == DW_TAG_BASE_TYPE {
        match primitive_of(entry) {
            Ok(primitive) => Ok(seq![TokenModel::Primitive(primitive)]),
            Err(error) => Err(error),
        }
    } else if tag == DW_TAG_REFERENCE_TYPE || tag == DW_TAG_RVALUE_REFERENCE_TYPE || tag
        == DW_TAG_PTR_TO_MEMBER_TYPE || tag == DW_TAG_POINTER_TYPE {
        followed_by_inner(seq![TokenModel::Pointer], entry, fuel)
    } else if tag == DW_TAG_CONST_TYPE {
        followed_by_inner(seq![TokenModel::Const], entry, fuel)
    } else if tag == DW_TAG_ARRAY_TYPE {
        followed_by_inner(seq![TokenModel::Array], entry, fuel)
    } else if tag == DW_TAG_TYPEDEF {
        match entry.text(DW_AT_NAME) {
            Err(error) => Err(error),
            Ok(None) => Err(ErrorModel::MissingAttribute { attribute: DW_AT_NAME }),
            Ok(Some(name)) => followed_by_inner(seq![TokenModel::Typedef(name)], entry, fuel),
        }
    } else if tag == DW_TAG_ENUMERATION_TYPE {
        match name_token(entry) {
            Err(error) => Err(error),
            Ok(name) => followed_by_inner(name.push(TokenModel::Enum), entry, fuel),
        }
    } else if tag == DW_TAG_CLASS_TYPE {
        match name_token(entry) {
            Err(error) => Err(error),
            Ok(name) => Ok(name.push(TokenModel::Class)),
        }
    } else if tag == DW_TAG_STRUCTURE_TYPE {
        match name_token(entry) {
            Err(error) => Err(error),
            Ok(name) => Ok(name.push(TokenModel::Struct)),
        }
    } else if tag == DW_TAG_UNION_TYPE {
        match name_token(entry) {
            Err(error) => Err(error),
            Ok(name) => Ok(name.push(TokenModel::Union)),
        }
    } else if tag == DW_TAG_SUBROUTINE_TYPE {
        Ok(seq![TokenModel::Function])
    } else if tag == DW_TAG_VOLATILE_TYPE || tag == DW_TAG_RESTRICT_TYPE {
        inner_tokens(entry, fuel)
    } else if tag == DW_TAG_UNSPECIFIED_TYPE {
        match entry.text(DW_AT_NAME) {
            Err(error) => Err(error),
            Ok(name) => if name == Some("decltype(nullptr)"@) {
                Ok(seq![TokenModel::Pointer, TokenModel::Unknown])
            } else {
                Err(ErrorModel::UnexpectedUnspecifiedType { name })
            },
        }
    } else {
        Err(ErrorModel::UnknownTypeTag { tag })
    }
}

/// The tokens of the type of a parameter, following at most `fuel`
/// references to abstract origins.
///
/// They are those of the type that the parameter's entry refers to. An entry
/// without a type that has an abstract origin has the type of its origin.
/// An entry with neither has the unknown type.
pub open spec fn param_tokens(entry: DwarfEntry, fuel: nat) -> Result<Seq<TokenModel>, ErrorModel>
    decreases fuel,
{
    match entry.reference(DW_AT_TYPE) {
        Err(error) => Err(error),
        Ok(Some(type_entry)) => type_tokens(type_entry, MAX_CHAIN as nat),
        Ok(None) => match entry.reference(DW_AT_ABSTRACT_ORIGIN) {
            Err(error) => Err(error),
            Ok(None) => Ok(seq![TokenModel::Unknown]),
            Ok(Some(origin)) => if fuel == 0 {
                Err(ErrorModel::ChainTooLong)
            } else {
                param_tokens(origin, (fuel - 1) as nat)
            },
        },
    }
}

/// Whether a type can end with the token.
pub open spec fn ends_type(token: TokenModel) -> bool {
    token is Unknown || token is Primitive || token is Struct || token is Class || token is Union
        || token is Function
}

/// The tokens of every type that is read are not empty and end with a token
/// that stands for a whole type.
pub proof fn lemma_type_tokens_end(entry: DwarfEntry, fuel: nat)
    ensures
        type_tokens(entry, fuel) matches Ok(tokens) ==> tokens.len() > 0 && ends_type(
            tokens.last(),
        ),
        inner_tokens(entry, fuel) matches Ok(tokens) ==> tokens.len() > 0 && ends_type(
            tokens.last(),
        ),
    decreases fuel,
{
    if fuel > 0 {
        match entry.reference(DW_AT_TYPE) {
            Ok(Some(inner)) => {
                lemma_type_tokens_end(inner, (fuel - 1) as nat);
            },
            _ => {},
        }
    }
}

/// Whether a token that stands for a whole type occurs at the end of the
/// tokens only: nothing follows a primitive, a struct, a class, a union, a
/// function or an unknown type.
pub open spec fn ends_once(tokens: Seq<TokenModel>) -> bool {
    forall|i: int| 0 <= i < tokens.len() - 1 ==> !ends_type(#[trigger] tokens[i])
}

/// In the tokens of every type that is read, a token that stands for a
/// whole type occurs at the end only: the members of a struct, a class or a
/// union and the parameters of a function never follow it.
pub proof fn lemma_type_tokens_end_once(entry: DwarfEntry, fuel: nat)
    ensures
        type_tokens(entry, fuel) matches Ok(tokens) ==> ends_once(tokens),
        inner_tokens(entry, fuel) matches Ok(tokens) ==> ends_once(tokens),
    decreases fuel,
{
    if fuel > 0 {
        match entry.reference(DW_AT_TYPE) {
            Ok(Some(inner)) => {
                lemma_type_tokens_end_once(inner, (fuel - 1) as nat);
            },
            _ => {},
        }
    }
    match inner_tokens(entry, fuel) {
        Ok(inner) => {
            assert forall|first: Seq<TokenModel>| ends_once(#[trigger] (first + inner)) <== (forall|
                i: int,
            |
                0 <= i < first.len() ==> !ends_type(#[trigger] first[i])) by {
                if forall|i: int| 0 <= i < first.len() ==> !ends_type(#[trigger] first[i]) {
                    assert forall|i: int| 0 <= i < (first + inner).len() - 1 implies !ends_type(
                        #[trigger] (first + inner)[i],
                    ) by {
                        if i >= first.len() {
                            assert((first + inner)[i] == inner[i - first.len()]);
                        } else {
                            assert((first + inner)[i] == first[i]);
                        }
                    }
                }
            }
        },
        Err(_) => {},
    }
}

/// In the tokens of the type of every parameter, a token that stands for a
/// whole type occurs at the end only.
pub proof fn lemma_param_tokens_end_once(entry: DwarfEntry, fuel: nat)
    ensures
        param_tokens(entry, fuel) matches Ok(tokens) ==> ends_once(tokens),
    decreases fuel,
{
    match entry.reference(DW_AT_TYPE) {
        Ok(Some(type_entry)) => {
            lemma_type_tokens_end_once(type_entry, MAX_CHAIN as nat);
        },
        Ok(None) => match entry.reference(DW_AT_ABSTRACT_ORIGIN) {
            Ok(Some(origin)) => {
                if fuel > 0 {
                    lemma_param_tokens_end_once(origin, (fuel - 1) as nat);
                }
            },
            _ => {},
        },
        _ => {},
    }
}

/// The tokens of the type of every parameter are not empty and end with a
/// token that stands for a whole type.
pub proof fn lemma_param_tokens_end(entry: DwarfEntry, fuel: nat)
    ensures
        param_tokens(entry, fuel) matches Ok(tokens) ==> tokens.len() > 0 && ends_type(
            tokens.last(),
        ),
    decreases fuel,
{
    match entry.reference(DW_AT_TYPE) {
        Ok(Some(type_entry)) => {
            lemma_type_tokens_end(type_entry, MAX_CHAIN as nat);
        },
        Ok(None) => match entry.reference(DW_AT_ABSTRACT_ORIGIN) {
            Ok(Some(origin)) => {
                if fuel > 0 {
                    lemma_param_tokens_end(origin, (fuel - 1) as nat);
                }
            },
            _ => {},
        },
        _ => {},
    }
}

/// Appends the token for the name of `entry`, if it has a name.
fn push_name(tokens: &mut Vec<TypeToken>, entry: &DwarfEntry) -> (done: Result<(), ExtractError>)
    ensures
        match name_token(*entry) {
            Ok(name) => done is Ok && token_models(final(tokens)@) == token_models(old(tokens)@)
                + name,
            Err(error) => done matches Err(found) && found@ == error,
        },
{
    match entry.attr_str(DwAt(DW_AT_NAME))? {
        Some(name) => {
            tokens.push(TypeToken::Nominal(name));
            assert(token_models(tokens@) =~= token_models(old(tokens)@) + seq![
                TokenModel::Nominal(name@),
            ]);
        },
        None => {
            assert(token_models(tokens@) =~= token_models(old(tokens)@) + Seq::empty());
        },
    }
    Ok(())
}

/// Appends one token.
fn push_token(tokens: &mut Vec<TypeToken>, token: TypeToken)
    ensures
        token_models(final(tokens)@) == token_models(old(tokens)@).push(token@),
        final(tokens)@ == old(tokens)@.push(token),
{
    tokens.push(token);
    assert(token_models(tokens@) =~= token_models(old(tokens)@).push(token@));
}

impl SourceType {
    /// The type of a parameter: that of its entry, or of the abstract origin
    /// of its entry where the entry itself names no type. See
    /// [`param_tokens`].
    pub fn parse_param(param_entry: &DwarfEntry) -> (ty: Result<SourceType, ExtractError>)
        ensures
            match param_tokens(*param_entry, MAX_CHAIN as nat) {
                Ok(tokens) => ty matches Ok(ty) && ty@ == tokens && ty.wf(),
                Err(error) => ty matches Err(found) && found@ == error,
            },
    {
        SourceType::parse_param_within(param_entry, MAX_CHAIN)
    }

    /// The type of a parameter, following at most `fuel` references to
    /// abstract origins.
    fn parse_param_within(param_entry: &DwarfEntry, fuel: usize) -> (ty: Result<
        SourceType,
        ExtractError,
    >)
        ensures
            match param_tokens(*param_entry, fuel as nat) {
                Ok(tokens) => ty matches Ok(ty) && ty@ == tokens && ty.wf(),
                Err(error) => ty matches Err(found) && found@ == error,
            },
        decreases fuel,
    {
        match param_entry.attr_entry(DwAt(DW_AT_TYPE))? {
            Some(type_entry) => SourceType::parse_type(&type_entry),
            None => match param_entry.attr_entry(DwAt(DW_AT_ABSTRACT_ORIGIN))? {
                Some(origin) => {
                    if fuel == 0 {
                        Err(ExtractError::ChainTooLong)
                    } else {
                        SourceType::parse_param_within(&origin, fuel - 1)
                    }
                },
                None => {
                    let ty = SourceType::unknown();
                    assert(ty@ =~= seq![TokenModel::Unknown]);
                    Ok(ty)
                },
            },
        }
    }

    /// The type that an entry describes: see [`type_tokens`].
    pub fn parse_type(type_entry: &DwarfEntry) -> (ty: Result<SourceType, ExtractError>)
        ensures
            match type_tokens(*type_entry, MAX_CHAIN as nat) {
                Ok(tokens) => ty matches Ok(ty) && ty@ == tokens && ty.wf(),
                Err(error) => ty matches Err(found) && found@ == error,
            },
    {
        let mut tokens: Vec<TypeToken> = Vec::with_capacity(4);
        assert(token_models(tokens@) =~= Seq::empty());
        SourceType::parse_type_to_tokens(&mut tokens, type_entry, MAX_CHAIN)?;
        proof {
            lemma_type_tokens_end(*type_entry, MAX_CHAIN as nat);
            let models = type_tokens(*type_entry, MAX_CHAIN as nat)->Ok_0;
            assert(token_models(tokens@) =~= models);
            assert(token_models(tokens@).last() == tokens@.last()@);
        }
        Ok(SourceType(tokens))
    }

    /// Appends the tokens of the type that `entry` describes.
    fn parse_type_to_tokens(tokens: &mut Vec<TypeToken>, entry: &DwarfEntry, fuel: usize) -> (done:
        Result<(), ExtractError>)
        ensures
            match type_tokens(*entry, fuel as nat) {
                Ok(added) => done is Ok && token_models(final(tokens)@) == token_models(
                    old(tokens)@,
                ) + added,
                Err(error) => done matches Err(found) && found@ == error,
            },
        decreases fuel, 1nat,
    {
        let tag = entry.tag.0;
        let ghost before = token_models(tokens@);
        if tag == DW_TAG_BASE_TYPE {
            let primitive = SourceType::parse_primitive_type(entry)?;
            push_token(tokens, TypeToken::Primitive(primitive));
            assert(before.push(TokenModel::Primitive(primitive@)) =~= before + seq![
                TokenModel::Primitive(primitive@),
            ]);
            Ok(())
        } else if tag == DW_TAG_REFERENCE_TYPE || tag == DW_TAG_RVALUE_REFERENCE_TYPE || tag
            == DW_TAG_PTR_TO_MEMBER_TYPE || tag == DW_TAG_POINTER_TYPE {
            push_token(tokens, TypeToken::Pointer);
            SourceType::parse_inner_type_to_tokens(tokens, entry, fuel)?;
            proof {
                let inner = inner_tokens(*entry, fuel as nat)->Ok_0;
                assert(before.push(TokenModel::Pointer) + inner =~= before + (seq![
                    TokenModel::Pointer,
                ] + inner));
            }
            Ok(())
        } else if tag == DW_TAG_CONST_TYPE {
            push_token(tokens, TypeToken::Const);
            SourceType::parse_inner_type_to_tokens(tokens, entry, fuel)?;
            proof {
                let inner = inner_tokens(*entry, fuel as nat)->Ok_0;
                assert(before.push(TokenModel::Const) + inner =~= before + (seq![
                    TokenModel::Const,
                ] + inner));
            }
            Ok(())
        } else if tag == DW_TAG_ARRAY_TYPE {
            push_token(tokens, TypeToken::Array);
            SourceType::parse_inner_type_to_tokens(tokens, entry, fuel)?;
            proof {
                let inner = inner_tokens(*entry, fuel as nat)->Ok_0;
                assert(before.push(TokenModel::Array) + inner =~= before + (seq![
                    TokenModel::Array,
                ] + inner));
            }
            Ok(())
        } else if tag == DW_TAG_TYPEDEF {
            match entry.attr_str(DwAt(DW_AT_NAME))? {
                None => Err(ExtractError::MissingAttribute { attribute: DW_AT_NAME }),
                Some(name) => {
                    let ghost token = TokenModel::Typedef(name@);
                    push_token(tokens, TypeToken::Typedef(name));
                    SourceType::parse_inner_type_to_tokens(tokens, entry, fuel)?;
                    proof {
                        let inner = inner_tokens(*entry, fuel as nat)->Ok_0;
                        assert(before.push(token) + inner =~= before + (seq![token] + inner));
                    }
                    Ok(())
                },
            }
        } else if tag == DW_TAG_ENUMERATION_TYPE {
            push_name(tokens, entry)?;
            push_token(tokens, TypeToken::Enum);
            SourceType::parse_inner_type_to_tokens(tokens, entry, fuel)?;
            proof {
                let name = name_token(*entry)->Ok_0;
                let inner = inner_tokens(*entry, fuel as nat)->Ok_0;
                assert((before + name).push(TokenModel::Enum) + inner =~= before + (name.push(
                    TokenModel::Enum,
                ) + inner));
            }
            Ok(())
        } else if tag == DW_TAG_CLASS_TYPE {
            push_name(tokens, entry)?;
            push_token(tokens, TypeToken::Class);
            proof {
                let name = name_token(*entry)->Ok_0;
                assert((before + name).push(TokenModel::Class) =~= before + name.push(
                    TokenModel::Class,
                ));
            }
            Ok(())
        } else if tag == DW_TAG_STRUCTURE_TYPE {
            push_name(tokens, entry)?;
            push_token(tokens, TypeToken::Struct);
            proof {
                let name = name_token(*entry)->Ok_0;
                assert((before + name).push(TokenModel::Struct) =~= before + name.push(
                    TokenModel::Struct,
                ));
            }
            Ok(())
        } else if tag == DW_TAG_UNION_TYPE {
            push_name(tokens, entry)?;
            push_token(tokens, TypeToken::Union);
            proof {
                let name = name_token(*entry)->Ok_0;
                assert((before + name).push(TokenModel::Union) =~= before + name.push(
                    TokenModel::Union,
                ));
            }
            Ok(())
        } else if tag == DW_TAG_SUBROUTINE_TYPE {
            push_token(tokens, TypeToken::Function);
            assert(before.push(TokenModel::Function) =~= before + seq![TokenModel::Function]);
            Ok(())
        } else if tag == DW_TAG_VOLATILE_TYPE || tag == DW_TAG_RESTRICT_TYPE {
            SourceType::parse_inner_type_to_tokens(tokens, entry, fuel)
        } else if tag == DW_TAG_UNSPECIFIED_TYPE {
            let name = entry.attr_str(DwAt(DW_AT_NAME))?;
            let is_null_pointer = match &name {
                Some(name) => same_text(name.as_str(), "decltype(nullptr)"),
                None => false,
            };
            if is_null_pointer {
                push_token(tokens, TypeToken::Pointer);
                push_token(tokens, TypeToken::Unknown);
                assert(before.push(TokenModel::Pointer).push(TokenModel::Unknown) =~= before
                    + seq![TokenModel::Pointer, TokenModel::Unknown]);
                Ok(())
            } else {
                Err(ExtractError::UnexpectedUnspecifiedType { name })
            }
        } else {
            Err(ExtractError::UnknownTypeTag { tag })
        }
    }

    /// Appends the tokens of the type that `entry_with_type_attr` refers to,
    /// and `Unknown` where it refers to none.
    fn parse_inner_type_to_tokens(
        tokens: &mut Vec<TypeToken>,
        entry_with_type_attr: &DwarfEntry,
        fuel: usize,
    ) -> (done: Result<(), ExtractError>)
        ensures
            match inner_tokens(*entry_with_type_attr, fuel as nat) {
                Ok(added) => done is Ok && token_models(final(tokens)@) == token_models(
                    old(tokens)@,
                ) + added,
                Err(error) => done matches Err(found) && found@ == error,
            },
        decreases fuel, 0nat,
    {
        if fuel == 0 {
            return Err(ExtractError::ChainTooLong);
        }
        match entry_with_type_attr.attr_entry(DwAt(DW_AT_TYPE))? {
            Some(type_entry) => SourceType::parse_type_to_tokens(tokens, &type_entry, fuel - 1),
            None => {
                let ghost before = token_models(tokens@);
                push_token(tokens, TypeToken::Unknown);
                assert(before.push(TokenModel::Unknown) =~= before + seq![TokenModel::Unknown]);
                Ok(())
            },
        }
    }

    /// The base type that `entry` describes: see [`primitive_of`].
    fn parse_primitive_type(entry: &DwarfEntry) -> (primitive: Result<PrimitiveType, ExtractError>)
        ensures
            match primitive_of(*entry) {
                Ok(model) => primitive matches Ok(primitive) && primitive@ == model,
                Err(error) => primitive matches Err(found) && found@ == error,
            },
    {
        let source_name = match entry.attr_str(DwAt(DW_AT_NAME))? {
            Some(source_name) => source_name,
            None => {
                return Err(ExtractError::MissingAttribute { attribute: DW_AT_NAME });
            },
        };
        let encoding = match entry.attr(DwAt(DW_AT_ENCODING))? {
            None => {
                return Err(ExtractError::MissingAttribute { attribute: DW_AT_ENCODING });
            },
            Some(AttrValue::Encoding(encoding)) => encoding,
            Some(_) => {
                return Err(ExtractError::UnsupportedAttributeValue { attribute: DW_AT_ENCODING });
            },
        };
        let byte_size = match entry.attr_uint(DwAt(DW_AT_BYTE_SIZE))? {
            Some(byte_size) => byte_size,
            None => {
                return Err(ExtractError::MissingAttribute { attribute: DW_AT_BYTE_SIZE });
            },
        };
        match PrimitiveType::normalize(source_name.as_str(), DwAte(encoding), byte_size) {
            Some(normalized) => Ok(
                PrimitiveType { normalized, source_name, encoding: DwAte(encoding), byte_size },
            ),
            None => Err(ExtractError::UnknownPrimitive { source_name, encoding, byte_size }),
        }
    }
}

} // verus!
