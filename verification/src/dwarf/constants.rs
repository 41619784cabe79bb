//! The numbers that the DWARF standard gives to the tags, attributes and
//! base type encodings that this library reads.

use vstd::prelude::*;

verus! {

// A tag, an attribute name and an encoding are a number each, which is
// public.

#[verifier::external_type_specification]
pub struct ExDwTag(gimli::DwTag);

#[verifier::external_type_specification]
pub struct ExDwAt(gimli::DwAt);

#[verifier::external_type_specification]
pub struct ExDwAte(gimli::DwAte);

pub const DW_TAG_ARRAY_TYPE: u16 = 0x01;

pub const DW_TAG_CLASS_TYPE: u16 = 0x02;

pub const DW_TAG_ENUMERATION_TYPE: u16 = 0x04;

pub const DW_TAG_FORMAL_PARAMETER: u16 = 0x05;

pub const DW_TAG_POINTER_TYPE: u16 = 0x0f;

pub const DW_TAG_REFERENCE_TYPE: u16 = 0x10;

pub const DW_TAG_STRUCTURE_TYPE: u16 = 0x13;

pub const DW_TAG_SUBROUTINE_TYPE: u16 = 0x15;

pub const DW_TAG_TYPEDEF: u16 = 0x16;

pub const DW_TAG_UNION_TYPE: u16 = 0x17;

pub const DW_TAG_PTR_TO_MEMBER_TYPE: u16 = 0x1f;

pub const DW_TAG_BASE_TYPE: u16 = 0x24;

pub const DW_TAG_CONST_TYPE: u16 = 0x26;

pub const DW_TAG_SUBPROGRAM: u16 = 0x2e;

pub const DW_TAG_VOLATILE_TYPE: u16 = 0x35;

pub const DW_TAG_RESTRICT_TYPE: u16 = 0x37;

pub const DW_TAG_UNSPECIFIED_TYPE: u16 = 0x3b;

pub const DW_TAG_RVALUE_REFERENCE_TYPE: u16 = 0x42;

pub const DW_AT_NAME: u16 = 0x03;

pub const DW_AT_BYTE_SIZE: u16 = 0x0b;

pub const DW_AT_LOW_PC: u16 = 0x11;

pub const DW_AT_ABSTRACT_ORIGIN: u16 = 0x31;

pub const DW_AT_ENCODING: u16 = 0x3e;

pub const DW_AT_TYPE: u16 = 0x49;

pub const DW_ATE_BOOLEAN: u8 = 0x02;

pub const DW_ATE_COMPLEX_FLOAT: u8 = 0x03;

pub const DW_ATE_FLOAT: u8 = 0x04;

pub const DW_ATE_SIGNED: u8 = 0x05;

pub const DW_ATE_SIGNED_CHAR: u8 = 0x06;

pub const DW_ATE_UNSIGNED: u8 = 0x07;

pub const DW_ATE_UNSIGNED_CHAR: u8 = 0x08;

pub const DW_ATE_UTF: u8 = 0x10;

} // verus!
