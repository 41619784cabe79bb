//! A handle onto one debugging information entry, and what this library
//! takes from the `gimli` crate to read through it.

use vstd::prelude::*;
use std::convert::Infallible;
use std::rc::Rc;
use gimli::{AttributeValue, DwAt, DwTag, EndianRcSlice, LittleEndian, UnitOffset};
use crate::error::{ErrorModel, ExtractError};
use crate::wasm::parse::{find_section, section_models, CustomSection, CustomSectionModel};

verus! {

/// The debug information of one binary, as `gimli` holds it.
///
/// Verus cannot declare `gimli::Dwarf` with the bounds of its parameter, so
/// the handle hides it. What it holds is named by [`debug_units`] and by the
/// contents of its units.
#[verifier::external_body]
pub struct DebugInfo {
    inner: Rc<gimli::Dwarf<EndianRcSlice<LittleEndian>>>,
}

/// One unit of the debug information, as `gimli` holds it: a tree of
/// entries, each found by its offset in the unit.
///
/// Verus cannot declare `gimli::Unit` with the bounds of its parameter, so
/// the handle hides it. What it holds is named by [`unit_name`],
/// [`unit_entries`], [`entry_tag`], [`entry_attribute`], [`entry_text`] and
/// [`entry_children`].
#[verifier::external_body]
pub struct DebugUnit {
    inner: Rc<gimli::Unit<EndianRcSlice<LittleEndian>>>,
}

/// The offset of an entry in its unit, and its tag.
pub struct EntryHead {
    pub offset: usize,
    pub tag: u16,
}

/// The value of an attribute, as far as this library tells values apart.
pub enum AttrValue {
    /// A reference to the entry at this offset of the same unit.
    UnitRef(usize),
    /// An address.
    Addr(u64),
    Data1(u8),
    Data2(u16),
    Data4(u32),
    Data8(u64),
    Udata(u64),
    /// The encoding of a base type.
    Encoding(u8),
    /// A value of any other form.
    Other,
}

/// The debug information that the debug sections among `sections` hold.
pub uninterp spec fn loaded_debug_info(sections: Seq<CustomSectionModel>) -> DebugInfo;

/// The units of the debug information, in the order of the `.debug_info`
/// section, or the error of the first unit that cannot be read.
pub uninterp spec fn debug_units(dwarf: DebugInfo) -> Result<Seq<DebugUnit>, gimli::Error>;

/// The name of the unit, if it has one.
pub uninterp spec fn unit_name(unit: DebugUnit) -> Result<Option<Seq<char>>, gimli::Error>;

/// All entries of the unit, each before its children and siblings in the
/// order of the section.
pub uninterp spec fn unit_entries(unit: DebugUnit) -> Result<Seq<EntryHead>, gimli::Error>;

/// The tag of the entry at `offset` of the unit.
pub uninterp spec fn entry_tag(unit: DebugUnit, offset: usize) -> Result<u16, gimli::Error>;

/// The value of the first attribute `name` of the entry at `offset`, if the
/// entry has such an attribute.
pub uninterp spec fn entry_attribute(unit: DebugUnit, offset: usize, name: u16) -> Result<
    Option<AttrValue>,
    gimli::Error,
>;

/// The text of the first attribute `name` of the entry at `offset`, if the
/// entry has such an attribute.
pub uninterp spec fn entry_text(dwarf: DebugInfo, unit: DebugUnit, offset: usize, name: u16) -> Result<
    Option<Seq<char>>,
    gimli::Error,
>;

/// The children of the entry at `offset`, in their order.
pub uninterp spec fn entry_children(unit: DebugUnit, offset: usize) -> Result<
    Seq<EntryHead>,
    gimli::Error,
>;

/// `Rc::clone` gives another handle to the same debug information.
#[verifier::external_body]
pub(crate) fn share_info(dwarf: &DebugInfo) -> (shared: DebugInfo)
    ensures
        shared == *dwarf,
{
    DebugInfo { inner: Rc::clone(&dwarf.inner) }
}

/// `Rc::clone` gives another handle to the same unit.
#[verifier::external_body]
pub(crate) fn share_unit(unit: &DebugUnit) -> (shared: DebugUnit)
    ensures
        shared == *unit,
{
    DebugUnit { inner: Rc::clone(&unit.inner) }
}

/// `Dwarf::load` with a loader that hands out, for each section that gimli
/// asks for by name, what [`find_section`] finds under that name among
/// `sections`. The loader never fails, and so the load does not. The result
/// is a function of the names and the contents of the sections; nothing
/// else is claimed of it but what the names of its contents say.
#[verifier::external_body]
fn load_dwarf(sections: &Vec<CustomSection>) -> (dwarf: DebugInfo)
    ensures
        dwarf == loaded_debug_info(section_models(sections@)),
{
    let Ok(dwarf) = gimli::Dwarf::load(
        |id| {
            let data = find_section(sections, id.name());
            Ok::<_, Infallible>(EndianRcSlice::new(Rc::from(data.as_slice()), LittleEndian))
        },
    );
    DebugInfo { inner: Rc::new(dwarf) }
}

/// `Dwarf::units` and, for each header, `Dwarf::unit`: the units of the
/// debug information, which are a function of it.
#[verifier::external_body]
pub(crate) fn read_units(dwarf: &DebugInfo) -> (units: Result<Vec<DebugUnit>, gimli::Error>)
    ensures
        match units {
            Ok(units) => debug_units(*dwarf) == Ok::<Seq<DebugUnit>, gimli::Error>(units@),
            Err(error) => debug_units(*dwarf) == Err::<Seq<DebugUnit>, gimli::Error>(error),
        },
{
    let mut units = Vec::new();
    let mut headers = dwarf.inner.units();
    while let Some(header) = headers.next()? {
        units.push(DebugUnit { inner: Rc::new(dwarf.inner.unit(header)?) });
    }
    Ok(units)
}

/// The field `Unit::name`, converted with `Reader::to_string`.
#[verifier::external_body]
pub(crate) fn read_unit_name(unit: &DebugUnit) -> (name: Result<Option<String>, gimli::Error>)
    ensures
        match name {
            Ok(Some(name)) => unit_name(*unit) == Ok::<Option<Seq<char>>, gimli::Error>(
                Some(name@),
            ),
            Ok(None) => unit_name(*unit) == Ok::<Option<Seq<char>>, gimli::Error>(None),
            Err(error) => unit_name(*unit) == Err::<Option<Seq<char>>, gimli::Error>(error),
        },
{
    match &unit.inner.name {
        Some(name) => Ok(Some(gimli::Reader::to_string(name)?.into_owned())),
        None => Ok(None),
    }
}

/// `Unit::entries` and then `EntriesCursor::next_dfs` to the end: the offset
/// and the tag of every entry of the unit.
#[verifier::external_body]
pub(crate) fn read_unit_entries(unit: &DebugUnit) -> (entries: Result<Vec<EntryHead>, gimli::Error>)
    ensures
        match entries {
            Ok(entries) => unit_entries(*unit) == Ok::<Seq<EntryHead>, gimli::Error>(entries@),
            Err(error) => unit_entries(*unit) == Err::<Seq<EntryHead>, gimli::Error>(error),
        },
{
    let mut entries = Vec::new();
    let mut cursor = unit.inner.entries();
    while let Some((_, entry)) = cursor.next_dfs()? {
        entries.push(EntryHead { offset: entry.offset().0, tag: entry.tag().0 });
    }
    Ok(entries)
}

/// `Unit::entry` at `offset`, and of the entry its `tag`.
#[verifier::external_body]
pub(crate) fn read_tag(unit: &DebugUnit, offset: usize) -> (tag: Result<u16, gimli::Error>)
    ensures
        tag == entry_tag(*unit, offset),
{
    Ok(unit.inner.entry(UnitOffset(offset))?.tag().0)
}

/// `Unit::entry` at `offset`, and of the entry `attr_value(name)`, its
/// variants told apart.
#[verifier::external_body]
pub(crate) fn read_attribute(unit: &DebugUnit, offset: usize, name: u16) -> (value: Result<
    Option<AttrValue>,
    gimli::Error,
>)
    ensures
        value == entry_attribute(*unit, offset, name),
{
    let value = unit.inner.entry(UnitOffset(offset))?.attr_value(DwAt(name))?;
    Ok(value.map(|value| match value {
        AttributeValue::UnitRef(target) => AttrValue::UnitRef(target.0),
        AttributeValue::Addr(address) => AttrValue::Addr(address),
        AttributeValue::Data1(data) => AttrValue::Data1(data),
        AttributeValue::Data2(data) => AttrValue::Data2(data),
        AttributeValue::Data4(data) => AttrValue::Data4(data),
        AttributeValue::Data8(data) => AttrValue::Data8(data),
        AttributeValue::Udata(data) => AttrValue::Udata(data),
        AttributeValue::Encoding(encoding) => AttrValue::Encoding(encoding.0),
        _ => AttrValue::Other,
    }))
}

/// `Unit::entry` at `offset`, of the entry `attr_value(name)`, and of the
/// value `Dwarf::attr_string`, converted with `Reader::to_string`.
#[verifier::external_body]
pub(crate) fn read_text(dwarf: &DebugInfo, unit: &DebugUnit, offset: usize, name: u16) -> (text:
    Result<Option<String>, gimli::Error>)
    ensures
        match text {
            Ok(Some(text)) => entry_text(*dwarf, *unit, offset, name) == Ok::<
                Option<Seq<char>>,
                gimli::Error,
            >(Some(text@)),
            Ok(None) => entry_text(*dwarf, *unit, offset, name) == Ok::<
                Option<Seq<char>>,
                gimli::Error,
            >(None),
            Err(error) => entry_text(*dwarf, *unit, offset, name) == Err::<
                Option<Seq<char>>,
                gimli::Error,
            >(error),
        },
{
    match unit.inner.entry(UnitOffset(offset))?.attr_value(DwAt(name))? {
        None => Ok(None),
        Some(value) => {
            let text = dwarf.inner.attr_string(&unit.inner, value)?;
            Ok(Some(gimli::Reader::to_string(&text)?.into_owned()))
        },
    }
}

/// `Unit::entries_tree` at `offset`, of its root the `children`, and of
/// each child its offset and its tag.
#[verifier::external_body]
pub(crate) fn read_children(unit: &DebugUnit, offset: usize) -> (children: Result<
    Vec<EntryHead>,
    gimli::Error,
>)
    ensures
        match children {
            Ok(children) => entry_children(*unit, offset) == Ok::<Seq<EntryHead>, gimli::Error>(
                children@,
            ),
            Err(error) => entry_children(*unit, offset) == Err::<Seq<EntryHead>, gimli::Error>(
                error,
            ),
        },
{
    let mut list = Vec::new();
    let mut tree = unit.inner.entries_tree(Some(UnitOffset(offset)))?;
    let mut children = tree.root()?.children();
    while let Some(child) = children.next()? {
        list.push(EntryHead { offset: child.entry().offset().0, tag: child.entry().tag().0 });
    }
    Ok(list)
}

impl DebugInfo {
    /// The debug information that the debug sections among `sections` hold.
    ///
    /// The sections are found by their names; one that is missing is taken
    /// to be empty, and of several with one name the last counts.
    pub fn load(sections: &Vec<CustomSection>) -> (dwarf: DebugInfo)
        ensures
            dwarf == loaded_debug_info(section_models(sections@)),
    {
        load_dwarf(sections)
    }
}

/// A handle onto one debugging information entry.
///
/// It holds no decoded entry: the debug information and the unit, both
/// shared, the entry's offset in the unit, and its tag. Whatever is asked of
/// it is read anew.
pub struct DwarfEntry {
    pub dwarf: DebugInfo,
    pub unit: DebugUnit,
    pub entry_offset: usize,
    pub tag: DwTag,
}

/// A failure of a read, as the error of the library.
pub open spec fn dwarf_failure<T>(error: gimli::Error) -> Result<T, ErrorModel> {
    Err(ErrorModel::Dwarf(error))
}

/// A result with its error as its model.
pub open spec fn with_error_model<T>(result: Result<T, ExtractError>) -> Result<T, ErrorModel> {
    match result {
        Ok(value) => Ok(value),
        Err(error) => Err(error@),
    }
}

impl DwarfEntry {
    /// The entry of `unit` with this offset and tag.
    pub open spec fn at(dwarf: DebugInfo, unit: DebugUnit, head: EntryHead) -> DwarfEntry {
        DwarfEntry { dwarf, unit, entry_offset: head.offset, tag: DwTag(head.tag) }
    }

    /// The value of the attribute `name`, if the entry has such an
    /// attribute.
    pub open spec fn attribute(&self, name: u16) -> Result<Option<AttrValue>, ErrorModel> {
        match entry_attribute(self.unit, self.entry_offset, name) {
            Ok(value) => Ok(value),
            Err(error) => dwarf_failure(error),
        }
    }

    /// The text of the attribute `name`, if the entry has such an attribute.
    pub open spec fn text(&self, name: u16) -> Result<Option<Seq<char>>, ErrorModel> {
        match entry_text(self.dwarf, self.unit, self.entry_offset, name) {
            Ok(text) => Ok(text),
            Err(error) => dwarf_failure(error),
        }
    }

    /// The number that the attribute `name` holds, if the entry has such an
    /// attribute: an address or unsigned data of any width. A value of
    /// another form is a failure.
    pub open spec fn uint(&self, name: u16) -> Result<Option<u64>, ErrorModel> {
        match self.attribute(name) {
            Err(error) => Err(error),
            Ok(None) => Ok(None),
            Ok(Some(AttrValue::Addr(value))) => Ok(Some(value)),
            Ok(Some(AttrValue::Data1(value))) => Ok(Some(value as u64)),
            Ok(Some(AttrValue::Data2(value))) => Ok(Some(value as u64)),
            Ok(Some(AttrValue::Data4(value))) => Ok(Some(value as u64)),
            Ok(Some(AttrValue::Data8(value))) => Ok(Some(value)),
            Ok(Some(AttrValue::Udata(value))) => Ok(Some(value)),
            Ok(Some(_)) => Err(ErrorModel::UnsupportedAttributeValue { attribute: name }),
        }
    }

    /// The entry that the attribute `name` refers to, if this entry has such
    /// an attribute: an entry of the same unit. A value of another form is a
    /// failure.
    pub open spec fn reference(&self, name: u16) -> Result<Option<DwarfEntry>, ErrorModel> {
        match self.attribute(name) {
            Err(error) => Err(error),
            Ok(None) => Ok(None),
            Ok(Some(AttrValue::UnitRef(target))) => match entry_tag(self.unit, target) {
                Ok(tag) => Ok(
                    Some(
                        DwarfEntry {
                            dwarf: self.dwarf,
                            unit: self.unit,
                            entry_offset: target,
                            tag: DwTag(tag),
                        },
                    ),
                ),
                Err(error) => dwarf_failure(error),
            },
            Ok(Some(_)) => Err(ErrorModel::UnsupportedAttributeValue { attribute: name }),
        }
    }

    /// The entries for the heads of a list, in its order.
    pub open spec fn all_at(dwarf: DebugInfo, unit: DebugUnit, heads: Seq<EntryHead>) -> Seq<
        DwarfEntry,
    > {
        Seq::new(heads.len(), |i: int| DwarfEntry::at(dwarf, unit, heads[i]))
    }

    /// The direct children of the entry, in their order.
    pub open spec fn child_entries(&self) -> Result<Seq<DwarfEntry>, ErrorModel> {
        match entry_children(self.unit, self.entry_offset) {
            Ok(heads) => Ok(DwarfEntry::all_at(self.dwarf, self.unit, heads)),
            Err(error) => dwarf_failure(error),
        }
    }

    /// The handle onto the entry at `offset` of `unit`, which has the tag
    /// `tag`.
    pub fn from(dwarf: &DebugInfo, unit: &DebugUnit, offset: usize, tag: DwTag) -> (entry:
        DwarfEntry)
        ensures
            entry == (DwarfEntry { dwarf: *dwarf, unit: *unit, entry_offset: offset, tag }),
    {
        DwarfEntry { dwarf: share_info(dwarf), unit: share_unit(unit), entry_offset: offset, tag }
    }

    /// Another handle onto the same entry.
    pub fn share(&self) -> (shared: DwarfEntry)
        ensures
            shared == *self,
    {
        DwarfEntry::from(&self.dwarf, &self.unit, self.entry_offset, self.tag)
    }

    /// Read a generic attribute with `name`.
    pub fn attr(&self, name: DwAt) -> (value: Result<Option<AttrValue>, ExtractError>)
        ensures
            with_error_model(value) == self.attribute(name.0),
    {
        match read_attribute(&self.unit, self.entry_offset, name.0) {
            Ok(value) => Ok(value),
            Err(error) => Err(ExtractError::Dwarf(error)),
        }
    }

    /// Read an attribute with `name` that resolves to another debugging
    /// information entry.
    pub fn attr_entry(&self, name: DwAt) -> (entry: Result<Option<DwarfEntry>, ExtractError>)
        ensures
            with_error_model(entry) == self.reference(name.0),
    {
        match self.attr(name)? {
            None => Ok(None),
            Some(AttrValue::UnitRef(target)) => match read_tag(&self.unit, target) {
                Ok(tag) => Ok(Some(DwarfEntry::from(&self.dwarf, &self.unit, target, DwTag(tag)))),
                Err(error) => Err(ExtractError::Dwarf(error)),
            },
            Some(_) => Err(ExtractError::UnsupportedAttributeValue { attribute: name.0 }),
        }
    }

    /// Read a string attribute with `name`.
    pub fn attr_str(&self, name: DwAt) -> (text: Result<Option<String>, ExtractError>)
        ensures
            match text {
                Ok(Some(text)) => self.text(name.0) == Ok::<Option<Seq<char>>, ErrorModel>(
                    Some(text@),
                ),
                Ok(None) => self.text(name.0) == Ok::<Option<Seq<char>>, ErrorModel>(None),
                Err(error) => self.text(name.0) == Err::<Option<Seq<char>>, ErrorModel>(error@),
            },
    {
        match read_text(&self.dwarf, &self.unit, self.entry_offset, name.0) {
            Ok(text) => Ok(text),
            Err(error) => Err(ExtractError::Dwarf(error)),
        }
    }

    /// Read an unsigned integer attribute with `name`.
    pub fn attr_uint(&self, name: DwAt) -> (value: Result<Option<u64>, ExtractError>)
        ensures
            with_error_model(value) == self.uint(name.0),
    {
        match self.attr(name)? {
            None => Ok(None),
            Some(AttrValue::Addr(value)) => Ok(Some(value)),
            Some(AttrValue::Data1(value)) => Ok(Some(value as u64)),
            Some(AttrValue::Data2(value)) => Ok(Some(value as u64)),
            Some(AttrValue::Data4(value)) => Ok(Some(value as u64)),
            Some(AttrValue::Data8(value)) => Ok(Some(value)),
            Some(AttrValue::Udata(value)) => Ok(Some(value)),
            Some(_) => Err(ExtractError::UnsupportedAttributeValue { attribute: name.0 }),
        }
    }

    /// The direct children of this entry, in their order.
    pub fn children(&self) -> (children: Result<Vec<DwarfEntry>, ExtractError>)
        ensures
            match children {
                Ok(children) => self.child_entries() == Ok::<Seq<DwarfEntry>, ErrorModel>(
                    children@,
                ),
                Err(error) => self.child_entries() == Err::<Seq<DwarfEntry>, ErrorModel>(error@),
            },
    {
        match read_children(&self.unit, self.entry_offset) {
            Err(error) => Err(ExtractError::Dwarf(error)),
            Ok(heads) => {
                let mut children: Vec<DwarfEntry> = Vec::new();
                let mut i: usize = 0;
                while i < heads.len()
                    invariant
                        i <= heads.len(),
                        children@ == DwarfEntry::all_at(self.dwarf, self.unit, heads@.take(
                            i as int,
                        )),
                    decreases heads.len() - i,
                {
                    children.push(
                        DwarfEntry::from(
                            &self.dwarf,
                            &self.unit,
                            heads[i].offset,
                            DwTag(heads[i].tag),
                        ),
                    );
                    assert(children@ =~= DwarfEntry::all_at(
                        self.dwarf,
                        self.unit,
                        heads@.take(i + 1),
                    ));
                    i = i + 1;
                }
                assert(heads@.take(heads.len() as int) =~= heads@);
                Ok(children)
            },
        }
    }
}

} // verus!
