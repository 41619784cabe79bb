//! The subprograms of a binary, found by the offset of their code.

use vstd::prelude::*;
use std::collections::HashMap;
use gimli::{DwAt, DwTag};
use crate::dwarf::constants::{
    DW_AT_ABSTRACT_ORIGIN, DW_AT_LOW_PC, DW_AT_NAME, DW_AT_TYPE, DW_TAG_FORMAL_PARAMETER,
    DW_TAG_SUBPROGRAM,
};
use crate::dwarf::util::{
    debug_units, dwarf_failure, loaded_debug_info, read_unit_entries, read_unit_name, read_units,
    unit_entries, unit_name, AttrValue, DebugInfo, DebugUnit, DwarfEntry, EntryHead,
};
use crate::error::{text_view, ErrorModel, ExtractError};
use crate::fold::{lemma_try_fold_all, lemma_try_fold_failure, lemma_try_fold_next, try_fold};
use crate::samples::types::parse::MAX_CHAIN;
use crate::text::same_text;
use crate::wasm::parse::{section_models, CustomSection};

verus! {

broadcast use vstd::std_specs::hash::group_hash_axioms;

/// What debug information says of one function.
pub struct DwarfFunction {
    pub compilation_unit_name: Option<String>,
    pub name: Option<String>,
    /// The entries of the formal parameters, in their order.
    pub params: Vec<DwarfEntry>,
    /// The entry of the return type, if the function returns a value.
    pub return_type: Option<DwarfEntry>,
}

/// A [`DwarfFunction`] with each text as a sequence of characters and the
/// parameters as a sequence.
pub struct DwarfFunctionModel {
    pub compilation_unit_name: Option<Seq<char>>,
    pub name: Option<Seq<char>>,
    pub params: Seq<DwarfEntry>,
    pub return_type: Option<DwarfEntry>,
}

impl View for DwarfFunction {
    type V = DwarfFunctionModel;

    open spec fn view(&self) -> DwarfFunctionModel {
        DwarfFunctionModel {
            compilation_unit_name: text_view(self.compilation_unit_name),
            name: text_view(self.name),
            params: self.params@,
            return_type: self.return_type,
        }
    }
}

/// Those of `entries` that are formal parameters, in their order.
pub open spec fn formal_parameters(entries: Seq<DwarfEntry>) -> Seq<DwarfEntry>
    decreases entries.len(),
{
    if entries.len() == 0 {
        Seq::empty()
    } else {
        let earlier = formal_parameters(entries.drop_last());
        if entries.last().tag.0 == DW_TAG_FORMAL_PARAMETER {
            earlier.push(entries.last())
        } else {
            earlier
        }
    }
}

/// What the subprogram `entry` of a unit called `unit` says of its function,
/// following at most `fuel` references to abstract origins.
///
/// A subprogram with an abstract origin is described by its origin, and by
/// nothing of its own. Any other is described by its name, by those of its
/// children that are formal parameters, and by the type it refers to.
pub open spec fn function_at(unit: Option<Seq<char>>, entry: DwarfEntry, fuel: nat) -> Result<
    DwarfFunctionModel,
    ErrorModel,
>
    decreases fuel,
{
    match entry.reference(DW_AT_ABSTRACT_ORIGIN) {
        Err(error) => Err(error),
        Ok(Some(origin)) => if fuel == 0 {
            Err(ErrorModel::ChainTooLong)
        } else {
            function_at(unit, origin, (fuel - 1) as nat)
        },
        Ok(None) => match entry.text(DW_AT_NAME) {
            Err(error) => Err(error),
            Ok(name) => match entry.child_entries() {
                Err(error) => Err(error),
                Ok(children) => match entry.reference(DW_AT_TYPE) {
                    Err(error) => Err(error),
                    Ok(return_type) => Ok(
                        DwarfFunctionModel {
                            compilation_unit_name: unit,
                            name,
                            params: formal_parameters(children),
                            return_type,
                        },
                    ),
                },
            },
        },
    }
}

/// A copy of a text that may be absent.
fn copy_text(text: &Option<String>) -> (copy: Option<String>)
    ensures
        copy == *text,
{
    match text {
        Some(text) => Some(text.clone()),
        None => None,
    }
}

/// Whether two texts that may be absent are the same.
fn same_optional_text(a: &Option<String>, b: &Option<String>) -> (same: bool)
    ensures
        same == (text_view(*a) == text_view(*b)),
{
    match (a, b) {
        (Some(a), Some(b)) => same_text(a.as_str(), b.as_str()),
        (None, None) => true,
        _ => false,
    }
}

impl DwarfFunction {
    /// What the subprogram `function_entry` says of its function: see
    /// [`function_at`].
    pub fn from(compilation_unit_name: Option<String>, function_entry: &DwarfEntry) -> (function:
        Result<DwarfFunction, ExtractError>)
        ensures
            match function_at(text_view(compilation_unit_name), *function_entry, MAX_CHAIN as nat) {
                Ok(model) => function matches Ok(function) && function@ == model,
                Err(error) => function matches Err(found) && found@ == error,
            },
    {
        DwarfFunction::from_within(compilation_unit_name, function_entry, MAX_CHAIN)
    }

    /// What the subprogram says of its function, following at most `fuel`
    /// references to abstract origins.
    fn from_within(
        compilation_unit_name: Option<String>,
        function_entry: &DwarfEntry,
        fuel: usize,
    ) -> (function: Result<DwarfFunction, ExtractError>)
        ensures
            match function_at(text_view(compilation_unit_name), *function_entry, fuel as nat) {
                Ok(model) => function matches Ok(function) && function@ == model,
                Err(error) => function matches Err(found) && found@ == error,
            },
        decreases fuel,
    {
        match function_entry.attr_entry(DwAt(DW_AT_ABSTRACT_ORIGIN))? {
            Some(abstract_origin) => {
                if fuel == 0 {
                    return Err(ExtractError::ChainTooLong);
                }
                return DwarfFunction::from_within(
                    compilation_unit_name,
                    &abstract_origin,
                    fuel - 1,
                );
            },
            None => {},
        }
        let name = function_entry.attr_str(DwAt(DW_AT_NAME))?;
        let children = function_entry.children()?;
        let ghost all = children@;
        let mut params: Vec<DwarfEntry> = Vec::new();
        assert(all.take(0) =~= Seq::<DwarfEntry>::empty());
        for child in iter: children
            invariant
                iter.seq() == all,
                params@ == formal_parameters(all.take(iter.index() as int)),
        {
            proof {
                let k = iter.index() as int;
                assert(all.take(k + 1).drop_last() =~= all.take(k));
            }
            if child.tag.0 == DW_TAG_FORMAL_PARAMETER {
                params.push(child);
            }
        }
        assert(all.take(all.len() as int) =~= all);
        let return_type = function_entry.attr_entry(DwAt(DW_AT_TYPE))?;
        Ok(DwarfFunction { compilation_unit_name, name, params, return_type })
    }

    /// Another description of the same function, with handles of its own.
    pub fn share(&self) -> (shared: DwarfFunction)
        ensures
            shared@ == self@,
    {
        let mut params: Vec<DwarfEntry> = Vec::new();
        let mut i: usize = 0;
        while i < self.params.len()
            invariant
                i <= self.params.len(),
                params@ == self.params@.take(i as int),
            decreases self.params.len() - i,
        {
            params.push(self.params[i].share());
            assert(params@ =~= self.params@.take(i + 1));
            i = i + 1;
        }
        assert(self.params@.take(self.params.len() as int) =~= self.params@);
        let return_type = match &self.return_type {
            Some(entry) => Some(entry.share()),
            None => None,
        };
        DwarfFunction {
            compilation_unit_name: copy_text(&self.compilation_unit_name),
            name: copy_text(&self.name),
            params,
            return_type,
        }
    }
}

/// Whether two descriptions of the function at one offset agree: in the
/// name, in the number of parameters, and in whether a value is returned.
pub open spec fn consistent(first: DwarfFunctionModel, other: DwarfFunctionModel) -> bool {
    &&& first.name == other.name
    &&& first.params.len() == other.params.len()
    &&& first.return_type is Some == other.return_type is Some
}

/// The subprograms met so far, by the offset of their code, and the offsets
/// at which subprograms disagree, in the order in which that was found.
pub struct IndexModel {
    pub functions: Map<usize, DwarfFunctionModel>,
    pub flagged: Seq<usize>,
}

/// The index before the first subprogram.
pub open spec fn empty_index() -> IndexModel {
    IndexModel { functions: Map::empty(), flagged: Seq::empty() }
}

/// The index after one more subprogram at `offset`.
///
/// The first subprogram at an offset is kept. A later one is compared with
/// it, and the offset is flagged if they disagree.
pub open spec fn recorded(index: IndexModel, offset: usize, function: DwarfFunctionModel) -> IndexModel {
    if index.functions.contains_key(offset) {
        if consistent(index.functions[offset], function) {
            index
        } else {
            IndexModel { flagged: index.flagged.push(offset), ..index }
        }
    } else {
        IndexModel { functions: index.functions.insert(offset, function), ..index }
    }
}

/// The first of `offsets` that is not zero.
pub open spec fn first_nonzero(offsets: Seq<usize>) -> Option<usize>
    decreases offsets.len(),
{
    if offsets.len() == 0 {
        None
    } else if offsets[0] != 0 {
        Some(offsets[0])
    } else {
        first_nonzero(offsets.drop_first())
    }
}

/// What the index amounts to when all subprograms were met.
///
/// A flagged offset other than zero is a failure, which names the first
/// such offset. Offset zero, if it is flagged, is dropped from the index
/// without a failure.
pub open spec fn finished(index: IndexModel) -> Result<Map<usize, DwarfFunctionModel>, ErrorModel> {
    match first_nonzero(index.flagged) {
        Some(relative_offset) => Err(ErrorModel::InconsistentEntries { relative_offset }),
        None => Ok(
            if index.flagged.len() > 0 {
                index.functions.remove(0)
            } else {
                index.functions
            },
        ),
    }
}

/// A subprogram that was met at an offset.
pub struct Met {
    pub offset: usize,
    pub function: DwarfFunctionModel,
}

/// The index `index` after the subprograms of a list were met in its order.
pub open spec fn recorded_onto(index: IndexModel, met: Seq<Met>) -> IndexModel
    decreases met.len(),
{
    if met.len() == 0 {
        index
    } else {
        recorded(recorded_onto(index, met.drop_last()), met.last().offset, met.last().function)
    }
}

/// The index after the subprograms of a list were met in its order.
pub open spec fn recorded_all(met: Seq<Met>) -> IndexModel {
    recorded_onto(empty_index(), met)
}

/// Meeting two lists one after the other is meeting their concatenation.
pub proof fn lemma_recorded_onto_concat(index: IndexModel, first: Seq<Met>, second: Seq<Met>)
    ensures
        recorded_onto(index, first + second) == recorded_onto(recorded_onto(index, first), second),
    decreases second.len(),
{
    if second.len() == 0 {
        assert(first + second =~= first);
    } else {
        lemma_recorded_onto_concat(index, first, second.drop_last());
        assert((first + second).drop_last() =~= first + second.drop_last());
        assert((first + second).last() == second.last());
    }
}

/// Where in the list the first subprogram at `offset` was met, if one was.
pub open spec fn first_met(met: Seq<Met>, offset: usize) -> Option<int>
    decreases met.len(),
{
    if met.len() == 0 {
        None
    } else {
        match first_met(met.drop_last(), offset) {
            Some(i) => Some(i),
            None => if met.last().offset == offset {
                Some(met.len() - 1)
            } else {
                None
            },
        }
    }
}

/// Whether two subprograms that disagree were met at `offset`: the first
/// one at the offset and a later one.
pub open spec fn disagreement_at(met: Seq<Met>, offset: usize) -> bool {
    first_met(met, offset) matches Some(i) && exists|j: int|
        i < j < met.len() && (#[trigger] met[j]).offset == offset && !consistent(
            met[i].function,
            met[j].function,
        )
}

/// The first subprogram at an offset stands in the list, at that offset.
proof fn lemma_first_met(met: Seq<Met>, offset: usize)
    ensures
        first_met(met, offset) matches Some(i) ==> 0 <= i < met.len() && met[i].offset == offset,
        first_met(met, offset) is None ==> forall|j: int|
            0 <= j < met.len() ==> (#[trigger] met[j]).offset != offset,
    decreases met.len(),
{
    if met.len() > 0 {
        lemma_first_met(met.drop_last(), offset);
        if first_met(met.drop_last(), offset) is None {
            assert forall|j: int| 0 <= j < met.len() && first_met(met, offset) is None implies (
            #[trigger] met[j]).offset != offset by {
                if j < met.len() - 1 {
                    assert(met.drop_last()[j] == met[j]);
                }
            }
        }
    }
}

/// What the index holds after a list of subprograms: an entry for each
/// offset at which one was met, which is the first one met there, and a flag
/// for each offset with a disagreement.
proof fn lemma_recorded_all(met: Seq<Met>)
    ensures
        forall|offset: usize|
            recorded_all(met).functions.contains_key(offset) <==> first_met(
                met,
                offset,
            ) is Some,
        forall|offset: usize|
            (#[trigger] first_met(met, offset)) is Some ==> recorded_all(met).functions[offset]
                == met[first_met(met, offset)->Some_0].function,
        forall|offset: usize|
            recorded_all(met).flagged.contains(offset) <==> disagreement_at(met, offset),
    decreases met.len(),
{
    if met.len() == 0 {
        assert forall|offset: usize| !recorded_all(met).flagged.contains(offset) by {}
    } else {
        let before = met.drop_last();
        let last = met.last();
        let n = met.len() as int;
        let index = recorded_all(before);
        let now = recorded_all(met);
        lemma_recorded_all(before);
        assert forall|offset: usize| (#[trigger] first_met(met, offset)) is Some implies now.functions[offset]
            == met[first_met(met, offset)->Some_0].function by {
            lemma_first_met(before, offset);
            let i = first_met(met, offset)->Some_0;
            if first_met(before, offset) is Some {
                assert(before[i] == met[i]);
            }
        }
        assert forall|offset: usize| now.flagged.contains(offset) <==> disagreement_at(
            met,
            offset,
        ) by {
            lemma_first_met(before, offset);
            lemma_first_met(met, offset);
            if disagreement_at(before, offset) {
                let i = first_met(before, offset)->Some_0;
                let j = choose|j: int|
                    i < j < before.len() && (#[trigger] before[j]).offset == offset && !consistent(
                        before[i].function,
                        before[j].function,
                    );
                assert(before[i] == met[i]);
                assert(before[j] == met[j]);
                assert(met[j].offset == offset);
                assert(disagreement_at(met, offset));
            }
            if index.flagged.contains(offset) {
                let k = choose|k: int| 0 <= k < index.flagged.len() && index.flagged[k] == offset;
                if now.flagged.len() > index.flagged.len() {
                    assert(now.flagged[k] == offset);
                }
                assert(now.flagged.contains(offset));
            }
            if disagreement_at(met, offset) && !disagreement_at(before, offset) {
                let i = first_met(met, offset)->Some_0;
                let j = choose|j: int|
                    i < j < met.len() && (#[trigger] met[j]).offset == offset && !consistent(
                        met[i].function,
                        met[j].function,
                    );
                if j < n - 1 {
                    assert(before[j] == met[j]);
                    assert(before[i] == met[i]);
                    assert(first_met(before, offset) == Some(i));
                    assert(false);
                }
                assert(before[i] == met[i]);
                assert(last.offset == offset);
                assert(index.functions.contains_key(offset));
                assert(now.flagged == index.flagged.push(offset));
                assert(now.flagged[index.flagged.len() as int] == offset);
            }
            if now.flagged.contains(offset) && !index.flagged.contains(offset) {
                let k = choose|k: int| 0 <= k < now.flagged.len() && now.flagged[k] == offset;
                assert(now.flagged.len() > index.flagged.len());
                if k < index.flagged.len() {
                    assert(index.flagged[k] == offset);
                }
                assert(last.offset == offset);
                let i = first_met(before, offset)->Some_0;
                assert(before[i] == met[i]);
                assert(met[n - 1].offset == offset);
                assert(disagreement_at(met, offset));
            }
        }
    }
}

/// The first flagged offset that is not zero is one of the flagged offsets,
/// and where there is none, every flagged offset is zero.
proof fn lemma_first_nonzero(offsets: Seq<usize>)
    ensures
        first_nonzero(offsets) matches Some(offset) ==> offset != 0 && offsets.contains(offset),
        first_nonzero(offsets) is None ==> forall|i: int|
            0 <= i < offsets.len() ==> #[trigger] offsets[i] == 0,
    decreases offsets.len(),
{
    if offsets.len() > 0 {
        lemma_first_nonzero(offsets.drop_first());
        if offsets[0] != 0 {
            assert(offsets[0] == offsets[0]);
        } else {
            match first_nonzero(offsets.drop_first()) {
                Some(offset) => {
                    let k = choose|k: int|
                        0 <= k < offsets.drop_first().len() && offsets.drop_first()[k] == offset;
                    assert(offsets[k + 1] == offset);
                },
                None => {
                    assert forall|i: int| 0 <= i < offsets.len() implies #[trigger] offsets[i]
                        == 0 by {
                        if i > 0 {
                            assert(offsets.drop_first()[i - 1] == offsets[i]);
                        }
                    }
                },
            }
        }
    }
}

/// The index holds no offset at which subprograms that disagree were met.
///
/// Where such an offset is not zero, there is no index: the result is the
/// failure that names an offset with a disagreement. Where the index is
/// there, the only offset with a disagreement is zero, and the index does
/// not hold it.
pub proof fn lemma_index_holds_no_disagreement(met: Seq<Met>)
    ensures
        match finished(recorded_all(met)) {
            Ok(index) => forall|offset: usize|
                disagreement_at(met, offset) ==> offset == 0 && !index.contains_key(offset),
            Err(error) => error matches ErrorModel::InconsistentEntries { relative_offset }
                && relative_offset != 0 && disagreement_at(met, relative_offset),
        },
        (exists|offset: usize| offset != 0 && disagreement_at(met, offset)) <==> finished(
            recorded_all(met),
        ) is Err,
{
    let index = recorded_all(met);
    lemma_recorded_all(met);
    lemma_first_nonzero(index.flagged);
    match finished(index) {
        Ok(functions) => {
            assert forall|offset: usize| disagreement_at(met, offset) implies offset == 0
                && !functions.contains_key(offset) by {
                assert(index.flagged.contains(offset));
                let k = choose|k: int| 0 <= k < index.flagged.len() && index.flagged[k] == offset;
                assert(index.flagged[k] == 0);
            }
        },
        Err(error) => {
            let offset = first_nonzero(index.flagged)->Some_0;
            assert(disagreement_at(met, offset));
        },
    }
}

/// The index after the entry `head` of a unit that is called `name`.
///
/// Only a subprogram with a code address is recorded. An address in another
/// form than an address is a failure. An address beyond what the machine
/// can count to is the offset of no function, and the subprogram is passed
/// over.
pub open spec fn entry_recorded(
    index: IndexModel,
    dwarf: DebugInfo,
    unit: DebugUnit,
    name: Option<Seq<char>>,
    head: EntryHead,
) -> Result<IndexModel, ErrorModel> {
    let entry = DwarfEntry::at(dwarf, unit, head);
    if head.tag != DW_TAG_SUBPROGRAM {
        Ok(index)
    } else {
        match entry.attribute(DW_AT_LOW_PC) {
            Err(error) => Err(error),
            Ok(None) => Ok(index),
            Ok(Some(AttrValue::Addr(address))) => if address > usize::MAX {
                Ok(index)
            } else {
                match function_at(name, entry, MAX_CHAIN as nat) {
                    Err(error) => Err(error),
                    Ok(function) => Ok(recorded(index, address as usize, function)),
                }
            },
            Ok(Some(_)) => Err(ErrorModel::UnsupportedAttributeValue { attribute: DW_AT_LOW_PC }),
        }
    }
}

/// [`entry_recorded`] as a step of a fold.
pub open spec fn entry_recorder(dwarf: DebugInfo, unit: DebugUnit, name: Option<Seq<char>>) -> spec_fn(
    IndexModel,
    EntryHead,
) -> Result<IndexModel, ErrorModel> {
    |index: IndexModel, head: EntryHead| entry_recorded(index, dwarf, unit, name, head)
}

/// The index after all entries of one unit.
pub open spec fn unit_recorded(index: IndexModel, dwarf: DebugInfo, unit: DebugUnit) -> Result<
    IndexModel,
    ErrorModel,
> {
    match unit_name(unit) {
        Err(error) => dwarf_failure(error),
        Ok(name) => match unit_entries(unit) {
            Err(error) => dwarf_failure(error),
            Ok(entries) => try_fold(entries, index, entry_recorder(dwarf, unit, name)),
        },
    }
}

/// [`unit_recorded`] as a step of a fold.
pub open spec fn unit_recorder(dwarf: DebugInfo) -> spec_fn(IndexModel, DebugUnit) -> Result<
    IndexModel,
    ErrorModel,
> {
    |index: IndexModel, unit: DebugUnit| unit_recorded(index, dwarf, unit)
}

/// The subprograms of the debug information `dwarf`, by the offset of their
/// code: every unit is walked, every subprogram with a code address is
/// recorded, and the index is finished.
pub open spec fn indexed(dwarf: DebugInfo) -> Result<Map<usize, DwarfFunctionModel>, ErrorModel> {
    match debug_units(dwarf) {
        Err(error) => dwarf_failure(error),
        Ok(units) => match try_fold(units, empty_index(), unit_recorder(dwarf)) {
            Err(error) => Err(error),
            Ok(index) => finished(index),
        },
    }
}

/// The subprogram that is met at the entry `head`, if one is: the entry is
/// a subprogram with a code address that the machine can count to, and its
/// description can be read.
pub open spec fn met_at(
    dwarf: DebugInfo,
    unit: DebugUnit,
    name: Option<Seq<char>>,
    head: EntryHead,
) -> Option<Met> {
    let entry = DwarfEntry::at(dwarf, unit, head);
    if head.tag != DW_TAG_SUBPROGRAM {
        None
    } else {
        match entry.attribute(DW_AT_LOW_PC) {
            Ok(Some(AttrValue::Addr(address))) => if address > usize::MAX {
                None
            } else {
                match function_at(name, entry, MAX_CHAIN as nat) {
                    Ok(function) => Some(Met { offset: address as usize, function }),
                    Err(_) => None,
                }
            },
            _ => None,
        }
    }
}

/// The subprograms that are met among the entries of a unit, in their
/// order.
pub open spec fn met_among(
    dwarf: DebugInfo,
    unit: DebugUnit,
    name: Option<Seq<char>>,
    entries: Seq<EntryHead>,
) -> Seq<Met>
    decreases entries.len(),
{
    if entries.len() == 0 {
        Seq::empty()
    } else {
        let earlier = met_among(dwarf, unit, name, entries.drop_last());
        match met_at(dwarf, unit, name, entries.last()) {
            Some(met) => earlier.push(met),
            None => earlier,
        }
    }
}

/// The subprograms that are met in a unit, in their order; none where the
/// unit cannot be read.
pub open spec fn met_in_unit(dwarf: DebugInfo, unit: DebugUnit) -> Seq<Met> {
    match (unit_name(unit), unit_entries(unit)) {
        (Ok(name), Ok(entries)) => met_among(dwarf, unit, name, entries),
        _ => Seq::empty(),
    }
}

/// The subprograms that are met in a list of units, in their order.
pub open spec fn met_in_units(dwarf: DebugInfo, units: Seq<DebugUnit>) -> Seq<Met>
    decreases units.len(),
{
    if units.len() == 0 {
        Seq::empty()
    } else {
        met_in_units(dwarf, units.drop_last()) + met_in_unit(dwarf, units.last())
    }
}

/// The subprograms that are met in the debug information `dwarf`, in the
/// order of the walk; none where the units cannot be read.
pub open spec fn met_in(dwarf: DebugInfo) -> Seq<Met> {
    match debug_units(dwarf) {
        Ok(units) => met_in_units(dwarf, units),
        Err(_) => Seq::empty(),
    }
}

/// Walking the entries of a unit without a failure records the subprograms
/// that are met among them, and nothing else.
proof fn lemma_entries_record_met(
    index: IndexModel,
    dwarf: DebugInfo,
    unit: DebugUnit,
    name: Option<Seq<char>>,
    entries: Seq<EntryHead>,
)
    ensures
        try_fold(entries, index, entry_recorder(dwarf, unit, name)) matches Ok(walked) ==> walked
            == recorded_onto(index, met_among(dwarf, unit, name, entries)),
    decreases entries.len(),
{
    if entries.len() > 0 {
        lemma_entries_record_met(index, dwarf, unit, name, entries.drop_last());
        let earlier = met_among(dwarf, unit, name, entries.drop_last());
        match met_at(dwarf, unit, name, entries.last()) {
            Some(met) => {
                assert(earlier.push(met).drop_last() =~= earlier);
            },
            None => {},
        }
    }
}

/// Walking units without a failure records the subprograms that are met in
/// them, and nothing else.
proof fn lemma_units_record_met(index: IndexModel, dwarf: DebugInfo, units: Seq<DebugUnit>)
    ensures
        try_fold(units, index, unit_recorder(dwarf)) matches Ok(walked) ==> walked
            == recorded_onto(index, met_in_units(dwarf, units)),
    decreases units.len(),
{
    if units.len() > 0 {
        lemma_units_record_met(index, dwarf, units.drop_last());
        match try_fold(units.drop_last(), index, unit_recorder(dwarf)) {
            Ok(before) => {
                let unit = units.last();
                match (unit_name(unit), unit_entries(unit)) {
                    (Ok(name), Ok(entries)) => {
                        lemma_entries_record_met(before, dwarf, unit, name, entries);
                        lemma_recorded_onto_concat(
                            index,
                            met_in_units(dwarf, units.drop_last()),
                            met_in_unit(dwarf, unit),
                        );
                    },
                    _ => {},
                }
            },
            Err(_) => {},
        }
    }
}

/// The index of debug information holds no offset at which subprograms that
/// disagree were met.
///
/// Where the walk itself does not fail, the result is that of the
/// subprograms met in it: the index, if they disagree at no offset but
/// zero, and then without offset zero if they disagree there; and otherwise
/// the failure that names an offset other than zero at which they disagree.
pub proof fn lemma_indexed_holds_no_disagreement(dwarf: DebugInfo)
    ensures
        match indexed(dwarf) {
            Ok(index) => forall|offset: usize|
                disagreement_at(met_in(dwarf), offset) ==> offset == 0 && !index.contains_key(
                    offset,
                ),
            Err(ErrorModel::InconsistentEntries { relative_offset }) => relative_offset != 0
                && disagreement_at(met_in(dwarf), relative_offset),
            Err(_) => true,
        },
{
    match debug_units(dwarf) {
        Ok(units) => {
            lemma_units_record_met(empty_index(), dwarf, units);
            match try_fold(units, empty_index(), unit_recorder(dwarf)) {
                Ok(index) => {
                    lemma_index_holds_no_disagreement(met_in(dwarf));
                },
                Err(_) => {
                    lemma_walk_failure_is_no_disagreement(dwarf, units);
                },
            }
        },
        Err(_) => {},
    }
}

/// Whether a result of the walk is no failure for a disagreement.
spec fn no_disagreement<T>(result: Result<T, ErrorModel>) -> bool {
    result matches Err(error) ==> !(error is InconsistentEntries)
}

/// A failure of the walk is never that of a disagreement: that one is found
/// when the walk is over.
proof fn lemma_walk_failure_is_no_disagreement(dwarf: DebugInfo, units: Seq<DebugUnit>)
    ensures
        forall|index: IndexModel|
            no_disagreement(#[trigger] try_fold(units, index, unit_recorder(dwarf))),
    decreases units.len(),
{
    if units.len() > 0 {
        lemma_walk_failure_is_no_disagreement(dwarf, units.drop_last());
        assert forall|index: IndexModel|
            no_disagreement(#[trigger] try_fold(units, index, unit_recorder(dwarf))) by {
            match try_fold(units.drop_last(), index, unit_recorder(dwarf)) {
                Ok(before) => {
                    let unit = units.last();
                    match (unit_name(unit), unit_entries(unit)) {
                        (Ok(name), Ok(entries)) => {
                            lemma_entries_failure_is_no_disagreement(dwarf, unit, name, entries);
                        },
                        _ => {},
                    }
                },
                Err(_) => {},
            }
        }
    }
}

/// A failure among the entries of a unit is never that of a disagreement.
proof fn lemma_entries_failure_is_no_disagreement(
    dwarf: DebugInfo,
    unit: DebugUnit,
    name: Option<Seq<char>>,
    entries: Seq<EntryHead>,
)
    ensures
        forall|index: IndexModel|
            no_disagreement(
                #[trigger] try_fold(entries, index, entry_recorder(dwarf, unit, name)),
            ),
    decreases entries.len(),
{
    if entries.len() > 0 {
        lemma_entries_failure_is_no_disagreement(dwarf, unit, name, entries.drop_last());
        lemma_reading_is_no_disagreement(dwarf, unit, name, entries.last());
        let step = entry_recorder(dwarf, unit, name);
        assert forall|index: IndexModel| no_disagreement(
            #[trigger] try_fold(entries, index, step),
        ) by {
            match try_fold(entries.drop_last(), index, step) {
                Ok(before) => {
                    assert(try_fold(entries, index, step) == entry_recorded(
                        before,
                        dwarf,
                        unit,
                        name,
                        entries.last(),
                    ));
                },
                Err(error) => {
                    assert(no_disagreement(try_fold(entries.drop_last(), index, step)));
                },
            }
        }
    }
}

/// A failure to read an entry is never that of a disagreement.
proof fn lemma_reading_is_no_disagreement(
    dwarf: DebugInfo,
    unit: DebugUnit,
    name: Option<Seq<char>>,
    head: EntryHead,
)
    ensures
        forall|index: IndexModel|
            no_disagreement(#[trigger] entry_recorded(index, dwarf, unit, name, head)),
{
    lemma_function_at_is_no_disagreement(name, DwarfEntry::at(dwarf, unit, head), MAX_CHAIN as nat);
}

/// A failure to describe a function is never that of a disagreement.
proof fn lemma_function_at_is_no_disagreement(
    unit: Option<Seq<char>>,
    entry: DwarfEntry,
    fuel: nat,
)
    ensures
        no_disagreement(function_at(unit, entry, fuel)),
    decreases fuel,
{
    match entry.reference(DW_AT_ABSTRACT_ORIGIN) {
        Ok(Some(origin)) => {
            if fuel > 0 {
                lemma_function_at_is_no_disagreement(unit, origin, (fuel - 1) as nat);
            }
        },
        _ => {},
    }
}

/// The descriptions of a map, each as its model.
pub open spec fn function_models(functions: Map<usize, DwarfFunction>) -> Map<
    usize,
    DwarfFunctionModel,
> {
    functions.map_values(|function: DwarfFunction| function@)
}

/// The subprograms met so far, and the offsets at which subprograms
/// disagree.
pub struct FunctionIndex {
    pub functions: HashMap<usize, DwarfFunction>,
    pub flagged: Vec<usize>,
}

impl View for FunctionIndex {
    type V = IndexModel;

    open spec fn view(&self) -> IndexModel {
        IndexModel { functions: function_models(self.functions@), flagged: self.flagged@ }
    }
}

impl FunctionIndex {
    /// The index before the first subprogram.
    pub fn new() -> (index: FunctionIndex)
        ensures
            index@ == empty_index(),
    {
        let index = FunctionIndex { functions: HashMap::new(), flagged: Vec::new() };
        assert(index@.functions =~= Map::empty());
        index
    }

    /// Takes one more subprogram at `offset`: see [`recorded`].
    pub fn record(&mut self, offset: usize, function: DwarfFunction)
        ensures
            final(self)@ == recorded(old(self)@, offset, function@),
    {
        let agree = match self.functions.get(&offset) {
            Some(previous) => {
                let same_name = same_optional_text(&previous.name, &function.name);
                let same_param_count = previous.params.len() == function.params.len();
                let same_return_count = previous.return_type.is_some()
                    == function.return_type.is_some();
                Some(same_name && same_param_count && same_return_count)
            },
            None => None,
        };
        match agree {
            Some(true) => {},
            Some(false) => {
                self.flagged.push(offset);
            },
            None => {
                self.functions.insert(offset, function);
                assert(final(self)@.functions =~= old(self)@.functions.insert(offset, function@));
            },
        }
    }

    /// What the index amounts to when all subprograms were met: see
    /// [`finished`].
    pub fn finish(self) -> (functions: Result<HashMap<usize, DwarfFunction>, ExtractError>)
        ensures
            match finished(self@) {
                Ok(models) => functions matches Ok(functions) && function_models(functions@)
                    == models,
                Err(error) => functions matches Err(found) && found@ == error,
            },
    {
        let FunctionIndex { functions, flagged } = self;
        let mut functions = functions;
        let mut i: usize = 0;
        assert(flagged@.subrange(0, flagged@.len() as int) =~= flagged@);
        while i < flagged.len()
            invariant
                i <= flagged.len(),
                flagged@ == self@.flagged,
                first_nonzero(flagged@) == first_nonzero(
                    flagged@.subrange(i as int, flagged@.len() as int),
                ),
            decreases flagged.len() - i,
        {
            proof {
                let rest = flagged@.subrange(i as int, flagged@.len() as int);
                assert(rest[0] == flagged@[i as int]);
                assert(rest.drop_first() =~= flagged@.subrange(i + 1, flagged@.len() as int));
            }
            if flagged[i] != 0 {
                return Err(ExtractError::InconsistentEntries { relative_offset: flagged[i] });
            }
            i = i + 1;
        }
        if flagged.len() > 0 {
            let ghost before = functions@;
            functions.remove(&0);
            assert(function_models(functions@) =~= function_models(before).remove(0));
        }
        Ok(functions)
    }
}

/// The subprograms of a binary, by the offset of their code from the start
/// of the code section.
pub struct DwarfBinary {
    pub relative_offsets_to_function_entries: HashMap<usize, DwarfFunction>,
}

impl View for DwarfBinary {
    type V = Map<usize, DwarfFunctionModel>;

    open spec fn view(&self) -> Map<usize, DwarfFunctionModel> {
        function_models(self.relative_offsets_to_function_entries@)
    }
}

/// The index after the entry `head`.
fn record_entry(
    index: &mut FunctionIndex,
    dwarf: &DebugInfo,
    unit: &DebugUnit,
    name: &Option<String>,
    head: &EntryHead,
) -> (done: Result<(), ExtractError>)
    ensures
        match entry_recorded(old(index)@, *dwarf, *unit, text_view(*name), *head) {
            Ok(model) => done is Ok && final(index)@ == model,
            Err(error) => done matches Err(found) && found@ == error,
        },
{
    if head.tag != DW_TAG_SUBPROGRAM {
        return Ok(());
    }
    let entry = DwarfEntry::from(dwarf, unit, head.offset, DwTag(head.tag));
    match entry.attr(DwAt(DW_AT_LOW_PC))? {
        None => Ok(()),
        Some(AttrValue::Addr(address)) => {
            if address > usize::MAX as u64 {
                return Ok(());
            }
            let function = DwarfFunction::from(copy_text(name), &entry)?;
            index.record(address as usize, function);
            Ok(())
        },
        Some(_) => Err(ExtractError::UnsupportedAttributeValue { attribute: DW_AT_LOW_PC }),
    }
}

/// The index after all entries of one unit.
fn record_unit(index: &mut FunctionIndex, dwarf: &DebugInfo, unit: &DebugUnit) -> (done: Result<
    (),
    ExtractError,
>)
    ensures
        match unit_recorded(old(index)@, *dwarf, *unit) {
            Ok(model) => done is Ok && final(index)@ == model,
            Err(error) => done matches Err(found) && found@ == error,
        },
{
    let name = match read_unit_name(unit) {
        Ok(name) => name,
        Err(error) => {
            return Err(ExtractError::Dwarf(error));
        },
    };
    let entries = match read_unit_entries(unit) {
        Ok(entries) => entries,
        Err(error) => {
            return Err(ExtractError::Dwarf(error));
        },
    };
    let ghost start = index@;
    let ghost step = entry_recorder(*dwarf, *unit, text_view(name));
    proof {
        lemma_try_fold_all(entries@, start, step);
    }
    let mut i: usize = 0;
    while i < entries.len()
        invariant
            i <= entries.len(),
            start == old(index)@,
            step == entry_recorder(*dwarf, *unit, text_view(name)),
            unit_name(*unit) == Ok::<Option<Seq<char>>, gimli::Error>(text_view(name)),
            unit_entries(*unit) == Ok::<Seq<EntryHead>, gimli::Error>(entries@),
            try_fold(entries@.take(i as int), start, step) == Ok::<IndexModel, ErrorModel>(index@),
        decreases entries.len() - i,
    {
        proof {
            lemma_try_fold_next(entries@, i as int, start, step);
        }
        match record_entry(index, dwarf, unit, &name, &entries[i]) {
            Ok(()) => {},
            Err(error) => {
                proof {
                    lemma_try_fold_failure(entries@, i + 1, start, step);
                }
                return Err(error);
            },
        }
        i = i + 1;
    }
    proof {
        lemma_try_fold_all(entries@, start, step);
    }
    Ok(())
}

impl DwarfBinary {
    /// The subprograms of the debug information `dwarf`, by the offset of
    /// their code: see [`indexed`].
    pub fn from_dwarf(dwarf: &DebugInfo) -> (binary: Result<DwarfBinary, ExtractError>)
        ensures
            match indexed(*dwarf) {
                Ok(models) => binary matches Ok(binary) && binary@ == models,
                Err(error) => binary matches Err(found) && found@ == error,
            },
    {
        let units = match read_units(dwarf) {
            Ok(units) => units,
            Err(error) => {
                return Err(ExtractError::Dwarf(error));
            },
        };
        let mut index = FunctionIndex::new();
        let ghost step = unit_recorder(*dwarf);
        proof {
            lemma_try_fold_all(units@, empty_index(), step);
        }
        let mut i: usize = 0;
        while i < units.len()
            invariant
                i <= units.len(),
                step == unit_recorder(*dwarf),
                debug_units(*dwarf) == Ok::<Seq<DebugUnit>, gimli::Error>(units@),
                try_fold(units@.take(i as int), empty_index(), step) == Ok::<
                    IndexModel,
                    ErrorModel,
                >(index@),
            decreases units.len() - i,
        {
            proof {
                lemma_try_fold_next(units@, i as int, empty_index(), step);
            }
            match record_unit(&mut index, dwarf, &units[i]) {
                Ok(()) => {},
                Err(error) => {
                    proof {
                        lemma_try_fold_failure(units@, i + 1, empty_index(), step);
                    }
                    return Err(error);
                },
            }
            i = i + 1;
        }
        proof {
            lemma_try_fold_all(units@, empty_index(), step);
        }
        let functions = index.finish()?;
        Ok(DwarfBinary { relative_offsets_to_function_entries: functions })
    }

    /// The subprograms that the debug sections among `sections` describe.
    ///
    /// The sections are found by their names; one that is missing is taken
    /// to be empty.
    pub fn parse(sections: &Vec<CustomSection>) -> (binary: Result<DwarfBinary, ExtractError>)
        ensures
            match indexed(loaded_debug_info(section_models(sections@))) {
                Ok(models) => binary matches Ok(binary) && binary@ == models,
                Err(error) => binary matches Err(found) && found@ == error,
            },
    {
        let dwarf = DebugInfo::load(sections);
        DwarfBinary::from_dwarf(&dwarf)
    }
}

} // verus!
