//! Making types simpler: dropping names and `const`, and equating kinds of
//! types.

use vstd::prelude::*;
use crate::options::{Options, Typedefs};
use crate::samples::types::{SourceType, TypeToken};
use crate::text::same_text;

verus! {

/// A kind of token that is dropped from a type.
pub enum Drop<'a> {
    /// The names of typedefs and of classes, structs, unions and
    /// enumerations.
    Names,
    /// Such names, but for those on the list.
    NamesNotIn(&'a Vec<String>),
    /// The names of typedefs.
    Typedefs,
    /// Every name after the first.
    NamesAfterFirst,
    /// `const`.
    Const,
}

/// Whether `name` is one of `names`.
pub open spec fn listed(names: Seq<String>, name: Seq<char>) -> bool {
    exists|i: int| 0 <= i < names.len() && (#[trigger] names[i])@ == name
}

/// Whether `token` is a name.
pub fn is_name(token: &TypeToken) -> (name: bool)
    ensures
        name == token.is_name(),
{
    match token {
        TypeToken::Nominal(_) => true,
        TypeToken::Typedef(_) => true,
        _ => false,
    }
}

/// Whether a name occurs among `tokens`.
pub open spec fn has_name(tokens: Seq<TypeToken>) -> bool {
    exists|i: int| 0 <= i < tokens.len() && (#[trigger] tokens[i]).is_name()
}

/// Whether the token `token`, which stands after the tokens `before`, is
/// dropped.
pub open spec fn drops(drop: Drop, before: Seq<TypeToken>, token: TypeToken) -> bool {
    match drop {
        Drop::Names => token.is_name(),
        Drop::NamesNotIn(keep) => match token {
            TypeToken::Nominal(name) => !listed(keep@, name@),
            TypeToken::Typedef(name) => !listed(keep@, name@),
            _ => false,
        },
        Drop::Typedefs => token is Typedef,
        Drop::NamesAfterFirst => token.is_name() && has_name(before),
        Drop::Const => token is Const,
    }
}

/// The tokens without those that are dropped, in their order.
pub open spec fn without(tokens: Seq<TypeToken>, drop: Drop) -> Seq<TypeToken>
    decreases tokens.len(),
{
    if tokens.len() == 0 {
        Seq::empty()
    } else {
        let kept = without(tokens.drop_last(), drop);
        if drops(drop, tokens.drop_last(), tokens.last()) {
            kept
        } else {
            kept.push(tokens.last())
        }
    }
}

/// The token in place of `token` where typedefs become plain names.
pub open spec fn as_nominal(token: TypeToken) -> TypeToken {
    match token {
        TypeToken::Typedef(name) => TypeToken::Nominal(name),
        other => other,
    }
}

/// The token in place of `token` where classes count as structs.
pub open spec fn as_struct(token: TypeToken) -> TypeToken {
    match token {
        TypeToken::Class => TypeToken::Struct,
        other => other,
    }
}

/// The tokens after the names were dealt with as the options ask: all of
/// them dropped, or those dropped that are not on `keep`.
pub open spec fn names_handled(
    tokens: Seq<TypeToken>,
    options: Options,
    keep: Option<&Vec<String>>,
) -> Seq<TypeToken> {
    if options.type_remove_names {
        without(tokens, Drop::Names)
    } else {
        match keep {
            Some(keep) => without(tokens, Drop::NamesNotIn(keep)),
            None => tokens,
        }
    }
}

/// The tokens after typedefs were dealt with as the options ask.
pub open spec fn typedefs_handled(tokens: Seq<TypeToken>, options: Options) -> Seq<TypeToken> {
    match options.type_typedefs {
        Typedefs::Keep => tokens,
        Typedefs::ToNominal => tokens.map_values(|token: TypeToken| as_nominal(token)),
        Typedefs::Remove => without(tokens, Drop::Typedefs),
    }
}

/// The tokens of a type made simpler as the options ask, in this order: the
/// names are dropped, all of them or those not on `keep`; typedefs are kept,
/// made plain names, or dropped; of several names only the outermost stays;
/// `const` is dropped; classes count as structs.
pub open spec fn simplified(
    tokens: Seq<TypeToken>,
    options: Options,
    keep: Option<&Vec<String>>,
) -> Seq<TypeToken> {
    let tokens = typedefs_handled(names_handled(tokens, options, keep), options);
    let tokens = if options.type_name_flatten_outermost {
        without(tokens, Drop::NamesAfterFirst)
    } else {
        tokens
    };
    let tokens = if options.type_remove_const {
        without(tokens, Drop::Const)
    } else {
        tokens
    };
    if options.type_class_to_struct {
        tokens.map_values(|token: TypeToken| as_struct(token))
    } else {
        tokens
    }
}

/// Whether `name` is one of `names`.
pub fn is_listed(names: &Vec<String>, name: &str) -> (found: bool)
    ensures
        found == listed(names@, name@),
{
    let mut i: usize = 0;
    while i < names.len()
        invariant
            i <= names.len(),
            forall|k: int| 0 <= k < i ==> (#[trigger] names@[k])@ != name@,
        decreases names.len() - i,
    {
        if same_text(names[i].as_str(), name) {
            return true;
        }
        i = i + 1;
    }
    false
}

/// A token that is not dropped is not dropped from a type it ends, so the
/// type keeps its last token.
proof fn lemma_without_keeps_last(tokens: Seq<TypeToken>, drop: Drop)
    requires
        tokens.len() > 0,
        tokens.last().is_terminal(),
    ensures
        without(tokens, drop).len() > 0,
        without(tokens, drop).last() == tokens.last(),
{
}

impl SourceType {
    /// Drops the tokens of one kind.
    pub fn remove(&mut self, drop: Drop)
        ensures
            final(self).0@ == without(old(self).0@, drop),
            old(self).wf() ==> final(self).wf(),
    {
        let mut tokens: Vec<TypeToken> = Vec::new();
        core::mem::swap(&mut tokens, &mut self.0);
        let ghost all = tokens@;
        let mut kept: Vec<TypeToken> = Vec::new();
        let mut seen_name = false;
        assert(all.take(0) =~= Seq::<TypeToken>::empty());
        for token in iter: tokens
            invariant
                iter.seq() == all,
                all == old(self).0@,
                kept@ == without(all.take(iter.index() as int), drop),
                seen_name == has_name(all.take(iter.index() as int)),
        {
            let ghost k = iter.index() as int;
            proof {
                assert(all.take(k + 1).drop_last() =~= all.take(k));
                assert(all.take(k + 1).last() == token);
            }
            let name = is_name(&token);
            let dropped = match &drop {
                Drop::Names => name,
                Drop::NamesNotIn(keep) => match &token {
                    TypeToken::Nominal(name) => !is_listed(keep, name.as_str()),
                    TypeToken::Typedef(name) => !is_listed(keep, name.as_str()),
                    _ => false,
                },
                Drop::Typedefs => match &token {
                    TypeToken::Typedef(_) => true,
                    _ => false,
                },
                Drop::NamesAfterFirst => name && seen_name,
                Drop::Const => match &token {
                    TypeToken::Const => true,
                    _ => false,
                },
            };
            proof {
                let before = all.take(k);
                let now = all.take(k + 1);
                if name {
                    assert(now[k].is_name());
                } else if has_name(now) {
                    let i = choose|i: int| 0 <= i < now.len() && (#[trigger] now[i]).is_name();
                    assert(before[i] == now[i]);
                }
                if seen_name {
                    let i = choose|i: int| 0 <= i < before.len() && (#[trigger] before[i]).is_name();
                    assert(now[i] == before[i]);
                }
            }
            if !dropped {
                kept.push(token);
            }
            seen_name = seen_name || name;
        }
        proof {
            assert(all.take(all.len() as int) =~= all);
            if old(self).wf() {
                lemma_without_keeps_last(all, drop);
            }
        }
        self.0 = kept;
    }

    /// Replaces every token by `as_nominal` or `as_struct` of it.
    fn replace(&mut self, typedefs: bool)
        ensures
            final(self).0@ == if typedefs {
                old(self).0@.map_values(|token: TypeToken| as_nominal(token))
            } else {
                old(self).0@.map_values(|token: TypeToken| as_struct(token))
            },
            old(self).wf() ==> final(self).wf(),
    {
        let mut tokens: Vec<TypeToken> = Vec::new();
        core::mem::swap(&mut tokens, &mut self.0);
        let ghost all = tokens@;
        let mut changed: Vec<TypeToken> = Vec::new();
        for token in iter: tokens
            invariant
                iter.seq() == all,
                all == old(self).0@,
                changed@.len() == iter.index(),
                forall|k: int|
                    0 <= k < iter.index() ==> #[trigger] changed@[k] == if typedefs {
                        as_nominal(all[k])
                    } else {
                        as_struct(all[k])
                    },
        {
            let new = if typedefs {
                match token {
                    TypeToken::Typedef(name) => TypeToken::Nominal(name),
                    other => other,
                }
            } else {
                match token {
                    TypeToken::Class => TypeToken::Struct,
                    other => other,
                }
            };
            changed.push(new);
        }
        proof {
            if typedefs {
                assert(changed@ =~= all.map_values(|token: TypeToken| as_nominal(token)));
            } else {
                assert(changed@ =~= all.map_values(|token: TypeToken| as_struct(token)));
            }
        }
        self.0 = changed;
    }

    /// Makes typedefs plain names.
    pub fn typedefs_to_nominal(&mut self)
        ensures
            final(self).0@ == old(self).0@.map_values(|token: TypeToken| as_nominal(token)),
            old(self).wf() ==> final(self).wf(),
    {
        self.replace(true);
    }

    /// Lets classes count as structs.
    pub fn class_to_struct(&mut self)
        ensures
            final(self).0@ == old(self).0@.map_values(|token: TypeToken| as_struct(token)),
            old(self).wf() ==> final(self).wf(),
    {
        self.replace(false);
    }

    /// Makes the type simpler as the options ask: see [`simplified`]. The
    /// names on `keep` stay where the options do not drop all names.
    pub fn simplify(&mut self, options: &Options, keep: Option<&Vec<String>>)
        ensures
            final(self).0@ == simplified(old(self).0@, *options, keep),
            old(self).wf() ==> final(self).wf(),
    {
        if options.type_remove_names {
            self.remove(Drop::Names);
        } else {
            match keep {
                Some(keep) => self.remove(Drop::NamesNotIn(keep)),
                None => {},
            }
        }
        match options.type_typedefs {
            Typedefs::Keep => {},
            Typedefs::ToNominal => self.typedefs_to_nominal(),
            Typedefs::Remove => self.remove(Drop::Typedefs),
        }
        if options.type_name_flatten_outermost {
            self.remove(Drop::NamesAfterFirst);
        }
        if options.type_remove_const {
            self.remove(Drop::Const);
        }
        if options.type_class_to_struct {
            self.class_to_struct();
        }
    }
}

} // verus!
