//! One binary for each structural signature.

use vstd::prelude::*;
use vstd::utf8::encode_utf8;
use crate::wasm::binary_stats::WasmBinaryStats;

verus! {

/// A binary that was decoded: its file and its figures.
pub struct Candidate {
    pub path: String,
    pub stats: WasmBinaryStats,
}

/// A binary that stands for all binaries with its signature, and how many
/// those are.
pub struct Unique {
    /// The number of binaries with this signature, this one counted.
    pub count: usize,
    pub path: String,
    pub stats: WasmBinaryStats,
}

/// Whether `a` comes before `b`, or is `b`, in the order of byte strings:
/// the first byte in which they differ decides, and a string comes before
/// every string that continues it.
pub open spec fn lex_le(a: Seq<u8>, b: Seq<u8>) -> bool
    decreases a.len(),
{
    if a.len() == 0 {
        true
    } else if b.len() == 0 {
        false
    } else if a[0] != b[0] {
        a[0] < b[0]
    } else {
        lex_le(a.drop_first(), b.drop_first())
    }
}

impl Candidate {
    /// The signature of the binary.
    pub open spec fn signature(&self) -> Seq<u8> {
        self.stats.binary_signature@
    }
}

/// Whether `a` stands before `b`, or beside it, in the order of candidates:
/// by signature, and among binaries of one signature by path.
pub open spec fn candidate_le(a: Candidate, b: Candidate) -> bool {
    if a.signature() == b.signature() {
        lex_le(encode_utf8(a.path@), encode_utf8(b.path@))
    } else {
        lex_le(a.signature(), b.signature())
    }
}

/// Whether the candidates stand in their order.
pub open spec fn sorted(candidates: Seq<Candidate>) -> bool {
    forall|i: int, j: int|
        0 <= i < j < candidates.len() ==> candidate_le(
            #[trigger] candidates[i],
            #[trigger] candidates[j],
        )
}

/// One group of binaries with the same signature: how many there are, and
/// the one that stands for them.
pub struct Group {
    pub count: nat,
    pub first: Candidate,
}

/// The groups of candidates with the same signature that stand side by
/// side, each with the first of its candidates.
pub open spec fn groups(candidates: Seq<Candidate>) -> Seq<Group>
    decreases candidates.len(),
{
    if candidates.len() == 0 {
        Seq::empty()
    } else {
        let earlier = groups(candidates.drop_last());
        let last = candidates.last();
        if earlier.len() > 0 && earlier.last().first.signature() == last.signature() {
            earlier.drop_last().push(Group { count: earlier.last().count + 1, ..earlier.last() })
        } else {
            earlier.push(Group { count: 1, first: last })
        }
    }
}

/// The groups as they are handed out.
pub open spec fn unique_models(unique: Seq<Unique>) -> Seq<Group> {
    Seq::new(
        unique.len(),
        |i: int|
            Group {
                count: unique[i].count as nat,
                first: Candidate { path: unique[i].path, stats: unique[i].stats },
            },
    )
}

/// `sort_unstable_by_key` with the signature and the path as the key: the
/// candidates are put in their order, and none is added, dropped or
/// changed. The standard library orders byte strings and texts by their
/// bytes, and pairs by their first part before their second.
#[verifier::external_body]
fn sort_candidates(candidates: &mut Vec<Candidate>)
    ensures
        sorted(final(candidates)@),
        final(candidates)@.to_multiset() == old(candidates)@.to_multiset(),
{
    candidates.sort_unstable_by_key(
        |candidate| (candidate.stats.binary_signature.clone(), candidate.path.clone()),
    );
}

/// Whether two byte strings are the same.
fn same_bytes(a: &Vec<u8>, b: &Vec<u8>) -> (same: bool)
    ensures
        same == (a@ == b@),
{
    if a.len() != b.len() {
        return false;
    }
    let mut i: usize = 0;
    while i < a.len()
        invariant
            i <= a.len() == b.len(),
            a@.take(i as int) == b@.take(i as int),
        decreases a.len() - i,
    {
        if a[i] != b[i] {
            return false;
        }
        assert(a@.take(i + 1) =~= a@.take(i as int).push(a@[i as int]));
        assert(b@.take(i + 1) =~= b@.take(i as int).push(b@[i as int]));
        i = i + 1;
    }
    assert(a@.take(a.len() as int) =~= a@);
    assert(b@.take(b.len() as int) =~= b@);
    true
}

/// The groups of candidates with the same signature that stand side by
/// side: see [`groups`].
pub fn group_neighbours(candidates: Vec<Candidate>) -> (unique: Vec<Unique>)
    ensures
        unique_models(unique@) == groups(candidates@),
{
    let ghost all = candidates@;
    let total = candidates.len();
    let mut unique: Vec<Unique> = Vec::new();
    assert(all.take(0) =~= Seq::<Candidate>::empty());
    assert(unique_models(unique@) =~= Seq::empty());
    for candidate in iter: candidates
        invariant
            iter.seq() == all,
            all.len() == total,
            unique_models(unique@) == groups(all.take(iter.index() as int)),
            forall|i: int| 0 <= i < unique@.len() ==> (#[trigger] unique@[i]).count <= iter.index(),
    {
        let ghost k = iter.index() as int;
        let ghost earlier = unique_models(unique@);
        let ghost before = unique@;
        proof {
            assert(all.take(k + 1).drop_last() =~= all.take(k));
            assert(all.take(k + 1).last() == candidate);
            assert(earlier.len() == before.len());
        }
        let joins = unique.len() > 0 && same_bytes(
            &unique[unique.len() - 1].stats.binary_signature,
            &candidate.stats.binary_signature,
        );
        proof {
            if before.len() > 0 {
                assert(earlier.last() == earlier[before.len() - 1]);
            }
        }
        if joins {
            let last = unique.pop().unwrap();
            let Unique { count, path, stats } = last;
            proof {
                assert(last == before[before.len() - 1]);
                assert(count <= k);
                assert(k < all.len());
            }
            unique.push(Unique { count: count + 1, path, stats });
            proof {
                let now = earlier.drop_last().push(
                    Group { count: earlier.last().count + 1, ..earlier.last() },
                );
                assert(unique_models(unique@).len() == now.len());
                assert forall|i: int| 0 <= i < now.len() implies unique_models(unique@)[i]
                    == now[i] by {
                    if i < now.len() - 1 {
                        assert(unique@[i] == before[i]);
                        assert(earlier[i] == unique_models(before)[i]);
                    }
                }
                assert(unique_models(unique@) =~= now);
            }
        } else {
            let Candidate { path, stats } = candidate;
            unique.push(Unique { count: 1, path, stats });
            proof {
                let now = earlier.push(Group { count: 1, first: candidate });
                assert(unique_models(unique@).len() == now.len());
                assert forall|i: int| 0 <= i < now.len() implies unique_models(unique@)[i]
                    == now[i] by {
                    if i < now.len() - 1 {
                        assert(unique@[i] == before[i]);
                        assert(earlier[i] == unique_models(before)[i]);
                    }
                }
                assert(unique_models(unique@) =~= now);
            }
        }
    }
    assert(all.take(all.len() as int) =~= all);
    unique
}

/// One binary for each structural signature among `candidates`.
///
/// The candidates are put in order by signature and, among those of one
/// signature, by path. Each signature is then met once, with the number of
/// binaries that have it and with the first of them, which is the one whose
/// path comes first. The others are counted and otherwise passed over.
pub fn unique_binaries(candidates: Vec<Candidate>) -> (unique: Vec<Unique>)
    ensures
        exists|ordered: Seq<Candidate>|
            sorted(ordered) && ordered.to_multiset() == candidates@.to_multiset()
                && unique_models(unique@) == #[trigger] groups(ordered),
{
    let mut candidates = candidates;
    sort_candidates(&mut candidates);
    let ghost ordered = candidates@;
    let unique = group_neighbours(candidates);
    assert(unique_models(unique@) == groups(ordered));
    unique
}

/// Two byte strings of which each comes before the other, or is it, are the
/// same.
pub proof fn lemma_lex_le_antisymmetric(a: Seq<u8>, b: Seq<u8>)
    requires
        lex_le(a, b),
        lex_le(b, a),
    ensures
        a == b,
    decreases a.len(),
{
    if a.len() == 0 {
        assert(b.len() == 0);
        assert(a =~= b);
    } else {
        lemma_lex_le_antisymmetric(a.drop_first(), b.drop_first());
        assert(a =~= seq![a[0]] + a.drop_first());
        assert(b =~= seq![b[0]] + b.drop_first());
    }
}

/// In candidates that stand in their order, those between two candidates of
/// one signature have that signature too.
pub proof fn lemma_same_signature_stands_together(candidates: Seq<Candidate>, i: int, k: int, j: int)
    requires
        sorted(candidates),
        0 <= i <= k <= j < candidates.len(),
        candidates[i].signature() == candidates[j].signature(),
    ensures
        candidates[k].signature() == candidates[i].signature(),
{
    if i < k && k < j {
        let a = candidates[i];
        let m = candidates[k];
        let b = candidates[j];
        assert(candidate_le(a, m));
        assert(candidate_le(m, b));
        if m.signature() != a.signature() {
            lemma_lex_le_antisymmetric(a.signature(), m.signature());
        }
    }
}

/// What holds of the groups of candidates that stand in their order.
///
/// Every group stands for a run of candidates with one signature: `start`
/// is where the run of the last group begins, the group's first candidate
/// stands there, and no candidate before the run has the signature.
pub open spec fn last_group_is_run(candidates: Seq<Candidate>, start: int) -> bool {
    let list = groups(candidates);
    &&& list.len() > 0
    &&& 0 <= start < candidates.len()
    &&& list.last().first == candidates[start]
    &&& list.last().count == candidates.len() - start
    &&& forall|k: int|
        start <= k < candidates.len() ==> (#[trigger] candidates[k]).signature()
            == candidates[start].signature()
    &&& forall|g: int|
        0 <= g < list.len() - 1 ==> (#[trigger] list[g]).first.signature()
            != list.last().first.signature()
}

/// The counts of all groups together.
pub open spec fn total_count(list: Seq<Group>) -> nat
    decreases list.len(),
{
    if list.len() == 0 {
        0
    } else {
        total_count(list.drop_last()) + list.last().count
    }
}

/// The groups count every candidate once.
pub proof fn lemma_groups_count_all(candidates: Seq<Candidate>)
    ensures
        total_count(groups(candidates)) == candidates.len(),
    decreases candidates.len(),
{
    if candidates.len() > 0 {
        lemma_groups_count_all(candidates.drop_last());
        let earlier = groups(candidates.drop_last());
        let last = candidates.last();
        if earlier.len() > 0 && earlier.last().first.signature() == last.signature() {
            let now = earlier.drop_last().push(
                Group { count: earlier.last().count + 1, ..earlier.last() },
            );
            assert(now.drop_last() =~= earlier.drop_last());
        } else {
            let now = earlier.push(Group { count: 1, first: last });
            assert(now.drop_last() =~= earlier);
        }
    }
}

/// No two groups of candidates that stand in their order have the same
/// signature, and the last group is the run of candidates at the end.
pub proof fn lemma_groups_of_sorted(candidates: Seq<Candidate>) -> (start: int)
    requires
        sorted(candidates),
        candidates.len() > 0,
    ensures
        last_group_is_run(candidates, start),
        forall|g: int, h: int|
            0 <= g < h < groups(candidates).len() ==> (#[trigger] groups(
                candidates,
            )[g]).first.signature() != (#[trigger] groups(candidates)[h]).first.signature(),
        forall|g: int|
            0 <= g < groups(candidates).len() ==> exists|i: int|
                0 <= i < candidates.len() && candidates[i] == (#[trigger] groups(
                    candidates,
                )[g]).first,
    decreases candidates.len(),
{
    let list = groups(candidates);
    let shorter = candidates.drop_last();
    let earlier = groups(shorter);
    let last = candidates.last();
    let n = candidates.len() as int;
    if shorter.len() == 0 {
        assert(earlier.len() == 0);
        assert(list =~= seq![Group { count: 1, first: last }]);
        assert(candidates[0] == list[0].first);
        0
    } else {
        assert forall|i: int, j: int| 0 <= i < j < shorter.len() implies candidate_le(
            #[trigger] shorter[i],
            #[trigger] shorter[j],
        ) by {
            assert(shorter[i] == candidates[i]);
            assert(shorter[j] == candidates[j]);
        }
        let before = lemma_groups_of_sorted(shorter);
        assert(earlier.len() > 0);
        assert(shorter[before] == candidates[before]);
        if earlier.last().first.signature() == last.signature() {
            let merged = Group { count: earlier.last().count + 1, ..earlier.last() };
            assert(list =~= earlier.drop_last().push(merged));
            assert forall|k: int| before <= k < n implies (#[trigger] candidates[k]).signature()
                == candidates[before].signature() by {
                if k < n - 1 {
                    assert(shorter[k] == candidates[k]);
                }
            }
            assert forall|g: int, h: int| 0 <= g < h < list.len() implies (
            #[trigger] list[g]).first.signature() != (#[trigger] list[h]).first.signature() by {
                assert(list[g] == earlier[g]);
                if h < list.len() - 1 {
                    assert(list[h] == earlier[h]);
                } else {
                    assert(list[h].first == earlier[h].first);
                }
            }
            assert forall|g: int| 0 <= g < list.len() implies exists|i: int|
                0 <= i < candidates.len() && candidates[i] == (#[trigger] list[g]).first by {
                assert(list[g].first == earlier[g].first);
                let i = choose|i: int| 0 <= i < shorter.len() && shorter[i] == earlier[g].first;
                assert(candidates[i] == shorter[i]);
            }
            before
        } else {
            assert(list =~= earlier.push(Group { count: 1, first: last }));
            assert forall|g: int| 0 <= g < list.len() - 1 implies (
            #[trigger] list[g]).first.signature() != last.signature() by {
                assert(list[g] == earlier[g]);
                let i = choose|i: int| 0 <= i < shorter.len() && shorter[i] == earlier[g].first;
                assert(candidates[i] == shorter[i]);
                if candidates[i].signature() == last.signature() {
                    lemma_same_signature_stands_together(candidates, i, n - 2, n - 1);
                    assert(candidates[n - 2] == shorter[n - 2]);
                    assert(shorter[n - 2].signature() == shorter[before].signature());
                }
            }
            assert forall|g: int, h: int| 0 <= g < h < list.len() implies (
            #[trigger] list[g]).first.signature() != (#[trigger] list[h]).first.signature() by {
                assert(list[g] == earlier[g]);
                if h < list.len() - 1 {
                    assert(list[h] == earlier[h]);
                }
            }
            assert forall|g: int| 0 <= g < list.len() implies exists|i: int|
                0 <= i < candidates.len() && candidates[i] == (#[trigger] list[g]).first by {
                if g < list.len() - 1 {
                    assert(list[g] == earlier[g]);
                    let i = choose|i: int| 0 <= i < shorter.len() && shorter[i] == earlier[g].first;
                    assert(candidates[i] == shorter[i]);
                } else {
                    assert(candidates[n - 1] == list[g].first);
                }
            }
            n - 1
        }
    }
}

} // verus!
