//! Folding a sequence with a step that may fail: the result is the state
//! after the last item, or the first failure.

use vstd::prelude::*;

verus! {

/// Applies `step` to the items of `items` in order, starting from `init`, and
/// stops at the first failure.
pub open spec fn try_fold<A, S, E>(
    items: Seq<A>,
    init: S,
    step: spec_fn(S, A) -> Result<S, E>,
) -> Result<S, E>
    decreases items.len(),
{
    if items.len() == 0 {
        Ok(init)
    } else {
        match try_fold(items.drop_last(), init, step) {
            Ok(state) => step(state, items.last()),
            Err(error) => Err(error),
        }
    }
}

/// Folding one item more applies the step to the state reached so far.
pub proof fn lemma_try_fold_next<A, S, E>(
    items: Seq<A>,
    k: int,
    init: S,
    step: spec_fn(S, A) -> Result<S, E>,
)
    requires
        0 <= k < items.len(),
    ensures
        try_fold(items.take(k + 1), init, step) == match try_fold(items.take(k), init, step) {
            Ok(state) => step(state, items[k]),
            Err(error) => Err(error),
        },
{
    assert(items.take(k + 1).drop_last() =~= items.take(k));
    assert(items.take(k + 1).last() == items[k]);
}

/// A failure on a prefix is the result for the whole sequence.
pub proof fn lemma_try_fold_failure<A, S, E>(
    items: Seq<A>,
    k: int,
    init: S,
    step: spec_fn(S, A) -> Result<S, E>,
)
    requires
        0 <= k <= items.len(),
        try_fold(items.take(k), init, step) is Err,
    ensures
        try_fold(items, init, step) == try_fold(items.take(k), init, step),
    decreases items.len() - k,
{
    if k == items.len() {
        assert(items.take(k) =~= items);
    } else {
        lemma_try_fold_next(items, k, init, step);
        lemma_try_fold_failure(items, k + 1, init, step);
    }
}

/// Folding all of a sequence is folding its full prefix.
pub proof fn lemma_try_fold_all<A, S, E>(items: Seq<A>, init: S, step: spec_fn(S, A) -> Result<S, E>)
    ensures
        try_fold(items.take(items.len() as int), init, step) == try_fold(items, init, step),
        try_fold(items.take(0), init, step) == Ok::<S, E>(init),
{
    assert(items.take(items.len() as int) =~= items);
    assert(items.take(0).len() == 0);
}

} // verus!
