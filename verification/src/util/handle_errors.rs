//! Setting failures aside: the successes of a list go on, the failures are
//! collected, and none stops the others.

use vstd::prelude::*;

verus! {

/// The values of the successes among `results`, in their order.
pub open spec fn successes<T, E>(results: Seq<Result<T, E>>) -> Seq<T>
    decreases results.len(),
{
    if results.len() == 0 {
        Seq::empty()
    } else {
        let earlier = successes(results.drop_last());
        match results.last() {
            Ok(value) => earlier.push(value),
            Err(_) => earlier,
        }
    }
}

/// The errors of the failures among `results`, in their order.
pub open spec fn failures<T, E>(results: Seq<Result<T, E>>) -> Seq<E>
    decreases results.len(),
{
    if results.len() == 0 {
        Seq::empty()
    } else {
        let earlier = failures(results.drop_last());
        match results.last() {
            Ok(_) => earlier,
            Err(error) => earlier.push(error),
        }
    }
}

/// Every result is a success or a failure: none is lost.
pub proof fn lemma_none_is_lost<T, E>(results: Seq<Result<T, E>>)
    ensures
        successes(results).len() + failures(results).len() == results.len(),
    decreases results.len(),
{
    if results.len() > 0 {
        lemma_none_is_lost(results.drop_last());
    }
}

/// Handles the failures of a list of results and hands on the successes.
pub trait HandleErrorsIterExt<E>: Sized {
    /// What a success holds.
    type Item;

    /// The results of the list.
    spec fn results(&self) -> Seq<Result<Self::Item, E>>;

    /// Pushes all errors of the list onto `errors` and gives back the
    /// values of the successes, both in the order of the list.
    fn collect_errors(self, errors: &mut Vec<E>) -> (items: Vec<Self::Item>)
        ensures
            items@ == successes(self.results()),
            final(errors)@ == old(errors)@ + failures(self.results()),
    ;
}

impl<T, E> HandleErrorsIterExt<E> for Vec<Result<T, E>> {
    type Item = T;

    open spec fn results(&self) -> Seq<Result<T, E>> {
        self@
    }

    fn collect_errors(self, errors: &mut Vec<E>) -> (items: Vec<T>) {
        let ghost all = self@;
        let mut items: Vec<T> = Vec::new();
        assert(all.take(0) =~= Seq::<Result<T, E>>::empty());
        assert(errors@ =~= old(errors)@ + failures(all.take(0)));
        for result in iter: self
            invariant
                iter.seq() == all,
                items@ == successes(all.take(iter.index() as int)),
                errors@ == old(errors)@ + failures(all.take(iter.index() as int)),
        {
            let ghost k = iter.index() as int;
            proof {
                assert(all.take(k + 1).drop_last() =~= all.take(k));
                assert(all.take(k + 1).last() == result);
            }
            match result {
                Ok(value) => items.push(value),
                Err(error) => {
                    errors.push(error);
                    assert(errors@ =~= old(errors)@ + failures(all.take(k + 1)));
                },
            }
        }
        assert(all.take(all.len() as int) =~= all);
        items
    }
}

} // verus!
