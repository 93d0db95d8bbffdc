//! Counting the members of a sequence that answer to a predicate.

use vstd::prelude::*;

verus! {

/// How many of `items` satisfy `p`.
pub open spec fn tally<T>(items: Seq<T>, p: spec_fn(T) -> bool) -> nat
    decreases items.len(),
{
    if items.len() == 0 {
        0
    } else {
        tally(items.drop_last(), p) + if p(items.last()) {
            1nat
        } else {
            0nat
        }
    }
}

/// A count grows by at most one with each item.
pub proof fn lemma_tally_push<T>(items: Seq<T>, item: T, p: spec_fn(T) -> bool)
    ensures
        tally(items.push(item), p) == tally(items, p) + if p(item) {
            1nat
        } else {
            0nat
        },
{
    assert(items.push(item).drop_last() =~= items);
}

/// The count over one more item of a prefix.
pub proof fn lemma_tally_take<T>(items: Seq<T>, taken: int, p: spec_fn(T) -> bool)
    requires
        0 <= taken < items.len(),
    ensures
        tally(items.take(taken + 1), p) == tally(items.take(taken), p) + if p(items[taken]) {
            1nat
        } else {
            0nat
        },
{
    assert(items.take(taken + 1) =~= items.take(taken).push(items[taken]));
    lemma_tally_push(items.take(taken), items[taken], p);
}

/// Nothing is counted exactly when nothing satisfies the predicate.
pub proof fn lemma_tally_none<T>(items: Seq<T>, p: spec_fn(T) -> bool)
    ensures
        tally(items, p) == 0 <==> forall|i: int| 0 <= i < items.len() ==> !p(#[trigger] items[i]),
    decreases items.len(),
{
    if items.len() > 0 {
        lemma_tally_none(items.drop_last(), p);
        assert forall|i: int| 0 <= i < items.len() - 1 implies #[trigger] items.drop_last()[i]
            == items[i] by {}
        if tally(items, p) == 0 {
            assert forall|i: int| 0 <= i < items.len() implies !p(#[trigger] items[i]) by {
                if i < items.len() - 1 {
                    assert(!p(items.drop_last()[i]));
                }
            }
        }
        if forall|i: int| 0 <= i < items.len() ==> !p(#[trigger] items[i]) {
            assert(!p(items[items.len() - 1]));
            assert forall|i: int| 0 <= i < items.drop_last().len() implies !p(
                #[trigger] items.drop_last()[i],
            ) by {
                assert(!p(items[i]));
            }
        }
    }
}

} // verus!
