//! First matches and counts in lists.

use vstd::prelude::*;

verus! {

/// Where the first item that passes a test is; behind the last item where
/// none does.
pub open spec fn first_where<T>(items: Seq<T>, test: spec_fn(T) -> bool) -> int
    decreases items.len(),
{
    if items.len() == 0 || test(items[0]) {
        0
    } else {
        1 + first_where(items.drop_first(), test)
    }
}

/// How many items pass a test.
pub open spec fn count_where<T>(items: Seq<T>, test: spec_fn(T) -> bool) -> nat
    decreases items.len(),
{
    if items.len() == 0 {
        0
    } else {
        count_where(items.drop_last(), test) + if test(items.last()) { 1nat } else { 0 }
    }
}

/// What the first match is.
pub proof fn lemma_first_where<T>(items: Seq<T>, test: spec_fn(T) -> bool)
    ensures
        0 <= first_where(items, test) <= items.len(),
        forall|i: int| 0 <= i < first_where(items, test) ==> !test(#[trigger] items[i]),
        first_where(items, test) < items.len() ==> test(items[first_where(items, test)]),
    decreases items.len(),
{
    if items.len() > 0 && !test(items[0]) {
        let rest = items.drop_first();
        lemma_first_where(rest, test);
        assert forall|i: int| 0 <= i < first_where(items, test) implies !test(
            #[trigger] items[i],
        ) by {
            if i > 0 {
                assert(rest[i - 1] == items[i]);
            }
        }
    }
}

/// An item that passes, with none before it, is the first match.
pub proof fn lemma_is_first<T>(items: Seq<T>, test: spec_fn(T) -> bool, at: int)
    requires
        0 <= at <= items.len(),
        forall|i: int| 0 <= i < at ==> !test(#[trigger] items[i]),
        at < items.len() ==> test(items[at]),
    ensures
        first_where(items, test) == at,
{
    lemma_first_where(items, test);
    let found = first_where(items, test);
    if found < at {
        assert(!test(items[found]));
    }
    if at < found {
        assert(!test(items[at]));
    }
}

/// A count is positive exactly when an item passes.
pub proof fn lemma_count_where<T>(items: Seq<T>, test: spec_fn(T) -> bool)
    ensures
        count_where(items, test) <= items.len(),
        count_where(items, test) == 0 <==> (forall|i: int|
            0 <= i < items.len() ==> !test(#[trigger] items[i])),
    decreases items.len(),
{
    if items.len() > 0 {
        let front = items.drop_last();
        lemma_count_where(front, test);
        if count_where(items, test) == 0 {
            assert forall|i: int| 0 <= i < items.len() implies !test(#[trigger] items[i]) by {
                if i < front.len() {
                    assert(front[i] == items[i]);
                }
            }
        } else if forall|i: int| 0 <= i < items.len() ==> !test(#[trigger] items[i]) {
            assert forall|i: int| 0 <= i < front.len() implies !test(#[trigger] front[i]) by {
                assert(items[i] == front[i]);
            }
            assert(!test(items[items.len() - 1]));
        }
    }
}

} // verus!
