//! Orders on positions, as the sorts of the library build them: a sequence
//! of distinct positions ranked by a relation, grown one insertion at a
//! time.

use vstd::prelude::*;

verus! {

/// Every earlier position of `order` comes `before` every later one.
pub open spec fn ranked(order: Seq<usize>, before: spec_fn(int, int) -> bool) -> bool {
    forall|a: int, b: int|
        0 <= a < b < order.len() ==> before(#[trigger] order[a] as int, #[trigger] order[b] as int)
}

/// `order` holds distinct positions, all below `bound`.
pub open spec fn distinct_below(order: Seq<usize>, bound: int) -> bool {
    &&& forall|a: int| 0 <= a < order.len() ==> #[trigger] order[a] < bound
    &&& forall|a: int, b: int| 0 <= a < b < order.len() ==> order[a] != order[b]
}

/// Inserting a new position `x` at `p`, after everything that comes
/// before it and ahead of everything it comes before, keeps the sequence
/// ranked, and its positions distinct.
pub proof fn lemma_insert_ranked(
    old: Seq<usize>,
    p: int,
    x: usize,
    before: spec_fn(int, int) -> bool,
)
    requires
        0 <= p <= old.len(),
        ranked(old, before),
        distinct_below(old, x as int),
        forall|a: int| 0 <= a < p ==> before(#[trigger] old[a] as int, x as int),
        forall|b: int| p <= b < old.len() ==> before(x as int, #[trigger] old[b] as int),
    ensures
        ranked(old.insert(p, x), before),
        distinct_below(old.insert(p, x), x + 1),
{
    let new = old.insert(p, x);
    assert forall|a: int| 0 <= a < new.len() implies (if a < p {
        new[a] == old[a]
    } else if a == p {
        new[a] == x
    } else {
        new[a] == old[a - 1]
    }) by {}
    assert forall|a: int, b: int| 0 <= a < b < new.len() implies before(
        #[trigger] new[a] as int,
        #[trigger] new[b] as int,
    ) && new[a] != new[b] by {
        if a < p && b > p {
            assert(before(old[a] as int, old[b - 1] as int));
        } else if a > p {
            assert(before(old[a - 1] as int, old[b - 1] as int));
        }
    }
}

} // verus!
