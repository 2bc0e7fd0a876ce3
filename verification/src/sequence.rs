//! A fact about filtered sequences.

use vstd::prelude::*;

verus! {

/// Every item that is kept by a filter is one of the items filtered.
pub proof fn lemma_filtered_is_contained<A>(items: Seq<A>, keep: spec_fn(A) -> bool, i: int)
    requires
        0 <= i < items.filter(keep).len(),
    ensures
        items.contains(items.filter(keep)[i]),
    decreases items.len(),
{
    reveal(Seq::filter);
    if items.len() > 0 {
        let shorter = items.drop_last().filter(keep);
        if i < shorter.len() {
            lemma_filtered_is_contained(items.drop_last(), keep, i);
            let k = choose|k: int|
                0 <= k < items.drop_last().len() && items.drop_last()[k] == shorter[i];
            assert(items[k] == shorter[i]);
        } else {
            assert(items[items.len() - 1] == items.filter(keep)[i]);
        }
    }
}

} // verus!
