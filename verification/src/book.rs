//! The order in which a book lists its levels.
//!
//! Levels are listed by distance from the touch: bid prices never rise and
//! ask prices never fall from one level to the next. Snapshots are accepted
//! as they come; a producer that wants to refuse a disordered book asks
//! [`levels_sorted`] first.
//!
//! Prices are compared with the `>=` and `<=` of their own type, whatever
//! that type is, so the statements below speak of the outcome of those
//! comparisons.

use vstd::prelude::*;

verus! {

/// `next` is the level right after `level` in a side of `len` levels.
pub open spec fn adjacent(level: int, next: int, len: nat) -> bool {
    0 <= level && next == level + 1 && next < len
}

/// Each bid compares `>=` to the bid after it.
pub open spec fn bids_descend<P: PartialOrd>(bids: Seq<P>) -> bool {
    forall|i: int, j: int|
        adjacent(i, j, bids.len()) ==> call_ensures(
            P::ge,
            (&#[trigger] bids[i], &#[trigger] bids[j]),
            true,
        )
}

/// Some bid fails to compare `>=` to the bid after it.
pub open spec fn bids_break<P: PartialOrd>(bids: Seq<P>) -> bool {
    exists|i: int, j: int|
        adjacent(i, j, bids.len()) && call_ensures(
            P::ge,
            (&#[trigger] bids[i], &#[trigger] bids[j]),
            false,
        )
}

/// Each ask compares `<=` to the ask after it.
pub open spec fn asks_ascend<P: PartialOrd>(asks: Seq<P>) -> bool {
    forall|i: int, j: int|
        adjacent(i, j, asks.len()) ==> call_ensures(
            P::le,
            (&#[trigger] asks[i], &#[trigger] asks[j]),
            true,
        )
}

/// Some ask fails to compare `<=` to the ask after it.
pub open spec fn asks_break<P: PartialOrd>(asks: Seq<P>) -> bool {
    exists|i: int, j: int|
        adjacent(i, j, asks.len()) && call_ensures(
            P::le,
            (&#[trigger] asks[i], &#[trigger] asks[j]),
            false,
        )
}

/// Whether both sides of a book are in order, best level first: every bid
/// at least the next one, every ask at most the next one.
pub fn levels_sorted<P: PartialOrd>(bids: &[P], asks: &[P]) -> (sorted: bool)
    ensures
        sorted ==> bids_descend(bids@) && asks_ascend(asks@),
        !sorted ==> bids_break(bids@) || asks_break(asks@),
{
    let mut i: usize = 1;
    while i < bids.len()
        invariant
            1 <= i,
            forall|a: int, b: int|
                adjacent(a, b, bids@.len()) && b < i ==> call_ensures(
                    P::ge,
                    (&#[trigger] bids@[a], &#[trigger] bids@[b]),
                    true,
                ),
        decreases bids.len() - i,
    {
        if !(bids[i - 1] >= bids[i]) {
            assert(adjacent(i - 1, i as int, bids@.len()));
            return false;
        }
        i = i + 1;
    }
    let mut k: usize = 1;
    while k < asks.len()
        invariant
            1 <= k,
            bids_descend(bids@),
            forall|a: int, b: int|
                adjacent(a, b, asks@.len()) && b < k ==> call_ensures(
                    P::le,
                    (&#[trigger] asks@[a], &#[trigger] asks@[b]),
                    true,
                ),
        decreases asks.len() - k,
    {
        if !(asks[k - 1] <= asks[k]) {
            assert(adjacent(k - 1, k as int, asks@.len()));
            return false;
        }
        k = k + 1;
    }
    true
}

/// For prices that are whole numbers the comparisons are the usual ones: a
/// book that `levels_sorted` accepts has no bid below the next bid and no
/// ask above the next ask, and a book it refuses has such a level.
pub proof fn lemma_sorted_whole_prices(bids: Seq<u64>, asks: Seq<u64>)
    ensures
        bids_descend(bids) && asks_ascend(asks) ==> forall|i: int, j: int|
            #![trigger bids[i], bids[j]]
            #![trigger asks[i], asks[j]]
            (adjacent(i, j, bids.len()) ==> bids[i] >= bids[j]) && (adjacent(i, j, asks.len())
                ==> asks[i] <= asks[j]),
        bids_break(bids) || asks_break(asks) ==> exists|i: int, j: int|
            #![trigger bids[i], bids[j]]
            #![trigger asks[i], asks[j]]
            (adjacent(i, j, bids.len()) && bids[i] < bids[j]) || (adjacent(i, j, asks.len())
                && asks[i] > asks[j]),
{
}

} // verus!
