//! Ranking of positions by usage, highest first, cut off at a limit.
//!
//! Positions are ordered by the rank of their usage, and among equal ranks by
//! position. That order is strict and total, so the ranking of a sequence is
//! unique. A usage that is not a number has the lowest rank: it never stands
//! ahead of a number, and ordering two such values never fails.

use crate::float_bits::F32Bits;
use vstd::prelude::*;

verus! {

/// Whether position `p` stands before position `q` in the ranking of
/// `usages`: the higher rank first, the earlier position first among equals.
pub open spec fn precedes(usages: Seq<F32Bits>, p: int, q: int) -> bool {
    let a = usages[p].rank();
    let b = usages[q].rank();
    a > b || (a == b && p < q)
}

/// Whether position `q` is one of `picks`.
pub open spec fn selected(picks: Seq<usize>, q: int) -> bool {
    exists|i: int| 0 <= i < picks.len() && #[trigger] picks[i] == q
}

/// `picks` holds positions below `count`, each before the next, and every
/// position below `count` that is left out stands after all of them.
pub open spec fn leads(usages: Seq<F32Bits>, count: int, picks: Seq<usize>) -> bool {
    &&& forall|i: int| 0 <= i < picks.len() ==> (#[trigger] picks[i]) < count
    &&& forall|i: int, j: int|
        0 <= i < j < picks.len() ==> #[trigger] precedes(usages, picks[i] as int, picks[j] as int)
    &&& forall|i: int, q: int|
        0 <= i < picks.len() && 0 <= q < count && !selected(picks, q) ==> #[trigger] precedes(
            usages,
            picks[i] as int,
            q,
        )
}

/// Whether every position below `count` is one of `picks`.
pub open spec fn covers(count: int, picks: Seq<usize>) -> bool {
    forall|q: int| 0 <= q < count ==> #[trigger] selected(picks, q)
}

/// The number of positions a ranking of `total` usages keeps under `limit`.
pub open spec fn kept(total: nat, limit: nat) -> nat {
    if limit <= total {
        limit
    } else {
        total
    }
}

/// Whether `picks` is the ranking of `usages` cut off at `limit`: the
/// positions of the `limit` highest usages (all of them, if there are fewer),
/// highest first.
pub open spec fn is_ranking(usages: Seq<F32Bits>, picks: Seq<usize>, limit: nat) -> bool {
    &&& picks.len() == kept(usages.len(), limit)
    &&& leads(usages, usages.len() as int, picks)
}

/// Putting the next position into its slot keeps the picks in the lead.
proof fn lemma_place(usages: Seq<F32Bits>, count: int, picks: Seq<usize>, slot: int)
    requires
        0 <= count < usages.len(),
        count <= usize::MAX,
        leads(usages, count, picks),
        0 <= slot <= picks.len(),
        forall|k: int| 0 <= k < slot ==> precedes(usages, #[trigger] picks[k] as int, count),
        forall|k: int| slot <= k < picks.len() ==> precedes(usages, count, #[trigger] picks[k] as int),
        slot == picks.len() ==> covers(count, picks),
    ensures
        leads(usages, count + 1, picks.insert(slot, count as usize)),
        covers(count, picks) ==> covers(count + 1, picks.insert(slot, count as usize)),
{
    let placed = picks.insert(slot, count as usize);
    assert(placed.len() == picks.len() + 1);
    assert(forall|k: int| 0 <= k < slot ==> placed[k] == picks[k]);
    assert(placed[slot] == count);
    assert(forall|k: int| slot < k < placed.len() ==> placed[k] == picks[k - 1]);
    assert forall|q: int| selected(picks, q) implies selected(placed, q) by {
        let k = choose|k: int| 0 <= k < picks.len() && picks[k] == q;
        if k < slot {
            assert(placed[k] == q);
        } else {
            assert(placed[k + 1] == q);
        }
    }
    assert(selected(placed, count));
    assert forall|i: int, j: int| 0 <= i < j < placed.len() implies #[trigger] precedes(
        usages,
        placed[i] as int,
        placed[j] as int,
    ) by {
        if j < slot {
            assert(precedes(usages, picks[i] as int, picks[j] as int));
        } else if j == slot {
            assert(precedes(usages, picks[i] as int, count));
        } else if i < slot {
            assert(precedes(usages, picks[i] as int, picks[j - 1] as int));
        } else if i == slot {
            assert(precedes(usages, count, picks[j - 1] as int));
        } else {
            assert(precedes(usages, picks[i - 1] as int, picks[j - 1] as int));
        }
    }
    assert forall|i: int, q: int|
        0 <= i < placed.len() && 0 <= q < count + 1 && !selected(placed, q) implies #[trigger] precedes(
        usages,
        placed[i] as int,
        q,
    ) by {
        assert(q != count);
        assert(!selected(picks, q));
        assert(slot < picks.len());
        assert(precedes(usages, picks[slot] as int, q));
        assert(precedes(usages, count, picks[slot] as int));
        if i < slot {
            assert(precedes(usages, picks[i] as int, q));
        } else if i > slot {
            assert(precedes(usages, picks[i - 1] as int, q));
        }
    }
}

/// Dropping the last pick keeps the others in the lead.
proof fn lemma_drop(usages: Seq<F32Bits>, count: int, picks: Seq<usize>)
    requires
        leads(usages, count, picks),
        picks.len() > 0,
    ensures
        leads(usages, count, picks.drop_last()),
{
    let rest = picks.drop_last();
    let last = picks.len() - 1;
    assert forall|i: int, q: int|
        0 <= i < rest.len() && 0 <= q < count && !selected(rest, q) implies #[trigger] precedes(
        usages,
        rest[i] as int,
        q,
    ) by {
        if selected(picks, q) {
            let k = choose|k: int| 0 <= k < picks.len() && picks[k] == q;
            if k < last {
                assert(rest[k] == q);
            }
            assert(precedes(usages, picks[i] as int, picks[last] as int));
        } else {
            assert(precedes(usages, picks[i] as int, q));
        }
    }
    assert forall|i: int, j: int| 0 <= i < j < rest.len() implies #[trigger] precedes(
        usages,
        rest[i] as int,
        rest[j] as int,
    ) by {
        assert(precedes(usages, picks[i] as int, picks[j] as int));
    }
}

/// Picks that all stand before the next position stay in the lead when it
/// is left out.
proof fn lemma_pass(usages: Seq<F32Bits>, count: int, picks: Seq<usize>)
    requires
        0 <= count < usages.len(),
        leads(usages, count, picks),
        forall|k: int| 0 <= k < picks.len() ==> precedes(usages, #[trigger] picks[k] as int, count),
    ensures
        leads(usages, count + 1, picks),
{
    assert forall|i: int, q: int|
        0 <= i < picks.len() && 0 <= q < count + 1 && !selected(picks, q) implies #[trigger] precedes(
        usages,
        picks[i] as int,
        q,
    ) by {
        if q < count {
            assert(precedes(usages, picks[i] as int, q));
        }
    }
}

/// Ranks the positions of `usages`, highest usage first, and keeps the first
/// `limit` of them.
pub fn rank_positions(usages: &Vec<F32Bits>, limit: usize) -> (picks: Vec<usize>)
    ensures
        is_ranking(usages@, picks@, limit as nat),
{
    let mut picks: Vec<usize> = Vec::new();
    let mut p: usize = 0;
    while p < usages.len()
        invariant
            p <= usages.len(),
            picks.len() == kept(p as nat, limit as nat),
            leads(usages@, p as int, picks@),
            picks.len() < limit ==> covers(p as int, picks@),
        decreases usages.len() - p,
    {
        let mut slot: usize = picks.len();
        while slot > 0 && usages[p].outranks(usages[picks[slot - 1]])
            invariant
                p < usages.len(),
                slot <= picks.len(),
                leads(usages@, p as int, picks@),
                forall|k: int|
                    slot <= k < picks.len() ==> precedes(usages@, p as int, #[trigger] picks@[k] as int),
            decreases slot,
        {
            slot -= 1;
        }
        proof {
            assert forall|k: int| 0 <= k < slot implies precedes(
                usages@,
                #[trigger] picks@[k] as int,
                p as int,
            ) by {
                assert(precedes(usages@, picks@[slot - 1] as int, p as int));
                if k < slot - 1 {
                    assert(precedes(usages@, picks@[k] as int, picks@[slot - 1] as int));
                }
            }
        }
        if slot < limit {
            proof {
                lemma_place(usages@, p as int, picks@, slot as int);
            }
            picks.insert(slot, p);
            if picks.len() > limit {
                proof {
                    lemma_drop(usages@, p + 1, picks@);
                }
                picks.pop();
            }
        } else {
            proof {
                lemma_pass(usages@, p as int, picks@);
            }
        }
        p += 1;
    }
    picks
}

/// A sequence of usages has one ranking under a given limit.
pub proof fn lemma_ranking_unique(
    usages: Seq<F32Bits>,
    first: Seq<usize>,
    second: Seq<usize>,
    limit: nat,
)
    requires
        is_ranking(usages, first, limit),
        is_ranking(usages, second, limit),
    ensures
        first == second,
{
    assert forall|i: int| 0 <= i < first.len() implies first[i] == second[i] by {
        lemma_agree_up_to(usages, first, second, i);
    }
    assert(first =~= second);
}

/// Two rankings of the same length hold the same position at `i`.
proof fn lemma_agree_up_to(usages: Seq<F32Bits>, first: Seq<usize>, second: Seq<usize>, i: int)
    requires
        first.len() == second.len(),
        leads(usages, usages.len() as int, first),
        leads(usages, usages.len() as int, second),
        0 <= i < first.len(),
    ensures
        first[i] == second[i],
    decreases i,
{
    assert forall|k: int| 0 <= k < i implies first[k] == second[k] by {
        lemma_agree_up_to(usages, first, second, k);
    }
    let a = first[i] as int;
    let b = second[i] as int;
    if a != b {
        if precedes(usages, a, b) {
            lemma_not_behind(usages, first, second, i);
        } else {
            lemma_not_behind(usages, second, first, i);
        }
    }
}

/// Two rankings agree below `i`; then what the first holds at `i` does not
/// stand before what the second holds there.
proof fn lemma_not_behind(usages: Seq<F32Bits>, first: Seq<usize>, second: Seq<usize>, i: int)
    requires
        first.len() == second.len(),
        leads(usages, usages.len() as int, first),
        leads(usages, usages.len() as int, second),
        0 <= i < first.len(),
        forall|k: int| 0 <= k < i ==> first[k] == second[k],
        first[i] != second[i],
    ensures
        !precedes(usages, first[i] as int, second[i] as int),
{
    let a = first[i] as int;
    let b = second[i] as int;
    if selected(second, a) {
        let k = choose|k: int| 0 <= k < second.len() && second[k] == a;
        if k < i {
            assert(precedes(usages, first[k] as int, first[i] as int));
        } else {
            assert(precedes(usages, second[i] as int, second[k] as int));
        }
    } else {
        assert(precedes(usages, second[i] as int, a));
    }
}

/// A ranking is in descending order: no usage in it is less than one that
/// comes after it.
pub proof fn lemma_ranking_descends(usages: Seq<F32Bits>, picks: Seq<usize>, limit: nat)
    requires
        is_ranking(usages, picks, limit),
    ensures
        forall|i: int, j: int|
            0 <= i < j < picks.len() ==> !(#[trigger] usages[picks[i] as int]).spec_less_than(
                #[trigger] usages[picks[j] as int],
            ),
{
    assert forall|i: int, j: int| 0 <= i < j < picks.len() implies !(#[trigger] usages[picks[i] as int]).spec_less_than(
        #[trigger] usages[picks[j] as int],
    ) by {
        assert(precedes(usages, picks[i] as int, picks[j] as int));
    }
}

/// A ranking that keeps anything starts with a maximum: no usage at all is
/// greater than its first.
pub proof fn lemma_ranking_starts_with_maximum(usages: Seq<F32Bits>, picks: Seq<usize>, limit: nat)
    requires
        is_ranking(usages, picks, limit),
        picks.len() > 0,
    ensures
        forall|q: int|
            0 <= q < usages.len() ==> !usages[picks[0] as int].spec_less_than(#[trigger] usages[q]),
{
    assert forall|q: int| 0 <= q < usages.len() implies !usages[picks[0] as int].spec_less_than(
        #[trigger] usages[q],
    ) by {
        if selected(picks, q) {
            let k = choose|k: int| 0 <= k < picks.len() && picks[k] == q;
            if k > 0 {
                assert(precedes(usages, picks[0] as int, picks[k] as int));
            }
        } else {
            assert(precedes(usages, picks[0] as int, q));
        }
    }
}

/// No usage that a ranking leaves out is greater than one that it keeps.
pub proof fn lemma_ranking_keeps_highest(usages: Seq<F32Bits>, picks: Seq<usize>, limit: nat)
    requires
        is_ranking(usages, picks, limit),
    ensures
        forall|i: int, q: int|
            0 <= i < picks.len() && 0 <= q < usages.len() && !selected(picks, q) ==> !(
            #[trigger] usages[picks[i] as int]).spec_less_than(#[trigger] usages[q]),
{
    assert forall|i: int, q: int|
        0 <= i < picks.len() && 0 <= q < usages.len() && !selected(picks, q) implies !(
    #[trigger] usages[picks[i] as int]).spec_less_than(#[trigger] usages[q]) by {
        assert(precedes(usages, picks[i] as int, q));
    }
}

} // verus!
