//! Order statistics of warmup scores: the percentile-based initial threshold
//! is the score found at a given position once the samples are sorted.
use vstd::prelude::*;
use vstd::relations::{sorted_by, total_ordering};
use crate::ieee::{F64Bits, order_key_of, lemma_order_key_injective};

verus! {

broadcast use {vstd::seq_lib::group_to_multiset_ensures, vstd::multiset::group_multiset_axioms};

/// Scores are sorted by the IEEE total order of their bit patterns.
pub open spec fn score_leq() -> spec_fn(F64Bits, F64Bits) -> bool {
    |a: F64Bits, b: F64Bits| order_key_of(a.bits) <= order_key_of(b.bits)
}

/// The scores of `s` in ascending order.
pub open spec fn ascending(s: Seq<F64Bits>) -> Seq<F64Bits> {
    s.sort_by(score_leq())
}

/// The score at position `index` of the ascending order, or the last one when
/// `index` lies past the end.
pub open spec fn percentile_pick(s: Seq<F64Bits>, index: int) -> F64Bits {
    ascending(s)[if index < s.len() { index } else { s.len() - 1 }]
}

spec fn keys_ascending(s: Seq<F64Bits>) -> bool {
    forall|i: int, j: int| 0 <= i <= j < s.len() ==> order_key_of((#[trigger] s[i]).bits) <= order_key_of(
        (#[trigger] s[j]).bits,
    )
}

/// The order by key is a total order on scores.
pub proof fn lemma_score_leq_total()
    ensures
        total_ordering(score_leq()),
{
    assert forall|a: F64Bits, b: F64Bits| #[trigger] score_leq()(a, b) && #[trigger] score_leq()(b, a) implies a == b by {
        lemma_order_key_injective(a.bits, b.bits);
    }
}

proof fn lemma_keys_ascending_sorted(s: Seq<F64Bits>)
    ensures
        keys_ascending(s) <==> sorted_by(s, score_leq()),
{
    if sorted_by(s, score_leq()) {
        assert forall|i: int, j: int| 0 <= i <= j < s.len() implies order_key_of((#[trigger] s[i]).bits)
            <= order_key_of((#[trigger] s[j]).bits) by {
            if i < j {
                assert(score_leq()(s[i], s[j]));
            }
        }
    }
}

/// Two ascending arrangements of the same scores are the same sequence.
pub proof fn lemma_sorted_unique(a: Seq<F64Bits>, b: Seq<F64Bits>)
    requires
        sorted_by(a, score_leq()),
        sorted_by(b, score_leq()),
        a.to_multiset() == b.to_multiset(),
    ensures
        a == b,
    decreases a.len(),
{
    lemma_score_leq_total();
    vstd::seq_lib::to_multiset_len(a);
    vstd::seq_lib::to_multiset_len(b);
    assert(a.len() == b.len());
    if a.len() == 0 {
        assert(a =~= b);
    } else {
        assert(b.to_multiset().count(a[0]) > 0);
        assert(b.contains(a[0]));
        let j = choose|j: int| 0 <= j < b.len() && b[j] == a[0];
        if j > 0 {
            assert(score_leq()(b[0], b[j]));
        }
        assert(order_key_of(b[0].bits) <= order_key_of(a[0].bits));
        assert(a.to_multiset().count(b[0]) > 0);
        assert(a.contains(b[0]));
        let i = choose|i: int| 0 <= i < a.len() && a[i] == b[0];
        if i > 0 {
            assert(score_leq()(a[0], a[i]));
        }
        lemma_order_key_injective(a[0].bits, b[0].bits);
        assert(a[0] == b[0]);
        let ra = a.drop_first();
        let rb = b.drop_first();
        assert(a.remove(0) =~= ra);
        assert(b.remove(0) =~= rb);
        assert(ra.to_multiset() =~= rb.to_multiset());
        assert(sorted_by(ra, score_leq())) by {
            assert forall|x: int, y: int| 0 <= x < y < ra.len() implies #[trigger] score_leq()(ra[x], ra[y]) by {
                assert(score_leq()(a[x + 1], a[y + 1]));
            }
        }
        assert(sorted_by(rb, score_leq())) by {
            assert forall|x: int, y: int| 0 <= x < y < rb.len() implies #[trigger] score_leq()(rb[x], rb[y]) by {
                assert(score_leq()(b[x + 1], b[y + 1]));
            }
        }
        lemma_sorted_unique(ra, rb);
        assert(a =~= b) by {
            assert forall|k: int| 0 <= k < a.len() implies a[k] == b[k] by {
                if k > 0 {
                    assert(a[k] == ra[k - 1] && b[k] == rb[k - 1]);
                }
            }
        }
    }
}

/// `t` is the ascending arrangement of `s` as soon as it is sorted and holds
/// the same scores.
pub proof fn lemma_is_ascending(s: Seq<F64Bits>, t: Seq<F64Bits>)
    requires
        sorted_by(t, score_leq()),
        t.to_multiset() == s.to_multiset(),
    ensures
        t == ascending(s),
{
    lemma_score_leq_total();
    s.lemma_sort_by_ensures(score_leq());
    lemma_sorted_unique(t, ascending(s));
}

/// The pick at a position is the score found there in any ascending
/// arrangement of the scores (the last one for a position past the end),
/// however many scores there are.
pub proof fn lemma_pick_is_position(s: Seq<F64Bits>, a: Seq<F64Bits>, i: int)
    requires
        sorted_by(a, score_leq()),
        a.to_multiset() == s.to_multiset(),
        s.len() > 0,
        0 <= i,
    ensures
        a.len() == s.len(),
        i < s.len() ==> percentile_pick(s, i) == a[i],
        i >= s.len() ==> percentile_pick(s, i) == a[s.len() - 1],
{
    lemma_is_ascending(s, a);
    vstd::seq_lib::to_multiset_len(a);
    vstd::seq_lib::to_multiset_len(s);
}

/// At a position inside the scores, the pick has at most `i` scores of an
/// ascending arrangement strictly below it and at least `i + 1` at or below
/// it: it is the score of rank `i`.
pub proof fn lemma_pick_rank(s: Seq<F64Bits>, a: Seq<F64Bits>, i: int)
    requires
        sorted_by(a, score_leq()),
        a.to_multiset() == s.to_multiset(),
        0 <= i < s.len(),
    ensures
        forall|j: int|
            0 <= j < a.len() && order_key_of((#[trigger] a[j]).bits) < order_key_of(percentile_pick(s, i).bits)
                ==> j < i,
        forall|j: int| 0 <= j <= i ==> order_key_of((#[trigger] a[j]).bits) <= order_key_of(percentile_pick(s, i).bits),
{
    lemma_pick_is_position(s, a, i);
    assert forall|j: int|
        0 <= j < a.len() && order_key_of((#[trigger] a[j]).bits) < order_key_of(percentile_pick(s, i).bits) implies j < i by {
        if j > i {
            assert(score_leq()(a[i], a[j]));
        }
    }
    assert forall|j: int| 0 <= j <= i implies order_key_of((#[trigger] a[j]).bits) <= order_key_of(
        percentile_pick(s, i).bits,
    ) by {
        if j < i {
            assert(score_leq()(a[j], a[i]));
        }
    }
}

/// The pick is monotone in the position: a later position (a smaller
/// fraction of scores to pass) never picks a lower score.
pub proof fn lemma_pick_monotone(s: Seq<F64Bits>, i: int, j: int)
    requires
        s.len() > 0,
        0 <= i <= j,
    ensures
        order_key_of(percentile_pick(s, i).bits) <= order_key_of(percentile_pick(s, j).bits),
{
    lemma_score_leq_total();
    s.lemma_sort_by_ensures(score_leq());
    let a = ascending(s);
    vstd::seq_lib::to_multiset_len(a);
    vstd::seq_lib::to_multiset_len(s);
    assert(a.len() == s.len());
    let x = if i < s.len() { i } else { s.len() - 1 };
    let y = if j < s.len() { j } else { s.len() - 1 };
    if x < y {
        assert(score_leq()(a[x], a[y]));
    }
}

/// Insert `x` into the ascending vector `v`.
fn insert_ascending(v: &mut Vec<F64Bits>, x: F64Bits)
    requires
        keys_ascending(old(v)@),
    ensures
        keys_ascending(final(v)@),
        final(v)@.to_multiset() =~= old(v)@.to_multiset().insert(x),
{
    let k = x.order_key();
    let mut i = v.len();
    while i > 0 && v[i - 1].order_key() > k
        invariant
            i <= v.len(),
            v@ == old(v)@,
            keys_ascending(v@),
            k == order_key_of(x.bits),
            forall|j: int| i <= j < v@.len() ==> order_key_of((#[trigger] v@[j]).bits) > k,
        decreases i,
    {
        i = i - 1;
    }
    let ghost before = v@;
    v.insert(i, x);
    proof {
        let after = v@;
        before.insert_ensures(i as int, x);
        assert(i > 0 ==> order_key_of(before[i - 1].bits) <= k);
        assert forall|a: int, b: int| 0 <= a <= b < after.len() implies order_key_of((#[trigger] after[a]).bits)
            <= order_key_of((#[trigger] after[b]).bits) by {
            if a < i && b < i {
                assert(after[a] == before[a] && after[b] == before[b]);
            } else if a < i && b == i {
                assert(after[a] == before[a]);
                assert(order_key_of(before[a].bits) <= order_key_of(before[i - 1].bits));
            } else if a < i {
                assert(after[a] == before[a] && after[b] == before[b - 1]);
            } else if a == i && b == i {
            } else if a == i {
                assert(after[b] == before[b - 1]);
            } else {
                assert(after[a] == before[a - 1] && after[b] == before[b - 1]);
            }
        }
    }
}

/// Sort the scores in place, ascending.
pub fn sort_scores(scores: &mut Vec<F64Bits>)
    ensures
        final(scores)@ == ascending(old(scores)@),
{
    let ghost unsorted = scores@;
    let mut sorted: Vec<F64Bits> = Vec::new();
    while scores.len() > 0
        invariant
            keys_ascending(sorted@),
            unsorted.to_multiset() =~= scores@.to_multiset().add(sorted@.to_multiset()),
            unsorted == old(scores)@,
        decreases scores.len(),
    {
        let ghost rest = scores@;
        match scores.pop() {
            Some(x) => {
                proof {
                    assert(rest =~= scores@.push(x));
                }
                insert_ascending(&mut sorted, x);
            },
            None => {},
        }
    }
    proof {
        assert(scores@.to_multiset().len() == 0);
        vstd::multiset::lemma_multiset_empty_len(scores@.to_multiset());
        assert(unsorted.to_multiset() =~= sorted@.to_multiset());
        lemma_keys_ascending_sorted(sorted@);
        lemma_is_ascending(unsorted, sorted@);
    }
    *scores = sorted;
}

/// Sort the scores and return the one at position `index` (the last one when
/// `index` lies past the end); `None` when there are no scores.
pub fn select_percentile(scores: &mut Vec<F64Bits>, index: usize) -> (r: Option<F64Bits>)
    ensures
        final(scores)@ == ascending(old(scores)@),
        old(scores)@.len() == 0 ==> r is None,
        old(scores)@.len() > 0 ==> r == Some(percentile_pick(old(scores)@, index as int)),
{
    proof {
        lemma_score_leq_total();
        old(scores)@.lemma_sort_by_ensures(score_leq());
        assert(ascending(old(scores)@).to_multiset().len() == old(scores)@.to_multiset().len());
    }
    sort_scores(scores);
    let n = scores.len();
    if n == 0 {
        return None;
    }
    let at = if index < n { index } else { n - 1 };
    Some(scores[at])
}

} // verus!
