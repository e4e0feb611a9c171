//! The message buffer of the buffered modes: a priority queue by score with
//! age-based eviction.
//!
//! Messages are kept in a vector sorted by score (lowest first), so the best
//! message is always the last one.  Time is a monotonic clock in nanoseconds
//! chosen by the caller; durations are configured in milliseconds.
use vstd::prelude::*;
use vstd::multiset::Multiset;
use crate::ieee::{F64Bits, order_key_of};

verus! {

broadcast use {vstd::seq_lib::group_to_multiset_ensures, vstd::multiset::group_multiset_axioms};

/// A message held in the buffer: its score, its arrival time (ns), and the
/// payload and headers that are passed through untouched.
pub struct BufferedMessage<P, H> {
    pub score: F64Bits,
    pub arrived: u64,
    pub payload: P,
    pub headers: H,
}

/// The buffer orders messages by this key: the IEEE total order of the score.
pub open spec fn key_of<P, H>(m: BufferedMessage<P, H>) -> u64 {
    order_key_of(m.score.bits)
}

/// The messages of `r` come best first.
pub open spec fn best_first<P, H>(r: Seq<BufferedMessage<P, H>>) -> bool {
    forall|i: int, j: int| 0 <= i <= j < r.len() ==> key_of(#[trigger] r[j]) <= key_of(#[trigger] r[i])
}

/// `r` is a selection of the `n` best messages of `pool`, best first: as many
/// as `n` (or all of them when the pool is smaller), taken from the pool, and
/// every message of the pool left out scores no higher than any selected one.
pub open spec fn is_top_n<P, H>(pool: Multiset<BufferedMessage<P, H>>, r: Seq<BufferedMessage<P, H>>, n: nat) -> bool {
    &&& r.len() == (if n <= pool.len() { n } else { pool.len() })
    &&& r.to_multiset().subset_of(pool)
    &&& best_first(r)
    &&& forall|x: BufferedMessage<P, H>, i: int|
        #![trigger pool.count(x), r[i]]
        pool.count(x) > r.to_multiset().count(x) && 0 <= i < r.len() ==> key_of(x) <= key_of(r[i])
}

/// A message is still fresh at `now` when it arrived no more than
/// `max_duration_ms` before it.
pub open spec fn is_fresh<P, H>(m: BufferedMessage<P, H>, now: u64, max_duration_ms: u64) -> bool {
    now as int <= m.arrived as int + max_duration_ms as int * 1_000_000
}

spec fn sorted_up<P, H>(s: Seq<BufferedMessage<P, H>>) -> bool {
    forall|i: int, j: int| 0 <= i <= j < s.len() ==> key_of(#[trigger] s[i]) <= key_of(#[trigger] s[j])
}

/// Eviction at `now` keeps a message exactly when it has waited no longer
/// than the configured maximum: `now - arrived <= max_duration_ms` (in ms),
/// whatever that maximum is; every copy of such a message stays, and no copy
/// of an older one.
pub proof fn lemma_eviction_keeps_young<P, H>(b: MessageBuffer<P, H>, now: u64, m: BufferedMessage<P, H>)
    ensures
        b.fresh_part(now).count(m) == (if now as int - m.arrived as int <= b.max_duration_ms() as int * 1_000_000 {
            b.contents().count(m)
        } else {
            0
        }),
{
}

/// Evicting is idempotent: once the stale messages of `now` are gone, a
/// second eviction at the same time finds nothing more to remove.
pub proof fn lemma_evict_twice<P, H>(first: MessageBuffer<P, H>, second: MessageBuffer<P, H>, now: u64)
    requires
        second.contents() == first.fresh_part(now),
        second.max_duration_ms() == first.max_duration_ms(),
    ensures
        second.fresh_part(now) == second.contents(),
{
    assert(second.fresh_part(now) =~= second.contents());
}

/// Buffer of messages awaiting emission, best score first out.
pub struct MessageBuffer<P, H> {
    heap: Vec<BufferedMessage<P, H>>,
    max_duration_ms: u64,
}

impl<P, H> MessageBuffer<P, H> {
    /// The internal order is maintained.
    pub closed spec fn wf(&self) -> bool {
        sorted_up(self.heap@)
    }

    /// The messages held.
    pub closed spec fn contents(&self) -> Multiset<BufferedMessage<P, H>> {
        self.heap@.to_multiset()
    }

    /// The configured maximum age in milliseconds.
    pub closed spec fn max_duration_ms(&self) -> u64 {
        self.max_duration_ms
    }

    /// The messages that are still fresh at `now`.
    pub open spec fn fresh_part(&self, now: u64) -> Multiset<BufferedMessage<P, H>> {
        self.contents().filter(|m: BufferedMessage<P, H>| is_fresh(m, now, self.max_duration_ms()))
    }

    pub fn new(max_duration_ms: u64) -> (r: Self)
        ensures
            r.wf(),
            r.contents() =~= Multiset::empty(),
            r.max_duration_ms() == max_duration_ms,
    {
        MessageBuffer { heap: Vec::new(), max_duration_ms }
    }

    pub fn push(&mut self, msg: BufferedMessage<P, H>)
        requires
            old(self).wf(),
        ensures
            final(self).wf(),
            final(self).contents() =~= old(self).contents().insert(msg),
            final(self).max_duration_ms() == old(self).max_duration_ms(),
    {
        let k = msg.score.order_key();
        let mut i = self.heap.len();
        while i > 0 && self.heap[i - 1].score.order_key() > k
            invariant
                i <= self.heap.len(),
                self.heap@ == old(self).heap@,
                self.max_duration_ms == old(self).max_duration_ms,
                sorted_up(self.heap@),
                k == order_key_of(msg.score.bits),
                forall|j: int| i <= j < self.heap@.len() ==> key_of(#[trigger] self.heap@[j]) > k,
            decreases i,
        {
            i = i - 1;
        }
        let ghost before = self.heap@;
        self.heap.insert(i, msg);
        proof {
            let after = self.heap@;
            before.insert_ensures(i as int, msg);
            assert(i > 0 ==> key_of(before[i - 1]) <= k);
            assert forall|a: int, b: int| 0 <= a <= b < after.len() implies key_of(#[trigger] after[a]) <= key_of(
                #[trigger] after[b],
            ) by {
                if a < i && b < i {
                    assert(after[a] == before[a] && after[b] == before[b]);
                } else if a < i && b == i {
                    assert(after[a] == before[a]);
                    assert(key_of(before[a]) <= key_of(before[i - 1]));
                } else if a < i {
                    assert(after[a] == before[a] && after[b] == before[b - 1]);
                } else if a == i && b == i {
                } else if a == i {
                    assert(after[b] == before[b - 1]);
                } else {
                    assert(after[a] == before[a - 1] && after[b] == before[b - 1]);
                }
            }
        }
    }

    pub fn len(&self) -> (r: usize)
        ensures
            r == self.contents().len(),
    {
        self.heap.len()
    }

    pub fn set_max_duration(&mut self, ms: u64)
        requires
            old(self).wf(),
        ensures
            final(self).wf(),
            final(self).contents() == old(self).contents(),
            final(self).max_duration_ms() == ms,
    {
        self.max_duration_ms = ms;
    }

    /// The score of the best message, without removing it.
    pub fn best_score(&self) -> (r: Option<F64Bits>)
        requires
            self.wf(),
        ensures
            r is None <==> self.contents().len() == 0,
            r matches Some(s) ==> exists|m: BufferedMessage<P, H>|
                #[trigger] is_top_n(self.contents(), seq![m], 1) && m.score == s,
    {
        let n = self.heap.len();
        if n == 0 {
            return None;
        }
        proof {
            let m = self.heap@[n - 1];
            let before = self.heap@;
            let rest = before.drop_last();
            assert(before =~= rest.push(m));
            assert(seq![m] =~= Seq::<BufferedMessage<P, H>>::empty().push(m));
            assert(Seq::<BufferedMessage<P, H>>::empty().to_multiset() =~= Multiset::empty());
            assert forall|x: BufferedMessage<P, H>, i: int|
                #![trigger before.to_multiset().count(x), seq![m][i]]
                before.to_multiset().count(x) > seq![m].to_multiset().count(x) && 0 <= i < 1
                implies key_of(x) <= key_of(seq![m][i]) by {
                assert(before.contains(x));
                let a = choose|a: int| 0 <= a < before.len() && before[a] == x;
                assert(key_of(before[a]) <= key_of(before[before.len() - 1]));
            }
            assert(is_top_n(self.contents(), seq![m], 1));
        }
        Some(self.heap[n - 1].score)
    }

    /// Pop the single highest-scoring message. Returns None if buffer is empty.
    pub fn drain_one(&mut self) -> (r: Option<BufferedMessage<P, H>>)
        requires
            old(self).wf(),
        ensures
            final(self).wf(),
            final(self).max_duration_ms() == old(self).max_duration_ms(),
            match r {
                None => old(self).contents().len() == 0 && final(self).contents() == old(self).contents(),
                Some(m) => {
                    &&& is_top_n(old(self).contents(), seq![m], 1)
                    &&& final(self).contents() =~= old(self).contents().remove(m)
                },
            },
    {
        let ghost before = self.heap@;
        let r = self.heap.pop();
        proof {
            if before.len() > 0 {
                let m = before.last();
                let rest = self.heap@;
                assert(before =~= rest.push(m));
                assert(seq![m] =~= Seq::<BufferedMessage<P, H>>::empty().push(m));
                assert(Seq::<BufferedMessage<P, H>>::empty().to_multiset() =~= Multiset::empty());
                assert forall|x: BufferedMessage<P, H>, i: int|
                    #![trigger before.to_multiset().count(x), seq![m][i]]
                    before.to_multiset().count(x) > seq![m].to_multiset().count(x) && 0 <= i < 1
                    implies key_of(x) <= key_of(seq![m][i]) by {
                    assert(before.contains(x));
                    let a = choose|a: int| 0 <= a < before.len() && before[a] == x;
                    assert(key_of(before[a]) <= key_of(before[before.len() - 1]));
                }
            }
        }
        r
    }

    /// Pop the top N highest-scoring messages.
    pub fn drain_top_n(&mut self, n: usize) -> (r: Vec<BufferedMessage<P, H>>)
        requires
            old(self).wf(),
        ensures
            final(self).wf(),
            final(self).max_duration_ms() == old(self).max_duration_ms(),
            is_top_n(old(self).contents(), r@, n as nat),
            final(self).contents() =~= old(self).contents().sub(r@.to_multiset()),
    {
        let ghost before = self.heap@;
        let mut result: Vec<BufferedMessage<P, H>> = Vec::new();
        let mut taken: usize = 0;
        while taken < n
            invariant
                taken <= n,
                taken == result@.len(),
                sorted_up(self.heap@),
                best_first(result@),
                self.max_duration_ms == old(self).max_duration_ms,
                before == old(self).heap@,
                before.to_multiset() =~= self.heap@.to_multiset().add(result@.to_multiset()),
                before.len() == self.heap@.len() + result@.len(),
                forall|a: int, i: int|
                    0 <= a < self.heap@.len() && 0 <= i < result@.len() ==> key_of(#[trigger] self.heap@[a])
                        <= key_of(#[trigger] result@[i]),
            ensures
                taken <= n,
                taken == result@.len(),
                sorted_up(self.heap@),
                best_first(result@),
                self.max_duration_ms == old(self).max_duration_ms,
                before.to_multiset() =~= self.heap@.to_multiset().add(result@.to_multiset()),
                before.len() == self.heap@.len() + result@.len(),
                forall|a: int, i: int|
                    0 <= a < self.heap@.len() && 0 <= i < result@.len() ==> key_of(#[trigger] self.heap@[a])
                        <= key_of(#[trigger] result@[i]),
                taken == n || self.heap@.len() == 0,
            decreases n - taken,
        {
            let ghost h = self.heap@;
            let ghost res = result@;
            match self.heap.pop() {
                Some(msg) => {
                    proof {
                        assert(h =~= self.heap@.push(msg));
                        assert forall|a: int| 0 <= a < self.heap@.len() implies key_of(#[trigger] self.heap@[a])
                            <= key_of(msg) by {
                            assert(self.heap@[a] == h[a]);
                        }
                    }
                    result.push(msg);
                    taken = taken + 1;
                    proof {
                        assert(result@ =~= res.push(msg));
                        assert forall|a: int, i: int|
                            0 <= a < self.heap@.len() && 0 <= i < result@.len() implies key_of(
                                #[trigger] self.heap@[a],
                            ) <= key_of(#[trigger] result@[i]) by {
                            assert(self.heap@[a] == h[a]);
                            if i < res.len() {
                                assert(result@[i] == res[i]);
                            }
                        }
                        assert forall|i: int, j: int| 0 <= i <= j < result@.len() implies key_of(
                            #[trigger] result@[j],
                        ) <= key_of(#[trigger] result@[i]) by {
                            if j < res.len() {
                                assert(result@[i] == res[i] && result@[j] == res[j]);
                            } else if i < res.len() {
                                assert(result@[i] == res[i]);
                                assert(h[h.len() - 1] == msg);
                                assert(key_of(h[h.len() - 1]) <= key_of(res[i]));
                            }
                        }
                    }
                },
                None => {
                    break;
                },
            }
        }
        proof {
            let pool = before.to_multiset();
            let rm = result@.to_multiset();
            let hm = self.heap@.to_multiset();
            assert(hm =~= pool.sub(rm));
            assert forall|x: BufferedMessage<P, H>, i: int|
                #![trigger pool.count(x), result@[i]]
                pool.count(x) > rm.count(x) && 0 <= i < result@.len() implies key_of(x) <= key_of(result@[i]) by {
                assert(hm.count(x) > 0);
                assert(self.heap@.contains(x));
                let a = choose|a: int| 0 <= a < self.heap@.len() && self.heap@[a] == x;
                assert(key_of(self.heap@[a]) <= key_of(result@[i]));
            }
        }
        result
    }

    /// Remove messages that have been in the buffer longer than max_duration.
    /// Returns the number of evicted messages.
    pub fn evict_expired(&mut self, now: u64) -> (evicted: usize)
        requires
            old(self).wf(),
        ensures
            final(self).wf(),
            final(self).max_duration_ms() == old(self).max_duration_ms(),
            final(self).contents() =~= old(self).fresh_part(now),
            evicted == old(self).contents().len() - final(self).contents().len(),
    {
        let ghost before = self.heap@;
        let ghost pred = |m: BufferedMessage<P, H>| is_fresh(m, now, self.max_duration_ms);
        let count_before = self.heap.len();
        let mut i: usize = 0;
        let ghost mut k: int = 0;
        let ghost mut kept: Seq<BufferedMessage<P, H>> = Seq::empty();
        while i < self.heap.len()
            invariant
                0 <= k <= before.len(),
                i == kept.len(),
                i <= k,
                self.heap@ =~= kept + before.skip(k),
                kept.to_multiset() =~= before.take(k).to_multiset().filter(pred),
                sorted_up(self.heap@),
                self.max_duration_ms == old(self).max_duration_ms,
                pred == (|m: BufferedMessage<P, H>| is_fresh(m, now, self.max_duration_ms)),
                before == old(self).heap@,
                count_before == before.len(),
            decreases self.heap.len() - i,
        {
            let ghost h = self.heap@;
            let ghost m = before[k];
            assert(h[i as int] == m);
            assert(before.take(k + 1) =~= before.take(k).push(m));
            let fresh = (now as u128) <= (self.heap[i].arrived as u128) + (self.max_duration_ms as u128)
                * 1_000_000u128;
            if fresh {
                i = i + 1;
                proof {
                    kept = kept.push(m);
                    assert(pred(m));
                }
            } else {
                self.heap.remove(i);
                proof {
                    assert(!pred(m));
                    assert forall|a: int, b: int| 0 <= a <= b < self.heap@.len() implies key_of(
                        #[trigger] self.heap@[a],
                    ) <= key_of(#[trigger] self.heap@[b]) by {
                        let a0 = if a < i { a } else { a + 1 };
                        let b0 = if b < i { b } else { b + 1 };
                        assert(self.heap@[a] == h[a0] && self.heap@[b] == h[b0]);
                    }
                }
            }
            proof {
                k = k + 1;
                assert(self.heap@ =~= kept + before.skip(k));
            }
        }
        proof {
            assert(before.take(k) =~= before);
            assert(self.heap@ =~= kept);
        }
        count_before - self.heap.len()
    }

    /// Drain for batch mode: evict expired, then return top N from what remains,
    /// dropping the rest.
    pub fn drain_batch(&mut self, n: usize, now: u64) -> (r: Vec<BufferedMessage<P, H>>)
        requires
            old(self).wf(),
        ensures
            final(self).wf(),
            final(self).max_duration_ms() == old(self).max_duration_ms(),
            is_top_n(old(self).fresh_part(now), r@, n as nat),
            final(self).contents() =~= Multiset::empty(),
    {
        self.evict_expired(now);
        let result = self.drain_top_n(n);
        self.heap.clear();
        result
    }
}

} // verus!
