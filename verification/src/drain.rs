//! One cycle of the streaming drainer: evict what is too old, then emit the
//! best buffered message unless downstream is under pressure or the best
//! score is below the quality floor.
use vstd::prelude::*;
use crate::buffer::{BufferedMessage, MessageBuffer, is_top_n, key_of, lemma_evict_twice};
use crate::ieee::{F64Bits, lt_bits, lemma_order_key_injective};

verus! {

broadcast use {vstd::seq_lib::group_to_multiset_ensures, vstd::multiset::group_multiset_axioms};

/// What a drain cycle did.
pub enum DrainOutcome<P, H> {
    /// The best message, to be published.
    Emitted(BufferedMessage<P, H>),
    /// Nothing was buffered.
    Empty,
    /// The last publish took longer than the backpressure threshold.
    SkippedBackpressure,
    /// The best buffered score is below `min_quality_score`.
    SkippedQuality,
}

pub struct StreamingDrain<P, H> {
    /// How many messages were evicted for age.
    pub evicted: usize,
    pub outcome: DrainOutcome<P, H>,
}

/// What a batch window did.
pub struct BatchDrain<P, H> {
    /// The best messages of the window, best first, to be published.
    pub batch: Vec<BufferedMessage<P, H>>,
    /// How many buffered messages were dropped: evicted for age or left
    /// over at the end of the window.
    pub dropped: usize,
}

/// All the best messages of a pool have the same score.
pub proof fn lemma_best_score_unique<P, H>(
    pool: vstd::multiset::Multiset<BufferedMessage<P, H>>,
    a: BufferedMessage<P, H>,
    b: BufferedMessage<P, H>,
)
    requires
        is_top_n(pool, seq![a], 1),
        is_top_n(pool, seq![b], 1),
    ensures
        a.score == b.score,
{
    assert(seq![a] =~= Seq::<BufferedMessage<P, H>>::empty().push(a));
    assert(seq![b] =~= Seq::<BufferedMessage<P, H>>::empty().push(b));
    assert(Seq::<BufferedMessage<P, H>>::empty().to_multiset() =~= vstd::multiset::Multiset::empty());
    if a != b {
        assert(pool.count(b) >= 1);
        assert(pool.count(b) > seq![a].to_multiset().count(b));
        assert(seq![a][0] == a);
        assert(key_of(b) <= key_of(a));
        assert(pool.count(a) > seq![b].to_multiset().count(a));
        assert(seq![b][0] == b);
        assert(key_of(a) <= key_of(b));
        lemma_order_key_injective(a.score.bits, b.score.bits);
    }
}

/// One batch window ending at `now`: the `n` best fresh messages are
/// emitted and everything else the buffer held is dropped.
pub fn drain_batch_cycle<P, H>(buffer: &mut MessageBuffer<P, H>, n: usize, now: u64) -> (r: BatchDrain<P, H>)
    requires
        old(buffer).wf(),
    ensures
        final(buffer).wf(),
        final(buffer).max_duration_ms() == old(buffer).max_duration_ms(),
        is_top_n(old(buffer).fresh_part(now), r.batch@, n as nat),
        final(buffer).contents().len() == 0,
        r.dropped == old(buffer).contents().len() - r.batch@.len(),
{
    let held = buffer.len();
    buffer.evict_expired(now);
    let ghost evicted_buffer = *buffer;
    proof {
        lemma_evict_twice(*old(buffer), evicted_buffer, now);
    }
    let kept = buffer.len();
    let batch = buffer.drain_batch(n, now);
    assert(batch@.len() <= kept);
    let dropped = held - batch.len();
    BatchDrain { batch, dropped }
}

/// One streaming drain cycle at `now`.
pub fn drain_streaming<P, H>(
    buffer: &mut MessageBuffer<P, H>,
    now: u64,
    min_quality: F64Bits,
    last_publish_latency_ms: u64,
    backpressure_threshold_ms: u64,
) -> (r: StreamingDrain<P, H>)
    requires
        old(buffer).wf(),
    ensures
        final(buffer).wf(),
        final(buffer).max_duration_ms() == old(buffer).max_duration_ms(),
        r.evicted == old(buffer).contents().len() - old(buffer).fresh_part(now).len(),
        ({
            let fresh = old(buffer).fresh_part(now);
            match r.outcome {
                DrainOutcome::SkippedBackpressure => {
                    &&& last_publish_latency_ms > backpressure_threshold_ms
                    &&& final(buffer).contents() == fresh
                },
                DrainOutcome::Empty => {
                    &&& last_publish_latency_ms <= backpressure_threshold_ms
                    &&& fresh.len() == 0
                    &&& final(buffer).contents() == fresh
                },
                DrainOutcome::SkippedQuality => {
                    &&& last_publish_latency_ms <= backpressure_threshold_ms
                    &&& fresh.len() > 0
                    &&& forall|m: BufferedMessage<P, H>| #[trigger]
                        is_top_n(fresh, seq![m], 1) ==> lt_bits(m.score.bits, min_quality.bits)
                    &&& final(buffer).contents() == fresh
                },
                DrainOutcome::Emitted(m) => {
                    &&& last_publish_latency_ms <= backpressure_threshold_ms
                    &&& is_top_n(fresh, seq![m], 1)
                    &&& !lt_bits(m.score.bits, min_quality.bits)
                    &&& final(buffer).contents() == fresh.remove(m)
                },
            }
        }),
{
    let evicted = buffer.evict_expired(now);
    if last_publish_latency_ms > backpressure_threshold_ms {
        return StreamingDrain { evicted, outcome: DrainOutcome::SkippedBackpressure };
    }
    match buffer.best_score() {
        None => StreamingDrain { evicted, outcome: DrainOutcome::Empty },
        Some(best) => {
            if best.lt(&min_quality) {
                proof {
                    let pool = buffer.contents();
                    assert forall|m: BufferedMessage<P, H>| #[trigger]
                        is_top_n(pool, seq![m], 1) implies lt_bits(m.score.bits, min_quality.bits) by {
                        let w = choose|w: BufferedMessage<P, H>| #[trigger]
                            is_top_n(pool, seq![w], 1) && w.score == best;
                        lemma_best_score_unique(pool, m, w);
                    }
                }
                StreamingDrain { evicted, outcome: DrainOutcome::SkippedQuality }
            } else {
                let ghost pool = buffer.contents();
                match buffer.drain_one() {
                    Some(m) => {
                        proof {
                            let w = choose|w: BufferedMessage<P, H>| #[trigger]
                                is_top_n(pool, seq![w], 1) && w.score == best;
                            lemma_best_score_unique(pool, m, w);
                        }
                        StreamingDrain { evicted, outcome: DrainOutcome::Emitted(m) }
                    },
                    None => StreamingDrain { evicted, outcome: DrainOutcome::Empty },
                }
            }
        },
    }
}

} // verus!
