use bytes::Bytes;
use flowgate::buffer::{BufferedMessage, MessageBuffer};
use flowgate::drain::{drain_batch_cycle, drain_streaming, DrainOutcome};
use flowgate::ieee::F64Bits;

type Headers = Vec<(String, String)>;

/// The clock reading at which the tests look at the buffer (ns).
const NOW: u64 = 1_000_000_000_000;

fn bits(x: f64) -> F64Bits {
    F64Bits { bits: x.to_bits() }
}

fn score_of(m: &BufferedMessage<Bytes, Headers>) -> f64 {
    f64::from_bits(m.score.bits)
}

fn msg(score: f64, age_ms: u64) -> BufferedMessage<Bytes, Headers> {
    BufferedMessage {
        score: bits(score),
        arrived: NOW - age_ms * 1_000_000,
        payload: Bytes::from_static(b"test"),
        headers: Vec::new(),
    }
}

#[test]
fn drain_one_returns_highest() {
    let mut buf = MessageBuffer::new(5000);
    buf.push(msg(0.3, 0));
    buf.push(msg(0.9, 0));
    buf.push(msg(0.5, 0));

    let best = buf.drain_one().unwrap();
    assert!((score_of(&best) - 0.9).abs() < f64::EPSILON);
    assert_eq!(buf.len(), 2);
}

#[test]
fn drain_top_n() {
    let mut buf = MessageBuffer::new(5000);
    for i in 0..10 {
        buf.push(msg(i as f64 / 10.0, 0));
    }

    let top3 = buf.drain_top_n(3);
    assert_eq!(top3.len(), 3);
    assert!((score_of(&top3[0]) - 0.9).abs() < f64::EPSILON);
    assert!((score_of(&top3[1]) - 0.8).abs() < f64::EPSILON);
    assert!((score_of(&top3[2]) - 0.7).abs() < f64::EPSILON);
    assert_eq!(buf.len(), 7);
}

#[test]
fn drain_top_n_more_than_available() {
    let mut buf = MessageBuffer::new(5000);
    buf.push(msg(0.5, 0));
    buf.push(msg(0.7, 0));

    let result = buf.drain_top_n(10);
    assert_eq!(result.len(), 2);
    assert_eq!(buf.len(), 0);
}

#[test]
fn evict_expired() {
    let mut buf = MessageBuffer::new(100);
    buf.push(msg(0.9, 200)); // 200ms old, should be evicted
    buf.push(msg(0.5, 50)); // 50ms old, should stay
    buf.push(msg(0.3, 150)); // 150ms old, should be evicted

    let evicted = buf.evict_expired(NOW);
    assert_eq!(evicted, 2);
    assert_eq!(buf.len(), 1);
    assert!((score_of(&buf.drain_one().unwrap()) - 0.5).abs() < f64::EPSILON);
}

#[test]
fn drain_batch_evicts_then_returns_top_n() {
    let mut buf = MessageBuffer::new(100);
    buf.push(msg(0.9, 200)); // expired
    buf.push(msg(0.8, 50)); // fresh
    buf.push(msg(0.7, 30)); // fresh
    buf.push(msg(0.6, 20)); // fresh
    buf.push(msg(0.1, 10)); // fresh, low score

    let result = buf.drain_batch(2, NOW);
    assert_eq!(result.len(), 2);
    assert!((score_of(&result[0]) - 0.8).abs() < f64::EPSILON);
    assert!((score_of(&result[1]) - 0.7).abs() < f64::EPSILON);
    assert_eq!(buf.len(), 0); // remaining dropped
}

#[test]
fn empty_buffer() {
    let mut buf: MessageBuffer<Bytes, Headers> = MessageBuffer::new(5000);
    assert!(buf.drain_one().is_none());
    assert_eq!(buf.drain_top_n(5).len(), 0);
    assert_eq!(buf.evict_expired(NOW), 0);
}

#[test]
fn payload_and_headers_pass_through() {
    let mut buf = MessageBuffer::new(5000);
    buf.push(BufferedMessage {
        score: bits(0.4),
        arrived: NOW,
        payload: Bytes::from_static(b"opaque body"),
        headers: vec![("Flowgate-Score".to_string(), "0.400000".to_string())],
    });
    let m = buf.drain_one().unwrap();
    assert_eq!(&m.payload[..], b"opaque body");
    assert_eq!(m.headers[0].1, "0.400000");
    assert_eq!(m.arrived, NOW);
}

#[test]
fn message_exactly_at_max_age_is_kept() {
    let mut buf = MessageBuffer::new(100);
    buf.push(msg(0.5, 100));
    buf.push(msg(0.6, 101));
    assert_eq!(buf.evict_expired(NOW), 1);
    assert!((score_of(&buf.drain_one().unwrap()) - 0.5).abs() < f64::EPSILON);
}

#[test]
fn set_max_duration_changes_eviction() {
    let mut buf = MessageBuffer::new(100);
    buf.push(msg(0.5, 150));
    buf.set_max_duration(200);
    assert_eq!(buf.evict_expired(NOW), 0);
    buf.set_max_duration(50);
    assert_eq!(buf.evict_expired(NOW), 1);
}

#[test]
fn negative_and_equal_scores_order() {
    let mut buf = MessageBuffer::new(5000);
    buf.push(msg(-0.5, 0));
    buf.push(msg(0.25, 0));
    buf.push(msg(-2.0, 0));
    buf.push(msg(0.25, 0));
    let all = buf.drain_top_n(10);
    let scores: Vec<f64> = all.iter().map(score_of).collect();
    assert_eq!(scores, vec![0.25, 0.25, -0.5, -2.0]);
}

#[test]
fn best_score_peeks_without_removing() {
    let mut buf = MessageBuffer::new(5000);
    assert!(buf.best_score().is_none());
    buf.push(msg(0.3, 0));
    buf.push(msg(0.7, 0));
    assert_eq!(buf.best_score(), Some(bits(0.7)));
    assert_eq!(buf.len(), 2);
}

#[test]
fn streaming_drain_emits_best() {
    let mut buf = MessageBuffer::new(100);
    buf.push(msg(0.9, 200));
    buf.push(msg(0.6, 10));
    buf.push(msg(0.4, 10));
    let step = drain_streaming(&mut buf, NOW, bits(0.0), 0, 500);
    assert_eq!(step.evicted, 1);
    match step.outcome {
        DrainOutcome::Emitted(m) => assert!((score_of(&m) - 0.6).abs() < f64::EPSILON),
        _ => panic!("expected an emission"),
    }
    assert_eq!(buf.len(), 1);
}

#[test]
fn streaming_drain_skips_below_quality_floor() {
    let mut buf = MessageBuffer::new(5000);
    buf.push(msg(0.4, 0));
    let step = drain_streaming(&mut buf, NOW, bits(0.5), 0, 500);
    assert!(matches!(step.outcome, DrainOutcome::SkippedQuality));
    assert_eq!(buf.len(), 1);
    let step = drain_streaming(&mut buf, NOW, bits(0.4), 0, 500);
    assert!(matches!(step.outcome, DrainOutcome::Emitted(_)));
}

#[test]
fn streaming_drain_skips_under_backpressure() {
    let mut buf = MessageBuffer::new(5000);
    buf.push(msg(0.9, 0));
    let step = drain_streaming(&mut buf, NOW, bits(0.0), 501, 500);
    assert!(matches!(step.outcome, DrainOutcome::SkippedBackpressure));
    assert_eq!(buf.len(), 1);
    let step = drain_streaming(&mut buf, NOW, bits(0.0), 500, 500);
    assert!(matches!(step.outcome, DrainOutcome::Emitted(_)));
}

#[test]
fn streaming_drain_on_empty_buffer() {
    let mut buf: MessageBuffer<Bytes, Headers> = MessageBuffer::new(5000);
    let step = drain_streaming(&mut buf, NOW, bits(0.0), 0, 500);
    assert_eq!(step.evicted, 0);
    assert!(matches!(step.outcome, DrainOutcome::Empty));
}

#[test]
fn batch_window_counts_what_it_drops() {
    let mut buf = MessageBuffer::new(100);
    buf.push(msg(0.9, 200)); // too old
    buf.push(msg(0.8, 50));
    buf.push(msg(0.3, 10));
    buf.push(msg(0.6, 20));
    buf.push(msg(0.1, 30));
    let window = drain_batch_cycle(&mut buf, 2, NOW);
    let scores: Vec<f64> = window.batch.iter().map(score_of).collect();
    assert_eq!(scores, vec![0.8, 0.6]);
    assert_eq!(window.dropped, 3);
    assert_eq!(buf.len(), 0);

    let mut small = MessageBuffer::new(100);
    small.push(msg(0.4, 0));
    let window = drain_batch_cycle(&mut small, 5, NOW);
    assert_eq!(window.batch.len(), 1);
    assert_eq!(window.dropped, 0);
}
