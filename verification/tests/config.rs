use flowgate::config::{is_none_marker, Algorithm, PipelineConfig, KV_BUCKET};
use flowgate::text::{parse_u64, str_eq};

#[test]
fn algorithm_names() {
    assert_eq!(Algorithm::from_kv("pid"), Some(Algorithm::Pid));
    assert_eq!(Algorithm::from_kv("fixed"), Some(Algorithm::Fixed));
    assert_eq!(Algorithm::from_kv("buffered_batch"), Some(Algorithm::BufferedBatch));
    assert_eq!(Algorithm::from_kv("buffered_streaming"), Some(Algorithm::BufferedStreaming));
    assert_eq!(Algorithm::from_kv("PID"), None);
    assert_eq!(Algorithm::from_kv("bogus"), None);
    assert_eq!(Algorithm::from_kv(""), None);
}

#[test]
fn algorithm_round_trip() {
    for a in [Algorithm::Pid, Algorithm::Fixed, Algorithm::BufferedBatch, Algorithm::BufferedStreaming] {
        assert_eq!(Algorithm::from_kv(a.as_str()), Some(a));
    }
}

#[test]
fn buffered_algorithms() {
    assert!(!Algorithm::Pid.is_buffered());
    assert!(!Algorithm::Fixed.is_buffered());
    assert!(Algorithm::BufferedBatch.is_buffered());
    assert!(Algorithm::BufferedStreaming.is_buffered());
}

#[test]
fn none_marker() {
    assert!(is_none_marker(""));
    assert!(is_none_marker("none"));
    assert!(!is_none_marker("None"));
    assert!(!is_none_marker("0.75"));
}

#[test]
fn unsigned_parse_matches_std() {
    let cases = [
        "0", "100", "+42", "", "+", "-", "-1", "12a", " 12", "007",
        "18446744073709551615", "18446744073709551616", "99999999999999999999", "1_000", "１",
    ];
    for c in cases {
        assert_eq!(parse_u64(c), c.parse::<u64>().ok(), "{c:?}");
    }
}

#[test]
fn string_equality() {
    assert!(str_eq("flowgate", "flowgate"));
    assert!(!str_eq("flowgate", "flowgat"));
    assert!(str_eq("é", "é"));
    assert!(!str_eq("é", "e"));
}

#[test]
fn pipeline_defaults() {
    let p = PipelineConfig::default();
    assert_eq!(p.output_subject, "flowgate.out");
    assert_eq!(p.output_stream, "FLOWGATE_OUT");
    assert_eq!(p.consumer_name, "flowgate-service");
    assert_eq!(KV_BUCKET, "flowgate-config");
}

#[test]
fn instance_wiring() {
    let p = PipelineConfig::for_instance("flowgate-config-b", None, None, None);
    assert_eq!(p.output_subject, "flowgate.out");
    assert_eq!(p.output_stream, "FLOWGATE_OUT");
    assert_eq!(p.consumer_name, "flowgate-flowgate-config-b");
    let p = PipelineConfig::for_instance(
        "flowgate-config-a",
        Some("flowgate.out.threshold".to_string()),
        Some("FLOWGATE_OUT_A".to_string()),
        Some("worker-a".to_string()),
    );
    assert_eq!(p.output_subject, "flowgate.out.threshold");
    assert_eq!(p.output_stream, "FLOWGATE_OUT_A");
    assert_eq!(p.consumer_name, "worker-a");
}

use flowgate::config::{Config, KvOutcome, CONFIG_KEYS};
use flowgate::ieee::F64Bits;

fn number(value: &str) -> Option<F64Bits> {
    value.parse::<f64>().ok().map(|x| F64Bits { bits: x.to_bits() })
}

fn apply(config: &mut Config, key: &str, value: &str) -> KvOutcome {
    config.apply_kv_entry(key, value, number(value))
}

fn value(b: F64Bits) -> f64 {
    f64::from_bits(b.bits)
}

#[test]
fn apply_known_keys() {
    let mut config = Config::default();
    apply(&mut config, "target_rate", "50.0");
    assert!((value(config.target_rate) - 50.0).abs() < f64::EPSILON);

    apply(&mut config, "algorithm", "fixed");
    assert_eq!(config.algorithm, Algorithm::Fixed);

    apply(&mut config, "fallback_threshold", "0.75");
    assert_eq!(config.fallback_threshold.map(value), Some(0.75));

    apply(&mut config, "fallback_threshold", "none");
    assert_eq!(config.fallback_threshold.map(value), None);
}

#[test]
fn invalid_values_ignored() {
    let mut config = Config::default();
    let orig_rate = value(config.target_rate);
    apply(&mut config, "target_rate", "not_a_number");
    assert!((value(config.target_rate) - orig_rate).abs() < f64::EPSILON);
}

#[test]
fn config_defaults() {
    let c = Config::default();
    assert_eq!(value(c.target_rate), 10.0);
    assert_eq!(value(c.measurement_window_secs), 10.0);
    assert_eq!(value(c.kp), 0.0004);
    assert_eq!(value(c.ki), 0.00004);
    assert_eq!(value(c.kd), 0.00001);
    assert_eq!(c.fallback_threshold, None);
    assert_eq!(value(c.min_threshold), 0.0);
    assert_eq!(value(c.max_threshold), 1.0);
    assert_eq!(c.algorithm, Algorithm::Pid);
    assert_eq!(c.warmup_samples, 100);
    assert_eq!(value(c.anti_windup_limit), 100.0);
    assert_eq!(c.pid_interval_ms, 1000);
    assert_eq!(c.max_buffer_duration_ms, 5000);
    assert_eq!(c.drain_interval_ms, 100);
    assert_eq!(value(c.min_quality_score), 0.0);
    assert_eq!(c.backpressure_threshold_ms, 500);
}

#[test]
fn every_key_is_applied() {
    let mut c = Config::default();
    for key in CONFIG_KEYS {
        let v = match key {
            "algorithm" => "buffered_streaming",
            "warmup_samples" | "pid_interval_ms" | "max_buffer_duration_ms" | "drain_interval_ms"
            | "backpressure_threshold_ms" => "7",
            _ => "0.25",
        };
        assert_eq!(apply(&mut c, key, v), KvOutcome::Applied, "{key}");
    }
    assert_eq!(value(c.kd), 0.25);
    assert_eq!(value(c.max_threshold), 0.25);
    assert_eq!(c.fallback_threshold.map(value), Some(0.25));
    assert_eq!(c.algorithm, Algorithm::BufferedStreaming);
    assert_eq!(c.backpressure_threshold_ms, 7);
    assert_eq!(c.warmup_samples, 7);
}

#[test]
fn unknown_and_unreadable_entries_change_nothing() {
    let mut c = Config::default();
    assert_eq!(apply(&mut c, "targetrate", "5"), KvOutcome::UnknownKey);
    assert_eq!(apply(&mut c, "algorithm", "adaptive"), KvOutcome::Ignored);
    assert_eq!(apply(&mut c, "warmup_samples", "-3"), KvOutcome::Ignored);
    assert_eq!(apply(&mut c, "warmup_samples", "2.5"), KvOutcome::Ignored);
    assert_eq!(apply(&mut c, "fallback_threshold", "high"), KvOutcome::Ignored);
    assert_eq!(c.algorithm, Algorithm::Pid);
    assert_eq!(c.warmup_samples, 100);
    assert_eq!(c.fallback_threshold, None);
    assert_eq!(apply(&mut c, "fallback_threshold", ""), KvOutcome::Applied);
}

#[test]
fn redelivered_entries_change_nothing() {
    for (key, value) in [
        ("target_rate", "12.5"),
        ("fallback_threshold", "none"),
        ("fallback_threshold", "0.4"),
        ("algorithm", "buffered_batch"),
        ("warmup_samples", "250"),
        ("kp", "nope"),
        ("unknown", "1"),
    ] {
        let mut once = Config::default();
        apply(&mut once, key, value);
        let mut twice = once;
        apply(&mut twice, key, value);
        assert_eq!(format!("{once:?}"), format!("{twice:?}"), "{key}={value}");
    }
}
