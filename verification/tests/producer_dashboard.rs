use flowgate::dashboard::{host_port_start, is_counter_metric, InstanceEndpoints};
use flowgate::config::KvOutcome;
use flowgate::ieee::F64Bits;
use flowgate::metrics::MetricKind;
use flowgate::producer::{register_metrics, DistributionType, ProducerConfig, PRODUCER_KEYS};

fn apply(config: &mut ProducerConfig, key: &str, value: &str) -> KvOutcome {
    let number = value.parse::<f64>().ok().map(|x| F64Bits { bits: x.to_bits() });
    config.apply_kv_entry(key, value, number)
}

fn float(b: F64Bits) -> f64 {
    f64::from_bits(b.bits)
}

#[test]
fn producer_defaults() {
    let c = ProducerConfig::default();
    assert_eq!(c.num_clients, 70);
    assert_eq!(float(c.time_compression), 60.0);
    assert_eq!(c.min_batch_size, 100);
    assert_eq!(c.max_batch_size, 5000);
    assert_eq!(c.distribution, DistributionType::Beta);
    assert_eq!(float(c.distribution_variance), 0.3);
}

#[test]
fn producer_entries_are_applied() {
    let mut c = ProducerConfig::default();
    assert_eq!(apply(&mut c, "num_clients", "12"), KvOutcome::Applied);
    assert_eq!(apply(&mut c, "time_compression", "120.5"), KvOutcome::Applied);
    assert_eq!(apply(&mut c, "min_batch_size", "7"), KvOutcome::Applied);
    assert_eq!(apply(&mut c, "max_batch_size", "70"), KvOutcome::Applied);
    assert_eq!(apply(&mut c, "distribution", "Bimodal"), KvOutcome::Applied);
    assert_eq!(apply(&mut c, "distribution_variance", "0.5"), KvOutcome::Applied);
    assert_eq!(c.num_clients, 12);
    assert_eq!(float(c.time_compression), 120.5);
    assert_eq!(c.min_batch_size, 7);
    assert_eq!(c.max_batch_size, 70);
    assert_eq!(c.distribution, DistributionType::Bimodal);
    assert_eq!(float(c.distribution_variance), 0.5);
}

#[test]
fn producer_bad_values_are_ignored() {
    let mut c = ProducerConfig::default();
    assert_eq!(apply(&mut c, "num_clients", "-3"), KvOutcome::Ignored);
    assert_eq!(apply(&mut c, "num_clients", "1.5"), KvOutcome::Ignored);
    assert_eq!(apply(&mut c, "time_compression", "fast"), KvOutcome::Ignored);
    assert_eq!(apply(&mut c, "distribution", "gaussian"), KvOutcome::Ignored);
    assert_eq!(apply(&mut c, "max_batch_size", "99999999999999999999"), KvOutcome::Ignored);
    assert_eq!(apply(&mut c, "rate", "5"), KvOutcome::UnknownKey);
    let d = ProducerConfig::default();
    assert_eq!(c.num_clients, d.num_clients);
    assert_eq!(c.time_compression, d.time_compression);
    assert_eq!(c.distribution, d.distribution);
    assert_eq!(c.max_batch_size, d.max_batch_size);
}

#[test]
fn every_producer_key_is_known() {
    for key in PRODUCER_KEYS {
        let mut c = ProducerConfig::default();
        assert_ne!(apply(&mut c, key, "x"), KvOutcome::UnknownKey, "{key}");
    }
}

#[test]
fn producer_metrics_are_described() {
    let names: Vec<(MetricKind, &str)> = register_metrics().iter().map(|d| (d.kind, d.name)).collect();
    assert_eq!(
        names,
        vec![
            (MetricKind::Counter, "producer_messages_published_total"),
            (MetricKind::Counter, "producer_publish_errors_total"),
            (MetricKind::Counter, "producer_batches_sent_total"),
            (MetricKind::Gauge, "producer_active_clients"),
            (MetricKind::Gauge, "producer_backpressure"),
        ]
    );
}

#[test]
fn distribution_names_ignore_case() {
    assert_eq!("normal".parse::<DistributionType>(), Ok(DistributionType::Normal));
    assert_eq!("Beta".parse::<DistributionType>(), Ok(DistributionType::Beta));
    assert_eq!("UNIFORM".parse::<DistributionType>(), Ok(DistributionType::Uniform));
    assert_eq!("biModal".parse::<DistributionType>(), Ok(DistributionType::Bimodal));
    assert_eq!(
        "gaussian".parse::<DistributionType>(),
        Err("unknown distribution: gaussian".to_string())
    );
}

#[test]
fn lowercase_names() {
    assert_eq!(DistributionType::from_lowercase_name("bimodal"), Some(DistributionType::Bimodal));
    assert_eq!(DistributionType::from_lowercase_name("normal"), Some(DistributionType::Normal));
    assert_eq!(DistributionType::from_lowercase_name("Normal"), None);
    assert_eq!(DistributionType::from_lowercase_name(""), None);
}

#[test]
fn distribution_display_names() {
    for d in [DistributionType::Normal, DistributionType::Beta, DistributionType::Uniform, DistributionType::Bimodal] {
        assert_eq!(DistributionType::parse(d.as_str()), Ok(d));
    }
    assert_eq!(DistributionType::Beta.as_str(), "beta");
}

fn endpoints() -> InstanceEndpoints {
    InstanceEndpoints {
        kv_bucket_a: "flowgate-config-a".to_string(),
        kv_bucket_b: "flowgate-config-b".to_string(),
        kv_bucket_producer: "flowgate-producer-config".to_string(),
        flowgate_a_metrics: "http://localhost:9090".to_string(),
        flowgate_b_metrics: "http://localhost:9091".to_string(),
        producer_metrics: "http://producer:9090".to_string(),
    }
}

#[test]
fn instance_routing() {
    let e = endpoints();
    assert_eq!(e.bucket_name("a").as_deref(), Some("flowgate-config-a"));
    assert_eq!(e.bucket_name("b").as_deref(), Some("flowgate-config-b"));
    assert_eq!(e.bucket_name("c"), None);
    assert_eq!(e.metrics_url("a").as_deref(), Some("http://localhost:9090/metrics"));
    assert_eq!(e.metrics_url("b").as_deref(), Some("http://localhost:9091/metrics"));
    assert_eq!(e.metrics_url("producer").as_deref(), Some("http://producer:9090/metrics"));
    assert_eq!(e.bucket_name("producer").as_deref(), Some("flowgate-producer-config"));
    assert_eq!(e.metrics_url("c"), None);
}

#[test]
fn counters_versus_gauges() {
    assert!(is_counter_metric("flowgate_messages_received_total"));
    assert!(is_counter_metric("producer_batches_sent_total"));
    assert!(!is_counter_metric("flowgate_current_threshold"));
    assert!(!is_counter_metric("flowgate_buffer_size"));
}

use flowgate::exposition::parse_samples;

/// The scrape parsing of the dashboard, written with `str` methods.
fn reference(body: &str) -> Vec<(String, String)> {
    let mut v = Vec::new();
    for line in body.lines() {
        if line.starts_with('#') || line.is_empty() {
            continue;
        }
        if let Some((key, value)) = line.split_once(' ') {
            if key.starts_with("flowgate_") || key.starts_with("producer_") {
                v.push((key.to_string(), value.to_string()));
            }
        }
    }
    v
}

fn parsed(body: &str) -> Vec<(String, String)> {
    parse_samples(body.as_bytes())
        .into_iter()
        .map(|m| (String::from_utf8(m.name).unwrap(), String::from_utf8(m.value).unwrap()))
        .collect()
}

#[test]
fn scrape_parsing_matches_line_reading() {
    let bodies = [
        "",
        "\n",
        "# HELP flowgate_current_threshold Current threshold value\n# TYPE flowgate_current_threshold gauge\nflowgate_current_threshold 0.65\n",
        "flowgate_messages_received_total 1200\r\nproducer_batches_sent_total 3\r\nflowgate_actual_rate 9.5",
        "flowgate_a 1 2\nflowgate_b\nflowgate_c 3\r",
        "  flowgate_x 1\nflowgate_y  2\n\n\nflowgate_ü 4\n",
        "flowgate_ 5\n#flowgate_z 6\nflowgat_w 7",
        "producer_ 1\nproducer 2\nproducer_backpressure 1\nproduce_x 3\n",
    ];
    for body in bodies {
        assert_eq!(parsed(body), reference(body), "{body:?}");
    }
}

#[test]
fn scrape_drops_other_samples() {
    let body = "# comment\nflowgate_buffer_size 12\nprocess_cpu_seconds_total 1.5\nflowgate_pid_error -0.3\n";
    assert_eq!(
        parsed(body),
        vec![
            ("flowgate_buffer_size".to_string(), "12".to_string()),
            ("flowgate_pid_error".to_string(), "-0.3".to_string()),
        ]
    );
}

#[test]
fn scrape_keeps_producer_samples() {
    let body = "producer_backpressure 1\nproducer_messages_published_total 42\n";
    assert_eq!(
        parsed(body),
        vec![
            ("producer_backpressure".to_string(), "1".to_string()),
            ("producer_messages_published_total".to_string(), "42".to_string()),
        ]
    );
}

#[test]
fn host_port_drops_the_scheme() {
    for url in [
        "http://flowgate-buffered:9091",
        "https://localhost:9090",
        "http://http://twice:1",
        "https://https://x",
        "http://https://mixed:2",
        "https://http://other:3",
        "localhost:9090",
        "",
        "http:/",
        "ftp://host",
    ] {
        let expected = url.trim_start_matches("http://").trim_start_matches("https://");
        assert_eq!(&url[host_port_start(url)..], expected, "{url}");
    }
    assert_eq!(&"http://flowgate:9090"[host_port_start("http://flowgate:9090")..], "flowgate:9090");
}
