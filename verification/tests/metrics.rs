use flowgate::metrics::{
    record_drain_skipped_backpressure, record_drain_skipped_quality, record_emitted, record_evicted,
    record_received, record_rejected, register, set_buffer_size, set_controller_state,
    set_warmup_samples, ControllerState, MetricKind, MetricUpdate,
};

fn increment(u: MetricUpdate) -> (&'static str, u64) {
    match u {
        MetricUpdate::Increment { name, by } => (name, by),
        MetricUpdate::SetGauge { .. } => panic!("expected a counter increment"),
    }
}

fn gauge(u: MetricUpdate) -> (&'static str, u64) {
    match u {
        MetricUpdate::SetGauge { name, value } => (name, value),
        MetricUpdate::Increment { .. } => panic!("expected a gauge update"),
    }
}

#[test]
fn counters() {
    assert_eq!(increment(record_received()), ("flowgate_messages_received_total", 1));
    assert_eq!(increment(record_emitted()), ("flowgate_messages_emitted_total", 1));
    assert_eq!(increment(record_rejected()), ("flowgate_messages_rejected_total", 1));
    assert_eq!(increment(record_evicted(7)), ("flowgate_buffer_evicted_total", 7));
    assert_eq!(increment(record_drain_skipped_quality()), ("flowgate_drain_skipped_quality_total", 1));
    assert_eq!(
        increment(record_drain_skipped_backpressure()),
        ("flowgate_drain_skipped_backpressure_total", 1)
    );
}

#[test]
fn controller_state_codes() {
    assert_eq!(gauge(set_controller_state(ControllerState::ColdStart)), ("flowgate_controller_state", 0));
    assert_eq!(gauge(set_controller_state(ControllerState::Warmup)), ("flowgate_controller_state", 1));
    assert_eq!(gauge(set_controller_state(ControllerState::Pid)), ("flowgate_controller_state", 2));
    assert_eq!(gauge(set_controller_state(ControllerState::Fixed)), ("flowgate_controller_state", 3));
}

#[test]
fn integer_gauges() {
    assert_eq!(gauge(set_warmup_samples(42)), ("flowgate_warmup_samples_collected", 42));
    assert_eq!(gauge(set_buffer_size(2500)), ("flowgate_buffer_size", 2500));
}

#[test]
fn registered_metrics() {
    let all = register();
    assert_eq!(all.len(), 20);
    assert_eq!(all[0].name, "flowgate_messages_received_total");
    assert_eq!(all[0].kind, MetricKind::Counter);
    assert_eq!(all[10].name, "flowgate_controller_state");
    assert_eq!(all[10].help, "Controller state: 0=cold_start, 1=warmup, 2=pid, 3=fixed");
    let mut names: Vec<&str> = all.iter().map(|d| d.name).collect();
    names.sort();
    names.dedup();
    assert_eq!(names.len(), 20);
}
