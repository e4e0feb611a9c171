//! The service's Prometheus metrics: which metrics exist, and which update
//! each event makes.  The library computes the updates; the program hands
//! them to the metrics recorder.
use vstd::prelude::*;

use crate::dashboard::{counter_metric, lemma_registered_kinds};

verus! {

/// Kind of a Prometheus metric.
#[derive(Clone, Copy, Debug, PartialEq, Eq, Structural)]
pub enum MetricKind {
    Counter,
    Gauge,
}

/// A metric with its help text.
#[derive(Clone, Copy, Debug)]
pub struct MetricDescription {
    pub kind: MetricKind,
    pub name: &'static str,
    pub help: &'static str,
}

/// One update of one metric.
#[derive(Clone, Copy, Debug)]
pub enum MetricUpdate {
    /// Add `by` to a counter.
    Increment { name: &'static str, by: u64 },
    /// Set a gauge to `value`.
    SetGauge { name: &'static str, value: u64 },
}

/// The update adds `by` to the counter `name`.
pub open spec fn increments(u: MetricUpdate, name: Seq<char>, by: u64) -> bool {
    u matches MetricUpdate::Increment { name: n, by: b } && n@ == name && b == by
}

/// The update sets the gauge `name` to `value`.
pub open spec fn sets(u: MetricUpdate, name: Seq<char>, value: u64) -> bool {
    u matches MetricUpdate::SetGauge { name: n, value: v } && n@ == name && v == value
}

/// The description names a metric of this kind.
pub open spec fn describes(d: MetricDescription, kind: MetricKind, name: Seq<char>) -> bool {
    d.kind == kind && d.name@ == name
}

/// The state of the threshold controller, as exported on the
/// `flowgate_controller_state` gauge.
#[derive(Clone, Copy, Debug, PartialEq, Eq, Structural)]
pub enum ControllerState {
    ColdStart,
    Warmup,
    Pid,
    Fixed,
}

impl ControllerState {
    /// The gauge value: 0=cold_start, 1=warmup, 2=pid, 3=fixed.
    pub open spec fn spec_code(self) -> u64 {
        match self {
            ControllerState::ColdStart => 0,
            ControllerState::Warmup => 1,
            ControllerState::Pid => 2,
            ControllerState::Fixed => 3,
        }
    }

    pub fn code(&self) -> (r: u64)
        ensures
            r == self.spec_code(),
    {
        match self {
            ControllerState::ColdStart => 0,
            ControllerState::Warmup => 1,
            ControllerState::Pid => 2,
            ControllerState::Fixed => 3,
        }
    }
}

pub(crate) fn described(kind: MetricKind, name: &'static str, help: &'static str) -> (d: MetricDescription)
    ensures
        d.kind == kind,
        d.name == name,
        d.help == help,
{
    MetricDescription { kind, name, help }
}

/// The metrics that the service exports, with their help texts.
pub fn register() -> (r: Vec<MetricDescription>)
    ensures
        r@.len() == 20,
        describes(r@[0], MetricKind::Counter, "flowgate_messages_received_total"@),
        describes(r@[1], MetricKind::Counter, "flowgate_messages_emitted_total"@),
        describes(r@[2], MetricKind::Counter, "flowgate_messages_rejected_total"@),
        describes(r@[3], MetricKind::Gauge, "flowgate_current_threshold"@),
        describes(r@[4], MetricKind::Gauge, "flowgate_target_rate"@),
        describes(r@[5], MetricKind::Gauge, "flowgate_actual_rate"@),
        describes(r@[6], MetricKind::Gauge, "flowgate_pid_error"@),
        describes(r@[7], MetricKind::Gauge, "flowgate_pid_p_term"@),
        describes(r@[8], MetricKind::Gauge, "flowgate_pid_i_term"@),
        describes(r@[9], MetricKind::Gauge, "flowgate_pid_d_term"@),
        describes(r@[10], MetricKind::Gauge, "flowgate_controller_state"@),
        describes(r@[11], MetricKind::Gauge, "flowgate_warmup_samples_collected"@),
        describes(r@[12], MetricKind::Gauge, "flowgate_buffer_size"@),
        describes(r@[13], MetricKind::Counter, "flowgate_buffer_evicted_total"@),
        describes(r@[14], MetricKind::Gauge, "flowgate_ingestion_rate"@),
        describes(r@[15], MetricKind::Counter, "flowgate_drain_skipped_quality_total"@),
        describes(r@[16], MetricKind::Counter, "flowgate_drain_skipped_backpressure_total"@),
        describes(r@[17], MetricKind::Gauge, "flowgate_publish_latency_ms"@),
        describes(r@[18], MetricKind::Gauge, "flowgate_avg_emitted_score"@),
        describes(r@[19], MetricKind::Gauge, "flowgate_avg_latency_ms"@),
        r@[0].help@ == "Total inbound messages processed"@,
        r@[1].help@ == "Messages that passed the threshold"@,
        r@[2].help@ == "Messages below the threshold"@,
        r@[3].help@ == "Current threshold value"@,
        r@[4].help@ == "Configured target emission rate (per second)"@,
        r@[5].help@ == "Measured emission rate (per second)"@,
        r@[6].help@ == "Current PID error signal"@,
        r@[7].help@ == "PID proportional term"@,
        r@[8].help@ == "PID integral term"@,
        r@[9].help@ == "PID derivative term"@,
        r@[10].help@ == "Controller state: 0=cold_start, 1=warmup, 2=pid, 3=fixed"@,
        r@[11].help@ == "Samples collected during warmup phase"@,
        r@[12].help@ == "Messages held in the buffer"@,
        r@[13].help@ == "Buffered messages dropped for age or at the end of a batch window"@,
        r@[14].help@ == "Current inbound message rate (per second)"@,
        r@[15].help@ == "Drains skipped because the best buffered score is below min_quality_score"@,
        r@[16].help@ == "Drains skipped because of downstream backpressure"@,
        r@[17].help@ == "Last publish round-trip time (ms)"@,
        r@[18].help@ == "Moving average of the emitted scores"@,
        r@[19].help@ == "Moving average of the time emitted messages spent in the buffer (ms)"@,
        forall|i: int|
            0 <= i < r@.len() ==> ((#[trigger] r@[i]).kind == MetricKind::Counter) == counter_metric(r@[i].name@),
{
    let mut r: Vec<MetricDescription> = Vec::new();
    r.push(
        described(
            MetricKind::Counter,
            "flowgate_messages_received_total",
            "Total inbound messages processed",
        ),
    );
    r.push(
        described(
            MetricKind::Counter,
            "flowgate_messages_emitted_total",
            "Messages that passed the threshold",
        ),
    );
    r.push(
        described(MetricKind::Counter, "flowgate_messages_rejected_total", "Messages below the threshold"),
    );
    r.push(described(MetricKind::Gauge, "flowgate_current_threshold", "Current threshold value"));
    r.push(
        described(
            MetricKind::Gauge,
            "flowgate_target_rate",
            "Configured target emission rate (per second)",
        ),
    );
    r.push(
        described(MetricKind::Gauge, "flowgate_actual_rate", "Measured emission rate (per second)"),
    );
    r.push(described(MetricKind::Gauge, "flowgate_pid_error", "Current PID error signal"));
    r.push(described(MetricKind::Gauge, "flowgate_pid_p_term", "PID proportional term"));
    r.push(described(MetricKind::Gauge, "flowgate_pid_i_term", "PID integral term"));
    r.push(described(MetricKind::Gauge, "flowgate_pid_d_term", "PID derivative term"));
    r.push(
        described(
            MetricKind::Gauge,
            "flowgate_controller_state",
            "Controller state: 0=cold_start, 1=warmup, 2=pid, 3=fixed",
        ),
    );
    r.push(
        described(
            MetricKind::Gauge,
            "flowgate_warmup_samples_collected",
            "Samples collected during warmup phase",
        ),
    );
    r.push(described(MetricKind::Gauge, "flowgate_buffer_size", "Messages held in the buffer"));
    r.push(
        described(
            MetricKind::Counter,
            "flowgate_buffer_evicted_total",
            "Buffered messages dropped for age or at the end of a batch window",
        ),
    );
    r.push(
        described(MetricKind::Gauge, "flowgate_ingestion_rate", "Current inbound message rate (per second)"),
    );
    r.push(
        described(
            MetricKind::Counter,
            "flowgate_drain_skipped_quality_total",
            "Drains skipped because the best buffered score is below min_quality_score",
        ),
    );
    r.push(
        described(
            MetricKind::Counter,
            "flowgate_drain_skipped_backpressure_total",
            "Drains skipped because of downstream backpressure",
        ),
    );
    r.push(
        described(MetricKind::Gauge, "flowgate_publish_latency_ms", "Last publish round-trip time (ms)"),
    );
    r.push(
        described(
            MetricKind::Gauge,
            "flowgate_avg_emitted_score",
            "Moving average of the emitted scores",
        ),
    );
    r.push(
        described(
            MetricKind::Gauge,
            "flowgate_avg_latency_ms",
            "Moving average of the time emitted messages spent in the buffer (ms)",
        ),
    );
    proof {
        lemma_registered_kinds();
        assert forall|i: int| 0 <= i < r@.len() implies ((#[trigger] r@[i]).kind == MetricKind::Counter)
            == counter_metric(r@[i].name@) by {
            if i == 0 {}
            if i == 1 {}
            if i == 2 {}
            if i == 3 {}
            if i == 4 {}
            if i == 5 {}
            if i == 6 {}
            if i == 7 {}
            if i == 8 {}
            if i == 9 {}
            if i == 10 {}
            if i == 11 {}
            if i == 12 {}
            if i == 13 {}
            if i == 14 {}
            if i == 15 {}
            if i == 16 {}
            if i == 17 {}
            if i == 18 {}
            if i == 19 {}
        }
    }
    r
}

pub fn record_received() -> (u: MetricUpdate)
    ensures
        increments(u, "flowgate_messages_received_total"@, 1),
{
    MetricUpdate::Increment { name: "flowgate_messages_received_total", by: 1 }
}

pub fn record_emitted() -> (u: MetricUpdate)
    ensures
        increments(u, "flowgate_messages_emitted_total"@, 1),
{
    MetricUpdate::Increment { name: "flowgate_messages_emitted_total", by: 1 }
}

pub fn record_rejected() -> (u: MetricUpdate)
    ensures
        increments(u, "flowgate_messages_rejected_total"@, 1),
{
    MetricUpdate::Increment { name: "flowgate_messages_rejected_total", by: 1 }
}

pub fn set_controller_state(state: ControllerState) -> (u: MetricUpdate)
    ensures
        sets(u, "flowgate_controller_state"@, state.spec_code()),
{
    MetricUpdate::SetGauge { name: "flowgate_controller_state", value: state.code() }
}

pub fn set_warmup_samples(n: u64) -> (u: MetricUpdate)
    ensures
        sets(u, "flowgate_warmup_samples_collected"@, n),
{
    MetricUpdate::SetGauge { name: "flowgate_warmup_samples_collected", value: n }
}

pub fn set_buffer_size(n: usize) -> (u: MetricUpdate)
    ensures
        sets(u, "flowgate_buffer_size"@, n as u64),
{
    MetricUpdate::SetGauge { name: "flowgate_buffer_size", value: n as u64 }
}

pub fn record_evicted(n: usize) -> (u: MetricUpdate)
    ensures
        increments(u, "flowgate_buffer_evicted_total"@, n as u64),
{
    MetricUpdate::Increment { name: "flowgate_buffer_evicted_total", by: n as u64 }
}

pub fn record_drain_skipped_quality() -> (u: MetricUpdate)
    ensures
        increments(u, "flowgate_drain_skipped_quality_total"@, 1),
{
    MetricUpdate::Increment { name: "flowgate_drain_skipped_quality_total", by: 1 }
}

pub fn record_drain_skipped_backpressure() -> (u: MetricUpdate)
    ensures
        increments(u, "flowgate_drain_skipped_backpressure_total"@, 1),
{
    MetricUpdate::Increment { name: "flowgate_drain_skipped_backpressure_total", by: 1 }
}

} // verus!
