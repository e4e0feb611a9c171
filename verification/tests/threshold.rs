use flowgate::config::{Algorithm, Config};
use flowgate::ieee::F64Bits;
use flowgate::metrics::ControllerState;
use flowgate::percentile::select_percentile;
use flowgate::threshold::{check_metric_updates, CheckResult, ThresholdController};
use flowgate::metrics::MetricUpdate;

const SECOND: u64 = 1_000_000_000;
const START: u64 = 1_000 * SECOND;
/// The default measurement window (10 s) in nanoseconds.
const WINDOW: u64 = 10 * SECOND;

fn bits(x: f64) -> F64Bits {
    F64Bits { bits: x.to_bits() }
}

fn value(b: F64Bits) -> f64 {
    f64::from_bits(b.bits)
}

/// The defaults of the configuration (bounds 0..1), with these settings.
fn settings(algorithm: Algorithm, fallback: Option<f64>, warmup_samples: u64) -> Config {
    Config {
        algorithm,
        fallback_threshold: fallback.map(bits),
        warmup_samples,
        ..Config::default()
    }
}

fn controller(c: Config) -> ThresholdController {
    ThresholdController::new(&c, bits(0.5), START)
}

/// Position of the percentile for `total` samples, target 10/s over a 10 s
/// window (the defaults).
fn warmup_index(total: usize) -> usize {
    let total = total as f64;
    let pass_fraction = (10.0 * 10.0 / total).clamp(0.0, 1.0);
    ((1.0 - pass_fraction) * (total - 1.0)) as usize
}

fn check(c: &mut ThresholdController, score: f64) -> CheckResult {
    let idx = warmup_index(c.warmup_len() + 1);
    c.check(bits(score), START, idx)
}

#[test]
fn percentile_threshold_computation() {
    let mut scores: Vec<F64Bits> = (0..100).map(|i| bits(i as f64 / 100.0)).collect();
    // target_rate=10/s, window=10s => want 100 per window => 100% pass => threshold ~0
    let t = value(select_percentile(&mut scores, 0).unwrap());
    assert!(t < 0.05, "should be near 0 when all should pass, got {t}");

    let mut scores: Vec<F64Bits> = (0..100).map(|i| bits(i as f64 / 100.0)).collect();
    // target_rate=1/s, window=10s => want 10 per window => 10% pass => threshold ~0.9
    let index = ((1.0 - (1.0f64 * 10.0 / 100.0)) * 99.0) as usize;
    let t = value(select_percentile(&mut scores, index).unwrap());
    assert!(t > 0.85 && t < 0.95, "expected ~0.9, got {t}");
}

#[test]
fn fixed_mode_uses_fallback() {
    let controller = controller(settings(Algorithm::Fixed, Some(0.7), 100));
    assert!((value(controller.threshold()) - 0.7).abs() < f64::EPSILON);
    assert_eq!(controller.state_name(), "fixed");
}

#[test]
fn warmup_when_no_fallback() {
    let mut controller = controller(settings(Algorithm::Pid, None, 5));
    assert_eq!(controller.state_name(), "warmup");
    assert!(controller.is_buffering());

    for i in 0..5 {
        check(&mut controller, i as f64 / 5.0);
    }
    assert_eq!(controller.state_name(), "pid");
    assert!(!controller.is_buffering());
}

#[test]
fn cold_start_with_fallback() {
    let mut controller = controller(settings(Algorithm::Pid, Some(0.5), 100));
    assert_eq!(controller.state_name(), "cold_start");

    assert_eq!(check(&mut controller, 0.8), CheckResult::Emit);
    assert_eq!(check(&mut controller, 0.3), CheckResult::Reject);

    controller.tick(START, WINDOW);
    assert_eq!(controller.state_name(), "pid");
}

#[test]
fn switch_to_fixed_and_back() {
    let config = settings(Algorithm::Pid, Some(0.5), 100);
    let mut controller = controller(config);
    check(&mut controller, 0.8);
    controller.tick(START, WINDOW);
    assert_eq!(controller.state_name(), "pid");

    let mut fixed_config = config;
    fixed_config.algorithm = Algorithm::Fixed;
    fixed_config.fallback_threshold = Some(bits(0.6));
    controller.update_config(&fixed_config);
    assert_eq!(controller.state_name(), "fixed");
    assert!((value(controller.threshold()) - 0.6).abs() < f64::EPSILON);

    let mut pid_config = fixed_config;
    pid_config.algorithm = Algorithm::Pid;
    controller.update_config(&pid_config);
    assert_eq!(controller.state_name(), "pid");
}

#[test]
fn buffered_mode_returns_buffer() {
    let config = settings(Algorithm::BufferedBatch, Some(0.5), 100);
    let mut controller = controller(config);
    assert_eq!(check(&mut controller, 0.1), CheckResult::Buffer);
    assert_eq!(check(&mut controller, 0.9), CheckResult::Buffer);

    let mut streaming_config = config;
    streaming_config.algorithm = Algorithm::BufferedStreaming;
    controller.update_config(&streaming_config);
    assert_eq!(check(&mut controller, 0.5), CheckResult::Buffer);
}

#[test]
fn warmup_threshold_is_the_percentile() {
    // 5 samples, everything should pass => index 0 => the smallest sample.
    let mut controller = controller(settings(Algorithm::Pid, None, 5));
    assert_eq!(check(&mut controller, 0.9), CheckResult::Emit);
    assert_eq!(check(&mut controller, 0.3), CheckResult::Reject);
    assert_eq!(check(&mut controller, 0.7), CheckResult::Emit);
    assert_eq!(check(&mut controller, 0.5), CheckResult::Emit);
    assert_eq!(check(&mut controller, 0.4), CheckResult::Emit);
    assert_eq!(value(controller.threshold()), 0.3);
    assert_eq!(controller.controller_state(), ControllerState::Pid);
}

#[test]
fn warmup_threshold_is_clamped_to_bounds() {
    let mut s = settings(Algorithm::Pid, None, 2);
    s.min_threshold = bits(0.2);
    s.max_threshold = bits(0.8);
    let mut controller = ThresholdController::new(&s, bits(0.5), START);
    controller.check(bits(0.05), START, 0);
    controller.check(bits(0.1), START, 0);
    assert_eq!(value(controller.threshold()), 0.2);
}

#[test]
fn warmup_checks_are_not_recorded_as_emissions() {
    let mut controller = controller(settings(Algorithm::Pid, None, 3));
    assert_eq!(check(&mut controller, 0.9), CheckResult::Emit);
    assert_eq!(controller.tick(START, WINDOW).emissions, 0);
}

#[test]
fn tick_forgets_emissions_outside_the_window() {
    let mut controller = controller(settings(Algorithm::Fixed, Some(0.5), 100));
    controller.check(bits(0.9), START, 0);
    controller.check(bits(0.9), START + 5 * SECOND, 0);
    controller.record_emission(START + 6 * SECOND);
    let report = controller.tick(START + 12 * SECOND, WINDOW);
    assert_eq!(report.emissions, 2);
    assert_eq!(report.elapsed_ns, 12 * SECOND);
    assert!(!report.run_pid);
    let report = controller.tick(START + 20 * SECOND, WINDOW);
    assert_eq!(report.emissions, 0);
    assert_eq!(report.elapsed_ns, 8 * SECOND);
}

#[test]
fn pid_output_becomes_threshold() {
    let mut controller = controller(settings(Algorithm::Pid, Some(0.5), 100));
    controller.check(bits(0.9), START, 0);
    let first = controller.tick(START + SECOND, WINDOW);
    assert!(!first.run_pid);
    let second = controller.tick(START + 2 * SECOND, WINDOW);
    assert!(second.run_pid);
    let out = controller.apply_pid_update(bits(1.0), bits(9.9), bits(9.9), bits(0.42));
    assert_eq!(value(out), 0.42);
    assert_eq!(value(controller.threshold()), 0.42);
    assert_eq!(value(controller.pid().prev_error()), 9.9);
    assert_eq!(value(controller.pid().integral()), 9.9);
    assert_eq!(check(&mut controller, 0.42), CheckResult::Emit);
    assert_eq!(check(&mut controller, 0.41), CheckResult::Reject);
}

#[test]
fn pid_update_clamps_output_and_integral() {
    let mut controller = controller(settings(Algorithm::Pid, Some(0.5), 100));
    controller.check(bits(0.9), START, 0);
    controller.tick(START + SECOND, WINDOW);
    let out = controller.apply_pid_update(bits(1.0), bits(1.0), bits(250.0), bits(1.7));
    assert_eq!(value(out), 1.0);
    assert_eq!(value(controller.pid().integral()), 100.0);
    let out = controller.apply_pid_update(bits(1.0), bits(1.0), bits(-250.0), bits(-0.3));
    assert_eq!(value(out), 0.0);
    assert_eq!(value(controller.pid().integral()), -100.0);
}

#[test]
fn pid_update_without_elapsed_time_keeps_the_output() {
    // The fallback lies outside the bounds: the PID starts from it clamped,
    // and an update with dt = 0 makes that clamped output the threshold.
    let mut controller = controller(settings(Algorithm::Pid, Some(1.5), 100));
    assert_eq!(value(controller.threshold()), 1.5);
    assert_eq!(value(controller.pid().output()), 1.0);
    controller.check(bits(2.0), START, 0);
    controller.tick(START, WINDOW);
    let out = controller.apply_pid_update(bits(0.0), bits(3.0), bits(7.0), bits(0.2));
    assert_eq!(value(out), 1.0);
    assert_eq!(value(controller.threshold()), 1.0);
    assert_eq!(value(controller.pid().integral()), 0.0);
    assert_eq!(value(controller.pid().prev_error()), 0.0);
}

#[test]
fn warmup_end_moves_the_pid_output() {
    let mut controller = controller(settings(Algorithm::Pid, None, 2));
    assert_eq!(value(controller.pid().output()), 0.5);
    controller.check(bits(0.8), START, 0);
    controller.check(bits(0.6), START, 0);
    assert_eq!(value(controller.threshold()), 0.6);
    assert_eq!(value(controller.pid().output()), 0.6);
}

#[test]
fn cold_start_stays_without_emissions() {
    let mut controller = controller(settings(Algorithm::Pid, Some(0.95), 100));
    check(&mut controller, 0.5);
    controller.tick(START, WINDOW);
    assert_eq!(controller.state_name(), "cold_start");
}

#[test]
fn switching_back_to_pid_restarts_the_pid() {
    let config = settings(Algorithm::Pid, Some(0.5), 100);
    let mut controller = controller(config);
    controller.check(bits(0.9), START, 0);
    controller.tick(START + SECOND, WINDOW);
    controller.apply_pid_update(bits(1.0), bits(2.0), bits(3.0), bits(0.45));
    let mut fixed = config;
    fixed.algorithm = Algorithm::Fixed;
    fixed.fallback_threshold = Some(bits(0.3));
    controller.update_config(&fixed);
    // Not resumed yet: the PID keeps its integral and previous error.
    assert_eq!(value(controller.pid().integral()), 3.0);
    assert_eq!(value(controller.pid().prev_error()), 2.0);
    assert_eq!(value(controller.pid().output()), 0.45);
    let mut pid = fixed;
    pid.algorithm = Algorithm::Pid;
    controller.update_config(&pid);
    assert_eq!(controller.state_name(), "pid");
    assert_eq!(value(controller.threshold()), 0.3);
    assert_eq!(value(controller.pid().output()), 0.3);
    assert_eq!(value(controller.pid().integral()), 0.0);
    assert_eq!(value(controller.pid().prev_error()), 0.0);
}

#[test]
fn new_bounds_clamp_the_pid() {
    let config = settings(Algorithm::Pid, Some(0.5), 100);
    let mut controller = controller(config);
    controller.check(bits(0.9), START, 0);
    controller.tick(START + SECOND, WINDOW);
    controller.apply_pid_update(bits(1.0), bits(2.0), bits(80.0), bits(0.9));
    let mut narrow = config;
    narrow.max_threshold = bits(0.7);
    narrow.anti_windup_limit = bits(50.0);
    controller.update_config(&narrow);
    assert_eq!(value(controller.pid().output()), 0.7);
    assert_eq!(value(controller.pid().integral()), 50.0);
    assert_eq!(value(controller.threshold()), 0.9);
    assert_eq!(controller.state_name(), "pid");
}

#[test]
fn nan_score_is_rejected() {
    let mut controller = controller(settings(Algorithm::Fixed, Some(0.0), 100));
    assert_eq!(check(&mut controller, f64::NAN), CheckResult::Reject);
    assert_eq!(check(&mut controller, -0.0), CheckResult::Emit);
}

#[test]
fn tick_counts_the_emissions_in_the_window() {
    let mut controller = controller(settings(Algorithm::Fixed, Some(0.5), 100));
    controller.record_emission(START + 95 * SECOND);
    // The clock reads earlier than the last emission: it is taken as not
    // having moved, so the record stays in time order.
    controller.record_emission(START + SECOND);
    let report = controller.tick(START + 100 * SECOND, WINDOW);
    assert_eq!(report.emissions, 2);
    let report = controller.tick(START + 106 * SECOND, WINDOW);
    assert_eq!(report.emissions, 0);
}

#[test]
fn later_positions_never_pick_lower_scores() {
    let scores: Vec<F64Bits> = [0.7, 0.1, 0.9, 0.3, 0.5].iter().map(|x| bits(*x)).collect();
    let mut last = f64::NEG_INFINITY;
    for index in 0..8 {
        let t = value(select_percentile(&mut scores.clone(), index).unwrap());
        assert!(t >= last, "{index}");
        last = t;
    }
    assert_eq!(last, 0.9);
}

fn gauges(updates: Vec<MetricUpdate>) -> Vec<(&'static str, u64)> {
    updates
        .into_iter()
        .map(|u| match u {
            MetricUpdate::SetGauge { name, value } => (name, value),
            MetricUpdate::Increment { name, by } => (name, by),
        })
        .collect()
}

#[test]
fn warmup_checks_report_their_progress() {
    let w = ControllerState::Warmup;
    assert_eq!(
        gauges(check_metric_updates(w, w, false, 3)),
        vec![("flowgate_warmup_samples_collected", 3)]
    );
    assert_eq!(
        gauges(check_metric_updates(w, ControllerState::Pid, false, 5)),
        vec![("flowgate_warmup_samples_collected", 5), ("flowgate_controller_state", 2)]
    );
    assert!(check_metric_updates(w, w, true, 3).is_empty());
    assert!(check_metric_updates(ControllerState::Pid, ControllerState::Pid, false, 1).is_empty());
}
