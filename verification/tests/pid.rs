use flowgate::ieee::F64Bits;
use flowgate::pid::{PidController, PidParams};

fn bits(x: f64) -> F64Bits {
    F64Bits { bits: x.to_bits() }
}

fn value(b: F64Bits) -> f64 {
    f64::from_bits(b.bits)
}

fn default_params() -> PidParams {
    PidParams {
        kp: bits(0.01),
        ki: bits(0.001),
        kd: bits(0.0005),
        min_output: bits(0.0),
        max_output: bits(1.0),
        anti_windup_limit: bits(100.0),
    }
}

/// One PID update: the library decides whether it runs, which previous error
/// the derivative is taken against, and clamps the integral and the output;
/// the sums are `f64`, as in the service.
fn update(pid: &mut PidController, error: f64, dt: f64) -> f64 {
    if PidController::skips_update(bits(dt)) {
        return value(pid.output());
    }
    let params = pid.params();
    let prev_error = value(pid.derivative_base(bits(error)));
    let raw_integral = value(pid.integral()) + error * dt;
    let integral = value(pid.windup_clamp(bits(raw_integral)));
    let derivative = (error - prev_error) / dt;
    let adjustment =
        value(params.kp) * error + value(params.ki) * integral + value(params.kd) * derivative;
    let raw_output = value(pid.output()) - adjustment;
    value(pid.apply_update(bits(error), bits(raw_integral), bits(raw_output)))
}

#[test]
fn steady_state_no_change() {
    let mut pid = PidController::new(default_params(), bits(0.5));
    // Zero error should produce no change (after initial derivative settles)
    let _ = update(&mut pid, 0.0, 1.0);
    let t = update(&mut pid, 0.0, 1.0);
    assert!((t - 0.5).abs() < 0.001, "threshold should stay near 0.5, got {t}");
}

#[test]
fn emitting_too_few_lowers_threshold() {
    let mut pid = PidController::new(default_params(), bits(0.8));
    // Positive error: target > actual, need more emissions, threshold should decrease
    for _ in 0..50 {
        update(&mut pid, 10.0, 1.0);
    }
    assert!(value(pid.output()) < 0.8, "threshold should decrease when emitting too few");
}

#[test]
fn emitting_too_many_raises_threshold() {
    let mut pid = PidController::new(default_params(), bits(0.2));
    // Negative error: actual > target, emitting too many, threshold should increase
    for _ in 0..50 {
        update(&mut pid, -10.0, 1.0);
    }
    assert!(value(pid.output()) > 0.2, "threshold should increase when emitting too many");
}

#[test]
fn output_clamped_to_bounds() {
    let mut pid = PidController::new(default_params(), bits(0.5));
    // Drive hard in one direction
    for _ in 0..1000 {
        update(&mut pid, 1000.0, 1.0);
    }
    assert!(value(pid.output()) >= 0.0);
    assert!(value(pid.output()) <= 1.0);
}

#[test]
fn anti_windup() {
    let params = PidParams {
        anti_windup_limit: bits(10.0),
        ..default_params()
    };
    let mut pid = PidController::new(params, bits(0.5));
    for _ in 0..1000 {
        update(&mut pid, 100.0, 1.0);
    }
    assert!(value(pid.integral()).abs() <= 10.0, "integral should be clamped");
}

#[test]
fn zero_dt_is_noop() {
    let mut pid = PidController::new(default_params(), bits(0.5));
    let t = update(&mut pid, 10.0, 0.0);
    assert!((t - 0.5).abs() < f64::EPSILON);
}

#[test]
fn params_update_clamps_state() {
    let mut pid = PidController::new(default_params(), bits(0.9));
    let new_params = PidParams {
        max_output: bits(0.7),
        ..default_params()
    };
    pid.update_params(new_params);
    assert!(value(pid.output()) <= 0.7);
}

#[test]
fn new_clamps_initial_output() {
    assert_eq!(value(PidController::new(default_params(), bits(1.5)).output()), 1.0);
    assert_eq!(value(PidController::new(default_params(), bits(-0.5)).output()), 0.0);
    assert_eq!(value(PidController::new(default_params(), bits(0.5)).output()), 0.5);
}

#[test]
fn zero_or_negative_dt_skips_the_update() {
    assert!(PidController::skips_update(bits(0.0)));
    assert!(PidController::skips_update(bits(-0.0)));
    assert!(PidController::skips_update(bits(-1.0)));
    assert!(!PidController::skips_update(bits(1.0)));
    assert!(!PidController::skips_update(bits(f64::NAN)));
}

#[test]
fn set_output_clamps() {
    let mut pid = PidController::new(default_params(), bits(0.5));
    pid.set_output(bits(3.0));
    assert_eq!(value(pid.output()), 1.0);
    pid.set_output(bits(0.25));
    assert_eq!(value(pid.output()), 0.25);
}

#[test]
fn integral_is_clamped_to_the_windup_limit() {
    let params = PidParams {
        anti_windup_limit: bits(10.0),
        ..default_params()
    };
    let mut pid = PidController::new(params, bits(0.5));
    assert_eq!(value(pid.windup_clamp(bits(1000.0))), 10.0);
    assert_eq!(value(pid.windup_clamp(bits(-1000.0))), -10.0);
    pid.apply_update(bits(100.0), bits(100000.0), bits(0.4));
    assert!(value(pid.integral()).abs() <= 10.0, "integral should be clamped");
}

#[test]
fn apply_update_keeps_output_in_bounds() {
    let mut pid = PidController::new(default_params(), bits(0.5));
    assert_eq!(value(pid.apply_update(bits(1000.0), bits(0.0), bits(-12.0))), 0.0);
    assert_eq!(value(pid.apply_update(bits(-1000.0), bits(0.0), bits(12.0))), 1.0);
    assert_eq!(value(pid.prev_error()), -1000.0);
}

#[test]
fn first_update_takes_the_derivative_against_the_error_itself() {
    let mut pid = PidController::new(default_params(), bits(0.5));
    assert_eq!(value(pid.derivative_base(bits(7.0))), 7.0);
    pid.apply_update(bits(7.0), bits(7.0), bits(0.5));
    assert_eq!(value(pid.derivative_base(bits(9.0))), 7.0);
    pid.reset();
    assert_eq!(value(pid.derivative_base(bits(9.0))), 9.0);
    assert_eq!(value(pid.integral()), 0.0);
    assert_eq!(value(pid.prev_error()), 0.0);
    assert_eq!(value(pid.output()), 0.5);
}
