//! The PID controller's state: gains, output bounds, anti-windup limit, the
//! integral term, the previous error and the current output.
//!
//! Everything but the arithmetic of an update is here: bounding the output
//! and the integral, the skipped update for a non-positive time step, the
//! first-update rule for the derivative, parameter changes and resets.  An
//! update runs as: `skips_update`, then `derivative_base` and
//! `windup_clamp` to form the new integral and the adjustment (floating
//! point, by the caller), then `apply_update` with the unclamped output.
use vstd::prelude::*;
use crate::ieee::{F64Bits, le_bits, nan_bits, neg_bits, clamp_bits, lemma_clamp_within_bounds,
    lemma_symmetric_bounds_hold_zero};

verus! {

/// Gains and bounds of the controller.
#[derive(Clone, Copy, Debug)]
pub struct PidParams {
    pub kp: F64Bits,
    pub ki: F64Bits,
    pub kd: F64Bits,
    pub min_output: F64Bits,
    pub max_output: F64Bits,
    pub anti_windup_limit: F64Bits,
}

impl PidParams {
    /// The output can be clamped: `min_output <= max_output`.
    pub open spec fn output_bounds_valid(self) -> bool {
        le_bits(self.min_output.bits, self.max_output.bits)
    }

    /// The integral can be clamped: `-anti_windup_limit <= anti_windup_limit`.
    pub open spec fn windup_valid(self) -> bool {
        le_bits(neg_bits(self.anti_windup_limit.bits), self.anti_windup_limit.bits)
    }

    /// `x` lies within the output bounds, or is a NaN.
    pub open spec fn bounds_output(self, x: F64Bits) -> bool {
        nan_bits(x.bits) || (le_bits(self.min_output.bits, x.bits) && le_bits(x.bits, self.max_output.bits))
    }

    /// `x` lies within `[-anti_windup_limit, anti_windup_limit]`, or is a NaN.
    pub open spec fn bounds_integral(self, x: F64Bits) -> bool {
        nan_bits(x.bits) || (le_bits(neg_bits(self.anti_windup_limit.bits), x.bits) && le_bits(
            x.bits,
            self.anti_windup_limit.bits,
        ))
    }
}

/// `x.clamp(p.min_output, p.max_output)`.
pub open spec fn clamp_output(p: PidParams, x: F64Bits) -> u64 {
    clamp_bits(x.bits, p.min_output.bits, p.max_output.bits)
}

/// `x.clamp(-p.anti_windup_limit, p.anti_windup_limit)`.
pub open spec fn clamp_integral(p: PidParams, x: F64Bits) -> u64 {
    clamp_bits(x.bits, neg_bits(p.anti_windup_limit.bits), p.anti_windup_limit.bits)
}

pub struct PidController {
    params: PidParams,
    integral: F64Bits,
    prev_error: F64Bits,
    output: F64Bits,
    initialized: bool,
}

impl PidController {
    pub closed spec fn spec_params(&self) -> PidParams {
        self.params
    }

    pub closed spec fn spec_integral(&self) -> F64Bits {
        self.integral
    }

    pub closed spec fn spec_prev_error(&self) -> F64Bits {
        self.prev_error
    }

    pub closed spec fn spec_output(&self) -> F64Bits {
        self.output
    }

    pub closed spec fn spec_initialized(&self) -> bool {
        self.initialized
    }

    /// The output bounds are valid and hold the output; when the
    /// anti-windup limit is valid, it holds the integral.
    pub closed spec fn wf(&self) -> bool {
        &&& self.params.output_bounds_valid()
        &&& self.params.bounds_output(self.output)
        &&& self.params.windup_valid() ==> self.params.bounds_integral(self.integral)
    }

    /// A controller starting from `initial_output`, clamped to the bounds.
    pub fn new(params: PidParams, initial_output: F64Bits) -> (r: Self)
        requires
            params.output_bounds_valid(),
        ensures
            r.wf(),
            r.spec_params() == params,
            r.spec_output().bits == clamp_output(params, initial_output),
            r.spec_integral().bits == 0,
            r.spec_prev_error().bits == 0,
            !r.spec_initialized(),
    {
        let output = initial_output.clamp(params.min_output, params.max_output);
        proof {
            if !nan_bits(initial_output.bits) {
                lemma_clamp_within_bounds(initial_output.bits, params.min_output.bits, params.max_output.bits);
            }
            if params.windup_valid() {
                lemma_symmetric_bounds_hold_zero(params.anti_windup_limit.bits);
            }
        }
        PidController {
            params,
            integral: F64Bits { bits: 0 },
            prev_error: F64Bits { bits: 0 },
            output,
            initialized: false,
        }
    }

    pub fn output(&self) -> (r: F64Bits)
        ensures
            r == self.spec_output(),
    {
        self.output
    }

    pub fn integral(&self) -> (r: F64Bits)
        ensures
            r == self.spec_integral(),
    {
        self.integral
    }

    pub fn prev_error(&self) -> (r: F64Bits)
        ensures
            r == self.spec_prev_error(),
    {
        self.prev_error
    }

    pub fn params(&self) -> (r: PidParams)
        ensures
            r == self.spec_params(),
    {
        self.params
    }

    pub fn set_output(&mut self, value: F64Bits)
        requires
            old(self).wf(),
        ensures
            final(self).wf(),
            final(self).spec_output().bits == clamp_output(old(self).spec_params(), value),
            final(self).spec_params() == old(self).spec_params(),
            final(self).spec_integral() == old(self).spec_integral(),
            final(self).spec_prev_error() == old(self).spec_prev_error(),
            final(self).spec_initialized() == old(self).spec_initialized(),
    {
        proof {
            if !nan_bits(value.bits) {
                lemma_clamp_within_bounds(value.bits, self.params.min_output.bits, self.params.max_output.bits);
            }
        }
        self.output = value.clamp(self.params.min_output, self.params.max_output);
    }

    /// New gains and bounds; the integral and the output are clamped to the
    /// new bounds (`f64::clamp` panics unless both bounds are valid).
    pub fn update_params(&mut self, params: PidParams)
        requires
            old(self).wf(),
            params.output_bounds_valid(),
            params.windup_valid(),
        ensures
            final(self).wf(),
            final(self).spec_params() == params,
            final(self).spec_integral().bits == clamp_integral(params, old(self).spec_integral()),
            final(self).spec_output().bits == clamp_output(params, old(self).spec_output()),
            final(self).spec_prev_error() == old(self).spec_prev_error(),
            final(self).spec_initialized() == old(self).spec_initialized(),
    {
        let limit = params.anti_windup_limit;
        proof {
            if !nan_bits(self.integral.bits) {
                lemma_clamp_within_bounds(self.integral.bits, neg_bits(limit.bits), limit.bits);
            }
            if !nan_bits(self.output.bits) {
                lemma_clamp_within_bounds(self.output.bits, params.min_output.bits, params.max_output.bits);
            }
        }
        self.integral = self.integral.clamp(limit.neg(), limit);
        self.output = self.output.clamp(params.min_output, params.max_output);
        self.params = params;
    }

    /// Forget the integral and the previous error.
    pub fn reset(&mut self)
        requires
            old(self).wf(),
        ensures
            final(self).wf(),
            final(self).spec_integral().bits == 0,
            final(self).spec_prev_error().bits == 0,
            !final(self).spec_initialized(),
            final(self).spec_output() == old(self).spec_output(),
            final(self).spec_params() == old(self).spec_params(),
    {
        proof {
            if self.params.windup_valid() {
                lemma_symmetric_bounds_hold_zero(self.params.anti_windup_limit.bits);
            }
        }
        self.integral = F64Bits { bits: 0 };
        self.prev_error = F64Bits { bits: 0 };
        self.initialized = false;
    }

    /// An update with `dt <= 0.0` changes nothing and returns the output.
    pub fn skips_update(dt: F64Bits) -> (r: bool)
        ensures
            r == le_bits(dt.bits, 0),
    {
        F64Bits { bits: 0 }.ge(&dt)
    }

    /// The previous error the derivative is taken against: on the first
    /// update since a reset, the error itself.
    pub fn derivative_base(&self, error: F64Bits) -> (r: F64Bits)
        ensures
            r == (if self.spec_initialized() {
                self.spec_prev_error()
            } else {
                error
            }),
    {
        if self.initialized {
            self.prev_error
        } else {
            error
        }
    }

    /// The integral term bounded by the anti-windup limit (`f64::clamp`
    /// panics unless the limit is valid).
    pub fn windup_clamp(&self, raw_integral: F64Bits) -> (r: F64Bits)
        requires
            self.spec_params().windup_valid(),
        ensures
            r.bits == clamp_integral(self.spec_params(), raw_integral),
    {
        let limit = self.params.anti_windup_limit;
        raw_integral.clamp(limit.neg(), limit)
    }

    /// Finish an update: record the error, keep the integral within the
    /// anti-windup limit, and move the output to `raw_output` clamped to the
    /// bounds; the new output is returned.
    pub fn apply_update(&mut self, error: F64Bits, integral: F64Bits, raw_output: F64Bits) -> (r: F64Bits)
        requires
            old(self).wf(),
            old(self).spec_params().windup_valid(),
        ensures
            final(self).wf(),
            final(self).spec_initialized(),
            final(self).spec_prev_error() == error,
            final(self).spec_integral().bits == clamp_integral(old(self).spec_params(), integral),
            final(self).spec_output().bits == clamp_output(old(self).spec_params(), raw_output),
            final(self).spec_params() == old(self).spec_params(),
            r == final(self).spec_output(),
    {
        let limit = self.params.anti_windup_limit;
        proof {
            if !nan_bits(integral.bits) {
                lemma_clamp_within_bounds(integral.bits, neg_bits(limit.bits), limit.bits);
            }
            if !nan_bits(raw_output.bits) {
                lemma_clamp_within_bounds(raw_output.bits, self.params.min_output.bits, self.params.max_output.bits);
            }
        }
        self.integral = integral.clamp(limit.neg(), limit);
        self.prev_error = error;
        self.initialized = true;
        self.output = raw_output.clamp(self.params.min_output, self.params.max_output);
        self.output
    }
}

/// The output never leaves the configured bounds (unless it is a NaN), and
/// with a valid anti-windup limit neither does the integral: whatever
/// sequence of updates, parameter changes and resets produced the state.
pub proof fn lemma_pid_state_within_bounds(c: &PidController)
    requires
        c.wf(),
    ensures
        c.spec_params().bounds_output(c.spec_output()),
        c.spec_params().windup_valid() ==> c.spec_params().bounds_integral(c.spec_integral()),
{
}

} // verus!
