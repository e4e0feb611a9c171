//! The threshold controller: the state machine that decides, message by
//! message, whether a score is emitted, rejected or buffered, that keeps the
//! emission record from which the PID tick measures the actual rate, and
//! that owns the PID controller moving the threshold.
//!
//! The floating-point sums of a PID update run outside the library: a tick
//! reports how many emissions lie in the measurement window and whether the
//! PID is active, and the terms of the update are handed back with
//! `apply_pid_update`, which does every comparison and clamping step.  The
//! position of the warmup percentile is computed the same way and handed to
//! `check`.
use vstd::prelude::*;
use std::collections::VecDeque;
use crate::ieee::{F64Bits, le_bits, clamp_bits, lemma_clamp_within_bounds, nan_bits};
use crate::config::{Algorithm, Config};
use crate::metrics::{ControllerState, MetricUpdate, sets, set_controller_state, set_warmup_samples};
use crate::percentile::{select_percentile, percentile_pick};
use crate::pid::{PidController, clamp_output, clamp_integral};

verus! {

/// What happens to an incoming message.
#[derive(Clone, Copy, Debug, PartialEq, Eq, Structural)]
pub enum CheckResult {
    Emit,
    Reject,
    Buffer,
}

/// The state a controller starts in.
pub open spec fn initial_state(c: Config) -> ControllerState {
    if c.algorithm != Algorithm::Pid {
        ControllerState::Fixed
    } else if c.fallback_threshold is Some {
        ControllerState::ColdStart
    } else {
        ControllerState::Warmup
    }
}

/// The threshold a controller starts with: the fallback, or the midpoint of
/// the bounds.
pub open spec fn initial_threshold(c: Config, midpoint: F64Bits) -> F64Bits {
    match c.fallback_threshold {
        Some(t) => t,
        None => midpoint,
    }
}

/// `score >= threshold`, as `f64` compares.
pub open spec fn passes(score: F64Bits, threshold: F64Bits) -> bool {
    le_bits(threshold.bits, score.bits)
}

/// The decision for a score against a threshold.
pub open spec fn decision(score: F64Bits, threshold: F64Bits) -> CheckResult {
    if passes(score, threshold) {
        CheckResult::Emit
    } else {
        CheckResult::Reject
    }
}

/// An emission at `t` lies before the measurement window that ends at `now`.
pub open spec fn expired(t: u64, now: u64, window_ns: u64) -> bool {
    (t as int) + (window_ns as int) < (now as int)
}

/// How many emissions at the front of the record lie before the window.
pub open spec fn expired_prefix_len(s: Seq<u64>, now: u64, window_ns: u64) -> nat
    decreases s.len(),
{
    if s.len() > 0 && expired(s[0], now, window_ns) {
        1 + expired_prefix_len(s.drop_first(), now, window_ns)
    } else {
        0
    }
}

/// How many emissions of `s` lie within the measurement window that ends at
/// `now`: at or after `now - window_ns`.
pub open spec fn in_window(s: Seq<u64>, now: u64, window_ns: u64) -> nat
    decreases s.len(),
{
    if s.len() == 0 {
        0
    } else {
        (if expired(s[0], now, window_ns) { 0nat } else { 1nat }) + in_window(s.drop_first(), now, window_ns)
    }
}

/// The emissions counted at `now` are exactly those at or after
/// `now - window_ns`, whatever the window: `in_window` is the number of
/// entries `t` with `now <= t + window_ns`.
pub proof fn lemma_in_window_counts(s: Seq<u64>, now: u64, window_ns: u64)
    ensures
        in_window(s, now, window_ns) == s.filter(|t: u64| now as int <= t as int + window_ns as int).len(),
    decreases s.len(),
{
    let p = |t: u64| now as int <= t as int + window_ns as int;
    if s.len() > 0 {
        let head = seq![s[0]];
        let rest = s.drop_first();
        lemma_in_window_counts(rest, now, window_ns);
        assert(s =~= head + rest);
        Seq::filter_distributes_over_add(head, rest, p);
        assert(head.filter(p).len() == (if p(s[0]) { 1int } else { 0int })) by {
            reveal(Seq::filter);
            assert(head.drop_last() =~= Seq::<u64>::empty());
            assert(Seq::<u64>::empty().filter(p) =~= Seq::<u64>::empty());
        }
    } else {
        reveal(Seq::filter);
    }
}

/// The emission record is in time order.
pub open spec fn in_time_order(s: Seq<u64>) -> bool {
    forall|i: int, j: int| 0 <= i <= j < s.len() ==> #[trigger] s[i] <= #[trigger] s[j]
}

/// The time an emission at `now` is recorded at: `now`, or the latest
/// recorded time if the clock reads earlier than that.
pub open spec fn stamp(s: Seq<u64>, now: u64) -> u64 {
    if s.len() > 0 && s.last() > now {
        s.last()
    } else {
        now
    }
}

proof fn lemma_all_in_window(s: Seq<u64>, now: u64, window_ns: u64)
    requires
        forall|i: int| 0 <= i < s.len() ==> !expired(#[trigger] s[i], now, window_ns),
    ensures
        in_window(s, now, window_ns) == s.len(),
    decreases s.len(),
{
    if s.len() > 0 {
        assert(!expired(s[0], now, window_ns));
        assert forall|i: int| 0 <= i < s.drop_first().len() implies !expired(
            #[trigger] s.drop_first()[i],
            now,
            window_ns,
        ) by {
            assert(s.drop_first()[i] == s[i + 1]);
        }
        lemma_all_in_window(s.drop_first(), now, window_ns);
    }
}

/// In a record kept in time order the emissions before the window are
/// exactly a prefix: what is left after dropping that prefix is what lies
/// within the window.
pub proof fn lemma_window_after_prefix(s: Seq<u64>, now: u64, window_ns: u64)
    requires
        in_time_order(s),
    ensures
        expired_prefix_len(s, now, window_ns) + in_window(s, now, window_ns) == s.len(),
    decreases s.len(),
{
    if s.len() > 0 {
        let rest = s.drop_first();
        assert(in_time_order(rest)) by {
            assert forall|i: int, j: int| 0 <= i <= j < rest.len() implies #[trigger] rest[i] <= #[trigger] rest[j] by {
                assert(rest[i] == s[i + 1] && rest[j] == s[j + 1]);
            }
        }
        if expired(s[0], now, window_ns) {
            lemma_window_after_prefix(rest, now, window_ns);
        } else {
            assert forall|i: int| 0 <= i < s.len() implies !expired(#[trigger] s[i], now, window_ns) by {
                assert(s[0] <= s[i]);
            }
            lemma_all_in_window(s, now, window_ns);
        }
    }
}

/// The states a controller may move to: it stays, or it reaches `Pid` or
/// `Fixed`; `ColdStart` and `Warmup` are never entered again.
pub open spec fn step_allowed(before: ControllerState, after: ControllerState) -> bool {
    after == before || after == ControllerState::Pid || after == ControllerState::Fixed
}

/// What a tick measured.
#[derive(Clone, Copy, Debug)]
pub struct TickReport {
    /// Time since the previous tick (0 if the clock went back).
    pub elapsed_ns: u64,
    /// Emissions within the measurement window.
    pub emissions: usize,
    /// Whether the PID is to be updated with the measured rate.
    pub run_pid: bool,
}

enum Phase {
    ColdStart,
    Warmup { scores: Vec<F64Bits> },
    Pid,
    Fixed,
}

/// The adaptive threshold's state machine.
pub struct ThresholdController {
    state: Phase,
    pid: PidController,
    threshold: F64Bits,
    emission_timestamps: VecDeque<u64>,
    last_tick: u64,
    config: Config,
}

impl ThresholdController {
    pub closed spec fn phase(&self) -> ControllerState {
        match self.state {
            Phase::ColdStart => ControllerState::ColdStart,
            Phase::Warmup { .. } => ControllerState::Warmup,
            Phase::Pid => ControllerState::Pid,
            Phase::Fixed => ControllerState::Fixed,
        }
    }

    /// The scores collected during warmup (empty in other states).
    pub closed spec fn warmup_scores(&self) -> Seq<F64Bits> {
        match &self.state {
            Phase::Warmup { scores } => scores@,
            _ => Seq::empty(),
        }
    }

    pub closed spec fn current_threshold(&self) -> F64Bits {
        self.threshold
    }

    /// Times (ns) of the recorded emissions, oldest first.
    pub closed spec fn emissions(&self) -> Seq<u64> {
        self.emission_timestamps@
    }

    pub closed spec fn last_tick_ns(&self) -> u64 {
        self.last_tick
    }

    pub closed spec fn spec_config(&self) -> Config {
        self.config
    }

    pub closed spec fn spec_pid(&self) -> PidController {
        self.pid
    }

    /// The bounds are valid, the PID runs with the gains and bounds of the
    /// configuration, the controller is in `Fixed` exactly when the
    /// algorithm is not `pid`, and the emission record is in time order.
    pub closed spec fn wf(&self) -> bool {
        &&& self.config.bounds_valid()
        &&& self.pid.wf()
        &&& self.pid.spec_params() == self.config.spec_pid_params()
        &&& (self.phase() == ControllerState::Fixed) <==> (self.config.algorithm != Algorithm::Pid)
        &&& in_time_order(self.emission_timestamps@)
    }

    /// A controller for `config`; without a fallback the threshold starts
    /// at `midpoint`, halfway between the bounds.  The PID starts from the
    /// same threshold, clamped to the bounds.
    pub fn new(config: &Config, midpoint: F64Bits, now: u64) -> (r: Self)
        requires
            config.bounds_valid(),
        ensures
            r.wf(),
            r.spec_config() == *config,
            r.phase() == initial_state(*config),
            r.current_threshold() == initial_threshold(*config, midpoint),
            r.emissions() == Seq::<u64>::empty(),
            r.warmup_scores() == Seq::<F64Bits>::empty(),
            r.last_tick_ns() == now,
            r.spec_pid().spec_output().bits == clamp_output(
                config.spec_pid_params(),
                initial_threshold(*config, midpoint),
            ),
            r.spec_pid().spec_integral().bits == 0,
            r.spec_pid().spec_prev_error().bits == 0,
            !r.spec_pid().spec_initialized(),
    {
        let initial = match config.fallback_threshold {
            Some(t) => t,
            None => midpoint,
        };
        let state = match config.algorithm {
            Algorithm::Pid => match config.fallback_threshold {
                Some(_) => Phase::ColdStart,
                None => Phase::Warmup { scores: Vec::new() },
            },
            _ => Phase::Fixed,
        };
        ThresholdController {
            state,
            pid: PidController::new(config.pid_params(), initial),
            threshold: initial,
            emission_timestamps: VecDeque::new(),
            last_tick: now,
            config: *config,
        }
    }

    /// The controller's configuration.
    pub fn config(&self) -> (r: &Config)
        ensures
            *r == self.spec_config(),
    {
        &self.config
    }

    /// The PID controller that moves the threshold.
    pub fn pid(&self) -> (r: &PidController)
        ensures
            *r == self.spec_pid(),
    {
        &self.pid
    }

    pub fn threshold(&self) -> (r: F64Bits)
        ensures
            r == self.current_threshold(),
    {
        self.threshold
    }

    /// Decide on a message with this score, arriving at `now`.
    ///
    /// During warmup the score is collected; once `warmup_samples` scores are
    /// in, the threshold becomes the score at position `warmup_index` of the
    /// sorted samples, clamped to the bounds, the PID output is set to it and
    /// the PID takes over.
    pub fn check(&mut self, score: F64Bits, now: u64, warmup_index: usize) -> (r: CheckResult)
        requires
            old(self).wf(),
        ensures
            final(self).wf(),
            final(self).spec_config() == old(self).spec_config(),
            step_allowed(old(self).phase(), final(self).phase()),
            old(self).spec_config().algorithm.spec_is_buffered() ==> {
                &&& r == CheckResult::Buffer
                &&& final(self).phase() == old(self).phase()
                &&& final(self).current_threshold() == old(self).current_threshold()
                &&& final(self).emissions() == old(self).emissions()
                &&& final(self).warmup_scores() == old(self).warmup_scores()
                &&& final(self).last_tick_ns() == old(self).last_tick_ns()
                &&& final(self).spec_pid() == old(self).spec_pid()
            },
            !old(self).spec_config().algorithm.spec_is_buffered() && old(self).phase()
                == ControllerState::Warmup ==> {
                let scores = old(self).warmup_scores().push(score);
                let c = old(self).spec_config();
                &&& final(self).emissions() == old(self).emissions()
                &&& if scores.len() >= c.warmup_samples {
                    &&& final(self).phase() == ControllerState::Pid
                    &&& final(self).warmup_scores() == Seq::<F64Bits>::empty()
                    &&& final(self).current_threshold().bits == clamp_bits(
                        percentile_pick(scores, warmup_index as int).bits,
                        c.min_threshold.bits,
                        c.max_threshold.bits,
                    )
                    &&& final(self).last_tick_ns() == now
                    &&& final(self).spec_pid().spec_output().bits == clamp_output(
                        c.spec_pid_params(),
                        final(self).current_threshold(),
                    )
                    &&& final(self).spec_pid().spec_integral() == old(self).spec_pid().spec_integral()
                    &&& final(self).spec_pid().spec_prev_error() == old(
                        self,
                    ).spec_pid().spec_prev_error()
                    &&& final(self).spec_pid().spec_initialized() == old(
                        self,
                    ).spec_pid().spec_initialized()
                } else {
                    &&& final(self).phase() == ControllerState::Warmup
                    &&& final(self).warmup_scores() == scores
                    &&& final(self).current_threshold() == old(self).current_threshold()
                    &&& final(self).last_tick_ns() == old(self).last_tick_ns()
                    &&& final(self).spec_pid() == old(self).spec_pid()
                }
                &&& r == decision(score, final(self).current_threshold())
            },
            !old(self).spec_config().algorithm.spec_is_buffered() && old(self).phase()
                != ControllerState::Warmup ==> {
                &&& r == decision(score, old(self).current_threshold())
                &&& final(self).emissions() == (if r == CheckResult::Emit {
                    old(self).emissions().push(stamp(old(self).emissions(), now))
                } else {
                    old(self).emissions()
                })
                &&& final(self).phase() == old(self).phase()
                &&& final(self).current_threshold() == old(self).current_threshold()
                &&& final(self).warmup_scores() == old(self).warmup_scores()
                &&& final(self).last_tick_ns() == old(self).last_tick_ns()
                &&& final(self).spec_pid() == old(self).spec_pid()
            },
    {
        if self.config.algorithm.is_buffered() {
            return CheckResult::Buffer;
        }
        let mut st = Phase::Pid;
        std::mem::swap(&mut st, &mut self.state);
        match st {
            Phase::Warmup { mut scores } => {
                scores.push(score);
                if scores.len() as u64 >= self.config.warmup_samples {
                    let picked = select_percentile(&mut scores, warmup_index);
                    match picked {
                        Some(t) => {
                            self.threshold = t.clamp(self.config.min_threshold, self.config.max_threshold);
                        },
                        None => {},
                    }
                    self.pid.set_output(self.threshold);
                    self.state = Phase::Pid;
                    self.last_tick = now;
                } else {
                    self.state = Phase::Warmup { scores };
                }
                if score.ge(&self.threshold) {
                    CheckResult::Emit
                } else {
                    CheckResult::Reject
                }
            },
            other => {
                self.state = other;
                if score.ge(&self.threshold) {
                    let t = self.emission_time(now);
                    self.emission_timestamps.push_back(t);
                    CheckResult::Emit
                } else {
                    CheckResult::Reject
                }
            },
        }
    }

    /// The time an emission at `now` is recorded at.
    fn emission_time(&self, now: u64) -> (t: u64)
        requires
            self.wf(),
        ensures
            t == stamp(self.emissions(), now),
            forall|i: int| 0 <= i < self.emissions().len() ==> #[trigger] self.emissions()[i] <= t,
    {
        let n = self.emission_timestamps.len();
        if n > 0 && self.emission_timestamps[n - 1] > now {
            self.emission_timestamps[n - 1]
        } else {
            now
        }
    }

    /// Record that a message was emitted at `now` (the buffer drainer calls
    /// this in the buffered modes, so that the rate measurement stays right).
    /// A clock that reads earlier than the latest emission is taken as not
    /// having moved, so the record stays in time order.
    pub fn record_emission(&mut self, now: u64)
        requires
            old(self).wf(),
        ensures
            final(self).wf(),
            final(self).emissions() == old(self).emissions().push(stamp(old(self).emissions(), now)),
            final(self).spec_config() == old(self).spec_config(),
            final(self).spec_pid() == old(self).spec_pid(),
            final(self).phase() == old(self).phase(),
            final(self).current_threshold() == old(self).current_threshold(),
            final(self).warmup_scores() == old(self).warmup_scores(),
            final(self).last_tick_ns() == old(self).last_tick_ns(),
    {
        let t = self.emission_time(now);
        self.emission_timestamps.push_back(t);
    }

    /// The PID tick at `now`: forget emissions older than the measurement
    /// window, count the rest (the emissions at or after `now - window_ns`),
    /// and leave cold start once an emission is seen.
    pub fn tick(&mut self, now: u64, window_ns: u64) -> (r: TickReport)
        requires
            old(self).wf(),
        ensures
            final(self).wf(),
            final(self).spec_config() == old(self).spec_config(),
            final(self).spec_pid() == old(self).spec_pid(),
            step_allowed(old(self).phase(), final(self).phase()),
            r.elapsed_ns == (if now >= old(self).last_tick_ns() {
                now - old(self).last_tick_ns()
            } else {
                0
            }),
            final(self).last_tick_ns() == now,
            final(self).emissions() == old(self).emissions().skip(
                expired_prefix_len(old(self).emissions(), now, window_ns) as int,
            ),
            r.emissions == final(self).emissions().len(),
            r.emissions == in_window(old(self).emissions(), now, window_ns),
            final(self).phase() == (if old(self).phase() == ControllerState::ColdStart
                && r.emissions > 0 {
                ControllerState::Pid
            } else {
                old(self).phase()
            }),
            r.run_pid == (old(self).phase() == ControllerState::Pid),
            final(self).current_threshold() == old(self).current_threshold(),
            final(self).warmup_scores() == old(self).warmup_scores(),
    {
        let elapsed = now.saturating_sub(self.last_tick);
        self.last_tick = now;
        let ghost orig = self.emission_timestamps@;
        let ghost mut removed: int = 0;
        assert(orig.skip(0) =~= orig);
        while self.emission_timestamps.len() > 0 && (self.emission_timestamps[0] as u128) + (
        window_ns as u128) < (now as u128)
            invariant
                self.config == old(self).config,
                self.pid == old(self).pid,
                self.threshold == old(self).threshold,
                self.last_tick == now,
                self.phase() == old(self).phase(),
                self.warmup_scores() == old(self).warmup_scores(),
                self.wf(),
                orig == old(self).emission_timestamps@,
                0 <= removed <= orig.len(),
                self.emission_timestamps@ == orig.skip(removed),
                expired_prefix_len(orig, now, window_ns) == removed + expired_prefix_len(
                    orig.skip(removed),
                    now,
                    window_ns,
                ),
            decreases self.emission_timestamps@.len(),
        {
            let ghost cur = self.emission_timestamps@;
            self.emission_timestamps.pop_front();
            proof {
                assert(cur.drop_first() =~= orig.skip(removed + 1));
                let now_s = self.emission_timestamps@;
                assert forall|i: int, j: int| 0 <= i <= j < now_s.len() implies #[trigger] now_s[i]
                    <= #[trigger] now_s[j] by {
                    assert(now_s[i] == cur[i + 1] && now_s[j] == cur[j + 1]);
                }
                removed = removed + 1;
                assert(self.emission_timestamps@ =~= orig.skip(removed));
            }
        }
        let count = self.emission_timestamps.len();
        proof {
            lemma_window_after_prefix(orig, now, window_ns);
        }
        let run_pid = match self.state {
            Phase::Pid => true,
            _ => false,
        };
        let leave_cold_start = match self.state {
            Phase::ColdStart => count > 0,
            _ => false,
        };
        if leave_cold_start {
            self.state = Phase::Pid;
        }
        TickReport { elapsed_ns: elapsed, emissions: count, run_pid }
    }

    /// Finish the PID update of a tick that measured `error` after `dt`
    /// seconds, and make its output the threshold.  With `dt <= 0.0` the PID
    /// is left as it is; otherwise `integral` (the integral term before the
    /// anti-windup limit) and `raw_output` (the output before the bounds) are
    /// the update's sums, which `apply_update` records and clamps.
    pub fn apply_pid_update(&mut self, dt: F64Bits, error: F64Bits, integral: F64Bits, raw_output: F64Bits) -> (r: F64Bits)
        requires
            old(self).wf(),
            old(self).phase() == ControllerState::Pid,
            le_bits(dt.bits, 0) || old(self).spec_config().spec_pid_params().windup_valid(),
        ensures
            final(self).wf(),
            le_bits(dt.bits, 0) ==> final(self).spec_pid() == old(self).spec_pid(),
            !le_bits(dt.bits, 0) ==> {
                let p = old(self).spec_config().spec_pid_params();
                &&& final(self).spec_pid().spec_initialized()
                &&& final(self).spec_pid().spec_prev_error() == error
                &&& final(self).spec_pid().spec_integral().bits == clamp_integral(p, integral)
                &&& final(self).spec_pid().spec_output().bits == clamp_output(p, raw_output)
                &&& final(self).spec_pid().spec_params() == p
            },
            r == final(self).spec_pid().spec_output(),
            final(self).current_threshold() == r,
            final(self).spec_config() == old(self).spec_config(),
            final(self).phase() == old(self).phase(),
            final(self).emissions() == old(self).emissions(),
            final(self).warmup_scores() == old(self).warmup_scores(),
            final(self).last_tick_ns() == old(self).last_tick_ns(),
    {
        let out = if PidController::skips_update(dt) {
            self.pid.output()
        } else {
            self.pid.apply_update(error, integral, raw_output)
        };
        self.threshold = out;
        out
    }

    /// Take a new configuration.  The PID takes the new gains and bounds.
    /// Switching to `fixed` or a buffered mode installs the fallback
    /// threshold (if one is set); switching back to `pid` resumes the PID
    /// from the current threshold, with its integral and previous error
    /// forgotten.
    pub fn update_config(&mut self, config: &Config)
        requires
            old(self).wf(),
            config.bounds_valid(),
            config.spec_pid_params().windup_valid(),
        ensures
            final(self).wf(),
            final(self).spec_config() == *config,
            step_allowed(old(self).phase(), final(self).phase()),
            final(self).emissions() == old(self).emissions(),
            final(self).last_tick_ns() == old(self).last_tick_ns(),
            final(self).spec_pid().spec_params() == config.spec_pid_params(),
            config.algorithm != Algorithm::Pid ==> {
                &&& final(self).phase() == ControllerState::Fixed
                &&& final(self).current_threshold() == (match config.fallback_threshold {
                    Some(t) => t,
                    None => old(self).current_threshold(),
                })
                &&& final(self).warmup_scores() == Seq::<F64Bits>::empty()
            },
            config.algorithm == Algorithm::Pid && old(self).spec_config().algorithm != Algorithm::Pid ==> {
                &&& final(self).phase() == ControllerState::Pid
                &&& final(self).current_threshold() == old(self).current_threshold()
                &&& final(self).warmup_scores() == Seq::<F64Bits>::empty()
                &&& final(self).spec_pid().spec_output().bits == clamp_output(
                    config.spec_pid_params(),
                    old(self).current_threshold(),
                )
                &&& final(self).spec_pid().spec_integral().bits == 0
                &&& final(self).spec_pid().spec_prev_error().bits == 0
                &&& !final(self).spec_pid().spec_initialized()
            },
            config.algorithm == Algorithm::Pid && old(self).spec_config().algorithm == Algorithm::Pid ==> {
                &&& final(self).phase() == old(self).phase()
                &&& final(self).current_threshold() == old(self).current_threshold()
                &&& final(self).warmup_scores() == old(self).warmup_scores()
            },
            !(config.algorithm == Algorithm::Pid && old(self).spec_config().algorithm != Algorithm::Pid) ==> {
                &&& final(self).spec_pid().spec_integral().bits == clamp_integral(
                    config.spec_pid_params(),
                    old(self).spec_pid().spec_integral(),
                )
                &&& final(self).spec_pid().spec_output().bits == clamp_output(
                    config.spec_pid_params(),
                    old(self).spec_pid().spec_output(),
                )
                &&& final(self).spec_pid().spec_prev_error() == old(self).spec_pid().spec_prev_error()
                &&& final(self).spec_pid().spec_initialized() == old(
                    self,
                ).spec_pid().spec_initialized()
            },
    {
        let old_algorithm = self.config.algorithm;
        self.config = *config;
        self.pid.update_params(config.pid_params());
        match config.algorithm {
            Algorithm::Pid => {
                match old_algorithm {
                    Algorithm::Pid => {},
                    _ => {
                        self.pid.set_output(self.threshold);
                        self.pid.reset();
                        self.state = Phase::Pid;
                    },
                }
            },
            _ => {
                match config.fallback_threshold {
                    Some(t) => {
                        self.threshold = t;
                    },
                    None => {},
                }
                self.state = Phase::Fixed;
            },
        }
    }

    /// Whether scores are being collected for the warmup percentile.
    pub fn is_buffering(&self) -> (r: bool)
        ensures
            r == (self.phase() == ControllerState::Warmup),
    {
        match self.state {
            Phase::Warmup { .. } => true,
            _ => false,
        }
    }

    /// How many warmup scores are collected.
    pub fn warmup_len(&self) -> (r: usize)
        ensures
            r == self.warmup_scores().len(),
    {
        match &self.state {
            Phase::Warmup { scores } => scores.len(),
            _ => 0,
        }
    }

    pub fn controller_state(&self) -> (r: ControllerState)
        ensures
            r == self.phase(),
    {
        match self.state {
            Phase::ColdStart => ControllerState::ColdStart,
            Phase::Warmup { .. } => ControllerState::Warmup,
            Phase::Pid => ControllerState::Pid,
            Phase::Fixed => ControllerState::Fixed,
        }
    }

    /// The state's name, as written in the `Flowgate-State` header.
    pub fn state_name(&self) -> (r: &'static str)
        ensures
            r@ == (match self.phase() {
                ControllerState::ColdStart => "cold_start"@,
                ControllerState::Warmup => "warmup"@,
                ControllerState::Pid => "pid"@,
                ControllerState::Fixed => "fixed"@,
            }),
    {
        match self.state {
            Phase::ColdStart => "cold_start",
            Phase::Warmup { .. } => "warmup",
            Phase::Pid => "pid",
            Phase::Fixed => "fixed",
        }
    }
}

/// The metric updates of a check that found the controller in `before` and
/// left it in `after`, with `samples` warmup scores collected by it (the
/// threshold gauge, an `f64`, is set by the caller): during warmup the
/// sample count, and on leaving warmup the new controller state.  The
/// buffered modes collect nothing.
pub fn check_metric_updates(before: ControllerState, after: ControllerState, buffered: bool, samples: u64) -> (r:
    Vec<MetricUpdate>)
    ensures
        (buffered || before != ControllerState::Warmup) ==> r@.len() == 0,
        !buffered && before == ControllerState::Warmup && after == ControllerState::Warmup ==> {
            &&& r@.len() == 1
            &&& sets(r@[0], "flowgate_warmup_samples_collected"@, samples)
        },
        !buffered && before == ControllerState::Warmup && after != ControllerState::Warmup ==> {
            &&& r@.len() == 2
            &&& sets(r@[0], "flowgate_warmup_samples_collected"@, samples)
            &&& sets(r@[1], "flowgate_controller_state"@, after.spec_code())
        },
{
    let mut r: Vec<MetricUpdate> = Vec::new();
    let warming = match before {
        ControllerState::Warmup => !buffered,
        _ => false,
    };
    if warming {
        r.push(set_warmup_samples(samples));
        match after {
            ControllerState::Warmup => {},
            _ => {
                r.push(set_controller_state(after));
            },
        }
    }
    r
}

/// In a well-formed controller the state is `Fixed` exactly when the
/// algorithm is not `pid`: switching to `fixed` or a buffered mode freezes
/// the threshold at once, and the PID only ever runs in `pid` mode.
pub proof fn lemma_fixed_iff_not_pid(c: &ThresholdController)
    requires
        c.wf(),
    ensures
        (c.phase() == ControllerState::Fixed) <==> (c.spec_config().algorithm != Algorithm::Pid),
{
}

/// The PID of a well-formed controller runs with the gains and bounds of the
/// controller's configuration, and its output never leaves
/// `[min_threshold, max_threshold]` (unless it is a NaN), whatever sequence
/// of checks, ticks, updates and configuration changes led there.
pub proof fn lemma_pid_within_thresholds(c: &ThresholdController)
    requires
        c.wf(),
    ensures
        c.spec_pid().spec_params() == c.spec_config().spec_pid_params(),
        nan_bits(c.spec_pid().spec_output().bits) || (le_bits(
            c.spec_config().min_threshold.bits,
            c.spec_pid().spec_output().bits,
        ) && le_bits(c.spec_pid().spec_output().bits, c.spec_config().max_threshold.bits)),
{
    crate::pid::lemma_pid_state_within_bounds(&c.pid);
}

/// A score is emitted exactly when it is at least the threshold: a score
/// equal to the threshold is emitted, one below it is rejected, and a NaN
/// score or threshold is never emitted.
pub proof fn lemma_decision_at_threshold(score: F64Bits, t: F64Bits)
    ensures
        !nan_bits(t.bits) ==> decision(t, t) == CheckResult::Emit,
        crate::ieee::lt_bits(score.bits, t.bits) ==> decision(score, t) == CheckResult::Reject,
        (nan_bits(score.bits) || nan_bits(t.bits)) ==> decision(score, t) == CheckResult::Reject,
        !nan_bits(score.bits) && !nan_bits(t.bits) && !(crate::ieee::zero_bits(score.bits) && crate::ieee::zero_bits(
            t.bits,
        )) ==> (decision(score, t) == CheckResult::Emit <==> crate::ieee::order_key_of(t.bits)
            <= crate::ieee::order_key_of(score.bits)),
{
    if !nan_bits(score.bits) && !nan_bits(t.bits) && !(crate::ieee::zero_bits(score.bits) && crate::ieee::zero_bits(
        t.bits,
    )) {
        crate::ieee::lemma_order_key_le(t.bits, score.bits);
    }
}

/// A score that passes a threshold keeps passing when it is higher, or when
/// the threshold is lower: emission is monotone in the score and antitone in
/// the threshold.
pub proof fn lemma_decision_monotone(a: F64Bits, b: F64Bits, t: F64Bits, u: F64Bits)
    requires
        le_bits(a.bits, b.bits),
        le_bits(u.bits, t.bits),
        decision(a, t) == CheckResult::Emit,
    ensures
        decision(b, t) == CheckResult::Emit,
        decision(a, u) == CheckResult::Emit,
        decision(b, u) == CheckResult::Emit,
{
}

/// A threshold computed at the end of warmup lies within the configured
/// bounds (unless the picked score is a NaN).
pub proof fn lemma_warmup_threshold_within_bounds(s: Config, scores: Seq<F64Bits>, index: int)
    requires
        s.bounds_valid(),
        !nan_bits(percentile_pick(scores, index).bits),
    ensures
        le_bits(s.min_threshold.bits, clamp_bits(percentile_pick(scores, index).bits, s.min_threshold.bits, s.max_threshold.bits)),
        le_bits(clamp_bits(percentile_pick(scores, index).bits, s.min_threshold.bits, s.max_threshold.bits), s.max_threshold.bits),
{
    lemma_clamp_within_bounds(percentile_pick(scores, index).bits, s.min_threshold.bits, s.max_threshold.bits);
}

} // verus!
