//! Configuration values that the library decides on: the algorithm, the
//! values written in the KV bucket that name it, and the pipeline wiring.
use vstd::prelude::*;
use vstd::string::StringSliceAdditionalSpecFns;
use crate::ieee::F64Bits;
use crate::pid::PidParams;
use crate::text::{parse_u64, spec_parse_u64, str_eq};

verus! {

/// The name of the KV bucket that holds the live configuration.
pub const KV_BUCKET: &'static str = "flowgate-config";

/// How messages are admitted.
#[derive(Clone, Copy, Debug, PartialEq, Eq, Structural)]
pub enum Algorithm {
    /// Adaptive threshold driven by a PID controller.
    Pid,
    /// Static threshold (`fallback_threshold`).
    Fixed,
    /// Windowed best-of-N from the buffer.
    BufferedBatch,
    /// Priority-queue drain from the buffer.
    BufferedStreaming,
}

/// The algorithm that a KV value names, if any.
pub open spec fn algorithm_named(value: Seq<char>) -> Option<Algorithm> {
    if value == "pid"@ {
        Some(Algorithm::Pid)
    } else if value == "fixed"@ {
        Some(Algorithm::Fixed)
    } else if value == "buffered_batch"@ {
        Some(Algorithm::BufferedBatch)
    } else if value == "buffered_streaming"@ {
        Some(Algorithm::BufferedStreaming)
    } else {
        None
    }
}

impl Algorithm {
    /// The name under which the algorithm is configured.
    pub open spec fn spec_name(self) -> Seq<char> {
        match self {
            Algorithm::Pid => "pid"@,
            Algorithm::Fixed => "fixed"@,
            Algorithm::BufferedBatch => "buffered_batch"@,
            Algorithm::BufferedStreaming => "buffered_streaming"@,
        }
    }

    pub open spec fn spec_is_buffered(self) -> bool {
        self is BufferedBatch || self is BufferedStreaming
    }

    /// Whether every message goes through the buffer.
    pub fn is_buffered(&self) -> (r: bool)
        ensures
            r == self.spec_is_buffered(),
    {
        match self {
            Algorithm::BufferedBatch | Algorithm::BufferedStreaming => true,
            _ => false,
        }
    }

    /// Parse the value of the `algorithm` key; unknown values give `None`.
    pub fn from_kv(value: &str) -> (r: Option<Algorithm>)
        ensures
            r == algorithm_named(value@),
    {
        if str_eq(value, "pid") {
            Some(Algorithm::Pid)
        } else if str_eq(value, "fixed") {
            Some(Algorithm::Fixed)
        } else if str_eq(value, "buffered_batch") {
            Some(Algorithm::BufferedBatch)
        } else if str_eq(value, "buffered_streaming") {
            Some(Algorithm::BufferedStreaming)
        } else {
            None
        }
    }

    /// The name under which the algorithm is configured.
    pub fn as_str(&self) -> (r: &'static str)
        ensures
            r@ == self.spec_name(),
    {
        match self {
            Algorithm::Pid => "pid",
            Algorithm::Fixed => "fixed",
            Algorithm::BufferedBatch => "buffered_batch",
            Algorithm::BufferedStreaming => "buffered_streaming",
        }
    }
}

/// Each algorithm is read back from the name it is written under.
pub proof fn lemma_algorithm_name_round_trip(a: Algorithm)
    ensures
        algorithm_named(a.spec_name()) == Some(a),
{
    reveal_strlit("pid");
    reveal_strlit("fixed");
    reveal_strlit("buffered_batch");
    reveal_strlit("buffered_streaming");
    assert("pid"@.len() == 3);
    assert("fixed"@.len() == 5);
    assert("buffered_batch"@.len() == 14);
    assert("buffered_streaming"@.len() == 18);
}

/// A `fallback_threshold` value that clears the fallback: empty or "none".
pub fn is_none_marker(value: &str) -> (r: bool)
    ensures
        r == (value@.len() == 0 || value@ == "none"@),
{
    value.is_empty() || str_eq(value, "none")
}

/// The service configuration. Rates, gains and thresholds are `f64` values,
/// held as their bit patterns.
#[derive(Clone, Copy, Debug)]
pub struct Config {
    /// Target emissions per second.
    pub target_rate: F64Bits,
    /// Window for measuring the actual rate, in seconds.
    pub measurement_window_secs: F64Bits,
    pub kp: F64Bits,
    pub ki: F64Bits,
    pub kd: F64Bits,
    /// Threshold for cold start and for the fixed and buffered modes.
    pub fallback_threshold: Option<F64Bits>,
    pub min_threshold: F64Bits,
    pub max_threshold: F64Bits,
    pub algorithm: Algorithm,
    /// Samples needed for the percentile warmup.
    pub warmup_samples: u64,
    /// Bound of the PID integral term.
    pub anti_windup_limit: F64Bits,
    pub pid_interval_ms: u64,
    /// Longest time a message may wait in the buffer.
    pub max_buffer_duration_ms: u64,
    /// Period of the streaming drain.
    pub drain_interval_ms: u64,
    /// Quality floor of the streaming drain.
    pub min_quality_score: F64Bits,
    /// Publish latency above which the streaming drain pauses.
    pub backpressure_threshold_ms: u64,
}

/// Every key the configuration reads from the bucket.
pub const CONFIG_KEYS: [&'static str; 16] = [
    "target_rate",
    "measurement_window_secs",
    "kp",
    "ki",
    "kd",
    "fallback_threshold",
    "min_threshold",
    "max_threshold",
    "algorithm",
    "warmup_samples",
    "anti_windup_limit",
    "pid_interval_ms",
    "max_buffer_duration_ms",
    "drain_interval_ms",
    "min_quality_score",
    "backpressure_threshold_ms",
];

/// What a KV entry did to the configuration.
#[derive(Clone, Copy, Debug, PartialEq, Eq, Structural)]
pub enum KvOutcome {
    /// The value was taken.
    Applied,
    /// The key is known but the value could not be read; nothing changed.
    Ignored,
    /// The key is not a configuration key; nothing changed.
    UnknownKey,
}

/// The number a KV value holds, read as `f64` (`None` if it is not one).
pub open spec fn number_or(current: F64Bits, number: Option<F64Bits>) -> F64Bits {
    match number {
        Some(v) => v,
        None => current,
    }
}

pub open spec fn u64_or(current: u64, value: &str) -> u64 {
    match spec_parse_u64(value.spec_bytes()) {
        Some(v) => v,
        None => current,
    }
}

/// The configuration after the entry `key = value`, where `number` is the
/// value read as an `f64`: a numeric key takes the number when there is one,
/// an unsigned key takes the value when it is a `u64`, `fallback_threshold`
/// is cleared by "" or "none", `algorithm` takes a known algorithm name;
/// anything else leaves the configuration as it was.
pub open spec fn config_after(c: Config, key: Seq<char>, value: &str, number: Option<F64Bits>) -> Config {
    if key == "target_rate"@ {
        Config { target_rate: number_or(c.target_rate, number), ..c }
    } else if key == "measurement_window_secs"@ {
        Config { measurement_window_secs: number_or(c.measurement_window_secs, number), ..c }
    } else if key == "kp"@ {
        Config { kp: number_or(c.kp, number), ..c }
    } else if key == "ki"@ {
        Config { ki: number_or(c.ki, number), ..c }
    } else if key == "kd"@ {
        Config { kd: number_or(c.kd, number), ..c }
    } else if key == "fallback_threshold"@ {
        if value@.len() == 0 || value@ == "none"@ {
            Config { fallback_threshold: None, ..c }
        } else {
            match number {
                Some(v) => Config { fallback_threshold: Some(v), ..c },
                None => c,
            }
        }
    } else if key == "min_threshold"@ {
        Config { min_threshold: number_or(c.min_threshold, number), ..c }
    } else if key == "max_threshold"@ {
        Config { max_threshold: number_or(c.max_threshold, number), ..c }
    } else if key == "algorithm"@ {
        match algorithm_named(value@) {
            Some(a) => Config { algorithm: a, ..c },
            None => c,
        }
    } else if key == "warmup_samples"@ {
        Config { warmup_samples: u64_or(c.warmup_samples, value), ..c }
    } else if key == "anti_windup_limit"@ {
        Config { anti_windup_limit: number_or(c.anti_windup_limit, number), ..c }
    } else if key == "pid_interval_ms"@ {
        Config { pid_interval_ms: u64_or(c.pid_interval_ms, value), ..c }
    } else if key == "max_buffer_duration_ms"@ {
        Config { max_buffer_duration_ms: u64_or(c.max_buffer_duration_ms, value), ..c }
    } else if key == "drain_interval_ms"@ {
        Config { drain_interval_ms: u64_or(c.drain_interval_ms, value), ..c }
    } else if key == "min_quality_score"@ {
        Config { min_quality_score: number_or(c.min_quality_score, number), ..c }
    } else if key == "backpressure_threshold_ms"@ {
        Config { backpressure_threshold_ms: u64_or(c.backpressure_threshold_ms, value), ..c }
    } else {
        c
    }
}

/// Taken when there is a value to take.
pub open spec fn taken_if(ok: bool) -> KvOutcome {
    if ok {
        KvOutcome::Applied
    } else {
        KvOutcome::Ignored
    }
}

/// Whether the entry `key = value` is taken: an unknown key never is, and a
/// known key is when its value reads as the value's type (`fallback_threshold`
/// also takes "" and "none", `algorithm` takes an algorithm name).
pub open spec fn entry_outcome(key: Seq<char>, value: &str, number: Option<F64Bits>) -> KvOutcome {
    let num = taken_if(number is Some);
    let unsigned = taken_if(spec_parse_u64(value.spec_bytes()) is Some);
    if key == "target_rate"@ || key == "measurement_window_secs"@ || key == "kp"@ || key == "ki"@ || key == "kd"@ {
        num
    } else if key == "fallback_threshold"@ {
        taken_if(value@.len() == 0 || value@ == "none"@ || number is Some)
    } else if key == "min_threshold"@ || key == "max_threshold"@ {
        num
    } else if key == "algorithm"@ {
        taken_if(algorithm_named(value@) is Some)
    } else if key == "warmup_samples"@ {
        unsigned
    } else if key == "anti_windup_limit"@ {
        num
    } else if key == "pid_interval_ms"@ || key == "max_buffer_duration_ms"@ || key == "drain_interval_ms"@ {
        unsigned
    } else if key == "min_quality_score"@ {
        num
    } else if key == "backpressure_threshold_ms"@ {
        unsigned
    } else {
        KvOutcome::UnknownKey
    }
}

/// Whether `key` is one of the configuration keys.
pub open spec fn known_key(key: Seq<char>) -> bool {
    exists|i: int| 0 <= i < 16 && #[trigger] CONFIG_KEYS[i]@ == key
}

/// The configuration keys are different words.
proof fn lemma_config_keys_differ()
    ensures
        "measurement_window_secs"@ != "target_rate"@,
        "kp"@ != "target_rate"@,
        "kp"@ != "measurement_window_secs"@,
        "ki"@ != "target_rate"@,
        "ki"@ != "measurement_window_secs"@,
        "ki"@ != "kp"@,
        "kd"@ != "target_rate"@,
        "kd"@ != "measurement_window_secs"@,
        "kd"@ != "kp"@,
        "kd"@ != "ki"@,
        "fallback_threshold"@ != "target_rate"@,
        "fallback_threshold"@ != "measurement_window_secs"@,
        "fallback_threshold"@ != "kp"@,
        "fallback_threshold"@ != "ki"@,
        "fallback_threshold"@ != "kd"@,
        "min_threshold"@ != "target_rate"@,
        "min_threshold"@ != "measurement_window_secs"@,
        "min_threshold"@ != "kp"@,
        "min_threshold"@ != "ki"@,
        "min_threshold"@ != "kd"@,
        "min_threshold"@ != "fallback_threshold"@,
        "max_threshold"@ != "target_rate"@,
        "max_threshold"@ != "measurement_window_secs"@,
        "max_threshold"@ != "kp"@,
        "max_threshold"@ != "ki"@,
        "max_threshold"@ != "kd"@,
        "max_threshold"@ != "fallback_threshold"@,
        "max_threshold"@ != "min_threshold"@,
        "algorithm"@ != "target_rate"@,
        "algorithm"@ != "measurement_window_secs"@,
        "algorithm"@ != "kp"@,
        "algorithm"@ != "ki"@,
        "algorithm"@ != "kd"@,
        "algorithm"@ != "fallback_threshold"@,
        "algorithm"@ != "min_threshold"@,
        "algorithm"@ != "max_threshold"@,
        "warmup_samples"@ != "target_rate"@,
        "warmup_samples"@ != "measurement_window_secs"@,
        "warmup_samples"@ != "kp"@,
        "warmup_samples"@ != "ki"@,
        "warmup_samples"@ != "kd"@,
        "warmup_samples"@ != "fallback_threshold"@,
        "warmup_samples"@ != "min_threshold"@,
        "warmup_samples"@ != "max_threshold"@,
        "warmup_samples"@ != "algorithm"@,
        "anti_windup_limit"@ != "target_rate"@,
        "anti_windup_limit"@ != "measurement_window_secs"@,
        "anti_windup_limit"@ != "kp"@,
        "anti_windup_limit"@ != "ki"@,
        "anti_windup_limit"@ != "kd"@,
        "anti_windup_limit"@ != "fallback_threshold"@,
        "anti_windup_limit"@ != "min_threshold"@,
        "anti_windup_limit"@ != "max_threshold"@,
        "anti_windup_limit"@ != "algorithm"@,
        "anti_windup_limit"@ != "warmup_samples"@,
        "pid_interval_ms"@ != "target_rate"@,
        "pid_interval_ms"@ != "measurement_window_secs"@,
        "pid_interval_ms"@ != "kp"@,
        "pid_interval_ms"@ != "ki"@,
        "pid_interval_ms"@ != "kd"@,
        "pid_interval_ms"@ != "fallback_threshold"@,
        "pid_interval_ms"@ != "min_threshold"@,
        "pid_interval_ms"@ != "max_threshold"@,
        "pid_interval_ms"@ != "algorithm"@,
        "pid_interval_ms"@ != "warmup_samples"@,
        "pid_interval_ms"@ != "anti_windup_limit"@,
        "max_buffer_duration_ms"@ != "target_rate"@,
        "max_buffer_duration_ms"@ != "measurement_window_secs"@,
        "max_buffer_duration_ms"@ != "kp"@,
        "max_buffer_duration_ms"@ != "ki"@,
        "max_buffer_duration_ms"@ != "kd"@,
        "max_buffer_duration_ms"@ != "fallback_threshold"@,
        "max_buffer_duration_ms"@ != "min_threshold"@,
        "max_buffer_duration_ms"@ != "max_threshold"@,
        "max_buffer_duration_ms"@ != "algorithm"@,
        "max_buffer_duration_ms"@ != "warmup_samples"@,
        "max_buffer_duration_ms"@ != "anti_windup_limit"@,
        "max_buffer_duration_ms"@ != "pid_interval_ms"@,
        "drain_interval_ms"@ != "target_rate"@,
        "drain_interval_ms"@ != "measurement_window_secs"@,
        "drain_interval_ms"@ != "kp"@,
        "drain_interval_ms"@ != "ki"@,
        "drain_interval_ms"@ != "kd"@,
        "drain_interval_ms"@ != "fallback_threshold"@,
        "drain_interval_ms"@ != "min_threshold"@,
        "drain_interval_ms"@ != "max_threshold"@,
        "drain_interval_ms"@ != "algorithm"@,
        "drain_interval_ms"@ != "warmup_samples"@,
        "drain_interval_ms"@ != "anti_windup_limit"@,
        "drain_interval_ms"@ != "pid_interval_ms"@,
        "drain_interval_ms"@ != "max_buffer_duration_ms"@,
        "min_quality_score"@ != "target_rate"@,
        "min_quality_score"@ != "measurement_window_secs"@,
        "min_quality_score"@ != "kp"@,
        "min_quality_score"@ != "ki"@,
        "min_quality_score"@ != "kd"@,
        "min_quality_score"@ != "fallback_threshold"@,
        "min_quality_score"@ != "min_threshold"@,
        "min_quality_score"@ != "max_threshold"@,
        "min_quality_score"@ != "algorithm"@,
        "min_quality_score"@ != "warmup_samples"@,
        "min_quality_score"@ != "anti_windup_limit"@,
        "min_quality_score"@ != "pid_interval_ms"@,
        "min_quality_score"@ != "max_buffer_duration_ms"@,
        "min_quality_score"@ != "drain_interval_ms"@,
        "backpressure_threshold_ms"@ != "target_rate"@,
        "backpressure_threshold_ms"@ != "measurement_window_secs"@,
        "backpressure_threshold_ms"@ != "kp"@,
        "backpressure_threshold_ms"@ != "ki"@,
        "backpressure_threshold_ms"@ != "kd"@,
        "backpressure_threshold_ms"@ != "fallback_threshold"@,
        "backpressure_threshold_ms"@ != "min_threshold"@,
        "backpressure_threshold_ms"@ != "max_threshold"@,
        "backpressure_threshold_ms"@ != "algorithm"@,
        "backpressure_threshold_ms"@ != "warmup_samples"@,
        "backpressure_threshold_ms"@ != "anti_windup_limit"@,
        "backpressure_threshold_ms"@ != "pid_interval_ms"@,
        "backpressure_threshold_ms"@ != "max_buffer_duration_ms"@,
        "backpressure_threshold_ms"@ != "drain_interval_ms"@,
        "backpressure_threshold_ms"@ != "min_quality_score"@,
{
    assert("measurement_window_secs"@ != "target_rate"@) by {
        reveal_strlit("measurement_window_secs");
        reveal_strlit("target_rate");
        assert("measurement_window_secs"@.len() == 23 && "target_rate"@.len() == 11);
    }
    assert("kp"@ != "target_rate"@) by {
        reveal_strlit("kp");
        reveal_strlit("target_rate");
        assert("kp"@.len() == 2 && "target_rate"@.len() == 11);
    }
    assert("kp"@ != "measurement_window_secs"@) by {
        reveal_strlit("kp");
        reveal_strlit("measurement_window_secs");
        assert("kp"@.len() == 2 && "measurement_window_secs"@.len() == 23);
    }
    assert("ki"@ != "target_rate"@) by {
        reveal_strlit("ki");
        reveal_strlit("target_rate");
        assert("ki"@.len() == 2 && "target_rate"@.len() == 11);
    }
    assert("ki"@ != "measurement_window_secs"@) by {
        reveal_strlit("ki");
        reveal_strlit("measurement_window_secs");
        assert("ki"@.len() == 2 && "measurement_window_secs"@.len() == 23);
    }
    assert("ki"@ != "kp"@) by {
        reveal_strlit("ki");
        reveal_strlit("kp");
        assert("ki"@[1] != "kp"@[1]);
    }
    assert("kd"@ != "target_rate"@) by {
        reveal_strlit("kd");
        reveal_strlit("target_rate");
        assert("kd"@.len() == 2 && "target_rate"@.len() == 11);
    }
    assert("kd"@ != "measurement_window_secs"@) by {
        reveal_strlit("kd");
        reveal_strlit("measurement_window_secs");
        assert("kd"@.len() == 2 && "measurement_window_secs"@.len() == 23);
    }
    assert("kd"@ != "kp"@) by {
        reveal_strlit("kd");
        reveal_strlit("kp");
        assert("kd"@[1] != "kp"@[1]);
    }
    assert("kd"@ != "ki"@) by {
        reveal_strlit("kd");
        reveal_strlit("ki");
        assert("kd"@[1] != "ki"@[1]);
    }
    assert("fallback_threshold"@ != "target_rate"@) by {
        reveal_strlit("fallback_threshold");
        reveal_strlit("target_rate");
        assert("fallback_threshold"@.len() == 18 && "target_rate"@.len() == 11);
    }
    assert("fallback_threshold"@ != "measurement_window_secs"@) by {
        reveal_strlit("fallback_threshold");
        reveal_strlit("measurement_window_secs");
        assert("fallback_threshold"@.len() == 18 && "measurement_window_secs"@.len() == 23);
    }
    assert("fallback_threshold"@ != "kp"@) by {
        reveal_strlit("fallback_threshold");
        reveal_strlit("kp");
        assert("fallback_threshold"@.len() == 18 && "kp"@.len() == 2);
    }
    assert("fallback_threshold"@ != "ki"@) by {
        reveal_strlit("fallback_threshold");
        reveal_strlit("ki");
        assert("fallback_threshold"@.len() == 18 && "ki"@.len() == 2);
    }
    assert("fallback_threshold"@ != "kd"@) by {
        reveal_strlit("fallback_threshold");
        reveal_strlit("kd");
        assert("fallback_threshold"@.len() == 18 && "kd"@.len() == 2);
    }
    assert("min_threshold"@ != "target_rate"@) by {
        reveal_strlit("min_threshold");
        reveal_strlit("target_rate");
        assert("min_threshold"@.len() == 13 && "target_rate"@.len() == 11);
    }
    assert("min_threshold"@ != "measurement_window_secs"@) by {
        reveal_strlit("min_threshold");
        reveal_strlit("measurement_window_secs");
        assert("min_threshold"@.len() == 13 && "measurement_window_secs"@.len() == 23);
    }
    assert("min_threshold"@ != "kp"@) by {
        reveal_strlit("min_threshold");
        reveal_strlit("kp");
        assert("min_threshold"@.len() == 13 && "kp"@.len() == 2);
    }
    assert("min_threshold"@ != "ki"@) by {
        reveal_strlit("min_threshold");
        reveal_strlit("ki");
        assert("min_threshold"@.len() == 13 && "ki"@.len() == 2);
    }
    assert("min_threshold"@ != "kd"@) by {
        reveal_strlit("min_threshold");
        reveal_strlit("kd");
        assert("min_threshold"@.len() == 13 && "kd"@.len() == 2);
    }
    assert("min_threshold"@ != "fallback_threshold"@) by {
        reveal_strlit("min_threshold");
        reveal_strlit("fallback_threshold");
        assert("min_threshold"@.len() == 13 && "fallback_threshold"@.len() == 18);
    }
    assert("max_threshold"@ != "target_rate"@) by {
        reveal_strlit("max_threshold");
        reveal_strlit("target_rate");
        assert("max_threshold"@.len() == 13 && "target_rate"@.len() == 11);
    }
    assert("max_threshold"@ != "measurement_window_secs"@) by {
        reveal_strlit("max_threshold");
        reveal_strlit("measurement_window_secs");
        assert("max_threshold"@.len() == 13 && "measurement_window_secs"@.len() == 23);
    }
    assert("max_threshold"@ != "kp"@) by {
        reveal_strlit("max_threshold");
        reveal_strlit("kp");
        assert("max_threshold"@.len() == 13 && "kp"@.len() == 2);
    }
    assert("max_threshold"@ != "ki"@) by {
        reveal_strlit("max_threshold");
        reveal_strlit("ki");
        assert("max_threshold"@.len() == 13 && "ki"@.len() == 2);
    }
    assert("max_threshold"@ != "kd"@) by {
        reveal_strlit("max_threshold");
        reveal_strlit("kd");
        assert("max_threshold"@.len() == 13 && "kd"@.len() == 2);
    }
    assert("max_threshold"@ != "fallback_threshold"@) by {
        reveal_strlit("max_threshold");
        reveal_strlit("fallback_threshold");
        assert("max_threshold"@.len() == 13 && "fallback_threshold"@.len() == 18);
    }
    assert("max_threshold"@ != "min_threshold"@) by {
        reveal_strlit("max_threshold");
        reveal_strlit("min_threshold");
        assert("max_threshold"@[1] != "min_threshold"@[1]);
    }
    assert("algorithm"@ != "target_rate"@) by {
        reveal_strlit("algorithm");
        reveal_strlit("target_rate");
        assert("algorithm"@.len() == 9 && "target_rate"@.len() == 11);
    }
    assert("algorithm"@ != "measurement_window_secs"@) by {
        reveal_strlit("algorithm");
        reveal_strlit("measurement_window_secs");
        assert("algorithm"@.len() == 9 && "measurement_window_secs"@.len() == 23);
    }
    assert("algorithm"@ != "kp"@) by {
        reveal_strlit("algorithm");
        reveal_strlit("kp");
        assert("algorithm"@.len() == 9 && "kp"@.len() == 2);
    }
    assert("algorithm"@ != "ki"@) by {
        reveal_strlit("algorithm");
        reveal_strlit("ki");
        assert("algorithm"@.len() == 9 && "ki"@.len() == 2);
    }
    assert("algorithm"@ != "kd"@) by {
        reveal_strlit("algorithm");
        reveal_strlit("kd");
        assert("algorithm"@.len() == 9 && "kd"@.len() == 2);
    }
    assert("algorithm"@ != "fallback_threshold"@) by {
        reveal_strlit("algorithm");
        reveal_strlit("fallback_threshold");
        assert("algorithm"@.len() == 9 && "fallback_threshold"@.len() == 18);
    }
    assert("algorithm"@ != "min_threshold"@) by {
        reveal_strlit("algorithm");
        reveal_strlit("min_threshold");
        assert("algorithm"@.len() == 9 && "min_threshold"@.len() == 13);
    }
    assert("algorithm"@ != "max_threshold"@) by {
        reveal_strlit("algorithm");
        reveal_strlit("max_threshold");
        assert("algorithm"@.len() == 9 && "max_threshold"@.len() == 13);
    }
    assert("warmup_samples"@ != "target_rate"@) by {
        reveal_strlit("warmup_samples");
        reveal_strlit("target_rate");
        assert("warmup_samples"@.len() == 14 && "target_rate"@.len() == 11);
    }
    assert("warmup_samples"@ != "measurement_window_secs"@) by {
        reveal_strlit("warmup_samples");
        reveal_strlit("measurement_window_secs");
        assert("warmup_samples"@.len() == 14 && "measurement_window_secs"@.len() == 23);
    }
    assert("warmup_samples"@ != "kp"@) by {
        reveal_strlit("warmup_samples");
        reveal_strlit("kp");
        assert("warmup_samples"@.len() == 14 && "kp"@.len() == 2);
    }
    assert("warmup_samples"@ != "ki"@) by {
        reveal_strlit("warmup_samples");
        reveal_strlit("ki");
        assert("warmup_samples"@.len() == 14 && "ki"@.len() == 2);
    }
    assert("warmup_samples"@ != "kd"@) by {
        reveal_strlit("warmup_samples");
        reveal_strlit("kd");
        assert("warmup_samples"@.len() == 14 && "kd"@.len() == 2);
    }
    assert("warmup_samples"@ != "fallback_threshold"@) by {
        reveal_strlit("warmup_samples");
        reveal_strlit("fallback_threshold");
        assert("warmup_samples"@.len() == 14 && "fallback_threshold"@.len() == 18);
    }
    assert("warmup_samples"@ != "min_threshold"@) by {
        reveal_strlit("warmup_samples");
        reveal_strlit("min_threshold");
        assert("warmup_samples"@.len() == 14 && "min_threshold"@.len() == 13);
    }
    assert("warmup_samples"@ != "max_threshold"@) by {
        reveal_strlit("warmup_samples");
        reveal_strlit("max_threshold");
        assert("warmup_samples"@.len() == 14 && "max_threshold"@.len() == 13);
    }
    assert("warmup_samples"@ != "algorithm"@) by {
        reveal_strlit("warmup_samples");
        reveal_strlit("algorithm");
        assert("warmup_samples"@.len() == 14 && "algorithm"@.len() == 9);
    }
    assert("anti_windup_limit"@ != "target_rate"@) by {
        reveal_strlit("anti_windup_limit");
        reveal_strlit("target_rate");
        assert("anti_windup_limit"@.len() == 17 && "target_rate"@.len() == 11);
    }
    assert("anti_windup_limit"@ != "measurement_window_secs"@) by {
        reveal_strlit("anti_windup_limit");
        reveal_strlit("measurement_window_secs");
        assert("anti_windup_limit"@.len() == 17 && "measurement_window_secs"@.len() == 23);
    }
    assert("anti_windup_limit"@ != "kp"@) by {
        reveal_strlit("anti_windup_limit");
        reveal_strlit("kp");
        assert("anti_windup_limit"@.len() == 17 && "kp"@.len() == 2);
    }
    assert("anti_windup_limit"@ != "ki"@) by {
        reveal_strlit("anti_windup_limit");
        reveal_strlit("ki");
        assert("anti_windup_limit"@.len() == 17 && "ki"@.len() == 2);
    }
    assert("anti_windup_limit"@ != "kd"@) by {
        reveal_strlit("anti_windup_limit");
        reveal_strlit("kd");
        assert("anti_windup_limit"@.len() == 17 && "kd"@.len() == 2);
    }
    assert("anti_windup_limit"@ != "fallback_threshold"@) by {
        reveal_strlit("anti_windup_limit");
        reveal_strlit("fallback_threshold");
        assert("anti_windup_limit"@.len() == 17 && "fallback_threshold"@.len() == 18);
    }
    assert("anti_windup_limit"@ != "min_threshold"@) by {
        reveal_strlit("anti_windup_limit");
        reveal_strlit("min_threshold");
        assert("anti_windup_limit"@.len() == 17 && "min_threshold"@.len() == 13);
    }
    assert("anti_windup_limit"@ != "max_threshold"@) by {
        reveal_strlit("anti_windup_limit");
        reveal_strlit("max_threshold");
        assert("anti_windup_limit"@.len() == 17 && "max_threshold"@.len() == 13);
    }
    assert("anti_windup_limit"@ != "algorithm"@) by {
        reveal_strlit("anti_windup_limit");
        reveal_strlit("algorithm");
        assert("anti_windup_limit"@.len() == 17 && "algorithm"@.len() == 9);
    }
    assert("anti_windup_limit"@ != "warmup_samples"@) by {
        reveal_strlit("anti_windup_limit");
        reveal_strlit("warmup_samples");
        assert("anti_windup_limit"@.len() == 17 && "warmup_samples"@.len() == 14);
    }
    assert("pid_interval_ms"@ != "target_rate"@) by {
        reveal_strlit("pid_interval_ms");
        reveal_strlit("target_rate");
        assert("pid_interval_ms"@.len() == 15 && "target_rate"@.len() == 11);
    }
    assert("pid_interval_ms"@ != "measurement_window_secs"@) by {
        reveal_strlit("pid_interval_ms");
        reveal_strlit("measurement_window_secs");
        assert("pid_interval_ms"@.len() == 15 && "measurement_window_secs"@.len() == 23);
    }
    assert("pid_interval_ms"@ != "kp"@) by {
        reveal_strlit("pid_interval_ms");
        reveal_strlit("kp");
        assert("pid_interval_ms"@.len() == 15 && "kp"@.len() == 2);
    }
    assert("pid_interval_ms"@ != "ki"@) by {
        reveal_strlit("pid_interval_ms");
        reveal_strlit("ki");
        assert("pid_interval_ms"@.len() == 15 && "ki"@.len() == 2);
    }
    assert("pid_interval_ms"@ != "kd"@) by {
        reveal_strlit("pid_interval_ms");
        reveal_strlit("kd");
        assert("pid_interval_ms"@.len() == 15 && "kd"@.len() == 2);
    }
    assert("pid_interval_ms"@ != "fallback_threshold"@) by {
        reveal_strlit("pid_interval_ms");
        reveal_strlit("fallback_threshold");
        assert("pid_interval_ms"@.len() == 15 && "fallback_threshold"@.len() == 18);
    }
    assert("pid_interval_ms"@ != "min_threshold"@) by {
        reveal_strlit("pid_interval_ms");
        reveal_strlit("min_threshold");
        assert("pid_interval_ms"@.len() == 15 && "min_threshold"@.len() == 13);
    }
    assert("pid_interval_ms"@ != "max_threshold"@) by {
        reveal_strlit("pid_interval_ms");
        reveal_strlit("max_threshold");
        assert("pid_interval_ms"@.len() == 15 && "max_threshold"@.len() == 13);
    }
    assert("pid_interval_ms"@ != "algorithm"@) by {
        reveal_strlit("pid_interval_ms");
        reveal_strlit("algorithm");
        assert("pid_interval_ms"@.len() == 15 && "algorithm"@.len() == 9);
    }
    assert("pid_interval_ms"@ != "warmup_samples"@) by {
        reveal_strlit("pid_interval_ms");
        reveal_strlit("warmup_samples");
        assert("pid_interval_ms"@.len() == 15 && "warmup_samples"@.len() == 14);
    }
    assert("pid_interval_ms"@ != "anti_windup_limit"@) by {
        reveal_strlit("pid_interval_ms");
        reveal_strlit("anti_windup_limit");
        assert("pid_interval_ms"@.len() == 15 && "anti_windup_limit"@.len() == 17);
    }
    assert("max_buffer_duration_ms"@ != "target_rate"@) by {
        reveal_strlit("max_buffer_duration_ms");
        reveal_strlit("target_rate");
        assert("max_buffer_duration_ms"@.len() == 22 && "target_rate"@.len() == 11);
    }
    assert("max_buffer_duration_ms"@ != "measurement_window_secs"@) by {
        reveal_strlit("max_buffer_duration_ms");
        reveal_strlit("measurement_window_secs");
        assert("max_buffer_duration_ms"@.len() == 22 && "measurement_window_secs"@.len() == 23);
    }
    assert("max_buffer_duration_ms"@ != "kp"@) by {
        reveal_strlit("max_buffer_duration_ms");
        reveal_strlit("kp");
        assert("max_buffer_duration_ms"@.len() == 22 && "kp"@.len() == 2);
    }
    assert("max_buffer_duration_ms"@ != "ki"@) by {
        reveal_strlit("max_buffer_duration_ms");
        reveal_strlit("ki");
        assert("max_buffer_duration_ms"@.len() == 22 && "ki"@.len() == 2);
    }
    assert("max_buffer_duration_ms"@ != "kd"@) by {
        reveal_strlit("max_buffer_duration_ms");
        reveal_strlit("kd");
        assert("max_buffer_duration_ms"@.len() == 22 && "kd"@.len() == 2);
    }
    assert("max_buffer_duration_ms"@ != "fallback_threshold"@) by {
        reveal_strlit("max_buffer_duration_ms");
        reveal_strlit("fallback_threshold");
        assert("max_buffer_duration_ms"@.len() == 22 && "fallback_threshold"@.len() == 18);
    }
    assert("max_buffer_duration_ms"@ != "min_threshold"@) by {
        reveal_strlit("max_buffer_duration_ms");
        reveal_strlit("min_threshold");
        assert("max_buffer_duration_ms"@.len() == 22 && "min_threshold"@.len() == 13);
    }
    assert("max_buffer_duration_ms"@ != "max_threshold"@) by {
        reveal_strlit("max_buffer_duration_ms");
        reveal_strlit("max_threshold");
        assert("max_buffer_duration_ms"@.len() == 22 && "max_threshold"@.len() == 13);
    }
    assert("max_buffer_duration_ms"@ != "algorithm"@) by {
        reveal_strlit("max_buffer_duration_ms");
        reveal_strlit("algorithm");
        assert("max_buffer_duration_ms"@.len() == 22 && "algorithm"@.len() == 9);
    }
    assert("max_buffer_duration_ms"@ != "warmup_samples"@) by {
        reveal_strlit("max_buffer_duration_ms");
        reveal_strlit("warmup_samples");
        assert("max_buffer_duration_ms"@.len() == 22 && "warmup_samples"@.len() == 14);
    }
    assert("max_buffer_duration_ms"@ != "anti_windup_limit"@) by {
        reveal_strlit("max_buffer_duration_ms");
        reveal_strlit("anti_windup_limit");
        assert("max_buffer_duration_ms"@.len() == 22 && "anti_windup_limit"@.len() == 17);
    }
    assert("max_buffer_duration_ms"@ != "pid_interval_ms"@) by {
        reveal_strlit("max_buffer_duration_ms");
        reveal_strlit("pid_interval_ms");
        assert("max_buffer_duration_ms"@.len() == 22 && "pid_interval_ms"@.len() == 15);
    }
    assert("drain_interval_ms"@ != "target_rate"@) by {
        reveal_strlit("drain_interval_ms");
        reveal_strlit("target_rate");
        assert("drain_interval_ms"@.len() == 17 && "target_rate"@.len() == 11);
    }
    assert("drain_interval_ms"@ != "measurement_window_secs"@) by {
        reveal_strlit("drain_interval_ms");
        reveal_strlit("measurement_window_secs");
        assert("drain_interval_ms"@.len() == 17 && "measurement_window_secs"@.len() == 23);
    }
    assert("drain_interval_ms"@ != "kp"@) by {
        reveal_strlit("drain_interval_ms");
        reveal_strlit("kp");
        assert("drain_interval_ms"@.len() == 17 && "kp"@.len() == 2);
    }
    assert("drain_interval_ms"@ != "ki"@) by {
        reveal_strlit("drain_interval_ms");
        reveal_strlit("ki");
        assert("drain_interval_ms"@.len() == 17 && "ki"@.len() == 2);
    }
    assert("drain_interval_ms"@ != "kd"@) by {
        reveal_strlit("drain_interval_ms");
        reveal_strlit("kd");
        assert("drain_interval_ms"@.len() == 17 && "kd"@.len() == 2);
    }
    assert("drain_interval_ms"@ != "fallback_threshold"@) by {
        reveal_strlit("drain_interval_ms");
        reveal_strlit("fallback_threshold");
        assert("drain_interval_ms"@.len() == 17 && "fallback_threshold"@.len() == 18);
    }
    assert("drain_interval_ms"@ != "min_threshold"@) by {
        reveal_strlit("drain_interval_ms");
        reveal_strlit("min_threshold");
        assert("drain_interval_ms"@.len() == 17 && "min_threshold"@.len() == 13);
    }
    assert("drain_interval_ms"@ != "max_threshold"@) by {
        reveal_strlit("drain_interval_ms");
        reveal_strlit("max_threshold");
        assert("drain_interval_ms"@.len() == 17 && "max_threshold"@.len() == 13);
    }
    assert("drain_interval_ms"@ != "algorithm"@) by {
        reveal_strlit("drain_interval_ms");
        reveal_strlit("algorithm");
        assert("drain_interval_ms"@.len() == 17 && "algorithm"@.len() == 9);
    }
    assert("drain_interval_ms"@ != "warmup_samples"@) by {
        reveal_strlit("drain_interval_ms");
        reveal_strlit("warmup_samples");
        assert("drain_interval_ms"@.len() == 17 && "warmup_samples"@.len() == 14);
    }
    assert("drain_interval_ms"@ != "anti_windup_limit"@) by {
        reveal_strlit("drain_interval_ms");
        reveal_strlit("anti_windup_limit");
        assert("drain_interval_ms"@[0] != "anti_windup_limit"@[0]);
    }
    assert("drain_interval_ms"@ != "pid_interval_ms"@) by {
        reveal_strlit("drain_interval_ms");
        reveal_strlit("pid_interval_ms");
        assert("drain_interval_ms"@.len() == 17 && "pid_interval_ms"@.len() == 15);
    }
    assert("drain_interval_ms"@ != "max_buffer_duration_ms"@) by {
        reveal_strlit("drain_interval_ms");
        reveal_strlit("max_buffer_duration_ms");
        assert("drain_interval_ms"@.len() == 17 && "max_buffer_duration_ms"@.len() == 22);
    }
    assert("min_quality_score"@ != "target_rate"@) by {
        reveal_strlit("min_quality_score");
        reveal_strlit("target_rate");
        assert("min_quality_score"@.len() == 17 && "target_rate"@.len() == 11);
    }
    assert("min_quality_score"@ != "measurement_window_secs"@) by {
        reveal_strlit("min_quality_score");
        reveal_strlit("measurement_window_secs");
        assert("min_quality_score"@.len() == 17 && "measurement_window_secs"@.len() == 23);
    }
    assert("min_quality_score"@ != "kp"@) by {
        reveal_strlit("min_quality_score");
        reveal_strlit("kp");
        assert("min_quality_score"@.len() == 17 && "kp"@.len() == 2);
    }
    assert("min_quality_score"@ != "ki"@) by {
        reveal_strlit("min_quality_score");
        reveal_strlit("ki");
        assert("min_quality_score"@.len() == 17 && "ki"@.len() == 2);
    }
    assert("min_quality_score"@ != "kd"@) by {
        reveal_strlit("min_quality_score");
        reveal_strlit("kd");
        assert("min_quality_score"@.len() == 17 && "kd"@.len() == 2);
    }
    assert("min_quality_score"@ != "fallback_threshold"@) by {
        reveal_strlit("min_quality_score");
        reveal_strlit("fallback_threshold");
        assert("min_quality_score"@.len() == 17 && "fallback_threshold"@.len() == 18);
    }
    assert("min_quality_score"@ != "min_threshold"@) by {
        reveal_strlit("min_quality_score");
        reveal_strlit("min_threshold");
        assert("min_quality_score"@.len() == 17 && "min_threshold"@.len() == 13);
    }
    assert("min_quality_score"@ != "max_threshold"@) by {
        reveal_strlit("min_quality_score");
        reveal_strlit("max_threshold");
        assert("min_quality_score"@.len() == 17 && "max_threshold"@.len() == 13);
    }
    assert("min_quality_score"@ != "algorithm"@) by {
        reveal_strlit("min_quality_score");
        reveal_strlit("algorithm");
        assert("min_quality_score"@.len() == 17 && "algorithm"@.len() == 9);
    }
    assert("min_quality_score"@ != "warmup_samples"@) by {
        reveal_strlit("min_quality_score");
        reveal_strlit("warmup_samples");
        assert("min_quality_score"@.len() == 17 && "warmup_samples"@.len() == 14);
    }
    assert("min_quality_score"@ != "anti_windup_limit"@) by {
        reveal_strlit("min_quality_score");
        reveal_strlit("anti_windup_limit");
        assert("min_quality_score"@[0] != "anti_windup_limit"@[0]);
    }
    assert("min_quality_score"@ != "pid_interval_ms"@) by {
        reveal_strlit("min_quality_score");
        reveal_strlit("pid_interval_ms");
        assert("min_quality_score"@.len() == 17 && "pid_interval_ms"@.len() == 15);
    }
    assert("min_quality_score"@ != "max_buffer_duration_ms"@) by {
        reveal_strlit("min_quality_score");
        reveal_strlit("max_buffer_duration_ms");
        assert("min_quality_score"@.len() == 17 && "max_buffer_duration_ms"@.len() == 22);
    }
    assert("min_quality_score"@ != "drain_interval_ms"@) by {
        reveal_strlit("min_quality_score");
        reveal_strlit("drain_interval_ms");
        assert("min_quality_score"@[0] != "drain_interval_ms"@[0]);
    }
    assert("backpressure_threshold_ms"@ != "target_rate"@) by {
        reveal_strlit("backpressure_threshold_ms");
        reveal_strlit("target_rate");
        assert("backpressure_threshold_ms"@.len() == 25 && "target_rate"@.len() == 11);
    }
    assert("backpressure_threshold_ms"@ != "measurement_window_secs"@) by {
        reveal_strlit("backpressure_threshold_ms");
        reveal_strlit("measurement_window_secs");
        assert("backpressure_threshold_ms"@.len() == 25 && "measurement_window_secs"@.len() == 23);
    }
    assert("backpressure_threshold_ms"@ != "kp"@) by {
        reveal_strlit("backpressure_threshold_ms");
        reveal_strlit("kp");
        assert("backpressure_threshold_ms"@.len() == 25 && "kp"@.len() == 2);
    }
    assert("backpressure_threshold_ms"@ != "ki"@) by {
        reveal_strlit("backpressure_threshold_ms");
        reveal_strlit("ki");
        assert("backpressure_threshold_ms"@.len() == 25 && "ki"@.len() == 2);
    }
    assert("backpressure_threshold_ms"@ != "kd"@) by {
        reveal_strlit("backpressure_threshold_ms");
        reveal_strlit("kd");
        assert("backpressure_threshold_ms"@.len() == 25 && "kd"@.len() == 2);
    }
    assert("backpressure_threshold_ms"@ != "fallback_threshold"@) by {
        reveal_strlit("backpressure_threshold_ms");
        reveal_strlit("fallback_threshold");
        assert("backpressure_threshold_ms"@.len() == 25 && "fallback_threshold"@.len() == 18);
    }
    assert("backpressure_threshold_ms"@ != "min_threshold"@) by {
        reveal_strlit("backpressure_threshold_ms");
        reveal_strlit("min_threshold");
        assert("backpressure_threshold_ms"@.len() == 25 && "min_threshold"@.len() == 13);
    }
    assert("backpressure_threshold_ms"@ != "max_threshold"@) by {
        reveal_strlit("backpressure_threshold_ms");
        reveal_strlit("max_threshold");
        assert("backpressure_threshold_ms"@.len() == 25 && "max_threshold"@.len() == 13);
    }
    assert("backpressure_threshold_ms"@ != "algorithm"@) by {
        reveal_strlit("backpressure_threshold_ms");
        reveal_strlit("algorithm");
        assert("backpressure_threshold_ms"@.len() == 25 && "algorithm"@.len() == 9);
    }
    assert("backpressure_threshold_ms"@ != "warmup_samples"@) by {
        reveal_strlit("backpressure_threshold_ms");
        reveal_strlit("warmup_samples");
        assert("backpressure_threshold_ms"@.len() == 25 && "warmup_samples"@.len() == 14);
    }
    assert("backpressure_threshold_ms"@ != "anti_windup_limit"@) by {
        reveal_strlit("backpressure_threshold_ms");
        reveal_strlit("anti_windup_limit");
        assert("backpressure_threshold_ms"@.len() == 25 && "anti_windup_limit"@.len() == 17);
    }
    assert("backpressure_threshold_ms"@ != "pid_interval_ms"@) by {
        reveal_strlit("backpressure_threshold_ms");
        reveal_strlit("pid_interval_ms");
        assert("backpressure_threshold_ms"@.len() == 25 && "pid_interval_ms"@.len() == 15);
    }
    assert("backpressure_threshold_ms"@ != "max_buffer_duration_ms"@) by {
        reveal_strlit("backpressure_threshold_ms");
        reveal_strlit("max_buffer_duration_ms");
        assert("backpressure_threshold_ms"@.len() == 25 && "max_buffer_duration_ms"@.len() == 22);
    }
    assert("backpressure_threshold_ms"@ != "drain_interval_ms"@) by {
        reveal_strlit("backpressure_threshold_ms");
        reveal_strlit("drain_interval_ms");
        assert("backpressure_threshold_ms"@.len() == 25 && "drain_interval_ms"@.len() == 17);
    }
    assert("backpressure_threshold_ms"@ != "min_quality_score"@) by {
        reveal_strlit("backpressure_threshold_ms");
        reveal_strlit("min_quality_score");
        assert("backpressure_threshold_ms"@.len() == 25 && "min_quality_score"@.len() == 17);
    }
}

/// A numeric entry that reads as the number `v` sets the field of its key to
/// `v` and leaves every other field as it was; a `fallback_threshold` entry
/// other than "" or "none" sets the fallback to `v`.
pub proof fn lemma_numeric_entry_sets_its_field(c: Config, value: &str, v: F64Bits)
    ensures
        config_after(c, "target_rate"@, value, Some(v)) == (Config { target_rate: v, ..c }),
        config_after(c, "measurement_window_secs"@, value, Some(v)) == (Config { measurement_window_secs: v, ..c }),
        config_after(c, "kp"@, value, Some(v)) == (Config { kp: v, ..c }),
        config_after(c, "ki"@, value, Some(v)) == (Config { ki: v, ..c }),
        config_after(c, "kd"@, value, Some(v)) == (Config { kd: v, ..c }),
        config_after(c, "min_threshold"@, value, Some(v)) == (Config { min_threshold: v, ..c }),
        config_after(c, "max_threshold"@, value, Some(v)) == (Config { max_threshold: v, ..c }),
        config_after(c, "anti_windup_limit"@, value, Some(v)) == (Config { anti_windup_limit: v, ..c }),
        config_after(c, "min_quality_score"@, value, Some(v)) == (Config { min_quality_score: v, ..c }),
        !(value@.len() == 0 || value@ == "none"@) ==> config_after(c, "fallback_threshold"@, value, Some(v))
            == (Config { fallback_threshold: Some(v), ..c }),
{
    lemma_config_keys_differ();
}

/// An unsigned entry whose value is the decimal `u` sets the field of its key
/// to `u` and leaves every other field as it was; an `algorithm` entry naming
/// `a` sets the algorithm to `a`; "" and "none" clear the fallback.
pub proof fn lemma_other_entries_set_their_field(c: Config, value: &str, u: u64, a: Algorithm, number: Option<F64Bits>)
    ensures
        spec_parse_u64(value.spec_bytes()) == Some(u) ==> {
            &&& config_after(c, "warmup_samples"@, value, number) == (Config { warmup_samples: u, ..c })
            &&& config_after(c, "pid_interval_ms"@, value, number) == (Config { pid_interval_ms: u, ..c })
            &&& config_after(c, "max_buffer_duration_ms"@, value, number) == (Config { max_buffer_duration_ms: u, ..c })
            &&& config_after(c, "drain_interval_ms"@, value, number) == (Config { drain_interval_ms: u, ..c })
            &&& config_after(c, "backpressure_threshold_ms"@, value, number) == (Config {
                backpressure_threshold_ms: u,
                ..c
            })
        },
        value@ == a.spec_name() ==> config_after(c, "algorithm"@, value, number) == (Config { algorithm: a, ..c }),
        (value@.len() == 0 || value@ == "none"@) ==> config_after(c, "fallback_threshold"@, value, number) == (Config {
            fallback_threshold: None,
            ..c
        }),
{
    lemma_config_keys_differ();
    lemma_algorithm_name_round_trip(a);
}

/// Applying the same entry twice leaves the configuration as applying it
/// once: a redelivered KV entry changes nothing.
pub proof fn lemma_entry_idempotent(c: Config, key: Seq<char>, value: &str, number: Option<F64Bits>)
    ensures
        config_after(config_after(c, key, value, number), key, value, number) == config_after(
            c,
            key,
            value,
            number,
        ),
{
}

impl Default for Config {
    /// Target 10/s over a 10 s window, gains kp 0.0004, ki 0.00004,
    /// kd 0.00001, no fallback, bounds 0..1, PID, 100 warmup samples,
    /// anti-windup 100, PID tick 1000 ms, buffer age 5000 ms, drain every
    /// 100 ms, no quality floor, backpressure at 500 ms.
    fn default() -> (r: Self)
        ensures
            r.target_rate.bits == 0x4024_0000_0000_0000u64,
            r.measurement_window_secs.bits == 0x4024_0000_0000_0000u64,
            r.kp.bits == 0x3f3a_36e2_eb1c_432du64,
            r.ki.bits == 0x3f04_f8b5_88e3_68f1u64,
            r.kd.bits == 0x3ee4_f8b5_88e3_68f1u64,
            r.fallback_threshold is None,
            r.min_threshold.bits == 0,
            r.max_threshold.bits == 0x3ff0_0000_0000_0000u64,
            r.algorithm == Algorithm::Pid,
            r.warmup_samples == 100,
            r.anti_windup_limit.bits == 0x4059_0000_0000_0000u64,
            r.pid_interval_ms == 1000,
            r.max_buffer_duration_ms == 5000,
            r.drain_interval_ms == 100,
            r.min_quality_score.bits == 0,
            r.backpressure_threshold_ms == 500,
    {
        Config {
            target_rate: F64Bits { bits: 0x4024_0000_0000_0000u64 },
            measurement_window_secs: F64Bits { bits: 0x4024_0000_0000_0000u64 },
            kp: F64Bits { bits: 0x3f3a_36e2_eb1c_432du64 },
            ki: F64Bits { bits: 0x3f04_f8b5_88e3_68f1u64 },
            kd: F64Bits { bits: 0x3ee4_f8b5_88e3_68f1u64 },
            fallback_threshold: None,
            min_threshold: F64Bits { bits: 0 },
            max_threshold: F64Bits { bits: 0x3ff0_0000_0000_0000u64 },
            algorithm: Algorithm::Pid,
            warmup_samples: 100,
            anti_windup_limit: F64Bits { bits: 0x4059_0000_0000_0000u64 },
            pid_interval_ms: 1000,
            max_buffer_duration_ms: 5000,
            drain_interval_ms: 100,
            min_quality_score: F64Bits { bits: 0 },
            backpressure_threshold_ms: 500,
        }
    }
}

fn take_number(slot: &mut F64Bits, number: Option<F64Bits>) -> (r: KvOutcome)
    ensures
        *final(slot) == number_or(*old(slot), number),
        r == (if number is Some { KvOutcome::Applied } else { KvOutcome::Ignored }),
{
    match number {
        Some(v) => {
            *slot = v;
            KvOutcome::Applied
        },
        None => KvOutcome::Ignored,
    }
}

fn take_u64(slot: &mut u64, value: &str) -> (r: KvOutcome)
    ensures
        *final(slot) == u64_or(*old(slot), value),
        r == (if spec_parse_u64(value.spec_bytes()) is Some { KvOutcome::Applied } else { KvOutcome::Ignored }),
{
    match parse_u64(value) {
        Some(v) => {
            *slot = v;
            KvOutcome::Applied
        },
        None => KvOutcome::Ignored,
    }
}

impl Config {
    /// The threshold bounds can be clamped to (`f64::clamp` panics otherwise).
    pub open spec fn bounds_valid(self) -> bool {
        crate::ieee::le_bits(self.min_threshold.bits, self.max_threshold.bits)
    }

    /// The gains and bounds of the PID, as the configuration sets them.
    pub open spec fn spec_pid_params(self) -> PidParams {
        PidParams {
            kp: self.kp,
            ki: self.ki,
            kd: self.kd,
            min_output: self.min_threshold,
            max_output: self.max_threshold,
            anti_windup_limit: self.anti_windup_limit,
        }
    }

    pub fn is_buffered(&self) -> (r: bool)
        ensures
            r == self.algorithm.spec_is_buffered(),
    {
        self.algorithm.is_buffered()
    }

    /// The PID gains and bounds: the output is bounded by the thresholds.
    pub fn pid_params(&self) -> (r: PidParams)
        ensures
            r == self.spec_pid_params(),
    {
        PidParams {
            kp: self.kp,
            ki: self.ki,
            kd: self.kd,
            min_output: self.min_threshold,
            max_output: self.max_threshold,
            anti_windup_limit: self.anti_windup_limit,
        }
    }

    #[verifier::rlimit(60)]
    /// Apply the KV entry `key = value`; `number` is `value` read as an
    /// `f64` (`None` when it does not read as one).
    pub fn apply_kv_entry(&mut self, key: &str, value: &str, number: Option<F64Bits>) -> (r: KvOutcome)
        ensures
            *final(self) == config_after(*old(self), key@, value, number),
            r == entry_outcome(key@, value, number),
            r == KvOutcome::UnknownKey <==> !known_key(key@),
    {
        if str_eq(key, "target_rate") {
            take_number(&mut self.target_rate, number)
        } else if str_eq(key, "measurement_window_secs") {
            take_number(&mut self.measurement_window_secs, number)
        } else if str_eq(key, "kp") {
            take_number(&mut self.kp, number)
        } else if str_eq(key, "ki") {
            take_number(&mut self.ki, number)
        } else if str_eq(key, "kd") {
            take_number(&mut self.kd, number)
        } else if str_eq(key, "fallback_threshold") {
            if is_none_marker(value) {
                self.fallback_threshold = None;
                KvOutcome::Applied
            } else {
                match number {
                    Some(v) => {
                        self.fallback_threshold = Some(v);
                        KvOutcome::Applied
                    },
                    None => KvOutcome::Ignored,
                }
            }
        } else if str_eq(key, "min_threshold") {
            take_number(&mut self.min_threshold, number)
        } else if str_eq(key, "max_threshold") {
            take_number(&mut self.max_threshold, number)
        } else if str_eq(key, "algorithm") {
            match Algorithm::from_kv(value) {
                Some(a) => {
                    self.algorithm = a;
                    KvOutcome::Applied
                },
                None => KvOutcome::Ignored,
            }
        } else if str_eq(key, "warmup_samples") {
            take_u64(&mut self.warmup_samples, value)
        } else if str_eq(key, "anti_windup_limit") {
            take_number(&mut self.anti_windup_limit, number)
        } else if str_eq(key, "pid_interval_ms") {
            take_u64(&mut self.pid_interval_ms, value)
        } else if str_eq(key, "max_buffer_duration_ms") {
            take_u64(&mut self.max_buffer_duration_ms, value)
        } else if str_eq(key, "drain_interval_ms") {
            take_u64(&mut self.drain_interval_ms, value)
        } else if str_eq(key, "min_quality_score") {
            take_number(&mut self.min_quality_score, number)
        } else if str_eq(key, "backpressure_threshold_ms") {
            take_u64(&mut self.backpressure_threshold_ms, value)
        } else {
            KvOutcome::UnknownKey
        }
    }
}

/// Where the service reads and writes on the message bus.
pub struct PipelineConfig {
    pub output_subject: String,
    pub output_stream: String,
    pub consumer_name: String,
}

impl PipelineConfig {
    /// The wiring of an instance that reads its configuration from
    /// `kv_bucket`: each name given overrides the default; the consumer is
    /// named "flowgate-" followed by the bucket unless a name is given.
    pub fn for_instance(
        kv_bucket: &str,
        output_subject: Option<String>,
        output_stream: Option<String>,
        consumer_name: Option<String>,
    ) -> (r: PipelineConfig)
        ensures
            r.output_subject@ == (match output_subject {
                Some(s) => s@,
                None => "flowgate.out"@,
            }),
            r.output_stream@ == (match output_stream {
                Some(s) => s@,
                None => "FLOWGATE_OUT"@,
            }),
            r.consumer_name@ == (match consumer_name {
                Some(s) => s@,
                None => "flowgate-"@ + kv_bucket@,
            }),
    {
        let defaults = PipelineConfig::default();
        let subject = match output_subject {
            Some(s) => s,
            None => defaults.output_subject,
        };
        let stream = match output_stream {
            Some(s) => s,
            None => defaults.output_stream,
        };
        let consumer = match consumer_name {
            Some(s) => s,
            None => {
                let mut n = String::from_str("flowgate-");
                n.append(kv_bucket);
                n
            },
        };
        PipelineConfig { output_subject: subject, output_stream: stream, consumer_name: consumer }
    }
}

impl Default for PipelineConfig {
    fn default() -> (r: Self)
        ensures
            r.output_subject@ == "flowgate.out"@,
            r.output_stream@ == "FLOWGATE_OUT"@,
            r.consumer_name@ == "flowgate-service"@,
    {
        PipelineConfig {
            output_subject: "flowgate.out".to_owned(),
            output_stream: "FLOWGATE_OUT".to_owned(),
            consumer_name: "flowgate-service".to_owned(),
        }
    }
}

} // verus!
