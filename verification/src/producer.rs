//! The synthetic producer's configuration: the batch sizes, the number of
//! clients and the score distribution, read from its KV bucket.
use vstd::prelude::*;
use vstd::string::StringSliceAdditionalSpecFns;
use crate::config::{KvOutcome, number_or, taken_if, u64_or};
use crate::ieee::F64Bits;
use crate::metrics::{MetricDescription, MetricKind, describes, described};
use crate::text::{parse_u64, spec_parse_u64, str_eq};

use crate::dashboard::{counter_metric, lemma_registered_kinds};

verus! {

/// `s.to_lowercase()`: the Unicode lowercase mapping of the characters.
pub uninterp spec fn lowercase(s: Seq<char>) -> Seq<char>;

/// Every character is ASCII.
pub open spec fn ascii_text(s: Seq<char>) -> bool {
    forall|i: int| 0 <= i < s.len() ==> (#[trigger] s[i] as int) < 128
}

/// The ASCII lowercase of a character: 'A' to 'Z' become 'a' to 'z', any
/// other character stays.
pub open spec fn ascii_lower_char(c: char) -> char {
    if 65 <= (c as int) <= 90 {
        ((c as int) + 32) as char
    } else {
        c
    }
}

/// The ASCII lowercase of a text.
pub open spec fn ascii_lower(s: Seq<char>) -> Seq<char> {
    s.map_values(|c: char| ascii_lower_char(c))
}

/// The lowercase of a text: its ASCII lowercase when it is ASCII, and
/// `lowercase` of it otherwise.
pub open spec fn lowered(s: Seq<char>) -> Seq<char> {
    if ascii_text(s) {
        ascii_lower(s)
    } else {
        lowercase(s)
    }
}

/// Calls `str::to_lowercase`; the result is the Unicode lowercase mapping of
/// `s`, a function of `s` alone (named `lowercase`, not spelled out here).
/// On ASCII text that mapping lowers 'A' to 'Z' and keeps every other
/// character, as `str::to_ascii_lowercase` does.
#[verifier::external_body]
fn to_lowercase(s: &str) -> (r: String)
    ensures
        r@ == lowercase(s@),
        ascii_text(s@) ==> r@ == ascii_lower(s@),
{
    s.to_lowercase()
}

/// Distribution the producer draws scores from.
#[derive(Clone, Copy, Debug, PartialEq, Eq, Structural)]
pub enum DistributionType {
    Normal,
    Beta,
    Uniform,
    Bimodal,
}

/// The distribution that a (lowercased) name designates.
pub open spec fn distribution_named(name: Seq<char>) -> Option<DistributionType> {
    if name == "normal"@ {
        Some(DistributionType::Normal)
    } else if name == "beta"@ {
        Some(DistributionType::Beta)
    } else if name == "uniform"@ {
        Some(DistributionType::Uniform)
    } else if name == "bimodal"@ {
        Some(DistributionType::Bimodal)
    } else {
        None
    }
}

impl DistributionType {
    /// The distribution's name, as it is displayed.
    pub open spec fn spec_name(self) -> Seq<char> {
        match self {
            DistributionType::Normal => "normal"@,
            DistributionType::Beta => "beta"@,
            DistributionType::Uniform => "uniform"@,
            DistributionType::Bimodal => "bimodal"@,
        }
    }

    pub fn as_str(&self) -> (r: &'static str)
        ensures
            r@ == self.spec_name(),
    {
        match self {
            DistributionType::Normal => "normal",
            DistributionType::Beta => "beta",
            DistributionType::Uniform => "uniform",
            DistributionType::Bimodal => "bimodal",
        }
    }

    /// The distribution a lowercase name designates, if any.
    pub fn from_lowercase_name(l: &str) -> (r: Option<DistributionType>)
        ensures
            r == distribution_named(l@),
    {
        if str_eq(l, "normal") {
            Some(DistributionType::Normal)
        } else if str_eq(l, "beta") {
            Some(DistributionType::Beta)
        } else if str_eq(l, "uniform") {
            Some(DistributionType::Uniform)
        } else if str_eq(l, "bimodal") {
            Some(DistributionType::Bimodal)
        } else {
            None
        }
    }

    /// Parse a distribution name, ignoring case; an unknown name gives the
    /// message "unknown distribution: " followed by the name.
    pub fn parse(s: &str) -> (r: Result<DistributionType, String>)
        ensures
            distribution_named(lowered(s@)) matches Some(d) ==> r == Ok::<DistributionType, String>(d),
            distribution_named(lowered(s@)) is None ==> (r matches Err(msg) && msg@ == "unknown distribution: "@ + s@),
    {
        let lower = to_lowercase(s);
        match DistributionType::from_lowercase_name(lower.as_str()) {
            Some(d) => Ok(d),
            None => {
                let mut msg = String::from_str("unknown distribution: ");
                msg.append(s);
                Err(msg)
            },
        }
    }
}

/// Each distribution is read back from its displayed name.
pub proof fn lemma_distribution_name_round_trip(d: DistributionType)
    ensures
        distribution_named(lowered(d.spec_name())) == Some(d),
{
    reveal_strlit("normal");
    reveal_strlit("beta");
    reveal_strlit("uniform");
    reveal_strlit("bimodal");
    let n = d.spec_name();
    assert(ascii_text(n));
    assert(ascii_lower(n) =~= n);
    assert("normal"@.len() == 6);
    assert("beta"@.len() == 4);
    assert("uniform"@.len() == 7);
    assert("bimodal"@.len() == 7);
    assert("uniform"@[0] != "bimodal"@[0]);
}

impl std::str::FromStr for DistributionType {
    type Err = String;

    /// As `DistributionType::parse`.
    fn from_str(s: &str) -> (r: Result<DistributionType, String>)
        ensures
            distribution_named(lowered(s@)) matches Some(d) ==> r == Ok::<DistributionType, String>(d),
            distribution_named(lowered(s@)) is None ==> (r matches Err(msg) && msg@ == "unknown distribution: "@ + s@),
    {
        DistributionType::parse(s)
    }
}

/// The producer's configuration.  The time compression and the variance
/// are `f64` values, held as their bit patterns.
#[derive(Clone, Copy, Debug)]
pub struct ProducerConfig {
    /// Simulated clients.
    pub num_clients: u64,
    /// Simulated hours per real hour: a client sends a batch every
    /// `3600 / time_compression` seconds.
    pub time_compression: F64Bits,
    pub min_batch_size: u64,
    pub max_batch_size: u64,
    pub distribution: DistributionType,
    /// Spread of the per-client shift of the distribution.
    pub distribution_variance: F64Bits,
}

/// Every key the producer reads from its bucket.
pub const PRODUCER_KEYS: [&'static str; 6] = [
    "num_clients",
    "time_compression",
    "min_batch_size",
    "max_batch_size",
    "distribution",
    "distribution_variance",
];

/// The producer configuration after the entry `key = value`, where `number`
/// is the value read as an `f64`: an unsigned key takes the value when it is
/// a `u64`, a numeric key takes the number when there is one, `distribution`
/// takes a distribution name in any case; anything else leaves the
/// configuration as it was.
pub open spec fn producer_config_after(
    c: ProducerConfig,
    key: Seq<char>,
    value: &str,
    number: Option<F64Bits>,
) -> ProducerConfig {
    if key == "num_clients"@ {
        ProducerConfig { num_clients: u64_or(c.num_clients, value), ..c }
    } else if key == "time_compression"@ {
        ProducerConfig { time_compression: number_or(c.time_compression, number), ..c }
    } else if key == "min_batch_size"@ {
        ProducerConfig { min_batch_size: u64_or(c.min_batch_size, value), ..c }
    } else if key == "max_batch_size"@ {
        ProducerConfig { max_batch_size: u64_or(c.max_batch_size, value), ..c }
    } else if key == "distribution"@ {
        match distribution_named(lowered(value@)) {
            Some(d) => ProducerConfig { distribution: d, ..c },
            None => c,
        }
    } else if key == "distribution_variance"@ {
        ProducerConfig { distribution_variance: number_or(c.distribution_variance, number), ..c }
    } else {
        c
    }
}

/// Whether the entry `key = value` is taken by the producer configuration.
pub open spec fn producer_entry_outcome(key: Seq<char>, value: &str, number: Option<F64Bits>) -> KvOutcome {
    let unsigned = taken_if(spec_parse_u64(value.spec_bytes()) is Some);
    let num = taken_if(number is Some);
    if key == "num_clients"@ {
        unsigned
    } else if key == "time_compression"@ {
        num
    } else if key == "min_batch_size"@ || key == "max_batch_size"@ {
        unsigned
    } else if key == "distribution"@ {
        taken_if(distribution_named(lowered(value@)) is Some)
    } else if key == "distribution_variance"@ {
        num
    } else {
        KvOutcome::UnknownKey
    }
}

/// Whether `key` is one of the producer's keys.
pub open spec fn known_producer_key(key: Seq<char>) -> bool {
    exists|i: int| 0 <= i < 6 && #[trigger] PRODUCER_KEYS[i]@ == key
}

/// The producer's keys are different words.
proof fn lemma_producer_keys_differ()
    ensures
        "time_compression"@ != "num_clients"@,
        "min_batch_size"@ != "num_clients"@,
        "min_batch_size"@ != "time_compression"@,
        "max_batch_size"@ != "num_clients"@,
        "max_batch_size"@ != "time_compression"@,
        "max_batch_size"@ != "min_batch_size"@,
        "distribution"@ != "num_clients"@,
        "distribution"@ != "time_compression"@,
        "distribution"@ != "min_batch_size"@,
        "distribution"@ != "max_batch_size"@,
        "distribution_variance"@ != "num_clients"@,
        "distribution_variance"@ != "time_compression"@,
        "distribution_variance"@ != "min_batch_size"@,
        "distribution_variance"@ != "max_batch_size"@,
        "distribution_variance"@ != "distribution"@,
{
    assert("time_compression"@ != "num_clients"@) by {
        reveal_strlit("time_compression");
        reveal_strlit("num_clients");
        assert("time_compression"@.len() == 16 && "num_clients"@.len() == 11);
    }
    assert("min_batch_size"@ != "num_clients"@) by {
        reveal_strlit("min_batch_size");
        reveal_strlit("num_clients");
        assert("min_batch_size"@.len() == 14 && "num_clients"@.len() == 11);
    }
    assert("min_batch_size"@ != "time_compression"@) by {
        reveal_strlit("min_batch_size");
        reveal_strlit("time_compression");
        assert("min_batch_size"@.len() == 14 && "time_compression"@.len() == 16);
    }
    assert("max_batch_size"@ != "num_clients"@) by {
        reveal_strlit("max_batch_size");
        reveal_strlit("num_clients");
        assert("max_batch_size"@.len() == 14 && "num_clients"@.len() == 11);
    }
    assert("max_batch_size"@ != "time_compression"@) by {
        reveal_strlit("max_batch_size");
        reveal_strlit("time_compression");
        assert("max_batch_size"@.len() == 14 && "time_compression"@.len() == 16);
    }
    assert("max_batch_size"@ != "min_batch_size"@) by {
        reveal_strlit("max_batch_size");
        reveal_strlit("min_batch_size");
        assert("max_batch_size"@[1] != "min_batch_size"@[1]);
    }
    assert("distribution"@ != "num_clients"@) by {
        reveal_strlit("distribution");
        reveal_strlit("num_clients");
        assert("distribution"@.len() == 12 && "num_clients"@.len() == 11);
    }
    assert("distribution"@ != "time_compression"@) by {
        reveal_strlit("distribution");
        reveal_strlit("time_compression");
        assert("distribution"@.len() == 12 && "time_compression"@.len() == 16);
    }
    assert("distribution"@ != "min_batch_size"@) by {
        reveal_strlit("distribution");
        reveal_strlit("min_batch_size");
        assert("distribution"@.len() == 12 && "min_batch_size"@.len() == 14);
    }
    assert("distribution"@ != "max_batch_size"@) by {
        reveal_strlit("distribution");
        reveal_strlit("max_batch_size");
        assert("distribution"@.len() == 12 && "max_batch_size"@.len() == 14);
    }
    assert("distribution_variance"@ != "num_clients"@) by {
        reveal_strlit("distribution_variance");
        reveal_strlit("num_clients");
        assert("distribution_variance"@.len() == 21 && "num_clients"@.len() == 11);
    }
    assert("distribution_variance"@ != "time_compression"@) by {
        reveal_strlit("distribution_variance");
        reveal_strlit("time_compression");
        assert("distribution_variance"@.len() == 21 && "time_compression"@.len() == 16);
    }
    assert("distribution_variance"@ != "min_batch_size"@) by {
        reveal_strlit("distribution_variance");
        reveal_strlit("min_batch_size");
        assert("distribution_variance"@.len() == 21 && "min_batch_size"@.len() == 14);
    }
    assert("distribution_variance"@ != "max_batch_size"@) by {
        reveal_strlit("distribution_variance");
        reveal_strlit("max_batch_size");
        assert("distribution_variance"@.len() == 21 && "max_batch_size"@.len() == 14);
    }
    assert("distribution_variance"@ != "distribution"@) by {
        reveal_strlit("distribution_variance");
        reveal_strlit("distribution");
        assert("distribution_variance"@.len() == 21 && "distribution"@.len() == 12);
    }
}

/// An entry sets the field of its key and leaves every other field as it
/// was: a numeric key takes the number `v`, an unsigned key takes the decimal
/// `u`, and `distribution` takes the distribution its lowercased value names.
pub proof fn lemma_producer_entry_sets_its_field(
    c: ProducerConfig,
    value: &str,
    v: F64Bits,
    u: u64,
    d: DistributionType,
    number: Option<F64Bits>,
)
    ensures
        producer_config_after(c, "time_compression"@, value, Some(v)) == (ProducerConfig {
            time_compression: v,
            ..c
        }),
        producer_config_after(c, "distribution_variance"@, value, Some(v)) == (ProducerConfig {
            distribution_variance: v,
            ..c
        }),
        spec_parse_u64(value.spec_bytes()) == Some(u) ==> {
            &&& producer_config_after(c, "num_clients"@, value, number) == (ProducerConfig { num_clients: u, ..c })
            &&& producer_config_after(c, "min_batch_size"@, value, number) == (ProducerConfig {
                min_batch_size: u,
                ..c
            })
            &&& producer_config_after(c, "max_batch_size"@, value, number) == (ProducerConfig {
                max_batch_size: u,
                ..c
            })
        },
        lowered(value@) == d.spec_name() ==> producer_config_after(c, "distribution"@, value, number) == (
        ProducerConfig { distribution: d, ..c }),
{
    lemma_producer_keys_differ();
    lemma_distribution_name_round_trip(d);
}

/// Applying the same entry twice leaves the producer configuration as
/// applying it once.
pub proof fn lemma_producer_entry_idempotent(
    c: ProducerConfig,
    key: Seq<char>,
    value: &str,
    number: Option<F64Bits>,
)
    ensures
        producer_config_after(producer_config_after(c, key, value, number), key, value, number)
            == producer_config_after(c, key, value, number),
{
}

impl Default for ProducerConfig {
    /// 70 clients, time compressed 60 times, batches of 100 to 5000, beta
    /// distribution with variance 0.3.
    fn default() -> (r: Self)
        ensures
            r.num_clients == 70,
            r.time_compression.bits == 0x404e_0000_0000_0000u64,
            r.min_batch_size == 100,
            r.max_batch_size == 5000,
            r.distribution == DistributionType::Beta,
            r.distribution_variance.bits == 0x3fd3_3333_3333_3333u64,
    {
        ProducerConfig {
            num_clients: 70,
            time_compression: F64Bits { bits: 0x404e_0000_0000_0000u64 },
            min_batch_size: 100,
            max_batch_size: 5000,
            distribution: DistributionType::Beta,
            distribution_variance: F64Bits { bits: 0x3fd3_3333_3333_3333u64 },
        }
    }
}

fn take_unsigned(slot: &mut u64, value: &str) -> (r: KvOutcome)
    ensures
        *final(slot) == u64_or(*old(slot), value),
        r == taken_if(spec_parse_u64(value.spec_bytes()) is Some),
{
    match parse_u64(value) {
        Some(v) => {
            *slot = v;
            KvOutcome::Applied
        },
        None => KvOutcome::Ignored,
    }
}

fn take_float(slot: &mut F64Bits, number: Option<F64Bits>) -> (r: KvOutcome)
    ensures
        *final(slot) == number_or(*old(slot), number),
        r == taken_if(number is Some),
{
    match number {
        Some(v) => {
            *slot = v;
            KvOutcome::Applied
        },
        None => KvOutcome::Ignored,
    }
}

impl ProducerConfig {
    /// Apply the KV entry `key = value`; `number` is `value` read as an
    /// `f64` (`None` when it does not read as one).
    pub fn apply_kv_entry(&mut self, key: &str, value: &str, number: Option<F64Bits>) -> (r: KvOutcome)
        ensures
            *final(self) == producer_config_after(*old(self), key@, value, number),
            r == producer_entry_outcome(key@, value, number),
            r == KvOutcome::UnknownKey <==> !known_producer_key(key@),
    {
        if str_eq(key, "num_clients") {
            take_unsigned(&mut self.num_clients, value)
        } else if str_eq(key, "time_compression") {
            take_float(&mut self.time_compression, number)
        } else if str_eq(key, "min_batch_size") {
            take_unsigned(&mut self.min_batch_size, value)
        } else if str_eq(key, "max_batch_size") {
            take_unsigned(&mut self.max_batch_size, value)
        } else if str_eq(key, "distribution") {
            match DistributionType::parse(value) {
                Ok(d) => {
                    self.distribution = d;
                    KvOutcome::Applied
                },
                Err(_) => KvOutcome::Ignored,
            }
        } else if str_eq(key, "distribution_variance") {
            take_float(&mut self.distribution_variance, number)
        } else {
            KvOutcome::UnknownKey
        }
    }
}

/// The metrics that the producer exports, with their help texts.
pub fn register_metrics() -> (r: Vec<MetricDescription>)
    ensures
        r@.len() == 5,
        describes(r@[0], MetricKind::Counter, "producer_messages_published_total"@),
        describes(r@[1], MetricKind::Counter, "producer_publish_errors_total"@),
        describes(r@[2], MetricKind::Counter, "producer_batches_sent_total"@),
        describes(r@[3], MetricKind::Gauge, "producer_active_clients"@),
        describes(r@[4], MetricKind::Gauge, "producer_backpressure"@),
        r@[0].help@ == "Messages successfully published"@,
        r@[1].help@ == "Publish failures (backpressure/storage full)"@,
        r@[2].help@ == "Batches sent across all clients"@,
        r@[3].help@ == "Number of active simulated clients"@,
        r@[4].help@ == "1 if recent publishes are failing, 0 if healthy"@,
        forall|i: int|
            0 <= i < r@.len() ==> ((#[trigger] r@[i]).kind == MetricKind::Counter) == counter_metric(r@[i].name@),
{
    let mut r: Vec<MetricDescription> = Vec::new();
    r.push(
        described(MetricKind::Counter, "producer_messages_published_total", "Messages successfully published"),
    );
    r.push(
        described(
            MetricKind::Counter,
            "producer_publish_errors_total",
            "Publish failures (backpressure/storage full)",
        ),
    );
    r.push(described(MetricKind::Counter, "producer_batches_sent_total", "Batches sent across all clients"));
    r.push(described(MetricKind::Gauge, "producer_active_clients", "Number of active simulated clients"));
    r.push(
        described(MetricKind::Gauge, "producer_backpressure", "1 if recent publishes are failing, 0 if healthy"),
    );
    proof {
        lemma_registered_kinds();
        assert forall|i: int| 0 <= i < r@.len() implies ((#[trigger] r@[i]).kind == MetricKind::Counter)
            == counter_metric(r@[i].name@) by {
            if i == 0 {}
            if i == 1 {}
            if i == 2 {}
            if i == 3 {}
            if i == 4 {}
        }
    }
    r
}

} // verus!
