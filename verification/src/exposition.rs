//! Reading the Prometheus text exposition format that the dashboard scrapes:
//! the body is split into lines (at '\n', a '\r' before it dropped), comment
//! and empty lines are skipped, each other line is split at its first space
//! into a metric name and a value text, and only the metrics of flowgate and
//! of its producer are kept.  The value text is left for the caller to read
//! as a number.
use vstd::prelude::*;

verus! {

/// Position of the first '\n' at or after `from` (the length if none).
pub open spec fn line_end(s: Seq<u8>, from: int) -> int
    decreases s.len() - from,
{
    if from >= s.len() {
        s.len() as int
    } else if s[from] == 10 {
        from
    } else {
        line_end(s, from + 1)
    }
}

/// Position of the first ' ' at or after `from` (the length if none).
pub open spec fn first_space(s: Seq<u8>, from: int) -> int
    decreases s.len() - from,
{
    if from >= s.len() {
        s.len() as int
    } else if s[from] == 32 {
        from
    } else {
        first_space(s, from + 1)
    }
}

pub proof fn lemma_line_end_bounds(s: Seq<u8>, from: int)
    requires
        0 <= from <= s.len(),
    ensures
        from <= line_end(s, from) <= s.len(),
    decreases s.len() - from,
{
    if from < s.len() && s[from] != 10 {
        lemma_line_end_bounds(s, from + 1);
    }
}

/// The line that starts at `from`: up to the next '\n', without a '\r'
/// that stands just before that '\n'.
pub open spec fn line_at(s: Seq<u8>, from: int) -> Seq<u8> {
    let e = line_end(s, from);
    let raw = s.subrange(from, e);
    if e < s.len() && raw.len() > 0 && raw.last() == 13 {
        raw.drop_last()
    } else {
        raw
    }
}

/// The bytes of "flowgate_".
pub open spec fn flowgate_prefix() -> Seq<u8> {
    seq![102u8, 108u8, 111u8, 119u8, 103u8, 97u8, 116u8, 101u8, 95u8]
}

/// The bytes of "producer_".
pub open spec fn producer_prefix() -> Seq<u8> {
    seq![112u8, 114u8, 111u8, 100u8, 117u8, 99u8, 101u8, 114u8, 95u8]
}

/// The metric names the dashboard shows: those that start with "flowgate_"
/// or "producer_".
pub open spec fn shown_name(name: Seq<u8>) -> bool {
    name.len() >= 9 && (name.subrange(0, 9) == flowgate_prefix() || name.subrange(0, 9) == producer_prefix())
}

/// The (name, value text) of a line, if it is a sample the dashboard shows:
/// not empty, not a '#' comment, holding a space, with a name that starts
/// with "flowgate_" or "producer_".
pub open spec fn sample_of_line(line: Seq<u8>) -> Option<(Seq<u8>, Seq<u8>)> {
    if line.len() == 0 || line[0] == 35 {
        None
    } else {
        let k = first_space(line, 0);
        if k >= line.len() {
            None
        } else {
            let name = line.subrange(0, k);
            let value = line.subrange(k + 1, line.len() as int);
            if shown_name(name) {
                Some((name, value))
            } else {
                None
            }
        }
    }
}

/// The samples of the lines from position `from` on.
pub open spec fn samples_from(s: Seq<u8>, from: int) -> Seq<(Seq<u8>, Seq<u8>)>
    decreases s.len() + 1 - from
    via samples_from_decreases
{
    if from < 0 || from >= s.len() {
        Seq::empty()
    } else {
        let rest = samples_from(s, line_end(s, from) + 1);
        match sample_of_line(line_at(s, from)) {
            Some(p) => seq![p] + rest,
            None => rest,
        }
    }
}

#[via_fn]
proof fn samples_from_decreases(s: Seq<u8>, from: int) {
    if 0 <= from < s.len() {
        lemma_line_end_bounds(s, from);
    }
}

/// A scraped sample: the metric name and the text of its value.
pub struct MetricSample {
    pub name: Vec<u8>,
    pub value: Vec<u8>,
}

pub open spec fn sample_view(m: MetricSample) -> (Seq<u8>, Seq<u8>) {
    (m.name@, m.value@)
}

fn copy_range(s: &[u8], a: usize, b: usize) -> (r: Vec<u8>)
    requires
        a <= b <= s@.len(),
    ensures
        r@ == s@.subrange(a as int, b as int),
{
    let mut r: Vec<u8> = Vec::new();
    let mut i = a;
    while i < b
        invariant
            a <= i <= b <= s@.len(),
            r@ == s@.subrange(a as int, i as int),
        decreases b - i,
    {
        r.push(s[i]);
        i = i + 1;
        assert(r@ =~= s@.subrange(a as int, i as int));
    }
    r
}

proof fn lemma_first_space_skip_from(line: Seq<u8>, i: int, j: int)
    requires
        0 <= i <= j <= line.len(),
        forall|t: int| i <= t < j ==> line[t] != 32,
    ensures
        first_space(line, i) == first_space(line, j),
    decreases j - i,
{
    if i < j {
        lemma_first_space_skip_from(line, i + 1, j);
    }
}

proof fn lemma_line_end_skip(s: Seq<u8>, i: int, j: int)
    requires
        0 <= i <= j <= s.len(),
        forall|t: int| i <= t < j ==> s[t] != 10,
    ensures
        line_end(s, i) == line_end(s, j),
    decreases j - i,
{
    if i < j {
        lemma_line_end_skip(s, i + 1, j);
    }
}

/// Whether `p` stands in `s` at `at`.
fn prefix_at(s: &[u8], at: usize, p: &Vec<u8>) -> (r: bool)
    requires
        at + p@.len() <= s@.len(),
    ensures
        r == (s@.subrange(at as int, at + p@.len()) == p@),
{
    let n = s.len();
    let mut i: usize = 0;
    while i < p.len()
        invariant
            n == s@.len(),
            at + p@.len() <= s@.len(),
            i <= p@.len(),
            forall|j: int| 0 <= j < i ==> s@[at + j] == p@[j],
        decreases p@.len() - i,
    {
        if s[at + i] != p[i] {
            assert(s@.subrange(at as int, at + p@.len())[i as int] != p@[i as int]);
            return false;
        }
        i = i + 1;
    }
    assert(s@.subrange(at as int, at + p@.len()) =~= p@);
    true
}

/// The sample of the line `s[start..end)`, read in place.
fn sample_in(s: &[u8], start: usize, end: usize) -> (r: Option<MetricSample>)
    requires
        start <= end <= s@.len(),
    ensures
        r matches Some(m) ==> sample_of_line(s@.subrange(start as int, end as int)) == Some(sample_view(m)),
        r is None ==> sample_of_line(s@.subrange(start as int, end as int)) is None,
{
    let ghost line = s@.subrange(start as int, end as int);
    if start == end || s[start] == 35u8 {
        return None;
    }
    let mut k = start;
    while k < end && s[k] != 32u8
        invariant
            start <= k <= end <= s@.len(),
            line == s@.subrange(start as int, end as int),
            forall|t: int| 0 <= t < k - start ==> line[t] != 32,
        decreases end - k,
    {
        k = k + 1;
    }
    proof {
        lemma_first_space_skip_from(line, 0, k - start);
    }
    if k >= end {
        return None;
    }
    assert(first_space(line, 0) == k - start);
    if k - start < 9 {
        return None;
    }
    let flowgate: Vec<u8> = vec![102u8, 108u8, 111u8, 119u8, 103u8, 97u8, 116u8, 101u8, 95u8];
    let producer: Vec<u8> = vec![112u8, 114u8, 111u8, 100u8, 117u8, 99u8, 101u8, 114u8, 95u8];
    assert(flowgate@ =~= flowgate_prefix());
    assert(producer@ =~= producer_prefix());
    let ok = prefix_at(s, start, &flowgate) || prefix_at(s, start, &producer);
    proof {
        let name = line.subrange(0, k - start);
        assert(name.subrange(0, 9) =~= s@.subrange(start as int, start + 9));
    }
    if !ok {
        return None;
    }
    let name_bytes = copy_range(s, start, k);
    let value_bytes = copy_range(s, k + 1, end);
    proof {
        assert(name_bytes@ =~= line.subrange(0, k - start));
        assert(value_bytes@ =~= line.subrange(k - start + 1, line.len() as int));
    }
    Some(MetricSample { name: name_bytes, value: value_bytes })
}

/// The flowgate and producer samples of a scraped body, in the order of
/// their lines.
pub fn parse_samples(body: &[u8]) -> (r: Vec<MetricSample>)
    ensures
        r@.map_values(|m: MetricSample| sample_view(m)) == samples_from(body@, 0),
{
    let ghost s = body@;
    let n = body.len();
    let mut out: Vec<MetricSample> = Vec::new();
    let mut pos: usize = 0;
    while pos < n
        invariant
            n == s.len(),
            s == body@,
            pos <= n,
            out@.map_values(|m: MetricSample| sample_view(m)) + samples_from(s, pos as int) == samples_from(s, 0),
        decreases n - pos,
    {
        let mut e = pos;
        while e < n && body[e] != 10u8
            invariant
                pos <= e <= n,
                n == s.len(),
                s == body@,
                forall|t: int| pos <= t < e ==> s[t] != 10,
            decreases n - e,
        {
            e = e + 1;
        }
        proof {
            lemma_line_end_skip(s, pos as int, e as int);
            assert(line_end(s, pos as int) == e);
        }
        let end = if e < n && e > pos && body[e - 1] == 13u8 { e - 1 } else { e };
        proof {
            let raw = s.subrange(pos as int, e as int);
            if e < n && e > pos && s[e - 1] == 13 {
                assert(raw.drop_last() =~= s.subrange(pos as int, end as int));
            } else {
                assert(raw =~= s.subrange(pos as int, end as int));
            }
            assert(line_at(s, pos as int) == s.subrange(pos as int, end as int));
        }
        let ghost before = out@.map_values(|m: MetricSample| sample_view(m));
        match sample_in(body, pos, end) {
            Some(m) => {
                let ghost v = sample_view(m);
                out.push(m);
                proof {
                    assert(out@.map_values(|m: MetricSample| sample_view(m)) =~= before.push(v));
                    assert(before.push(v) + samples_from(s, e + 1) =~= before + (seq![v] + samples_from(s, e + 1)));
                }
            },
            None => {},
        }
        proof {
            if e >= n {
                assert(samples_from(s, e + 1) == samples_from(s, n as int));
            }
        }
        pos = if e < n { e + 1 } else { n };
    }
    proof {
        assert(samples_from(s, pos as int) == Seq::<(Seq<u8>, Seq<u8>)>::empty());
        assert(out@.map_values(|m: MetricSample| sample_view(m)) + Seq::<(Seq<u8>, Seq<u8>)>::empty()
            =~= out@.map_values(|m: MetricSample| sample_view(m)));
    }
    out
}

} // verus!
