//! Small text utilities on UTF-8 strings: equality and the parse of an
//! unsigned decimal as `u64::from_str` accepts it.
use vstd::prelude::*;
use vstd::utf8::{encode_utf8_decode_utf8};
use vstd::string::StringSliceAdditionalSpecFns;

verus! {

/// `a == b` for string slices.
pub fn str_eq(a: &str, b: &str) -> (r: bool)
    ensures
        r == (a@ == b@),
{
    let x = a.as_bytes();
    let y = b.as_bytes();
    proof {
        encode_utf8_decode_utf8(a@);
        encode_utf8_decode_utf8(b@);
    }
    if x.len() != y.len() {
        return false;
    }
    let mut i: usize = 0;
    while i < x.len()
        invariant
            x@.len() == y@.len(),
            x@ == a.spec_bytes(),
            y@ == b.spec_bytes(),
            i <= x@.len(),
            forall|j: int| 0 <= j < i ==> x@[j] == y@[j],
        decreases x@.len() - i,
    {
        if x[i] != y[i] {
            return false;
        }
        i = i + 1;
    }
    proof {
        assert(x@ =~= y@);
    }
    true
}

/// The value of a string of decimal digits (ASCII '0' to '9').
pub open spec fn decimal_value(d: Seq<u8>) -> nat
    decreases d.len(),
{
    if d.len() == 0 {
        0
    } else {
        decimal_value(d.drop_last()) * 10 + (d.last() - 48) as nat
    }
}

/// Every byte of `d` is an ASCII digit.
pub open spec fn all_digits(d: Seq<u8>) -> bool {
    forall|i: int| 0 <= i < d.len() ==> 48 <= #[trigger] d[i] <= 57
}

/// What `u64::from_str` gives for these bytes, `None` for an error: an
/// optional leading '+', then at least one digit and nothing else, and a
/// value that fits in 64 bits.
pub open spec fn spec_parse_u64(b: Seq<u8>) -> Option<u64> {
    let d = if b.len() > 0 && b[0] == 43 { b.drop_first() } else { b };
    if d.len() > 0 && all_digits(d) && decimal_value(d) <= u64::MAX {
        Some(decimal_value(d) as u64)
    } else {
        None
    }
}

proof fn lemma_decimal_prefix(d: Seq<u8>, i: int)
    requires
        0 <= i < d.len(),
    ensures
        decimal_value(d.take(i + 1)) == decimal_value(d.take(i)) * 10 + (d[i] - 48) as nat,
{
    assert(d.take(i + 1).drop_last() =~= d.take(i));
}

proof fn lemma_decimal_monotone(d: Seq<u8>, i: int)
    requires
        0 <= i <= d.len(),
        all_digits(d),
    ensures
        decimal_value(d.take(i)) <= decimal_value(d),
    decreases d.len() - i,
{
    if i < d.len() {
        lemma_decimal_prefix(d, i);
        lemma_decimal_monotone(d, i + 1);
    } else {
        assert(d.take(i) =~= d);
    }
}

proof fn lemma_digits_extend(d: Seq<u8>, n: int)
    requires
        0 <= n < d.len(),
        all_digits(d.take(n)),
        48 <= d[n] <= 57,
    ensures
        all_digits(d.take(n + 1)),
{
    assert forall|j: int| 0 <= j < n + 1 implies 48 <= #[trigger] d.take(n + 1)[j] <= 57 by {
        if j < n {
            assert(d.take(n + 1)[j] == d.take(n)[j]);
        }
    }
}

/// Overflow of a prefix means the whole number does not fit.
proof fn lemma_prefix_overflow(d: Seq<u8>, n: int)
    requires
        0 <= n <= d.len(),
        decimal_value(d.take(n)) > u64::MAX,
    ensures
        !(all_digits(d) && decimal_value(d) <= u64::MAX),
{
    if all_digits(d) {
        lemma_decimal_monotone(d, n);
    }
}

/// `value.parse::<u64>()`, with `None` for an error.
pub fn parse_u64(value: &str) -> (r: Option<u64>)
    ensures
        r == spec_parse_u64(value.spec_bytes()),
{
    let b = value.as_bytes();
    let start: usize = if b.len() > 0 && b[0] == 43u8 { 1 } else { 0 };
    let ghost d = if b@.len() > 0 && b@[0] == 43 { b@.drop_first() } else { b@ };
    assert(d.len() == b@.len() - start);
    assert(forall|j: int| start <= j < b@.len() ==> d[j - start] == #[trigger] b@[j]);
    if start >= b.len() {
        return None;
    }
    let mut acc: u64 = 0;
    let mut i: usize = start;
    while i < b.len()
        invariant
            start <= i <= b@.len(),
            d.len() == b@.len() - start,
            forall|j: int| start <= j < b@.len() ==> d[j - start] == #[trigger] b@[j],
            b@ == value.spec_bytes(),
            d == (if b@.len() > 0 && b@[0] == 43 { b@.drop_first() } else { b@ }),
            acc == decimal_value(d.take(i - start)),
            all_digits(d.take(i - start)),
        decreases b@.len() - i,
    {
        let c = b[i];
        let ghost k: int = i - start;
        assert(d[k] == c);
        if c < 48u8 || c > 57u8 {
            return None;
        }
        proof {
            lemma_decimal_prefix(d, k);
            lemma_digits_extend(d, k);
        }
        let digit = (c - 48u8) as u64;
        let m = acc.checked_mul(10);
        if m.is_none() {
            proof {
                lemma_prefix_overflow(d, k + 1);
            }
            return None;
        }
        let v = m.unwrap().checked_add(digit);
        if v.is_none() {
            proof {
                lemma_prefix_overflow(d, k + 1);
            }
            return None;
        }
        acc = v.unwrap();
        i = i + 1;
    }
    proof {
        assert(d.take(i - start) =~= d);
    }
    Some(acc)
}

} // verus!
