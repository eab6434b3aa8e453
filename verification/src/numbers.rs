use vstd::prelude::*;

use crate::lines::{first_index, split_once};
use crate::text::chars_of;

verus! {

pub open spec fn is_digit(c: char) -> bool {
    '0' <= c && c <= '9'
}

pub open spec fn all_digits(d: Seq<char>) -> bool {
    forall|i: int| 0 <= i < d.len() ==> is_digit(#[trigger] d[i])
}

/// The value of a run of decimal digits.
pub open spec fn digits_value(d: Seq<char>) -> nat
    decreases d.len(),
{
    if d.len() == 0 {
        0
    } else {
        digits_value(d.drop_last()) * 10 + ((d.last() as int) - 48) as nat
    }
}

/// `str::parse::<u64>`: an optional `+` and one or more digits whose value fits in a `u64`.
pub open spec fn u64_text(s: Seq<char>) -> Option<u64> {
    let d = if s.len() > 0 && s[0] == '+' { s.drop_first() } else { s };
    if d.len() > 0 && all_digits(d) && digits_value(d) <= u64::MAX {
        Some(digits_value(d) as u64)
    } else {
        None
    }
}

fn digit_value(c: char) -> (r: u8)
    requires
        is_digit(c),
    ensures
        r as int == (c as int) - 48,
        r < 10,
{
    ((c as u32) - 48) as u8
}

/// The value of the digits of `d` when all are digits and the value fits in a `u64`.
fn digits_to_u64(d: &[char]) -> (r: Option<u64>)
    ensures
        r matches Some(v) ==> all_digits(d@) && digits_value(d@) == v,
        r is None ==> !all_digits(d@) || digits_value(d@) > u64::MAX,
{
    let mut value: u64 = 0;
    let mut overflow = false;
    let mut i: usize = 0;
    while i < d.len()
        invariant
            i <= d.len(),
            all_digits(d@.take(i as int)),
            !overflow ==> value == digits_value(d@.take(i as int)),
            overflow ==> digits_value(d@.take(i as int)) > u64::MAX,
        decreases d.len() - i,
    {
        let c = d[i];
        proof {
            assert(d@.take(i + 1).drop_last() == d@.take(i as int));
            assert(d@.take(i + 1).last() == c);
        }
        if !('0' <= c && c <= '9') {
            proof {
                assert(!is_digit(d@[i as int]));
            }
            return None;
        }
        let dv = digit_value(c);
        if !overflow {
            let wide: u128 = (value as u128) * 10 + (dv as u128);
            if wide > u64::MAX as u128 {
                overflow = true;
            } else {
                value = wide as u64;
            }
        }
        proof {
            assert forall|j: int| 0 <= j < i + 1 implies is_digit(#[trigger] d@.take(i + 1)[j]) by {
                if j < i {
                    assert(d@.take(i + 1)[j] == d@.take(i as int)[j]);
                }
            }
        }
        i += 1;
    }
    proof {
        assert(d@.take(d@.len() as int) == d@);
    }
    if overflow {
        None
    } else {
        Some(value)
    }
}

/// `text.parse::<u64>().ok()`.
pub fn parse_u64(text: &str) -> (r: Option<u64>)
    ensures
        r == u64_text(text@),
{
    let v = chars_of(text);
    let start: usize = if v.len() > 0 && v[0] == '+' { 1 } else { 0 };
    let mut d: Vec<char> = Vec::new();
    let mut i: usize = start;
    while i < v.len()
        invariant
            start <= i <= v.len(),
            d@ == v@.subrange(start as int, i as int),
        decreases v.len() - i,
    {
        d.push(v[i]);
        i += 1;
    }
    proof {
        if start == 1 {
            assert(d@ == v@.drop_first());
        } else {
            assert(d@ == v@);
        }
    }
    if d.len() == 0 {
        return None;
    }
    digits_to_u64(d.as_slice())
}

pub open spec fn pow10(k: nat) -> nat
    decreases k,
{
    if k == 0 { 1 } else { 10 * pow10((k - 1) as nat) }
}

/// The first nine digits of a fraction, as nanoseconds.
pub open spec fn fraction_nanos(frac: Seq<char>) -> nat {
    let kept = if frac.len() > 9 { frac.take(9) } else { frac };
    digits_value(kept) * pow10((9 - kept.len()) as nat)
}

/// A decimal seconds value (`find -printf %T@`) as whole nanoseconds: an optional sign,
/// digits, and an optional fraction; negative values count as zero and digits past the
/// ninth fractional one are dropped. `None` for other texts and for whole parts beyond `u64`.
pub open spec fn seconds_text_nanos(s: Seq<char>) -> Option<u128> {
    let negative = s.len() > 0 && s[0] == '-';
    let body = if s.len() > 0 && (s[0] == '-' || s[0] == '+') { s.drop_first() } else { s };
    let (whole, frac) = match split_once(body, '.') {
        Some((w, f)) => (w, f),
        None => (body, Seq::empty()),
    };
    if whole.len() + frac.len() == 0 || !all_digits(whole) || !all_digits(frac) || digits_value(whole) > u64::MAX {
        None
    } else if negative {
        Some(0)
    } else {
        Some((digits_value(whole) * 1_000_000_000 + fraction_nanos(frac)) as u128)
    }
}


fn all_digit_chars(d: &[char]) -> (r: bool)
    ensures
        r == all_digits(d@),
{
    let mut i: usize = 0;
    while i < d.len()
        invariant
            i <= d.len(),
            forall|j: int| 0 <= j < i ==> is_digit(#[trigger] d@[j]),
        decreases d.len() - i,
    {
        if !('0' <= d[i] && d[i] <= '9') {
            return false;
        }
        i += 1;
    }
    true
}

fn chars_range(v: &[char], from: usize, to: usize) -> (r: Vec<char>)
    requires
        from <= to <= v.len(),
    ensures
        r@ == v@.subrange(from as int, to as int),
{
    let mut out: Vec<char> = Vec::new();
    let mut k: usize = from;
    while k < to
        invariant
            from <= k <= to,
            to <= v.len(),
            out@ == v@.subrange(from as int, k as int),
        decreases to - k,
    {
        out.push(v[k]);
        k += 1;
    }
    out
}

fn pow10_exec(k: usize) -> (r: u64)
    requires
        k <= 9,
    ensures
        r == pow10(k as nat),
        r <= 1_000_000_000,
{
    let mut r: u64 = 1;
    let mut i: usize = 0;
    while i < k
        invariant
            i <= k <= 9,
            r == pow10(i as nat),
        decreases k - i,
    {
        proof {
            lemma_pow10_split(i as nat);
            lemma_pow10_split((i + 1) as nat);
        }
        r = r * 10;
        i += 1;
    }
    proof {
        lemma_pow10_split(k as nat);
    }
    r
}

proof fn lemma_pow10_add(a: nat, b: nat)
    ensures
        pow10(a + b) == pow10(a) * pow10(b),
        pow10(a) > 0,
    decreases a,
{
    if a > 0 {
        let a1 = (a - 1) as nat;
        lemma_pow10_add(a1, b);
        assert(((a + b) - 1) as nat == a1 + b);
        assert(pow10(a + b) == 10 * pow10(a1 + b));
        let x = pow10(a1);
        let y = pow10(b);
        assert(pow10(a) == 10 * x);
        assert(10 * (x * y) == (10 * x) * y) by (nonlinear_arith);
        assert(pow10(a + b) == pow10(a) * pow10(b));
    } else {
        assert(pow10(a) == 1);
        assert(a + b == b);
        assert(pow10(a + b) == pow10(a) * pow10(b));
    }
}

proof fn lemma_pow10_split(i: nat)
    requires
        i <= 9,
    ensures
        pow10(i) * pow10((9 - i) as nat) == 1_000_000_000,
        pow10(i) <= 1_000_000_000,
        pow10(i) > 0,
        i < 9 ==> pow10(i + 1) == 10 * pow10(i),
{
    lemma_pow10_add(i, (9 - i) as nat);
    lemma_pow10_add((9 - i) as nat, 0);
    assert(pow10(9) == 1_000_000_000) by {
        reveal_with_fuel(pow10, 10);
    }
    assert(pow10(i) <= 1_000_000_000) by (nonlinear_arith)
        requires pow10(i) * pow10((9 - i) as nat) == 1_000_000_000, pow10((9 - i) as nat) > 0;
}

/// Reads a decimal seconds value as whole nanoseconds (see `seconds_text_nanos`).
pub fn parse_seconds_nanos(text: &str) -> (r: Option<u128>)
    ensures
        r == seconds_text_nanos(text@),
{
    let v = chars_of(text);
    let negative = v.len() > 0 && v[0] == '-';
    let start: usize = if v.len() > 0 && (v[0] == '-' || v[0] == '+') { 1 } else { 0 };
    let body = chars_range(v.as_slice(), start, v.len());
    proof {
        if start == 1 {
            assert(body@ == v@.drop_first());
        } else {
            assert(body@ == v@);
        }
    }
    let (whole, frac) = match crate::lines::find_char(body.as_slice(), '.') {
        Some(i) => {
            proof {
                crate::lines::lemma_first_index(body@, '.');
            }
            let w = chars_range(body.as_slice(), 0, i);
            let f = chars_range(body.as_slice(), i + 1, body.len());
            assert(w@ == body@.take(i as int));
            assert(f@ == body@.skip(i + 1));
            (w, f)
        },
        None => {
            assert(body@.subrange(0, body@.len() as int) == body@);
            (chars_range(body.as_slice(), 0, body.len()), Vec::new())
        },
    };
    if whole.len() == 0 && frac.len() == 0 {
        return None;
    }
    if !all_digit_chars(frac.as_slice()) {
        return None;
    }
    let whole_value = match digits_to_u64(whole.as_slice()) {
        Some(w) => w,
        None => return None,
    };
    if negative {
        return Some(0);
    }
    let kept_len: usize = if frac.len() > 9 { 9 } else { frac.len() };
    let kept = chars_range(frac.as_slice(), 0, kept_len);
    proof {
        assert forall|j: int| 0 <= j < kept@.len() implies is_digit(#[trigger] kept@[j]) by {
            assert(kept@[j] == frac@[j]);
        }
        if frac.len() > 9 {
            assert(kept@ == frac@.take(9));
        } else {
            assert(kept@ == frac@);
        }
    }
    proof {
        lemma_digits_bound(kept@);
        lemma_pow10_split(kept_len as nat);
        lemma_pow10_add((9 - kept_len) as nat, 0);
    }
    let kept_value = match digits_to_u64(kept.as_slice()) {
        Some(k) => k,
        None => {
            assert(false);
            return None;
        },
    };
    let scale = pow10_exec(9 - kept_len);
    proof {
        let p = pow10(kept_len as nat);
        assert((kept_value as int) * (scale as int) <= 1_000_000_000) by (nonlinear_arith)
            requires kept_value < p, p * scale == 1_000_000_000, scale > 0;
    }
    let nanos: u128 = (whole_value as u128) * 1_000_000_000 + (kept_value as u128) * (scale as u128);
    Some(nanos)
}

/// A run of at most nine digits has a value below `10^len`.
proof fn lemma_digits_bound(d: Seq<char>)
    requires
        all_digits(d),
    ensures
        digits_value(d) < pow10(d.len()),
    decreases d.len(),
{
    if d.len() > 0 {
        assert(all_digits(d.drop_last())) by {
            assert forall|i: int| 0 <= i < d.drop_last().len() implies is_digit(#[trigger] d.drop_last()[i]) by {
                assert(d.drop_last()[i] == d[i]);
            }
        }
        lemma_digits_bound(d.drop_last());
        assert(is_digit(d[d.len() - 1]));
    }
}

} // verus!
