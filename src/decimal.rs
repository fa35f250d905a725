//! Decimal text: parsing unsigned integers the way `str::parse` reads them,
//! trimming ASCII whitespace, and printing integers.

use vstd::prelude::*;

verus! {

/// ASCII whitespace as `u8::is_ascii_whitespace` defines it.
pub open spec fn is_space(b: u8) -> bool {
    b == 32 || b == 9 || b == 10 || b == 12 || b == 13
}

pub open spec fn is_digit(b: u8) -> bool {
    48 <= b && b <= 57
}

/// `s` with its leading whitespace removed.
pub open spec fn trim_front(s: Seq<u8>) -> Seq<u8>
    decreases s.len(),
{
    if s.len() > 0 && is_space(s[0]) {
        trim_front(s.drop_first())
    } else {
        s
    }
}

/// `s` with its trailing whitespace removed.
pub open spec fn trim_back(s: Seq<u8>) -> Seq<u8>
    decreases s.len(),
{
    if s.len() > 0 && is_space(s.last()) {
        trim_back(s.drop_last())
    } else {
        s
    }
}

pub open spec fn trim(s: Seq<u8>) -> Seq<u8> {
    trim_back(trim_front(s))
}

pub open spec fn all_digits(s: Seq<u8>) -> bool {
    forall|i: int| 0 <= i < s.len() ==> is_digit(#[trigger] s[i])
}

/// The number that a run of decimal digits denotes.
pub open spec fn digits_value(s: Seq<u8>) -> nat
    decreases s.len(),
{
    if s.len() == 0 {
        0
    } else {
        digits_value(s.drop_last()) * 10 + (s.last() - 48) as nat
    }
}

/// The digits of an unsigned literal: one leading `+` is allowed.
pub open spec fn literal_digits(s: Seq<u8>) -> Seq<u8> {
    if s.len() > 0 && s[0] == 43 {
        s.drop_first()
    } else {
        s
    }
}

/// `s` is an unsigned decimal literal: an optional `+`, then one or more digits.
pub open spec fn is_literal(s: Seq<u8>) -> bool {
    literal_digits(s).len() > 0 && all_digits(literal_digits(s))
}

pub open spec fn literal_value(s: Seq<u8>) -> nat {
    digits_value(literal_digits(s))
}

/// What parsing `s` as an unsigned integer no greater than `max` gives.
pub open spec fn parsed_within(s: Seq<u8>, max: nat) -> Option<nat> {
    if is_literal(s) && literal_value(s) <= max {
        Some(literal_value(s))
    } else {
        None
    }
}

/// The shortest decimal text of `n`.
pub open spec fn decimal(n: nat) -> Seq<u8>
    decreases n,
{
    if n < 10 {
        seq![(48 + n) as u8]
    } else {
        decimal(n / 10).push((48 + n % 10) as u8)
    }
}

/// The bounds `(lo, hi)` of `s` without its leading and trailing whitespace.
pub fn trim_bounds(s: &[u8]) -> (r: (usize, usize))
    ensures
        r.0 <= r.1 <= s@.len(),
        s@.subrange(r.0 as int, r.1 as int) == trim(s@),
{
    let mut lo: usize = 0;
    assert(s@.subrange(0, s@.len() as int) =~= s@);
    while lo < s.len() && (s[lo] == 32 || s[lo] == 9 || s[lo] == 10 || s[lo] == 12 || s[lo] == 13)
        invariant
            lo <= s@.len(),
            trim_front(s@) == trim_front(s@.subrange(lo as int, s@.len() as int)),
        decreases s@.len() - lo,
    {
        assert(s@.subrange(lo as int, s@.len() as int).drop_first() =~= s@.subrange(
            lo + 1,
            s@.len() as int,
        ));
        lo = lo + 1;
    }
    let mut hi: usize = s.len();
    assert(s@.subrange(lo as int, hi as int) == trim_front(s@));
    while hi > lo && (s[hi - 1] == 32 || s[hi - 1] == 9 || s[hi - 1] == 10 || s[hi - 1] == 12 || s[
        hi - 1] == 13)
        invariant
            lo <= hi <= s@.len(),
            trim(s@) == trim_back(s@.subrange(lo as int, hi as int)),
        decreases hi,
    {
        assert(s@.subrange(lo as int, hi as int).drop_last() =~= s@.subrange(
            lo as int,
            hi - 1,
        ));
        hi = hi - 1;
    }
    (lo, hi)
}

/// Parses `s[lo..hi]` as an unsigned 64-bit literal.
pub fn parse_u64_range(s: &[u8], lo: usize, hi: usize) -> (r: Option<u64>)
    requires
        lo <= hi <= s@.len(),
    ensures
        r matches Some(v) ==> parsed_within(s@.subrange(lo as int, hi as int), u64::MAX as nat)
            == Some(v as nat),
        r is None ==> parsed_within(s@.subrange(lo as int, hi as int), u64::MAX as nat) is None,
{
    let ghost t = s@.subrange(lo as int, hi as int);
    let mut start: usize = lo;
    if lo < hi && s[lo] == 43 {
        start = lo + 1;
    }
    let ghost d = s@.subrange(start as int, hi as int);
    assert(d =~= literal_digits(t));
    if start == hi {
        return None;
    }
    let mut acc: u64 = 0;
    let mut over = false;
    let mut i: usize = start;
    while i < hi
        invariant
            start <= i <= hi <= s@.len(),
            d == s@.subrange(start as int, hi as int),
            t == s@.subrange(lo as int, hi as int),
            d == literal_digits(t),
            all_digits(d.subrange(0, i - start)),
            !over ==> acc == digits_value(d.subrange(0, i - start)),
            over ==> digits_value(d.subrange(0, i - start)) > u64::MAX,
        decreases hi - i,
    {
        let b = s[i];
        if b < 48 || b > 57 {
            assert(!is_digit(d[i - start]));
            return None;
        }
        let ghost p = d.subrange(0, i - start);
        let ghost q = d.subrange(0, i + 1 - start);
        assert(q.drop_last() =~= p);
        assert(q.last() == b);
        assert(digits_value(q) == digits_value(p) * 10 + (b - 48) as nat);
        let dig: u64 = (b - 48) as u64;
        if over {
            assert(digits_value(q) > u64::MAX) by (nonlinear_arith)
                requires
                    digits_value(q) == digits_value(p) * 10 + dig,
                    digits_value(p) > u64::MAX,
            ;
        } else if acc > (u64::MAX - dig) / 10 {
            assert(digits_value(q) > u64::MAX) by (nonlinear_arith)
                requires
                    digits_value(q) == acc * 10 + dig,
                    acc > (u64::MAX - dig) / 10,
                    dig <= 9,
            ;
            over = true;
        } else {
            assert(acc * 10 + dig <= u64::MAX) by (nonlinear_arith)
                requires
                    acc <= (u64::MAX - dig) / 10,
                    dig <= 9,
            ;
            acc = acc * 10 + dig;
        }
        assert(all_digits(q)) by {
            assert forall|k: int| 0 <= k < q.len() implies is_digit(#[trigger] q[k]) by {
                if k < p.len() {
                    assert(q[k] == p[k]);
                }
            }
        }
        i = i + 1;
    }
    assert(d.subrange(0, hi - start) =~= d);
    if over {
        None
    } else {
        Some(acc)
    }
}

/// Parses `s`, without surrounding whitespace, as an unsigned 64-bit literal.
pub fn parse_trimmed_u64(s: &[u8]) -> (r: Option<u64>)
    ensures
        r matches Some(v) ==> parsed_within(trim(s@), u64::MAX as nat) == Some(v as nat),
        r is None ==> parsed_within(trim(s@), u64::MAX as nat) is None,
{
    let (lo, hi) = trim_bounds(s);
    parse_u64_range(s, lo, hi)
}

/// Appends the decimal text of `n` to `out`.
pub fn push_decimal(n: u64, out: &mut Vec<u8>)
    ensures
        final(out)@ == old(out)@ + decimal(n as nat),
    decreases n,
{
    if n >= 10 {
        push_decimal(n / 10, out);
    }
    out.push((48 + n % 10) as u8);
    assert(out@ =~= old(out)@ + decimal(n as nat));
}

} // verus!
