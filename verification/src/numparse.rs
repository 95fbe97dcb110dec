//! Decimal integer parsing with the rules of `str::parse` for the integer
//! types: an optional sign, then one or more ASCII digits, within range.
use vstd::prelude::*;
use crate::text::{chars_of, is_digit};

verus! {

pub open spec fn digit_value(c: char) -> int {
    (c as u32) as int - 48
}

pub open spec fn all_digits(s: Seq<char>) -> bool {
    forall|k: int| 0 <= k < s.len() ==> is_digit(#[trigger] s[k])
}

/// The number that the decimal digits `s` spell.
pub open spec fn digits_value(s: Seq<char>) -> int
    decreases s.len(),
{
    if s.len() == 0 {
        0
    } else {
        10 * digits_value(s.drop_last()) + digit_value(s.last())
    }
}

/// `s` without the leading `sign` when it has one and more after it.
pub open spec fn unsigned_body(s: Seq<char>) -> Seq<char> {
    if s.len() >= 2 && s[0] == '+' {
        s.drop_first()
    } else {
        s
    }
}

/// What `str::parse` gives for an unsigned type whose largest value is `max`.
pub open spec fn parse_unsigned(s: Seq<char>, max: int) -> Option<int> {
    let body = unsigned_body(s);
    if body.len() > 0 && all_digits(body) && digits_value(body) <= max {
        Some(digits_value(body))
    } else {
        None
    }
}

/// What `str::parse::<i64>` gives.
pub open spec fn parse_signed64(s: Seq<char>) -> Option<int> {
    if s.len() >= 2 && s[0] == '-' {
        let body = s.drop_first();
        if all_digits(body) && digits_value(body) <= 0x8000_0000_0000_0000 {
            Some(-digits_value(body))
        } else {
            None
        }
    } else {
        parse_unsigned(s, 0x7fff_ffff_ffff_ffff)
    }
}

proof fn lemma_digits_nonneg(s: Seq<char>)
    requires
        all_digits(s),
    ensures
        digits_value(s) >= 0,
    decreases s.len(),
{
    if s.len() > 0 {
        assert(all_digits(s.drop_last())) by {
            assert forall|k: int| 0 <= k < s.drop_last().len() implies is_digit(
                #[trigger] s.drop_last()[k],
            ) by {
                assert(s.drop_last()[k] == s[k]);
            }
        }
        lemma_digits_nonneg(s.drop_last());
        assert(is_digit(s[s.len() - 1]));
    }
}

/// A longer run of digits never has a smaller value.
proof fn lemma_digits_prefix_le(s: Seq<char>, k: int)
    requires
        all_digits(s),
        0 <= k <= s.len(),
    ensures
        digits_value(s.subrange(0, k)) <= digits_value(s),
    decreases s.len() - k,
{
    if k < s.len() {
        let t = s.subrange(0, k + 1);
        assert(t.drop_last() =~= s.subrange(0, k));
        assert(all_digits(s.subrange(0, k))) by {
            assert forall|m: int| 0 <= m < s.subrange(0, k).len() implies is_digit(
                #[trigger] s.subrange(0, k)[m],
            ) by {
                assert(s.subrange(0, k)[m] == s[m]);
            }
        }
        lemma_digits_nonneg(s.subrange(0, k));
        assert(is_digit(s[k]));
        assert(t.last() == s[k]);
        lemma_digits_prefix_le(s, k + 1);
    } else {
        assert(s.subrange(0, k) =~= s);
    }
}

/// The value of the digits `v[start..]` when they are one or more digits
/// whose value is at most `max`.
fn digits_at_most(v: &Vec<char>, start: usize, max: u64) -> (r: Option<u64>)
    requires
        start <= v.len(),
    ensures
        ({
            let body = v@.subrange(start as int, v@.len() as int);
            match r {
                Some(x) => body.len() > 0 && all_digits(body) && digits_value(body) <= max
                    && x as int == digits_value(body),
                None => !(body.len() > 0 && all_digits(body) && digits_value(body) <= max),
            }
        }),
{
    let ghost body = v@.subrange(start as int, v@.len() as int);
    if start == v.len() {
        return None;
    }
    let mut acc: u64 = 0;
    let mut k: usize = start;
    while k < v.len()
        invariant
            start <= k <= v.len(),
            body == v@.subrange(start as int, v@.len() as int),
            all_digits(v@.subrange(start as int, k as int)),
            acc as int == digits_value(v@.subrange(start as int, k as int)),
            acc <= max,
        decreases v.len() - k,
    {
        let c = v[k];
        if !('0' <= c && c <= '9') {
            assert(body[k - start] == c);
            return None;
        }
        let d = (c as u32 - 48) as u64;
        let ghost pre = v@.subrange(start as int, k as int);
        let ghost next = v@.subrange(start as int, k + 1);
        assert(next.drop_last() =~= pre);
        assert(next.last() == c);
        assert(all_digits(next)) by {
            assert forall|m: int| 0 <= m < next.len() implies is_digit(#[trigger] next[m]) by {
                if m < pre.len() {
                    assert(next[m] == pre[m]);
                }
            }
        }
        if d > max || acc > (max - d) / 10 {
            proof {
                assert(digits_value(next) == 10 * acc + d);
                if d <= max {
                    assert(10 * acc + d > max) by (nonlinear_arith)
                        requires
                            acc > (max - d) / 10,
                            d <= max,
                    {
                    }
                }
                if all_digits(body) {
                    assert(next =~= body.subrange(0, k + 1 - start));
                    lemma_digits_prefix_le(body, k + 1 - start);
                }
            }
            return None;
        }
        proof {
            assert(10 * acc + d <= max) by (nonlinear_arith)
                requires
                    acc <= (max - d) / 10,
                    d <= max,
            {
            }
        }
        acc = acc * 10 + d;
        k = k + 1;
    }
    assert(v@.subrange(start as int, k as int) =~= body);
    Some(acc)
}

/// `str::parse::<u64>`.
pub fn parse_u64(s: &str) -> (r: Option<u64>)
    ensures
        match r {
            Some(x) => parse_unsigned(s@, u64::MAX as int) == Some(x as int),
            None => parse_unsigned(s@, u64::MAX as int) is None,
        },
{
    parse_unsigned_bounded(&chars_of(s), u64::MAX)
}

fn parse_unsigned_bounded(v: &Vec<char>, max: u64) -> (r: Option<u64>)
    ensures
        match r {
            Some(x) => parse_unsigned(v@, max as int) == Some(x as int),
            None => parse_unsigned(v@, max as int) is None,
        },
{
    let start: usize = if v.len() >= 2 && v[0] == '+' {
        1
    } else {
        0
    };
    assert(v@.subrange(start as int, v@.len() as int) =~= unsigned_body(v@));
    digits_at_most(v, start, max)
}

/// `str::parse::<u32>`.
pub fn parse_u32(s: &str) -> (r: Option<u32>)
    ensures
        match r {
            Some(x) => parse_unsigned(s@, u32::MAX as int) == Some(x as int),
            None => parse_unsigned(s@, u32::MAX as int) is None,
        },
{
    match parse_unsigned_bounded(&chars_of(s), u32::MAX as u64) {
        Some(x) => Some(x as u32),
        None => None,
    }
}

/// `str::parse::<u32>` on a character vector.
pub fn parse_u32_chars(v: &Vec<char>) -> (r: Option<u32>)
    ensures
        match r {
            Some(x) => parse_unsigned(v@, u32::MAX as int) == Some(x as int),
            None => parse_unsigned(v@, u32::MAX as int) is None,
        },
{
    match parse_unsigned_bounded(v, u32::MAX as u64) {
        Some(x) => Some(x as u32),
        None => None,
    }
}

/// `str::parse::<u16>`.
pub fn parse_u16(s: &str) -> (r: Option<u16>)
    ensures
        match r {
            Some(x) => parse_unsigned(s@, u16::MAX as int) == Some(x as int),
            None => parse_unsigned(s@, u16::MAX as int) is None,
        },
{
    match parse_unsigned_bounded(&chars_of(s), u16::MAX as u64) {
        Some(x) => Some(x as u16),
        None => None,
    }
}

/// `str::parse::<i64>` on a character vector.
pub fn parse_i64_chars(v: &Vec<char>) -> (r: Option<i64>)
    ensures
        match r {
            Some(x) => parse_signed64(v@) == Some(x as int),
            None => parse_signed64(v@) is None,
        },
{
    if v.len() >= 2 && v[0] == '-' {
        assert(v@.subrange(1, v@.len() as int) =~= v@.drop_first());
        match digits_at_most(v, 1, 0x8000_0000_0000_0000u64) {
            Some(m) => {
                if m == 0x8000_0000_0000_0000u64 {
                    Some(i64::MIN)
                } else {
                    Some(-(m as i64))
                }
            },
            None => None,
        }
    } else {
        match parse_unsigned_bounded(v, 0x7fff_ffff_ffff_ffffu64) {
            Some(x) => Some(x as i64),
            None => None,
        }
    }
}

/// `str::parse::<i64>`.
pub fn parse_i64(s: &str) -> (r: Option<i64>)
    ensures
        match r {
            Some(x) => parse_signed64(s@) == Some(x as int),
            None => parse_signed64(s@) is None,
        },
{
    parse_i64_chars(&chars_of(s))
}


/// The decimal digit for `d` (below 10).
pub open spec fn digit_char(d: nat) -> char {
    if d == 0 { '0' } else if d == 1 { '1' } else if d == 2 { '2' } else if d == 3 { '3' }
    else if d == 4 { '4' } else if d == 5 { '5' } else if d == 6 { '6' } else if d == 7 { '7' }
    else if d == 8 { '8' } else { '9' }
}

/// `n` written in decimal, without leading zeros, as `to_string` writes it.
pub open spec fn decimal(n: nat) -> Seq<char>
    decreases n,
{
    if n < 10 {
        seq![digit_char(n)]
    } else {
        decimal(n / 10).push(digit_char(n % 10))
    }
}

fn digit_of(d: u64) -> (c: char)
    requires
        d < 10,
    ensures
        c == digit_char(d as nat),
{
    if d == 0 { '0' } else if d == 1 { '1' } else if d == 2 { '2' } else if d == 3 { '3' }
    else if d == 4 { '4' } else if d == 5 { '5' } else if d == 6 { '6' } else if d == 7 { '7' }
    else if d == 8 { '8' } else { '9' }
}

/// Writes `n` in decimal (see `decimal`).
pub fn format_u64(n: u64) -> (r: String)
    ensures
        r@ == decimal(n as nat),
    decreases n,
{
    if n < 10 {
        let c = digit_of(n);
        let v: Vec<char> = vec![c];
        assert(v@ =~= seq![c]);
        crate::text::string_from(v.as_slice())
    } else {
        let head = format_u64(n / 10);
        let mut v = crate::text::chars_of(head.as_str());
        v.push(digit_of(n % 10));
        crate::text::string_from(v.as_slice())
    }
}

/// `n` written in decimal, with a leading `-` when negative.
pub open spec fn signed_decimal(n: int) -> Seq<char> {
    if n < 0 {
        seq!['-'] + decimal((-n) as nat)
    } else {
        decimal(n as nat)
    }
}

/// Writes `n` in decimal (see `signed_decimal`).
pub fn format_i64(n: i64) -> (r: String)
    ensures
        r@ == signed_decimal(n as int),
{
    if n >= 0 {
        format_u64(n as u64)
    } else {
        let m: u64 = if n == i64::MIN {
            9223372036854775808u64
        } else {
            (-n) as u64
        };
        let digits = format_u64(m);
        let mut v: Vec<char> = vec!['-'];
        let d = crate::text::chars_of(digits.as_str());
        let mut k: usize = 0;
        while k < d.len()
            invariant
                k <= d.len(),
                v@ == seq!['-'] + d@.take(k as int),
            decreases d.len() - k,
        {
            v.push(d[k]);
            assert(d@.take(k + 1) =~= d@.take(k as int).push(d@[k as int]));
            assert(v@ =~= seq!['-'] + d@.take(k + 1));
            k = k + 1;
        }
        assert(d@.take(d@.len() as int) =~= d@);
        crate::text::string_from(v.as_slice())
    }
}

proof fn lemma_digit_char(d: nat)
    requires
        d < 10,
    ensures
        is_digit(digit_char(d)),
        digit_value(digit_char(d)) == d,
{
}

/// A number written in decimal is one or more digits that spell it.
pub proof fn lemma_decimal_digits(n: nat)
    ensures
        decimal(n).len() >= 1,
        all_digits(decimal(n)),
        digits_value(decimal(n)) == n,
    decreases n,
{
    if n < 10 {
        lemma_digit_char(n);
        assert(decimal(n).drop_last() =~= Seq::<char>::empty());
        assert(digits_value(Seq::<char>::empty()) == 0);
    } else {
        lemma_decimal_digits(n / 10);
        lemma_digit_char(n % 10);
        let s = decimal(n);
        let h = decimal(n / 10);
        assert(s.drop_last() =~= h);
        assert(s.last() == digit_char(n % 10));
        assert(digits_value(s) == 10 * digits_value(h) + digit_value(s.last()));
        assert(n == 10 * (n / 10) + n % 10);
        assert forall|k: int| 0 <= k < s.len() implies is_digit(#[trigger] s[k]) by {
            if k < h.len() {
                assert(s[k] == h[k]);
            }
        }
    }
}

/// What `to_string` writes of an `i64`, `str::parse::<i64>` reads back.
pub proof fn lemma_parse_signed_decimal(e: int)
    requires
        i64::MIN <= e <= i64::MAX,
    ensures
        parse_signed64(signed_decimal(e)) == Some(e),
{
    if e < 0 {
        let d = decimal((-e) as nat);
        lemma_decimal_digits((-e) as nat);
        let s = signed_decimal(e);
        assert(s.drop_first() =~= d);
        assert(s[0] == '-');
    } else {
        let d = decimal(e as nat);
        lemma_decimal_digits(e as nat);
        assert(is_digit(d[0]));
        assert(unsigned_body(d) == d);
    }
}

} // verus!
