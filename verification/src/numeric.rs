//! Reading numbers out of text without floating point.
//!
//! Decimal texts are read as fixed-point values: the value times a power of
//! ten, rounded down, and capped.

use vstd::prelude::*;
use crate::text::{digit_value, is_digit};

verus! {

/// The value of a sequence of decimal digits (0 for the empty sequence).
pub open spec fn digits_value(s: Seq<char>) -> nat
    decreases s.len(),
{
    if s.len() == 0 {
        0
    } else {
        digits_value(s.drop_last()) * 10 + digit_value(s.last())
    }
}

/// The length of the longest run of decimal digits of `s` that starts at `from`.
pub open spec fn digit_run(s: Seq<char>, from: int) -> int
    decreases s.len() - from,
{
    if 0 <= from < s.len() && is_digit(s[from]) {
        1 + digit_run(s, from + 1)
    } else {
        0
    }
}

/// 1 where `s` begins with a sign, else 0.
pub open spec fn sign_len(s: Seq<char>) -> int {
    if s.len() > 0 && (s[0] == '+' || s[0] == '-') {
        1
    } else {
        0
    }
}

/// `s` begins with a minus sign.
pub open spec fn is_negative(s: Seq<char>) -> bool {
    s.len() > 0 && s[0] == '-'
}

/// The position just after the digits before the decimal point.
pub open spec fn whole_end(s: Seq<char>) -> int {
    sign_len(s) + digit_run(s, sign_len(s))
}

/// A decimal point follows the whole digits.
pub open spec fn has_point(s: Seq<char>) -> bool {
    whole_end(s) < s.len() && s[whole_end(s)] == '.'
}

/// The number of digits after the decimal point.
pub open spec fn fraction_len(s: Seq<char>) -> int {
    if has_point(s) {
        digit_run(s, whole_end(s) + 1)
    } else {
        0
    }
}

/// `s` is a decimal number: an optional sign, digits, and optionally a point
/// and more digits, with at least one digit in all and nothing else.
pub open spec fn is_decimal(s: Seq<char>) -> bool {
    &&& if has_point(s) {
        whole_end(s) + 1 + fraction_len(s) == s.len()
    } else {
        whole_end(s) == s.len()
    }
    &&& digit_run(s, sign_len(s)) + fraction_len(s) > 0
}

/// The digits before the decimal point.
pub open spec fn whole_digits(s: Seq<char>) -> Seq<char> {
    s.subrange(sign_len(s), whole_end(s))
}

/// The digits after the decimal point.
pub open spec fn fraction_digits(s: Seq<char>) -> Seq<char> {
    if has_point(s) {
        s.subrange(whole_end(s) + 1, whole_end(s) + 1 + fraction_len(s))
    } else {
        Seq::empty()
    }
}

/// Exactly `places` digits: those of `frac`, cut off or filled up with zeros.
pub open spec fn fixed_places(frac: Seq<char>, places: nat) -> Seq<char> {
    Seq::new(
        places,
        |i: int|
            if i < frac.len() {
                frac[i]
            } else {
                '0'
            },
    )
}

/// The magnitude of the decimal `s` times ten to the `places`, rounded down.
pub open spec fn scaled_value(s: Seq<char>, places: nat) -> nat {
    digits_value(whole_digits(s) + fixed_places(fraction_digits(s), places))
}

/// The smaller of two numbers.
pub open spec fn at_most(a: nat, cap: nat) -> nat {
    if a <= cap {
        a
    } else {
        cap
    }
}

/// What `parse_scaled` returns: for a decimal text its sign and its capped
/// magnitude, for any other text nothing.
pub open spec fn parsed_scaled(s: Seq<char>, places: nat, cap: nat) -> Option<(bool, u64)> {
    if is_decimal(s) {
        Some((is_negative(s), at_most(scaled_value(s, places), cap) as u64))
    } else {
        None
    }
}

/// Whether `c` is a decimal digit.
pub fn is_digit_char(c: char) -> (r: bool)
    ensures
        r == is_digit(c),
{
    '0' <= c && c <= '9'
}

/// The value of the decimal digit `c`.
pub fn digit_value_of(c: char) -> (d: u64)
    requires
        is_digit(c),
    ensures
        d == digit_value(c),
        d <= 9,
{
    (c as u32 - '0' as u32) as u64
}

proof fn lemma_digits_push(s: Seq<char>, c: char)
    ensures
        digits_value(s.push(c)) == digits_value(s) * 10 + digit_value(c),
{
    assert(s.push(c).drop_last() =~= s);
}

/// Reads a decimal text as a fixed-point number with `places` decimal
/// places. Digits beyond `places` are dropped; the magnitude is capped at
/// `cap`.
pub(crate) fn parse_scaled(s: &Vec<char>, places: usize, cap: u64) -> (r: Option<(bool, u64)>)
    requires
        cap <= 1_000_000_000_000_000,
    ensures
        r == parsed_scaled(s@, places as nat, cap as nat),
{
    let n: usize = s.len();
    let mut i: usize = 0;
    let negative: bool = n > 0 && s[0] == '-';
    if n > 0 && (s[0] == '+' || s[0] == '-') {
        i = 1;
    }
    let start: usize = i;
    let mut acc: u64 = 0;
    let ghost mut seen: Seq<char> = Seq::empty();
    while i < n && is_digit_char(s[i])
        invariant
            start <= i <= n,
            n == s.len(),
            start == sign_len(s@),
            cap <= 1_000_000_000_000_000,
            digit_run(s@, start as int) == (i - start) + digit_run(s@, i as int),
            seen == s@.subrange(start as int, i as int),
            acc == at_most(digits_value(seen), cap as nat),
        decreases n - i,
    {
        let d = digit_value_of(s[i]);
        proof {
            lemma_digits_push(seen, s@[i as int]);
            seen = seen.push(s@[i as int]);
        }
        let next: u64 = acc * 10 + d;
        acc = if next <= cap {
            next
        } else {
            cap
        };
        i += 1;
    }
    let whole_stop: usize = i;
    let ghost whole = seen;
    let mut taken: usize = 0;
    let mut frac_count: usize = 0;
    if i < n {
        if s[i] != '.' {
            return None;
        }
        i += 1;
        let frac_start: usize = i;
        while i < n && is_digit_char(s[i])
            invariant
                frac_start <= i <= n,
                n == s.len(),
                frac_start == whole_stop + 1,
                cap <= 1_000_000_000_000_000,
                digit_run(s@, frac_start as int) == (i - frac_start) + digit_run(s@, i as int),
                taken <= places,
                taken <= i - frac_start,
                taken == places || taken == i - frac_start,
                frac_count == i - frac_start,
                seen == whole + s@.subrange(frac_start as int, frac_start + taken),
                acc == at_most(digits_value(seen), cap as nat),
            decreases n - i,
        {
            if taken < places {
                let d = digit_value_of(s[i]);
                proof {
                    lemma_digits_push(seen, s@[i as int]);
                    seen = seen.push(s@[i as int]);
                }
                let next: u64 = acc * 10 + d;
                acc = if next <= cap {
                    next
                } else {
                    cap
                };
                taken += 1;
            }
            i += 1;
            frac_count += 1;
        }
        if i < n {
            return None;
        }
    }
    if whole_stop - start == 0 && frac_count == 0 {
        return None;
    }
    let ghost frac = fraction_digits(s@);
    while taken < places
        invariant
            taken <= places,
            cap <= 1_000_000_000_000_000,
            taken == places || taken >= frac.len(),
            seen == whole + fixed_places(frac, places as nat).take(taken as int),
            acc == at_most(digits_value(seen), cap as nat),
        decreases places - taken,
    {
        proof {
            lemma_digits_push(seen, '0');
            seen = seen.push('0');
        }
        let next: u64 = acc * 10;
        acc = if next <= cap {
            next
        } else {
            cap
        };
        taken += 1;
    }
    assert(fixed_places(frac, places as nat).take(places as int) =~= fixed_places(
        frac,
        places as nat,
    ));
    Some((negative, acc))
}

/// The number that a run of digits denotes, where it fits in a `u64`.
pub open spec fn parsed_u64(s: Seq<char>) -> Option<u64> {
    if s.len() > 0 && digit_run(s, 0) == s.len() && digits_value(s) <= u64::MAX {
        Some(digits_value(s) as u64)
    } else {
        None
    }
}

/// The number that a run of digits denotes, where it fits in an `i64`.
pub open spec fn parsed_digits(s: Seq<char>) -> Option<i64> {
    if s.len() > 0 && digit_run(s, 0) == s.len() && digits_value(s) <= i64::MAX {
        Some(digits_value(s) as i64)
    } else {
        None
    }
}

proof fn lemma_digits_monotone(s: Seq<char>, k: int)
    requires
        0 <= k <= s.len(),
    ensures
        digits_value(s.take(k)) <= digits_value(s),
    decreases s.len() - k,
{
    if k < s.len() {
        lemma_digits_monotone(s, k + 1);
        assert(s.take(k + 1).drop_last() =~= s.take(k));
    } else {
        assert(s.take(k) =~= s);
    }
}

/// Reads a non-empty run of decimal digits as a `u64`; nothing where a
/// character is no digit or the number does not fit.
pub fn parse_u64(s: &Vec<char>) -> (r: Option<u64>)
    ensures
        r == parsed_u64(s@),
{
    let n: usize = s.len();
    if n == 0 {
        return None;
    }
    let mut acc: u64 = 0;
    let mut i: usize = 0;
    while i < n
        invariant
            i <= n,
            n == s.len(),
            digit_run(s@, 0) == i + digit_run(s@, i as int),
            acc == digits_value(s@.take(i as int)),
        decreases n - i,
    {
        if !is_digit_char(s[i]) {
            return None;
        }
        let d = digit_value_of(s[i]);
        proof {
            lemma_digits_push(s@.take(i as int), s@[i as int]);
            assert(s@.take(i as int).push(s@[i as int]) =~= s@.take(i + 1));
            lemma_digits_monotone(s@, i + 1);
        }
        if acc > (u64::MAX - d) / 10 {
            return None;
        }
        acc = acc * 10 + d;
        i += 1;
    }
    assert(s@.take(n as int) =~= s@);
    Some(acc)
}

/// Reads a non-empty run of decimal digits as an `i64`; nothing where a
/// character is no digit or the number does not fit.
pub fn parse_digits(s: &Vec<char>) -> (r: Option<i64>)
    ensures
        r == parsed_digits(s@),
{
    match parse_u64(s) {
        Some(n) => if n <= i64::MAX as u64 {
            Some(n as i64)
        } else {
            None
        },
        None => None,
    }
}

/// The integer that `s` denotes: an optional minus sign and a run of
/// digits, where the number fits in an `i32`.
pub open spec fn parsed_i32(s: Seq<char>) -> Option<i32> {
    if is_negative(s) {
        match parsed_digits(s.drop_first()) {
            Some(n) => if n <= 2_147_483_648 {
                Some((-n) as i32)
            } else {
                None
            },
            None => None,
        }
    } else {
        match parsed_digits(s) {
            Some(n) => if n <= 2_147_483_647 {
                Some(n as i32)
            } else {
                None
            },
            None => None,
        }
    }
}

/// Reads an integer text as an `i32`.
pub fn parse_i32(s: &Vec<char>) -> (r: Option<i32>)
    ensures
        r == parsed_i32(s@),
{
    if s.len() > 0 && s[0] == '-' {
        let rest = crate::text::slice(s, 1, s.len());
        match parse_digits(&rest) {
            Some(n) => if n <= 2_147_483_648 {
                Some((-n) as i32)
            } else {
                None
            },
            None => None,
        }
    } else {
        match parse_digits(s) {
            Some(n) => if n <= 2_147_483_647 {
                Some(n as i32)
            } else {
                None
            },
            None => None,
        }
    }
}

/// How an integer is written in decimal.
pub open spec fn int_text(n: int) -> Seq<char> {
    if n < 0 {
        seq!['-'] + crate::text::decimal((-n) as nat)
    } else {
        crate::text::decimal(n as nat)
    }
}

/// The decimal text of `n`.
pub fn i32_text(n: i32) -> (r: String)
    ensures
        r@ == int_text(n as int),
{
    if n < 0 {
        let magnitude: u64 = (-(n as i64)) as u64;
        let mut out: Vec<char> = Vec::new();
        out.push('-');
        crate::text::push_all(&mut out, &crate::text::decimal_chars(magnitude as u128));
        crate::text::string_from_chars(&out)
    } else {
        crate::text::string_from_chars(&crate::text::decimal_chars(n as u128))
    }
}

/// The decimal text of `n`.
pub fn i64_text(n: i64) -> (r: String)
    ensures
        r@ == int_text(n as int),
{
    if n < 0 {
        let magnitude: u128 = (-(n as i128)) as u128;
        let mut out: Vec<char> = Vec::new();
        out.push('-');
        crate::text::push_all(&mut out, &crate::text::decimal_chars(magnitude));
        crate::text::string_from_chars(&out)
    } else {
        crate::text::string_from_chars(&crate::text::decimal_chars(n as u128))
    }
}

/// The decimal text of `n`.
pub fn usize_text(n: usize) -> (r: String)
    ensures
        r@ == crate::text::decimal(n as nat),
{
    crate::text::string_from_chars(&crate::text::decimal_chars(n as u128))
}

} // verus!
