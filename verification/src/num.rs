//! Reading and writing unsigned decimal numbers, as `str::parse` and `Display` do.
use vstd::prelude::*;
use crate::error::IntErrorKind;
use crate::text::{chars_slice, char_is_digit, is_ascii_digit, string_from_chars};

verus! {

pub open spec fn digit_value(c: char) -> int {
    (c as u32) - ('0' as u32)
}

pub open spec fn digit_char(d: int) -> char {
    (d + ('0' as u32)) as char
}

/// Reads the digits `d` from left to right, failing at the first non-digit or as soon as the
/// value exceeds `max`.
pub open spec fn scan_digits(d: Seq<char>, max: int) -> Result<int, IntErrorKind>
    decreases d.len(),
{
    if d.len() == 0 {
        Ok(0)
    } else {
        match scan_digits(d.drop_last(), max) {
            Err(e) => Err(e),
            Ok(a) => if !is_ascii_digit(d.last()) {
                Err(IntErrorKind::InvalidDigit)
            } else if a * 10 + digit_value(d.last()) > max {
                Err(IntErrorKind::PosOverflow)
            } else {
                Ok(a * 10 + digit_value(d.last()))
            },
        }
    }
}

/// What parsing `s` as an unsigned integer no larger than `max` gives
/// (`u8`/`u64`/`usize::from_str`): an optional leading `+`, then one or more ASCII digits.
pub open spec fn parse_uint(s: Seq<char>, max: int) -> Result<int, IntErrorKind> {
    if s.len() == 0 {
        Err(IntErrorKind::Empty)
    } else if s[0] == '+' && s.len() == 1 {
        Err(IntErrorKind::InvalidDigit)
    } else if s[0] == '+' {
        scan_digits(s.drop_first(), max)
    } else {
        scan_digits(s, max)
    }
}

/// The decimal representation of `n` (what `Display` writes for an unsigned integer).
pub open spec fn decimal(n: nat) -> Seq<char>
    decreases n,
{
    if n < 10 {
        seq![digit_char(n as int)]
    } else {
        decimal(n / 10).push(digit_char((n % 10) as int))
    }
}

pub proof fn lemma_scan_nonneg(d: Seq<char>, max: int)
    ensures
        scan_digits(d, max) matches Ok(v) ==> 0 <= v <= max || (d.len() == 0 && v == 0),
    decreases d.len(),
{
    if d.len() > 0 {
        lemma_scan_nonneg(d.drop_last(), max);
    }
}

proof fn lemma_scan_error_propagates(d: Seq<char>, k: int, max: int)
    requires
        0 <= k <= d.len(),
        scan_digits(d.subrange(0, k), max) is Err,
    ensures
        scan_digits(d, max) == scan_digits(d.subrange(0, k), max),
    decreases d.len() - k,
{
    if k < d.len() {
        assert(d.drop_last().subrange(0, k) =~= d.subrange(0, k));
        lemma_scan_error_propagates(d.drop_last(), k, max);
    } else {
        assert(d.subrange(0, k) =~= d);
    }
}

/// Parses the digits `d` as `scan_digits` describes.
fn scan_digits_exec(d: &[char], max: u64) -> (r: Result<u64, IntErrorKind>)
    ensures
        match scan_digits(d@, max as int) {
            Ok(v) => r == Ok::<u64, IntErrorKind>(v as u64),
            Err(e) => r == Err::<u64, IntErrorKind>(e),
        },
{
    let mut acc: u64 = 0;
    let mut i: usize = 0;
    assert(d@.subrange(0, 0) =~= Seq::<char>::empty());
    while i < d.len()
        invariant
            i <= d@.len(),
            scan_digits(d@.subrange(0, i as int), max as int) == Ok::<int, IntErrorKind>(acc as int),
            acc <= max,
        decreases d@.len() - i,
    {
        let c = d[i];
        let ghost pre = d@.subrange(0, i as int);
        let ghost next = d@.subrange(0, i + 1);
        assert(next.drop_last() =~= pre);
        assert(next.last() == c);
        if !char_is_digit(c) {
            proof {
                lemma_scan_error_propagates(d@, i + 1, max as int);
            }
            return Err(IntErrorKind::InvalidDigit);
        }
        let dv: u64 = (c as u32 - '0' as u32) as u64;
        assert(dv as int == digit_value(c));
        let next_acc: Option<u64> = match acc.checked_mul(10) {
            Some(m) => m.checked_add(dv),
            None => None,
        };
        match next_acc {
            Some(t) if t <= max => {
                acc = t;
            },
            _ => {
                proof {
                    lemma_scan_error_propagates(d@, i + 1, max as int);
                }
                return Err(IntErrorKind::PosOverflow);
            },
        }
        i = i + 1;
    }
    assert(d@.subrange(0, d@.len() as int) =~= d@);
    Ok(acc)
}

/// Parses an unsigned integer no larger than `max` (`u64::from_str` for `max == u64::MAX`).
pub fn parse_uint_chars(s: &[char], max: u64) -> (r: Result<u64, IntErrorKind>)
    ensures
        match parse_uint(s@, max as int) {
            Ok(v) => r == Ok::<u64, IntErrorKind>(v as u64),
            Err(e) => r == Err::<u64, IntErrorKind>(e),
        },
{
    if s.len() == 0 {
        Err(IntErrorKind::Empty)
    } else if s[0] == '+' && s.len() == 1 {
        Err(IntErrorKind::InvalidDigit)
    } else if s[0] == '+' {
        let rest = chars_slice(s, 1, s.len());
        assert(rest@ =~= s@.drop_first());
        scan_digits_exec(rest.as_slice(), max)
    } else {
        scan_digits_exec(s, max)
    }
}

/// `str::parse::<u64>`.
pub fn parse_u64(s: &[char]) -> (r: Result<u64, IntErrorKind>)
    ensures
        match parse_uint(s@, u64::MAX as int) {
            Ok(v) => r == Ok::<u64, IntErrorKind>(v as u64),
            Err(e) => r == Err::<u64, IntErrorKind>(e),
        },
{
    parse_uint_chars(s, u64::MAX)
}

/// `str::parse::<u8>`.
pub fn parse_u8(s: &[char]) -> (r: Result<u8, IntErrorKind>)
    ensures
        match parse_uint(s@, u8::MAX as int) {
            Ok(v) => r == Ok::<u8, IntErrorKind>(v as u8),
            Err(e) => r == Err::<u8, IntErrorKind>(e),
        },
{
    match parse_uint_chars(s, 255) {
        Ok(v) => {
            proof {
                lemma_parse_bounds(s@, 255);
            }
            Ok(v as u8)
        },
        Err(e) => Err(e),
    }
}

/// `str::parse::<usize>`.
pub fn parse_usize(s: &[char]) -> (r: Result<usize, IntErrorKind>)
    ensures
        match parse_uint(s@, usize::MAX as int) {
            Ok(v) => r == Ok::<usize, IntErrorKind>(v as usize),
            Err(e) => r == Err::<usize, IntErrorKind>(e),
        },
{
    match parse_uint_chars(s, usize::MAX as u64) {
        Ok(v) => {
            proof {
                lemma_parse_bounds(s@, usize::MAX as int);
            }
            Ok(v as usize)
        },
        Err(e) => Err(e),
    }
}

pub proof fn lemma_parse_bounds(s: Seq<char>, max: int)
    requires
        max >= 0,
    ensures
        parse_uint(s, max) matches Ok(v) ==> 0 <= v <= max,
{
    if s.len() > 0 && s[0] == '+' {
        lemma_scan_nonneg(s.drop_first(), max);
    } else {
        lemma_scan_nonneg(s, max);
    }
}

fn digit_to_char(d: u64) -> (c: char)
    requires
        d < 10,
    ensures
        c == digit_char(d as int),
        is_ascii_digit(c),
{
    let b: u8 = d as u8;
    let c = (b + 48) as char;
    c
}

/// The decimal digits of `n`, as `Display` writes them.
pub fn decimal_chars(n: u64) -> (v: Vec<char>)
    ensures
        v@ == decimal(n as nat),
    decreases n,
{
    if n < 10 {
        let mut v: Vec<char> = Vec::new();
        v.push(digit_to_char(n));
        assert(v@ =~= decimal(n as nat));
        v
    } else {
        let mut v = decimal_chars(n / 10);
        v.push(digit_to_char(n % 10));
        v
    }
}

/// The decimal representation of `n` as a `String` (`n.to_string()`).
pub fn u64_to_string(n: u64) -> (s: String)
    ensures
        s@ == decimal(n as nat),
{
    let v = decimal_chars(n);
    string_from_chars(v.as_slice())
}

pub proof fn lemma_decimal_digits(n: nat)
    ensures
        decimal(n).len() >= 1,
        forall|i: int| 0 <= i < decimal(n).len() ==> is_ascii_digit(#[trigger] decimal(n)[i]),
    decreases n,
{
    if n >= 10 {
        lemma_decimal_digits(n / 10);
    }
}

pub proof fn lemma_digit_char_value(k: int)
    requires
        0 <= k < 10,
    ensures
        digit_value(digit_char(k)) == k,
        is_ascii_digit(digit_char(k)),
{
}

pub proof fn lemma_scan_decimal(n: nat, max: int)
    requires
        n <= max,
    ensures
        scan_digits(decimal(n), max) == Ok::<int, IntErrorKind>(n as int),
    decreases n,
{
    if n >= 10 {
        lemma_scan_decimal(n / 10, max);
        let d = decimal(n);
        assert(d.drop_last() =~= decimal(n / 10));
        lemma_digit_char_value((n % 10) as int);
        assert(d == decimal(n / 10).push(digit_char((n % 10) as int)));
        assert(d.last() == digit_char((n % 10) as int));
        assert(scan_digits(d.drop_last(), max) == Ok::<int, IntErrorKind>((n / 10) as int));
        assert((n / 10) * 10 + digit_value(d.last()) == n);
        assert((n / 10) * 10 + n % 10 == n) by (nonlinear_arith);
        assert(n / 10 <= n) by (nonlinear_arith);
    } else {
        let d = decimal(n);
        assert(d.drop_last() =~= Seq::<char>::empty());
        lemma_digit_char_value(n as int);
        assert(d == seq![digit_char(n as int)]);
        assert(d.last() == digit_char(n as int));
        assert(scan_digits(d.drop_last(), max) == Ok::<int, IntErrorKind>(0));
    }
}

/// Reading back what `Display` writes gives the number back.
pub proof fn lemma_parse_decimal(n: nat, max: int)
    requires
        n <= max,
    ensures
        parse_uint(decimal(n), max) == Ok::<int, IntErrorKind>(n as int),
{
    lemma_decimal_digits(n);
    lemma_scan_decimal(n, max);
    assert(is_ascii_digit(decimal(n)[0]));
}

} // verus!
