//! Reading integer literals.

use crate::text::chars_of;
use vstd::prelude::*;

verus! {

/// Whether `c` is one of `0` to `9`.
pub open spec fn is_digit(c: char) -> bool {
    '0' <= c <= '9'
}

/// Whether `s` is one decimal digit or more, and nothing else.
pub open spec fn is_digits(s: Seq<char>) -> bool {
    s.len() > 0 && forall|i: int| 0 <= i < s.len() ==> is_digit(#[trigger] s[i])
}

/// The number that a string of decimal digits writes.
pub open spec fn decimal_value(s: Seq<char>) -> nat
    decreases s.len(),
{
    if s.len() == 0 {
        0
    } else {
        decimal_value(s.drop_last()) * 10 + (s.last() as nat - '0' as nat) as nat
    }
}

/// The digits of a literal, without its sign.
pub open spec fn unsigned_part(s: Seq<char>) -> Seq<char> {
    if s.len() > 0 && (s[0] == '+' || s[0] == '-') {
        s.subrange(1, s.len() as int)
    } else {
        s
    }
}

/// The unsigned 64-bit number that `s` writes: an optional `+`, then decimal
/// digits, with a value that fits. `None` for anything else.
pub open spec fn parse_u64_spec(s: Seq<char>) -> Option<u64> {
    if s.len() > 0 && s[0] == '-' {
        None
    } else if is_digits(unsigned_part(s)) && decimal_value(unsigned_part(s)) <= u64::MAX {
        Some(decimal_value(unsigned_part(s)) as u64)
    } else {
        None
    }
}

/// The signed 64-bit number that `s` writes: an optional `+` or `-`, then
/// decimal digits, with a value that fits. `None` for anything else.
pub open spec fn parse_i64_spec(s: Seq<char>) -> Option<i64> {
    if !is_digits(unsigned_part(s)) {
        None
    } else if s[0] == '-' {
        if decimal_value(unsigned_part(s)) <= 0x8000_0000_0000_0000 {
            Some((-(decimal_value(unsigned_part(s)) as int)) as i64)
        } else {
            None
        }
    } else if decimal_value(unsigned_part(s)) <= i64::MAX {
        Some(decimal_value(unsigned_part(s)) as i64)
    } else {
        None
    }
}

/// A prefix of a digit string writes no more than the whole string.
pub proof fn lemma_decimal_prefix(s: Seq<char>, n: int)
    requires
        0 <= n <= s.len(),
    ensures
        decimal_value(s.subrange(0, n)) <= decimal_value(s),
    decreases s.len(),
{
    if n == s.len() {
        assert(s.subrange(0, n) =~= s);
    } else {
        lemma_decimal_prefix(s.drop_last(), n);
        assert(s.drop_last().subrange(0, n) =~= s.subrange(0, n));
    }
}

/// The value of the digits from `start` to `end`, or `None` where that is
/// no digit string or the value is above `limit`.
fn parse_magnitude(chars: &Vec<char>, start: usize, end: usize, limit: u64) -> (value: Option<u64>)
    requires
        start <= end <= chars@.len(),
    ensures
        value == if is_digits(chars@.subrange(start as int, end as int)) && decimal_value(
            chars@.subrange(start as int, end as int),
        ) <= limit {
            Some(decimal_value(chars@.subrange(start as int, end as int)) as u64)
        } else {
            None
        },
{
    let ghost body = chars@.subrange(start as int, end as int);
    if start >= end {
        return None;
    }
    let mut acc: u64 = 0;
    let mut i: usize = start;
    while i < end
        invariant
            start <= i <= end <= chars@.len(),
            body == chars@.subrange(start as int, end as int),
            forall|j: int| 0 <= j < i - start ==> is_digit(#[trigger] body[j]),
            acc == decimal_value(body.subrange(0, i - start)),
            acc <= limit,
        decreases end - i,
    {
        let c = chars[i];
        assert(c == body[i - start]);
        if c < '0' || c > '9' {
            return None;
        }
        let d: u64 = (c as u32 - '0' as u32) as u64;
        proof {
            assert(body.subrange(0, i - start + 1).drop_last() =~= body.subrange(0, i - start));
            assert(body.subrange(0, i - start + 1).last() == c);
            lemma_decimal_prefix(body, i - start + 1);
        }
        if limit < d || acc > (limit - d) / 10 {
            assert(decimal_value(body.subrange(0, i - start + 1)) > limit);
            return None;
        }
        acc = acc * 10 + d;
        i += 1;
    }
    assert(body.subrange(0, end - start) =~= body);
    Some(acc)
}

/// Reads the characters from `start` to `end` as an unsigned 64-bit number.
pub fn parse_u64_chars(chars: &Vec<char>, start: usize, end: usize) -> (value: Option<u64>)
    requires
        start <= end <= chars@.len(),
    ensures
        value == parse_u64_spec(chars@.subrange(start as int, end as int)),
{
    let ghost text = chars@.subrange(start as int, end as int);
    if start == end {
        return None;
    }
    let first = chars[start];
    assert(first == text[0]);
    if first == '-' {
        None
    } else if first == '+' {
        assert(text.subrange(1, text.len() as int) =~= chars@.subrange(start + 1, end as int));
        parse_magnitude(chars, start + 1, end, u64::MAX)
    } else {
        parse_magnitude(chars, start, end, u64::MAX)
    }
}

/// Reads the characters from `start` to `end` as a signed 64-bit number.
pub fn parse_i64_chars(chars: &Vec<char>, start: usize, end: usize) -> (value: Option<i64>)
    requires
        start <= end <= chars@.len(),
    ensures
        value == parse_i64_spec(chars@.subrange(start as int, end as int)),
{
    let ghost text = chars@.subrange(start as int, end as int);
    if start == end {
        return None;
    }
    let first = chars[start];
    assert(first == text[0]);
    if first == '-' {
        assert(text.subrange(1, text.len() as int) =~= chars@.subrange(start + 1, end as int));
        match parse_magnitude(chars, start + 1, end, 0x8000_0000_0000_0000) {
            Some(m) => {
                if m == 0x8000_0000_0000_0000 {
                    Some(i64::MIN)
                } else {
                    Some(-(m as i64))
                }
            },
            None => None,
        }
    } else if first == '+' {
        assert(text.subrange(1, text.len() as int) =~= chars@.subrange(start + 1, end as int));
        match parse_magnitude(chars, start + 1, end, 0x7fff_ffff_ffff_ffff) {
            Some(m) => Some(m as i64),
            None => None,
        }
    } else {
        match parse_magnitude(chars, start, end, 0x7fff_ffff_ffff_ffff) {
            Some(m) => Some(m as i64),
            None => None,
        }
    }
}

/// Reads an unsigned 64-bit number, as `str::parse::<u64>` does.
pub fn parse_u64(s: &str) -> (value: Option<u64>)
    ensures
        value == parse_u64_spec(s@),
{
    let chars = chars_of(s);
    assert(chars@.subrange(0, chars@.len() as int) =~= s@);
    parse_u64_chars(&chars, 0, chars.len())
}

/// Reads a signed 64-bit number, as `str::parse::<i64>` does.
pub fn parse_i64(s: &str) -> (value: Option<i64>)
    ensures
        value == parse_i64_spec(s@),
{
    let chars = chars_of(s);
    assert(chars@.subrange(0, chars@.len() as int) =~= s@);
    parse_i64_chars(&chars, 0, chars.len())
}

} // verus!
