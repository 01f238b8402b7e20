//! Strings and characters.

use vstd::prelude::*;
use vstd::std_specs::iter::IteratorSpec;
use vstd::string::*;

verus! {

/// The characters of a string, in order.
pub fn chars_of(s: &str) -> (chars: Vec<char>)
    ensures
        chars@ == s@,
{
    let mut chars: Vec<char> = Vec::new();
    for c in it: s.chars()
        invariant
            it.seq() == s@,
            chars@ == it.seq().subrange(0, it.index() as int),
    {
        chars.push(c);
        assert(chars@ =~= it.seq().subrange(0, it.index() + 1));
    }
    assert(s@.subrange(0, s@.len() as int) =~= s@);
    chars
}

/// `String::push`: the string with `c` appended.
pub assume_specification[ std::string::String::push ](s: &mut std::string::String, c: char)
    ensures
        final(s)@ == old(s)@.push(c),
;

/// The string made of the characters from `start` to `end`.
pub fn string_of(chars: &Vec<char>, start: usize, end: usize) -> (s: String)
    requires
        start <= end <= chars@.len(),
    ensures
        s@ == chars@.subrange(start as int, end as int),
{
    let mut s = String::new();
    let mut i: usize = start;
    assert(chars@.subrange(start as int, start as int) =~= Seq::<char>::empty());
    while i < end
        invariant
            start <= i <= end <= chars@.len(),
            s@ == chars@.subrange(start as int, i as int),
        decreases end - i,
    {
        s.push(chars[i]);
        assert(s@ =~= chars@.subrange(start as int, i + 1));
        i += 1;
    }
    s
}

/// The character that writes the digit `d`.
pub open spec fn digit_char(d: nat) -> char {
    if d == 0 {
        '0'
    } else if d == 1 {
        '1'
    } else if d == 2 {
        '2'
    } else if d == 3 {
        '3'
    } else if d == 4 {
        '4'
    } else if d == 5 {
        '5'
    } else if d == 6 {
        '6'
    } else if d == 7 {
        '7'
    } else if d == 8 {
        '8'
    } else {
        '9'
    }
}

/// The decimal digits that write `n`, without leading zeros.
pub open spec fn decimal_text(n: nat) -> Seq<char>
    decreases n,
{
    if n < 10 {
        seq![digit_char(n)]
    } else {
        decimal_text(n / 10).push(digit_char(n % 10))
    }
}

/// The character that writes a digit.
pub fn digit_of(d: u64) -> (c: char)
    requires
        d < 10,
    ensures
        c == digit_char(d as nat),
{
    if d == 0 {
        '0'
    } else if d == 1 {
        '1'
    } else if d == 2 {
        '2'
    } else if d == 3 {
        '3'
    } else if d == 4 {
        '4'
    } else if d == 5 {
        '5'
    } else if d == 6 {
        '6'
    } else if d == 7 {
        '7'
    } else if d == 8 {
        '8'
    } else {
        '9'
    }
}

/// Appends the decimal digits of `n` to `text`.
pub fn push_decimal(text: &mut String, n: u64)
    ensures
        final(text)@ == old(text)@ + decimal_text(n as nat),
    decreases n,
{
    if n < 10 {
        text.push(digit_of(n));
        assert(text@ =~= old(text)@ + decimal_text(n as nat));
    } else {
        push_decimal(text, n / 10);
        text.push(digit_of(n % 10));
        assert(text@ =~= old(text)@ + decimal_text(n as nat));
    }
}

/// The decimal digits that write `n`.
pub fn decimal(n: u64) -> (text: String)
    ensures
        text@ == decimal_text(n as nat),
{
    let mut text = String::new();
    push_decimal(&mut text, n);
    assert(text@ =~= decimal_text(n as nat));
    text
}

/// A number that does not grow past the largest 32-bit number.
pub open spec fn bump(x: u32) -> u32 {
    if x < u32::MAX {
        (x + 1) as u32
    } else {
        x
    }
}

/// The line and the column, both counted from 1, of the character behind
/// the first `n` characters of `source`.
pub open spec fn position_after(source: Seq<char>, n: int) -> (u32, u32)
    decreases n,
{
    if n <= 0 || n > source.len() {
        (1, 1)
    } else {
        let (line, column) = position_after(source, n - 1);
        if source[n - 1] == '\n' {
            (bump(line), 1)
        } else {
            (line, bump(column))
        }
    }
}

/// The number of bytes that write `c` in UTF-8.
pub open spec fn width(c: char) -> nat {
    if (c as u32) < 0x80 {
        1
    } else if (c as u32) < 0x800 {
        2
    } else if (c as u32) < 0x1_0000 {
        3
    } else {
        4
    }
}

/// The number of bytes that write `c` in UTF-8.
pub fn width_of(c: char) -> (n: u32)
    ensures
        n == width(c),
        1 <= n <= 4,
{
    let code: u32 = c as u32;
    if code < 0x80 {
        1
    } else if code < 0x800 {
        2
    } else if code < 0x1_0000 {
        3
    } else {
        4
    }
}

/// The number of bytes that write the first `n` characters of `source` in
/// UTF-8: the byte offset of the character behind them.
pub open spec fn byte_len(source: Seq<char>, n: int) -> nat
    decreases n,
{
    if n <= 0 || n > source.len() {
        0
    } else {
        byte_len(source, n - 1) + width(source[n - 1])
    }
}

/// A byte offset as a 32-bit number, which stops at the largest one.
pub open spec fn capped(offset: nat) -> u32 {
    if offset <= u32::MAX {
        offset as u32
    } else {
        u32::MAX
    }
}

/// The byte offset behind a character of `n` bytes that starts at the
/// byte offset `offset`.
pub fn offset_behind(offset: u32, n: u32) -> (next: u32)
    requires
        n <= 4,
    ensures
        forall|bytes: nat| offset == capped(bytes) ==> next == #[trigger] capped((bytes + n) as nat),
{
    if offset > u32::MAX - n {
        u32::MAX
    } else {
        offset + n
    }
}

/// The number of characters of `source`, from the `i`-th on, that start
/// before the byte offset `offset`, added to `i`.
pub open spec fn chars_before(source: Seq<char>, offset: nat, i: int) -> int
    decreases source.len() - i,
{
    if i < 0 || i >= source.len() || byte_len(source, i) >= offset {
        i
    } else {
        chars_before(source, offset, i + 1)
    }
}

/// The line and the column of the character at the byte offset `offset`
/// of the source in UTF-8. An offset within a character counts as the
/// start of the next one, and an offset behind the end as the end.
pub open spec fn line_col(source: Seq<char>, offset: nat) -> (u32, u32) {
    position_after(source, chars_before(source, offset, 0))
}

} // verus!
