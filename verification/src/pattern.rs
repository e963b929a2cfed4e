//! Signatures as text: hexadecimal bytes and wildcards, separated by single
//! spaces, such as `48 8B 05 ?? ?? ?? ?? 48 85 C0`.

use vstd::prelude::*;
use crate::text::chars_of;

verus! {

/// The value of a hexadecimal digit, in either case.
pub open spec fn hex_digit(c: char) -> Option<u8> {
    match c {
        '0' => Some(0u8),
        '1' => Some(1u8),
        '2' => Some(2u8),
        '3' => Some(3u8),
        '4' => Some(4u8),
        '5' => Some(5u8),
        '6' => Some(6u8),
        '7' => Some(7u8),
        '8' => Some(8u8),
        '9' => Some(9u8),
        'a' | 'A' => Some(10u8),
        'b' | 'B' => Some(11u8),
        'c' | 'C' => Some(12u8),
        'd' | 'D' => Some(13u8),
        'e' | 'E' => Some(14u8),
        'f' | 'F' => Some(15u8),
        _ => None,
    }
}

/// The number that a run of hexadecimal digits writes. `None` for the empty
/// run and for one that holds anything but digits.
pub open spec fn hex_value(digits: Seq<char>) -> Option<nat>
    decreases digits.len(),
{
    if digits.len() == 0 {
        None
    } else if digits.len() == 1 {
        match hex_digit(digits[0]) {
            Some(digit) => Some(digit as nat),
            None => None,
        }
    } else {
        match (hex_value(digits.drop_last()), hex_digit(digits.last())) {
            (Some(high), Some(digit)) => Some(high * 16 + digit as nat),
            _ => None,
        }
    }
}

/// What one token of a signature stands for: `Some` of the byte that it
/// writes in hexadecimal, with a `+` in front if it has one, and `None`, the
/// wildcard, for every other token. `?` and `??` are the usual wildcards.
pub open spec fn token_value(token: Seq<char>) -> Option<u8> {
    let digits = if token.len() > 0 && token[0] == '+' {
        token.skip(1)
    } else {
        token
    };
    byte_of(hex_value(digits))
}

/// The byte that a number is, where it is one.
pub open spec fn byte_of(value: Option<nat>) -> Option<u8> {
    match value {
        Some(value) => if value <= 0xff {
            Some(value as u8)
        } else {
            None
        },
        None => None,
    }
}

/// The tokens of `text` from the one that starts at `start` on, when the
/// characters before `at` have been seen: a space ends a token, and so does
/// the end of the text.
pub open spec fn needle_scan(text: Seq<char>, start: int, at: int) -> Seq<Option<u8>>
    decreases text.len() - at,
{
    if at >= text.len() {
        seq![token_value(text.subrange(start, text.len() as int))]
    } else if text[at] == ' ' {
        seq![token_value(text.subrange(start, at))] + needle_scan(text, at + 1, at + 1)
    } else {
        needle_scan(text, start, at + 1)
    }
}

/// The needle that a signature text writes: one token for each stretch
/// between spaces.
pub open spec fn needle_of(text: Seq<char>) -> Seq<Option<u8>> {
    needle_scan(text, 0, 0)
}

/// A text writes at least one token.
pub proof fn lemma_needle_not_empty(text: Seq<char>, start: int, at: int)
    ensures
        needle_scan(text, start, at).len() > 0,
    decreases text.len() - at,
{
    if at >= text.len() {
    } else if text[at] == ' ' {
    } else {
        lemma_needle_not_empty(text, start, at + 1);
    }
}

/// The question mark, however often it is written, is a wildcard.
pub proof fn lemma_question_marks_are_wildcards()
    ensures
        token_value(seq!['?']) is None,
        token_value(seq!['?', '?']) is None,
{
    reveal_with_fuel(hex_value, 3);
    assert(seq!['?', '?'].drop_last() =~= seq!['?']);
}

/// More digits never write a smaller number.
proof fn lemma_hex_value_grows(digits: Seq<char>, shorter: int)
    requires
        0 < shorter <= digits.len(),
        hex_value(digits) is Some,
    ensures
        hex_value(digits.take(shorter)) is Some,
        hex_value(digits.take(shorter))->0 <= hex_value(digits)->0,
    decreases digits.len(),
{
    if shorter == digits.len() {
        assert(digits.take(shorter) =~= digits);
    } else {
        assert(digits.drop_last().take(shorter) =~= digits.take(shorter));
        lemma_hex_value_grows(digits.drop_last(), shorter);
    }
}

/// A run with a character in it that is no digit writes nothing.
proof fn lemma_hex_value_needs_digits(digits: Seq<char>, at: int)
    requires
        0 <= at < digits.len(),
        hex_digit(digits[at]) is None,
    ensures
        hex_value(digits) is None,
    decreases digits.len(),
{
    if at < digits.len() - 1 {
        lemma_hex_value_needs_digits(digits.drop_last(), at);
    }
}

fn digit_of(c: char) -> (digit: Option<u8>)
    ensures
        digit == hex_digit(c),
{
    match c {
        '0' => Some(0u8),
        '1' => Some(1u8),
        '2' => Some(2u8),
        '3' => Some(3u8),
        '4' => Some(4u8),
        '5' => Some(5u8),
        '6' => Some(6u8),
        '7' => Some(7u8),
        '8' => Some(8u8),
        '9' => Some(9u8),
        'a' | 'A' => Some(10u8),
        'b' | 'B' => Some(11u8),
        'c' | 'C' => Some(12u8),
        'd' | 'D' => Some(13u8),
        'e' | 'E' => Some(14u8),
        'f' | 'F' => Some(15u8),
        _ => None,
    }
}

/// Reads the token that the characters from `start` up to `end` write.
pub fn token_byte(chars: &Vec<char>, start: usize, end: usize) -> (byte: Option<u8>)
    requires
        start <= end <= chars@.len(),
    ensures
        byte == token_value(chars@.subrange(start as int, end as int)),
{
    let ghost token = chars@.subrange(start as int, end as int);
    let first = if start < end && chars[start] == '+' {
        start + 1
    } else {
        start
    };
    let ghost digits = chars@.subrange(first as int, end as int);
    assert(digits =~= if token.len() > 0 && token[0] == '+' {
        token.skip(1)
    } else {
        token
    });
    if first == end {
        return None;
    }
    let mut value: u32 = 0;
    let mut i: usize = first;
    while i < end
        invariant
            first <= i <= end <= chars@.len(),
            first < end,
            digits == chars@.subrange(first as int, end as int),
            token_value(chars@.subrange(start as int, end as int)) == byte_of(hex_value(digits)),
            value <= 0xff,
            i > first ==> hex_value(digits.take(i - first)) == Some(value as nat),
            i == first ==> value == 0,
        decreases end - i,
    {
        match digit_of(chars[i]) {
            None => {
                proof {
                    lemma_hex_value_needs_digits(digits, i - first);
                }
                return None;
            },
            Some(digit) => {
                let ghost seen = digits.take(i - first + 1);
                assert(seen.drop_last() =~= digits.take(i - first));
                let longer = value * 16 + digit as u32;
                if longer > 0xff {
                    proof {
                        if hex_value(digits) is Some {
                            lemma_hex_value_grows(digits, i - first + 1);
                        }
                    }
                    return None;
                }
                value = longer;
            },
        }
        i += 1;
    }
    assert(digits.take(end - first) =~= digits);
    Some(value as u8)
}

/// Reads a signature: each token between spaces becomes the byte that it
/// writes in hexadecimal, or a wildcard where it writes none.
pub fn into_needle(pattern: &str) -> (needle: Vec<Option<u8>>)
    ensures
        needle@ == needle_of(pattern@),
        needle@.len() > 0,
{
    let chars = chars_of(pattern);
    let len = chars.len();
    let mut needle: Vec<Option<u8>> = Vec::new();
    let mut start: usize = 0;
    let mut i: usize = 0;
    while i < len
        invariant
            start <= i <= len,
            len == chars@.len(),
            needle_of(chars@) == needle@ + needle_scan(chars@, start as int, i as int),
        decreases len - i,
    {
        if chars[i] == ' ' {
            needle.push(token_byte(&chars, start, i));
            start = i + 1;
        }
        i += 1;
    }
    needle.push(token_byte(&chars, start, len));
    needle
}

} // verus!
