//! Colours written as six hexadecimal digits, with or without a leading `#`.

use vstd::prelude::*;
use crate::text::{chars_of, trim_bounds, trimmed};
use crate::types::{default_colors, default_palette, Rgb};

verus! {

/// The value of a hexadecimal digit, in either case.
pub open spec fn hex_value(c: char) -> Option<u8> {
    if '0' <= c <= '9' {
        Some((c as u8 - '0' as u8) as u8)
    } else if 'a' <= c <= 'f' {
        Some((c as u8 - 'a' as u8 + 10) as u8)
    } else if 'A' <= c <= 'F' {
        Some((c as u8 - 'A' as u8 + 10) as u8)
    } else {
        None
    }
}

/// The value of one channel, written as two characters: two hexadecimal
/// digits, or a plus sign and one digit.
pub open spec fn hex_pair(high: char, low: char) -> Option<u8> {
    if high == '+' {
        hex_value(low)
    } else {
        match (hex_value(high), hex_value(low)) {
            (Some(h), Some(l)) => Some((h * 16 + l) as u8),
            _ => None,
        }
    }
}

/// The colour that a text writes, if it writes one: after one optional `#`,
/// exactly three channels of two characters each.
pub open spec fn hex_color(text: Seq<char>) -> Option<Rgb> {
    let digits = if text.len() > 0 && text[0] == '#' {
        text.drop_first()
    } else {
        text
    };
    if digits.len() != 6 {
        None
    } else {
        match (
            hex_pair(digits[0], digits[1]),
            hex_pair(digits[2], digits[3]),
            hex_pair(digits[4], digits[5]),
        ) {
            (Some(r), Some(g), Some(b)) => Some(Rgb::bytes(r, g, b)),
            _ => None,
        }
    }
}

/// The colours that a list of texts writes, in order: each text is read
/// without the white space around it, and a text that writes no colour is
/// passed over.
pub open spec fn valid_colors(texts: Seq<Seq<char>>) -> Seq<Rgb>
    decreases texts.len(),
{
    if texts.len() == 0 {
        Seq::empty()
    } else {
        let rest = valid_colors(texts.drop_last());
        match hex_color(trimmed(texts.last())) {
            Some(c) => rest.push(c),
            None => rest,
        }
    }
}

/// The palette that a list of texts stands for: the colours it writes, or
/// the default palette where it writes none.
pub open spec fn palette_of(texts: Seq<Seq<char>>) -> Seq<Rgb> {
    let found = valid_colors(texts);
    if found.len() == 0 {
        default_palette()
    } else {
        found
    }
}

/// The texts of a list of strings.
pub open spec fn texts_of(list: Seq<String>) -> Seq<Seq<char>> {
    Seq::new(list.len(), |i: int| list[i]@)
}

fn digit(c: char) -> (r: Option<u8>)
    ensures
        r == hex_value(c),
{
    if '0' <= c && c <= '9' {
        Some(c as u8 - '0' as u8)
    } else if 'a' <= c && c <= 'f' {
        Some(c as u8 - 'a' as u8 + 10)
    } else if 'A' <= c && c <= 'F' {
        Some(c as u8 - 'A' as u8 + 10)
    } else {
        None
    }
}

fn channel(high: char, low: char) -> (r: Option<u8>)
    ensures
        r == hex_pair(high, low),
{
    if high == '+' {
        digit(low)
    } else {
        match (digit(high), digit(low)) {
            (Some(h), Some(l)) => Some(h * 16 + l),
            _ => None,
        }
    }
}

/// Reads the colour written by the characters of `chars` from `from` up to
/// `to`.
pub fn parse_hex_chars(chars: &Vec<char>, from: usize, to: usize) -> (r: Option<Rgb>)
    requires
        from <= to <= chars@.len(),
    ensures
        r == hex_color(chars@.subrange(from as int, to as int)),
{
    let ghost text = chars@.subrange(from as int, to as int);
    let start = if from < to && chars[from] == '#' {
        from + 1
    } else {
        from
    };
    let ghost digits = chars@.subrange(start as int, to as int);
    proof {
        assert(text.len() > 0 ==> text[0] == chars@[from as int]);
        if start > from {
            assert(digits =~= text.drop_first());
        } else {
            assert(digits =~= text);
        }
    }
    if to - start != 6 {
        return None;
    }
    proof {
        assert forall|k: int| 0 <= k < 6 implies digits[k] == chars@[start + k] by {}
    }
    match (
        channel(chars[start], chars[start + 1]),
        channel(chars[start + 2], chars[start + 3]),
        channel(chars[start + 4], chars[start + 5]),
    ) {
        (Some(r), Some(g), Some(b)) => Some(Rgb::bytes(r, g, b)),
        _ => None,
    }
}

/// Reads a colour such as `#ff8800` or `ff8800`.
pub fn parse_hex_color(s: &str) -> (r: Option<Rgb>)
    ensures
        r == hex_color(s@),
        r matches Some(c) ==> c.wf(),
{
    let chars = chars_of(s);
    proof {
        assert(chars@.subrange(0, chars@.len() as int) =~= s@);
    }
    parse_hex_chars(&chars, 0, chars.len())
}

/// Reads a palette from a list of colour strings: the colours that the
/// strings write, in order, or the default palette where none of them
/// writes a colour.
pub fn parse_colors(input: &Vec<String>) -> (r: Vec<Rgb>)
    ensures
        r@ == palette_of(texts_of(input@)),
        r@.len() > 0,
{
    let ghost texts = texts_of(input@);
    let mut found: Vec<Rgb> = Vec::new();
    let mut i: usize = 0;
    while i < input.len()
        invariant
            texts == texts_of(input@),
            i <= input@.len(),
            found@ == valid_colors(texts.take(i as int)),
        decreases input@.len() - i,
    {
        let chars = chars_of(input[i].as_str());
        let (lo, hi) = trim_bounds(&chars);
        proof {
            assert(texts.take(i + 1).drop_last() =~= texts.take(i as int));
            assert(texts.take(i + 1).last() == input@[i as int]@);
        }
        match parse_hex_chars(&chars, lo, hi) {
            Some(c) => found.push(c),
            None => {},
        }
        i += 1;
    }
    proof {
        assert(texts.take(input@.len() as int) =~= texts);
    }
    if found.len() == 0 {
        default_colors()
    } else {
        found
    }
}

} // verus!
