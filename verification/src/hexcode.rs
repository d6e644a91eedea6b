//! Reading a colour written as `#RRGGBB` or `RRGGBB`, as a picker tool
//! prints it.

use vstd::prelude::*;
use vstd::string::*;
use crate::color::{build_pixel_color, hex_text, PixelColor};
use crate::error::{CaptureError, ErrorKind};
use crate::frame::{yields, Outcome};
use crate::text::{chars_of, hex_digit_char, push_chars};

verus! {

pub const MSG_HEX_INVALID: &'static str = "Formato hex inválido do hyprpicker: ";

pub const MSG_HEX_RED: &'static str = "Erro ao parsear R: invalid digit found in string";

pub const MSG_HEX_GREEN: &'static str = "Erro ao parsear G: invalid digit found in string";

pub const MSG_HEX_BLUE: &'static str = "Erro ao parsear B: invalid digit found in string";

/// White space, as Unicode defines it.
pub open spec fn is_space(c: char) -> bool {
    let v = c as u32;
    ||| 0x09 <= v <= 0x0D
    ||| v == 0x20
    ||| v == 0x85
    ||| v == 0xA0
    ||| v == 0x1680
    ||| 0x2000 <= v <= 0x200A
    ||| v == 0x2028
    ||| v == 0x2029
    ||| v == 0x202F
    ||| v == 0x205F
    ||| v == 0x3000
}

/// `s` without the white space it begins with.
pub open spec fn trim_start(s: Seq<char>) -> Seq<char>
    decreases s.len(),
{
    if s.len() > 0 && is_space(s[0]) {
        trim_start(s.drop_first())
    } else {
        s
    }
}

/// `s` without the white space it ends with.
pub open spec fn trim_end(s: Seq<char>) -> Seq<char>
    decreases s.len(),
{
    if s.len() > 0 && is_space(s.last()) {
        trim_end(s.drop_last())
    } else {
        s
    }
}

/// `s` without white space at either end.
pub open spec fn trim(s: Seq<char>) -> Seq<char> {
    trim_end(trim_start(s))
}

/// `s` without one leading `#`, if it has one.
pub open spec fn strip_hash(s: Seq<char>) -> Seq<char> {
    if s.len() > 0 && s[0] == '#' {
        s.drop_first()
    } else {
        s
    }
}

/// The value of a hexadecimal digit, in either case.
pub open spec fn hex_value(c: char) -> Option<int> {
    if '0' <= c <= '9' {
        Some(c as int - '0' as int)
    } else if 'a' <= c <= 'f' {
        Some(c as int - 'a' as int + 10)
    } else if 'A' <= c <= 'F' {
        Some(c as int - 'A' as int + 10)
    } else {
        None
    }
}

/// The byte that two hexadecimal digits write.
pub open spec fn hex_byte(high: char, low: char) -> Option<u8> {
    match (hex_value(high), hex_value(low)) {
        (Some(h), Some(l)) => Some((16 * h + l) as u8),
        _ => None,
    }
}

/// The colour that `text` writes: after trimming and without a leading `#`,
/// the first six characters are the hexadecimal digits of red, green and
/// blue. What follows them is not read.
pub open spec fn hex_sample(text: Seq<char>) -> Outcome {
    let shown = trim(text);
    let digits = strip_hash(shown);
    if digits.len() < 6 {
        Err((ErrorKind::MalformedCaptureOutput, MSG_HEX_INVALID@ + shown))
    } else {
        match hex_byte(digits[0], digits[1]) {
            None => Err((ErrorKind::MalformedCaptureOutput, MSG_HEX_RED@)),
            Some(r) => match hex_byte(digits[2], digits[3]) {
                None => Err((ErrorKind::MalformedCaptureOutput, MSG_HEX_GREEN@)),
                Some(g) => match hex_byte(digits[4], digits[5]) {
                    None => Err((ErrorKind::MalformedCaptureOutput, MSG_HEX_BLUE@)),
                    Some(b) => Ok((r, g, b)),
                },
            },
        }
    }
}

/// The two digits that write a byte read back as that byte.
pub proof fn lemma_hex_pair_round_trip(v: u8)
    ensures
        hex_byte(hex_digit_char(v as int / 16), hex_digit_char(v as int % 16)) == Some(v),
{
}

/// Reading the `#RRGGBB` text of a colour gives its channels back: for all
/// `r`, `g`, `b`, decoding `hex_text(r, g, b)` yields `(r, g, b)`.
pub proof fn lemma_hex_round_trip(r: u8, g: u8, b: u8)
    ensures
        hex_sample(hex_text(r, g, b)) == Outcome::Ok((r, g, b)),
{
    let text = hex_text(r, g, b);
    lemma_hex_pair_round_trip(r);
    lemma_hex_pair_round_trip(g);
    lemma_hex_pair_round_trip(b);
    assert(text.len() == 7);
    assert(text[0] == '#');
    assert(text.last() == hex_digit_char(b as int % 16));
    assert(trim_start(text) == text);
    assert(trim_end(text) == text);
    let digits = strip_hash(text);
    assert(digits =~= text.drop_first());
    assert(digits[0] == hex_digit_char(r as int / 16));
    assert(digits[1] == hex_digit_char(r as int % 16));
    assert(digits[2] == hex_digit_char(g as int / 16));
    assert(digits[3] == hex_digit_char(g as int % 16));
    assert(digits[4] == hex_digit_char(b as int / 16));
    assert(digits[5] == hex_digit_char(b as int % 16));
}

/// Whether `c` is white space.
pub fn is_space_char(c: char) -> (space: bool)
    ensures
        space == is_space(c),
{
    let v = c as u32;
    (0x09 <= v && v <= 0x0D) || v == 0x20 || v == 0x85 || v == 0xA0 || v == 0x1680 || (0x2000 <= v
        && v <= 0x200A) || v == 0x2028 || v == 0x2029 || v == 0x202F || v == 0x205F || v == 0x3000
}

/// The value of a hexadecimal digit.
pub fn hex_digit_value(c: char) -> (value: Option<u8>)
    ensures
        match value {
            Some(v) => hex_value(c) == Some(v as int) && v < 16,
            None => hex_value(c) is None,
        },
{
    let v = c as u32;
    if 0x30 <= v && v <= 0x39 {
        Some((v - 0x30) as u8)
    } else if 0x61 <= v && v <= 0x66 {
        Some((v - 0x61 + 10) as u8)
    } else if 0x41 <= v && v <= 0x46 {
        Some((v - 0x41 + 10) as u8)
    } else {
        None
    }
}

/// The byte that two hexadecimal digits write.
pub fn hex_byte_value(high: char, low: char) -> (value: Option<u8>)
    ensures
        value == hex_byte(high, low),
{
    match hex_digit_value(high) {
        None => None,
        Some(h) => match hex_digit_value(low) {
            None => None,
            Some(l) => Some(16 * h + l),
        },
    }
}

/// The bounds of `v` without white space at either end.
pub fn trim_bounds(v: &Vec<char>) -> (bounds: (usize, usize))
    ensures
        bounds.0 <= bounds.1 <= v.len(),
        v@.subrange(bounds.0 as int, bounds.1 as int) == trim(v@),
{
    let mut from: usize = 0;
    assert(v@.skip(0) =~= v@);
    while from < v.len() && is_space_char(v[from])
        invariant
            from <= v.len(),
            trim_start(v@) == trim_start(v@.skip(from as int)),
        decreases v.len() - from,
    {
        assert(v@.skip(from as int).drop_first() =~= v@.skip(from + 1));
        from = from + 1;
    }
    assert(trim_start(v@) == v@.skip(from as int));
    let mut to: usize = v.len();
    assert(v@.skip(from as int) =~= v@.subrange(from as int, to as int));
    while from < to && is_space_char(v[to - 1])
        invariant
            from <= to <= v.len(),
            trim(v@) == trim_end(v@.subrange(from as int, to as int)),
        decreases to - from,
    {
        assert(v@.subrange(from as int, to as int).drop_last() =~= v@.subrange(
            from as int,
            to - 1,
        ));
        to = to - 1;
    }
    (from, to)
}

/// Reads a colour from the text that a picker tool printed.
pub fn parse_hex_color(text: &str) -> (out: Result<PixelColor, CaptureError>)
    ensures
        yields(out, hex_sample(text@)),
{
    let chars = chars_of(text);
    let (from, to) = trim_bounds(&chars);
    let ghost shown = chars@.subrange(from as int, to as int);
    let first = if from < to && chars[from] == '#' {
        from + 1
    } else {
        from
    };
    let ghost digits = strip_hash(shown);
    assert(digits =~= chars@.subrange(first as int, to as int));
    if to - first < 6 {
        let mut message = String::from_str(MSG_HEX_INVALID);
        push_chars(&mut message, &chars, from, to);
        return Err(CaptureError { kind: ErrorKind::MalformedCaptureOutput, message });
    }
    let r = match hex_byte_value(chars[first], chars[first + 1]) {
        Some(r) => r,
        None => {
            return Err(CaptureError::new(ErrorKind::MalformedCaptureOutput, MSG_HEX_RED));
        },
    };
    let g = match hex_byte_value(chars[first + 2], chars[first + 3]) {
        Some(g) => g,
        None => {
            return Err(CaptureError::new(ErrorKind::MalformedCaptureOutput, MSG_HEX_GREEN));
        },
    };
    let b = match hex_byte_value(chars[first + 4], chars[first + 5]) {
        Some(b) => b,
        None => {
            return Err(CaptureError::new(ErrorKind::MalformedCaptureOutput, MSG_HEX_BLUE));
        },
    };
    build_pixel_color(r, g, b)
}

} // verus!
