//! Lowercase hexadecimal rendering and parsing of byte strings: how every
//! digest and derived id crosses IPC.

use vstd::prelude::*;

verus! {

/// `String::push`: appends the one character to the end of the string,
/// leaving the characters before it as they were.
pub assume_specification[ String::push ](string: &mut String, ch: char)
    ensures
        final(string)@ == old(string)@.push(ch),
;

/// The lowercase hex digit of a nibble (`0..16`).
pub open spec fn hex_digit(nibble: int) -> char {
    if nibble < 10 {
        (nibble + 48) as char
    } else {
        (nibble + 87) as char
    }
}

/// The lowercase hex rendering of `bytes`: two digits per byte, high
/// nibble first.
pub open spec fn hex_of(bytes: Seq<u8>) -> Seq<char> {
    Seq::new(
        2 * bytes.len(),
        |i: int|
            if i % 2 == 0 {
                hex_digit(bytes[i / 2] as int / 16)
            } else {
                hex_digit(bytes[i / 2] as int % 16)
            },
    )
}

/// The value of a hex digit, either case; `None` for any other character.
pub open spec fn hex_value(c: char) -> Option<int> {
    if '0' <= c && c <= '9' {
        Some(c as int - 48)
    } else if 'a' <= c && c <= 'f' {
        Some(c as int - 87)
    } else if 'A' <= c && c <= 'F' {
        Some(c as int - 55)
    } else {
        None
    }
}

/// `text` is exactly `2 * width` hex digits.
pub open spec fn is_hex_of_width(text: Seq<char>, width: nat) -> bool {
    &&& text.len() == 2 * width
    &&& forall|i: int| 0 <= i < text.len() ==> (#[trigger] hex_value(text[i])) is Some
}

/// The bytes a run of hex digit pairs spells, high nibble first.
pub open spec fn bytes_of_hex(text: Seq<char>) -> Seq<u8> {
    Seq::new(
        text.len() / 2,
        |i: int| (hex_value(text[2 * i])->0 * 16 + hex_value(text[2 * i + 1])->0) as u8,
    )
}

fn digit(nibble: u8) -> (c: char)
    requires
        nibble < 16,
    ensures
        c == hex_digit(nibble as int),
{
    if nibble < 10 {
        (nibble + 48) as char
    } else {
        (nibble + 87) as char
    }
}

/// Render `bytes` as lowercase hex.
pub fn to_hex(bytes: &[u8]) -> (text: String)
    ensures
        text@ == hex_of(bytes@),
{
    let mut text = String::new();
    let mut i: usize = 0;
    while i < bytes.len()
        invariant
            i <= bytes.len(),
            text@ == hex_of(bytes@.take(i as int)),
        decreases bytes.len() - i,
    {
        let b = bytes[i];
        text.push(digit(b / 16));
        text.push(digit(b % 16));
        i = i + 1;
        assert(text@ =~= hex_of(bytes@.take(i as int)));
    }
    assert(bytes@.take(i as int) =~= bytes@);
    text
}

fn digit_value(c: char) -> (value: Option<u8>)
    ensures
        match hex_value(c) {
            Some(n) => value == Some(n as u8) && 0 <= n < 16,
            None => value is None,
        },
{
    let code = c as u32;
    if 48 <= code && code <= 57 {
        Some((code - 48) as u8)
    } else if 97 <= code && code <= 102 {
        Some((code - 87) as u8)
    } else if 65 <= code && code <= 70 {
        Some((code - 55) as u8)
    } else {
        None
    }
}

/// Parse `text` as exactly `width` bytes written as hex digit pairs, high
/// nibble first; either case is accepted. `None` for anything else.
pub fn parse_hex(text: &str, width: usize) -> (bytes: Option<Vec<u8>>)
    ensures
        bytes is Some <==> is_hex_of_width(text@, width as nat),
        bytes matches Some(b) ==> b@ == bytes_of_hex(text@),
{
    let len = text.unicode_len();
    if len % 2 != 0 || len / 2 != width {
        return None;
    }
    let mut out: Vec<u8> = Vec::new();
    let mut i: usize = 0;
    while i < width
        invariant
            len == text@.len(),
            len == 2 * width,
            i <= width,
            forall|k: int| 0 <= k < 2 * i ==> (#[trigger] hex_value(text@[k])) is Some,
            out@ =~= bytes_of_hex(text@).take(i as int),
        decreases width - i,
    {
        let high = digit_value(text.get_char(2 * i));
        let low = digit_value(text.get_char(2 * i + 1));
        match (high, low) {
            (Some(h), Some(l)) => {
                out.push(h * 16 + l);
                i = i + 1;
            },
            _ => {
                return None;
            },
        }
    }
    assert(bytes_of_hex(text@).take(width as int) =~= bytes_of_hex(text@));
    Some(out)
}

proof fn lemma_digit_round_trip(nibble: int)
    requires
        0 <= nibble < 16,
    ensures
        hex_value(hex_digit(nibble)) == Some(nibble),
{
}

/// Reading back what [`to_hex`] rendered gives the same bytes.
pub proof fn lemma_hex_round_trip(bytes: Seq<u8>)
    ensures
        is_hex_of_width(hex_of(bytes), bytes.len()),
        bytes_of_hex(hex_of(bytes)) == bytes,
{
    let text = hex_of(bytes);
    assert forall|i: int| 0 <= i < text.len() implies (#[trigger] hex_value(text[i])) is Some by {
        if i % 2 == 0 {
            lemma_digit_round_trip(bytes[i / 2] as int / 16);
        } else {
            lemma_digit_round_trip(bytes[i / 2] as int % 16);
        }
    }
    assert forall|i: int| 0 <= i < bytes.len() implies #[trigger] bytes_of_hex(text)[i] == bytes[i] by {
        lemma_digit_round_trip(bytes[i] as int / 16);
        lemma_digit_round_trip(bytes[i] as int % 16);
        assert(text[2 * i] == hex_digit(bytes[i] as int / 16));
        assert(text[2 * i + 1] == hex_digit(bytes[i] as int % 16));
    }
    assert(bytes_of_hex(text) =~= bytes);
}

} // verus!
