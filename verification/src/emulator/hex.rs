//! Bytes as text: two hexadecimal digits per byte, as ASCII bytes and as
//! strings.

use vstd::prelude::*;
use vstd::string::*;
use vstd::utf8::is_ascii_chars;

verus! {

/// The digit, as an ASCII character, for a value below 16: `0` to `9`,
/// then `a` to `f`.
pub open spec fn hex_digit(n: u8) -> u8 {
    if n < 10 {
        (48 + n) as u8
    } else {
        (87 + n) as u8
    }
}

/// The value of an ASCII character as a hexadecimal digit, if it is one;
/// letters count in either case.
pub open spec fn hex_value(c: u8) -> Option<u8> {
    if 48 <= c <= 57 {
        Some((c - 48) as u8)
    } else if 97 <= c <= 102 {
        Some((c - 87) as u8)
    } else if 65 <= c <= 70 {
        Some((c - 55) as u8)
    } else {
        None
    }
}

/// The text for a sequence of bytes: for each byte the digit of its high
/// half, then that of its low half.
pub open spec fn spec_encode(bytes: Seq<u8>) -> Seq<u8> {
    Seq::new(
        2 * bytes.len(),
        |i: int|
            if i % 2 == 0 {
                hex_digit(bytes[i / 2] / 16)
            } else {
                hex_digit(bytes[i / 2] % 16)
            },
    )
}

/// Whether a text stands for a sequence of bytes: it has an even number of
/// characters and all are hexadecimal digits.
pub open spec fn is_hex(text: Seq<u8>) -> bool {
    text.len() % 2 == 0 && forall|i: int|
        0 <= i < text.len() ==> hex_value(#[trigger] text[i]) is Some
}

/// The bytes that a text of hexadecimal digits stands for.
pub open spec fn spec_decode(text: Seq<u8>) -> Seq<u8> {
    Seq::new(
        text.len() / 2,
        |i: int| (hex_value(text[2 * i])->0 * 16 + hex_value(text[2 * i + 1])->0) as u8,
    )
}

fn digit(n: u8) -> (c: u8)
    requires
        n < 16,
    ensures
        c == hex_digit(n),
{
    if n < 10 {
        48 + n
    } else {
        87 + n
    }
}

/// The value of a character as a hexadecimal digit.
pub fn hex_char(c: u8) -> (v: Option<u8>)
    ensures
        v == hex_value(c),
        v is Some ==> v->0 < 16,
{
    if 48 <= c && c <= 57 {
        Some(c - 48)
    } else if 97 <= c && c <= 102 {
        Some(c - 87)
    } else if 65 <= c && c <= 70 {
        Some(c - 55)
    } else {
        None
    }
}

/// Writes bytes as text, in lower-case digits.
pub fn encode(bytes: &[u8]) -> (text: Vec<u8>)
    requires
        2 * bytes@.len() <= usize::MAX,
    ensures
        text@ == spec_encode(bytes@),
{
    let mut text: Vec<u8> = Vec::new();
    let mut i: usize = 0;
    while i < bytes.len()
        invariant
            i <= bytes@.len(),
            text@.len() == 2 * i,
            forall|k: int| 0 <= k < 2 * i ==> text@[k] == spec_encode(bytes@)[k],
        decreases bytes@.len() - i,
    {
        let b = bytes[i];
        text.push(digit(b / 16));
        text.push(digit(b % 16));
        i += 1;
    }
    assert(text@ =~= spec_encode(bytes@));
    text
}

/// Reads text back into bytes; `None` if the text is not an even number of
/// hexadecimal digits.
pub fn decode(text: &[u8]) -> (bytes: Option<Vec<u8>>)
    ensures
        match bytes {
            Some(b) => is_hex(text@) && b@ == spec_decode(text@),
            None => !is_hex(text@),
        },
{
    if text.len() % 2 != 0 {
        return None;
    }
    let mut bytes: Vec<u8> = Vec::new();
    let mut i: usize = 0;
    while i < text.len() / 2
        invariant
            text@.len() % 2 == 0,
            i <= text@.len() / 2,
            bytes@.len() == i,
            forall|k: int| 0 <= k < 2 * i ==> hex_value(#[trigger] text@[k]) is Some,
            forall|k: int| 0 <= k < i ==> bytes@[k] == spec_decode(text@)[k],
        decreases text@.len() / 2 - i,
    {
        match (hex_char(text[2 * i]), hex_char(text[2 * i + 1])) {
            (Some(hi), Some(lo)) => {
                bytes.push(hi * 16 + lo);
            },
            _ => {
                return None;
            },
        }
        i += 1;
    }
    assert(bytes@ =~= spec_decode(text@));
    Some(bytes)
}

/// Text that was written from bytes reads back as the same bytes.
pub proof fn lemma_decode_encode(bytes: Seq<u8>)
    ensures
        is_hex(spec_encode(bytes)),
        spec_decode(spec_encode(bytes)) == bytes,
{
    let text = spec_encode(bytes);
    assert forall|i: int| 0 <= i < text.len() implies hex_value(#[trigger] text[i]) is Some by {
        let b = bytes[i / 2];
        assert(b / 16 < 16 && b % 16 < 16);
    }
    assert forall|i: int| 0 <= i < bytes.len() implies spec_decode(text)[i] == bytes[i] by {
        let b = bytes[i];
        assert(text[2 * i] == hex_digit(b / 16));
        assert(text[2 * i + 1] == hex_digit(b % 16));
    }
    assert(spec_decode(text) =~= bytes);
}

/// The characters of a text that is given as ASCII bytes.
pub open spec fn text_of(bytes: Seq<u8>) -> Seq<char> {
    Seq::new(bytes.len(), |i: int| bytes[i] as char)
}

/// The bytes of a text all of whose characters are ASCII.
pub open spec fn bytes_of(text: Seq<char>) -> Seq<u8> {
    Seq::new(text.len(), |i: int| text[i] as u8)
}

/// The text for a sequence of bytes, as characters.
pub open spec fn spec_encode_text(bytes: Seq<u8>) -> Seq<char> {
    text_of(spec_encode(bytes))
}

/// Whether a string stands for a sequence of bytes: all its characters are
/// ASCII, there is an even number of them, and all are hexadecimal digits.
pub open spec fn is_hex_text(text: Seq<char>) -> bool {
    is_ascii_chars(text) && is_hex(bytes_of(text))
}

/// The bytes that a string of hexadecimal digits stands for.
pub open spec fn spec_decode_text(text: Seq<char>) -> Seq<u8> {
    spec_decode(bytes_of(text))
}

/// The one-character string for a lower-case hexadecimal digit.
fn digit_text(c: u8) -> (s: &'static str)
    requires
        48 <= c <= 57 || 97 <= c <= 102,
    ensures
        s@ == seq![c as char],
{
    proof {
        reveal_strlit("0");
        reveal_strlit("1");
        reveal_strlit("2");
        reveal_strlit("3");
        reveal_strlit("4");
        reveal_strlit("5");
        reveal_strlit("6");
        reveal_strlit("7");
        reveal_strlit("8");
        reveal_strlit("9");
        reveal_strlit("a");
        reveal_strlit("b");
        reveal_strlit("c");
        reveal_strlit("d");
        reveal_strlit("e");
        reveal_strlit("f");
    }
    let s = match c {
        48 => "0",
        49 => "1",
        50 => "2",
        51 => "3",
        52 => "4",
        53 => "5",
        54 => "6",
        55 => "7",
        56 => "8",
        57 => "9",
        97 => "a",
        98 => "b",
        99 => "c",
        100 => "d",
        101 => "e",
        _ => "f",
    };
    assert(s@ =~= seq![c as char]);
    s
}

/// Writes bytes as a string, in lower-case digits.
pub fn encode_text(bytes: &[u8]) -> (text: String)
    requires
        2 * bytes@.len() <= usize::MAX,
    ensures
        text@ == spec_encode_text(bytes@),
{
    let digits = encode(bytes);
    let mut text = String::new();
    let mut i: usize = 0;
    while i < digits.len()
        invariant
            i <= digits@.len(),
            digits@ == spec_encode(bytes@),
            text@ == text_of(digits@.subrange(0, i as int)),
        decreases digits@.len() - i,
    {
        let c = digits[i];
        assert(c == hex_digit(bytes@[i as int / 2] / 16) || c == hex_digit(
            bytes@[i as int / 2] % 16,
        ));
        text.append(digit_text(c));
        assert(text@ =~= text_of(digits@.subrange(0, i + 1)));
        i += 1;
    }
    assert(digits@.subrange(0, digits@.len() as int) =~= digits@);
    text
}

/// Reads a string back into bytes; `None` if the string is not an even
/// number of hexadecimal digits.
pub fn decode_text(text: &str) -> (bytes: Option<Vec<u8>>)
    ensures
        match bytes {
            Some(b) => is_hex_text(text@) && b@ == spec_decode_text(text@),
            None => !is_hex_text(text@),
        },
{
    if !text.is_ascii() {
        return None;
    }
    proof {
        is_ascii_spec_bytes(text);
        assert(text.spec_bytes() =~= bytes_of(text@));
    }
    decode(text.as_bytes())
}

/// A string that was written from bytes reads back as the same bytes.
pub proof fn lemma_decode_encode_text(bytes: Seq<u8>)
    ensures
        is_hex_text(spec_encode_text(bytes)),
        spec_decode_text(spec_encode_text(bytes)) == bytes,
{
    let digits = spec_encode(bytes);
    let text = spec_encode_text(bytes);
    lemma_decode_encode(bytes);
    assert forall|i: int| 0 <= i < digits.len() implies #[trigger] digits[i] < 128 by {
        let b = bytes[i / 2];
        assert(b / 16 < 16 && b % 16 < 16);
    }
    assert forall|i: int| 0 <= i < text.len() implies '\0' <= #[trigger] text[i] <= '\u{7f}' by {
        assert(digits[i] < 128);
    }
    assert(bytes_of(text) =~= digits);
}

} // verus!
