//! Colours as three 8-bit channels: the accent colours that folder images come in,
//! and the six-digit hex form in which custom folder colours are stored in settings.
use vstd::prelude::*;
use crate::text::{chars_eq, chars_of, lit, string_of};

verus! {

/// A colour as red, green and blue channels.
#[derive(Debug, Clone, Copy, PartialEq, Eq, Structural)]
pub struct Rgb8 {
    pub r: u8,
    pub g: u8,
    pub b: u8,
}

/// Conversions of a colour to and from its channels and its hex text.
pub trait CustomRGB: Sized {
    fn from_rgb(r: u8, g: u8, b: u8) -> Self;

    fn to_hex(&self) -> String;

    fn from_hex(hex: String) -> Self;
}

/// The upper-case hex digit for a value below sixteen.
pub open spec fn hex_digit(v: u8) -> char {
    if v < 10 {
        ((v + 48) as u8) as char
    } else {
        ((v + 55) as u8) as char
    }
}

/// The two upper-case hex digits of a byte, as `{:02X?}` writes them.
pub open spec fn hex_byte(v: u8) -> Seq<char> {
    seq![hex_digit(v / 16), hex_digit(v % 16)]
}

/// The value of one hex digit given as a byte, upper or lower case.
pub open spec fn hex_value(c: u8) -> Option<u8> {
    if 48 <= c <= 57 {
        Some((c - 48) as u8)
    } else if 65 <= c <= 70 {
        Some((c - 55) as u8)
    } else if 97 <= c <= 102 {
        Some((c - 87) as u8)
    } else {
        None
    }
}

/// What `hex` decodes from bytes into three bytes: exactly six hex digits, taken
/// in pairs, high digit first.
pub open spec fn decode_hex3(bytes: Seq<u8>) -> Option<(u8, u8, u8)> {
    if bytes.len() == 6 && (forall|i: int| 0 <= i < 6 ==> (#[trigger] hex_value(bytes[i])) is Some) {
        Some(
            (
                (hex_value(bytes[0]).unwrap() * 16 + hex_value(bytes[1]).unwrap()) as u8,
                (hex_value(bytes[2]).unwrap() * 16 + hex_value(bytes[3]).unwrap()) as u8,
                (hex_value(bytes[4]).unwrap() * 16 + hex_value(bytes[5]).unwrap()) as u8,
            ),
        )
    } else {
        None
    }
}

/// Decodes three bytes from hex text with `<[u8; 3] as hex::FromHex>::from_hex`:
/// a value exactly when the UTF-8 bytes of `s` are six hex digits (either case),
/// each pair giving one byte, high digit first.
#[verifier::external_body]
fn hex_decode3(s: &str) -> (r: Option<(u8, u8, u8)>)
    ensures
        r == decode_hex3(vstd::utf8::encode_utf8(s@)),
{
    match <[u8; 3] as hex::FromHex>::from_hex(s) {
        Ok(a) => Some((a[0], a[1], a[2])),
        Err(_) => None,
    }
}

fn hex_digit_exec(v: u8) -> (c: char)
    requires
        v < 16,
    ensures
        c == hex_digit(v),
{
    if v < 10 {
        ((v + 48) as u8) as char
    } else {
        ((v + 55) as u8) as char
    }
}

impl Rgb8 {
    /// The colour's hex text: two upper-case digits per channel.
    pub open spec fn spec_hex(&self) -> Seq<char> {
        hex_byte(self.r) + hex_byte(self.g) + hex_byte(self.b)
    }

    /// The colour that a hex text stands for; white when the text is not six hex digits.
    pub open spec fn spec_from_hex_bytes(bytes: Seq<u8>) -> Rgb8 {
        match decode_hex3(bytes) {
            Some(t) => Rgb8 { r: t.0, g: t.1, b: t.2 },
            None => Rgb8 { r: 255, g: 255, b: 255 },
        }
    }
}

impl CustomRGB for Rgb8 {
    fn from_rgb(r: u8, g: u8, b: u8) -> (c: Rgb8)
        ensures
            c == (Rgb8 { r, g, b }),
    {
        Rgb8 { r, g, b }
    }

    fn to_hex(&self) -> (s: String)
        ensures
            s@ == self.spec_hex(),
    {
        let mut v: Vec<char> = Vec::new();
        v.push(hex_digit_exec(self.r / 16));
        v.push(hex_digit_exec(self.r % 16));
        v.push(hex_digit_exec(self.g / 16));
        v.push(hex_digit_exec(self.g % 16));
        v.push(hex_digit_exec(self.b / 16));
        v.push(hex_digit_exec(self.b % 16));
        assert(v@ =~= self.spec_hex());
        string_of(&v)
    }

    fn from_hex(hex: String) -> (c: Rgb8)
        ensures
            c == Rgb8::spec_from_hex_bytes(vstd::utf8::encode_utf8(hex@)),
    {
        match hex_decode3(hex.as_str()) {
            Some(t) => Rgb8::from_rgb(t.0, t.1, t.2),
            None => Rgb8::from_rgb(255, 255, 255),
        }
    }
}

proof fn lemma_hex_digit(v: u8)
    requires
        v < 16,
    ensures
        '\0' <= hex_digit(v) <= '\u{7f}',
        hex_value(hex_digit(v) as u8) == Some(v),
{
}

/// Reading back the hex text of a colour gives the colour.
pub proof fn law_hex_round_trip(c: Rgb8)
    ensures
        Rgb8::spec_from_hex_bytes(vstd::utf8::encode_utf8(c.spec_hex())) == c,
{
    let h = c.spec_hex();
    let vals = seq![c.r / 16, c.r % 16, c.g / 16, c.g % 16, c.b / 16, c.b % 16];
    assert forall|i: int| 0 <= i < 6 implies h[i] == hex_digit(#[trigger] vals[i]) && vals[i]
        < 16 by {}
    assert forall|i: int| 0 <= i < 6 implies '\0' <= #[trigger] h[i] <= '\u{7f}' by {
        lemma_hex_digit(vals[i]);
    }
    assert(vstd::utf8::is_ascii_chars(h));
    vstd::utf8::is_ascii_chars_encode_utf8(h);
    let bytes = vstd::utf8::encode_utf8(h);
    assert forall|i: int| 0 <= i < 6 implies #[trigger] hex_value(bytes[i]) == Some(vals[i]) by {
        lemma_hex_digit(vals[i]);
        assert(h[i] as u8 == bytes[i]);
    }
    assert(hex_value(bytes[0]) == Some(c.r / 16));
    assert(hex_value(bytes[1]) == Some(c.r % 16));
    assert(hex_value(bytes[2]) == Some(c.g / 16));
    assert(hex_value(bytes[3]) == Some(c.g % 16));
    assert(hex_value(bytes[4]) == Some(c.b / 16));
    assert(hex_value(bytes[5]) == Some(c.b % 16));
}

} // verus!
