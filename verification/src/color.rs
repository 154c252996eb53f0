//! Colors with 8-bit channels and their `#RRGGBB` / `#RRGGBBAA` renderings.
use crate::text::{
    decimal_seq, hex_pair_seq, push_char, push_decimal, push_hex_pair, push_str,
};
use vstd::prelude::*;
use vstd::string::*;
use vstd::utf8::{
    encode_utf8, encode_utf8_valid_utf8, is_ascii_chars, is_ascii_chars_encode_utf8, is_char_boundary,
    is_char_boundary_iff_not_is_continuation_byte,
};
use crate::text::hex_digit;

verus! {

/// Why a hexadecimal color text was refused.
#[derive(Debug, Clone, Copy, PartialEq, Eq, Structural)]
pub enum ParseHexError {
    InvalidSize,
    InvalidCharacter,
    InvalidRed,
    InvalidGreen,
    InvalidBlue,
    InvalidAlpha,
}

/// The message of a hexadecimal parse error.
pub open spec fn parse_hex_error_text(e: ParseHexError) -> Seq<char> {
    match e {
        ParseHexError::InvalidSize => "Invalid size"@,
        ParseHexError::InvalidCharacter => "Invalid character"@,
        ParseHexError::InvalidRed => "Invalid red component"@,
        ParseHexError::InvalidGreen => "Invalid green component"@,
        ParseHexError::InvalidBlue => "Invalid blue component"@,
        ParseHexError::InvalidAlpha => "Invalid alpha component"@,
    }
}

impl ParseHexError {
    /// The message of the error.
    pub fn message(&self) -> (m: &'static str)
        ensures
            m@ == parse_hex_error_text(*self),
    {
        match self {
            ParseHexError::InvalidSize => "Invalid size",
            ParseHexError::InvalidCharacter => "Invalid character",
            ParseHexError::InvalidRed => "Invalid red component",
            ParseHexError::InvalidGreen => "Invalid green component",
            ParseHexError::InvalidBlue => "Invalid blue component",
            ParseHexError::InvalidAlpha => "Invalid alpha component",
        }
    }
}

/// Rendering to, and parsing from, hexadecimal color text.
pub trait ToHex {
    fn to_hex(&self) -> String;

    fn parse_hex(hex: &str) -> Result<Self, ParseHexError> where Self: Sized;
}

/// A color with 8-bit red, green and blue channels.
#[derive(Debug, Clone, Copy, PartialEq, Eq, Hash, Structural)]
pub struct RgbColor24 {
    pub red: u8,
    pub green: u8,
    pub blue: u8,
}

/// A color with 8-bit channels and an 8-bit alpha.
#[derive(Debug, Clone, Copy, PartialEq, Eq, Hash, Structural)]
pub struct RgbaColor24 {
    pub color: RgbColor24,
    pub alpha: u8,
}

/// The value of a hexadecimal digit byte (`0-9`, `a-f`, `A-F`).
pub open spec fn hex_digit_value(b: u8) -> Option<u8> {
    if 48 <= b <= 57 {
        Some((b - 48) as u8)
    } else if 97 <= b <= 102 {
        Some((b - 87) as u8)
    } else if 65 <= b <= 70 {
        Some((b - 55) as u8)
    } else {
        None
    }
}

/// What `u8::from_str_radix(_, 16)` gives for a text of the two bytes `b0 b1`:
/// two hexadecimal digits, or a `+` sign followed by one digit.
pub open spec fn hex_pair_value(b0: u8, b1: u8) -> Option<u8> {
    if b0 == 43 {
        hex_digit_value(b1)
    } else {
        match (hex_digit_value(b0), hex_digit_value(b1)) {
            (Some(h), Some(l)) => Some((16 * h + l) as u8),
            _ => None,
        }
    }
}

/// The bytes that remain after every leading `#` is removed.
pub open spec fn trim_leading_hash(bytes: Seq<u8>) -> Seq<u8>
    decreases bytes.len(),
{
    if bytes.len() > 0 && bytes[0] == 35 {
        trim_leading_hash(bytes.drop_first())
    } else {
        bytes
    }
}

/// A text of `n` bytes can be cut into byte pairs without splitting a character,
/// or it does not have `n` bytes at all (then it is refused before any cut).
pub open spec fn pairs_on_char_boundaries(t: Seq<u8>, n: int) -> bool {
    t.len() != n || forall|i: int| 0 < i < n && i % 2 == 0 ==> is_char_boundary(t, i)
}

/// The color that a `#RRGGBB` text denotes, or why it is refused.
pub open spec fn parse_rgb_spec(bytes: Seq<u8>) -> Result<RgbColor24, ParseHexError> {
    let t = trim_leading_hash(bytes);
    if t.len() != 6 {
        Err(ParseHexError::InvalidSize)
    } else {
        match hex_pair_value(t[0], t[1]) {
            None => Err(ParseHexError::InvalidRed),
            Some(red) => match hex_pair_value(t[2], t[3]) {
                None => Err(ParseHexError::InvalidGreen),
                Some(green) => match hex_pair_value(t[4], t[5]) {
                    None => Err(ParseHexError::InvalidBlue),
                    Some(blue) => Ok(RgbColor24 { red, green, blue }),
                },
            },
        }
    }
}

/// The color that a `#RRGGBBAA` text denotes, or why it is refused.
/// The alpha pair is checked before the color pairs.
pub open spec fn parse_rgba_spec(bytes: Seq<u8>) -> Result<RgbaColor24, ParseHexError> {
    let t = trim_leading_hash(bytes);
    if t.len() != 8 {
        Err(ParseHexError::InvalidSize)
    } else {
        match hex_pair_value(t[6], t[7]) {
            None => Err(ParseHexError::InvalidAlpha),
            Some(alpha) => match hex_pair_value(t[0], t[1]) {
                None => Err(ParseHexError::InvalidRed),
                Some(red) => match hex_pair_value(t[2], t[3]) {
                    None => Err(ParseHexError::InvalidGreen),
                    Some(green) => match hex_pair_value(t[4], t[5]) {
                        None => Err(ParseHexError::InvalidBlue),
                        Some(blue) => Ok(RgbaColor24 { color: RgbColor24 { red, green, blue }, alpha }),
                    },
                },
            },
        }
    }
}

/// `#RRGGBB` with upper-case digits.
pub open spec fn rgb_hex_seq(c: RgbColor24) -> Seq<char> {
    seq!['#'] + hex_pair_seq(c.red) + hex_pair_seq(c.green) + hex_pair_seq(c.blue)
}

/// `#RRGGBBAA` with upper-case digits.
pub open spec fn rgba_hex_seq(c: RgbaColor24) -> Seq<char> {
    rgb_hex_seq(c.color) + hex_pair_seq(c.alpha)
}

fn hex_digit_value_exec(b: u8) -> (r: Option<u8>)
    ensures
        r == hex_digit_value(b),
{
    if 48 <= b && b <= 57 {
        Some(b - 48)
    } else if 97 <= b && b <= 102 {
        Some(b - 87)
    } else if 65 <= b && b <= 70 {
        Some(b - 55)
    } else {
        None
    }
}

fn hex_pair_value_exec(b0: u8, b1: u8) -> (r: Option<u8>)
    ensures
        r == hex_pair_value(b0, b1),
{
    if b0 == 43 {
        hex_digit_value_exec(b1)
    } else {
        match (hex_digit_value_exec(b0), hex_digit_value_exec(b1)) {
            (Some(h), Some(l)) => Some(16 * h + l),
            _ => None,
        }
    }
}

/// The index of the first byte that is not `#`.
fn skip_leading_hash(bytes: &[u8]) -> (start: usize)
    ensures
        start <= bytes@.len(),
        trim_leading_hash(bytes@) == bytes@.subrange(start as int, bytes@.len() as int),
{
    let mut start: usize = 0;
    assert(bytes@.subrange(0, bytes@.len() as int) =~= bytes@);
    while start < bytes.len() && bytes[start] == 35
        invariant
            start <= bytes@.len(),
            trim_leading_hash(bytes@) == trim_leading_hash(
                bytes@.subrange(start as int, bytes@.len() as int),
            ),
        decreases bytes@.len() - start,
    {
        let ghost rest = bytes@.subrange(start as int, bytes@.len() as int);
        assert(rest.drop_first() =~= bytes@.subrange(start + 1, bytes@.len() as int));
        start = start + 1;
    }
    let ghost rest = bytes@.subrange(start as int, bytes@.len() as int);
    assert(trim_leading_hash(rest) == rest);
    start
}

/// Parses `#RRGGBB` (any number of leading `#`, then exactly six bytes).
fn parse_rgb_hex(hex: &str) -> (r: Result<RgbColor24, ParseHexError>)
    ensures
        r == parse_rgb_spec(hex.spec_bytes()),
{
    let bytes = hex.as_bytes();
    let start = skip_leading_hash(bytes);
    if bytes.len() - start != 6 {
        return Err(ParseHexError::InvalidSize);
    }
    let red = match hex_pair_value_exec(bytes[start], bytes[start + 1]) {
        Some(v) => v,
        None => return Err(ParseHexError::InvalidRed),
    };
    let green = match hex_pair_value_exec(bytes[start + 2], bytes[start + 3]) {
        Some(v) => v,
        None => return Err(ParseHexError::InvalidGreen),
    };
    let blue = match hex_pair_value_exec(bytes[start + 4], bytes[start + 5]) {
        Some(v) => v,
        None => return Err(ParseHexError::InvalidBlue),
    };
    Ok(RgbColor24 { red, green, blue })
}

/// Parses `#RRGGBBAA` (any number of leading `#`, then exactly eight bytes).
fn parse_rgba_hex(hex: &str) -> (r: Result<RgbaColor24, ParseHexError>)
    ensures
        r == parse_rgba_spec(hex.spec_bytes()),
{
    let bytes = hex.as_bytes();
    let start = skip_leading_hash(bytes);
    if bytes.len() - start != 8 {
        return Err(ParseHexError::InvalidSize);
    }
    let alpha = match hex_pair_value_exec(bytes[start + 6], bytes[start + 7]) {
        Some(v) => v,
        None => return Err(ParseHexError::InvalidAlpha),
    };
    let red = match hex_pair_value_exec(bytes[start], bytes[start + 1]) {
        Some(v) => v,
        None => return Err(ParseHexError::InvalidRed),
    };
    let green = match hex_pair_value_exec(bytes[start + 2], bytes[start + 3]) {
        Some(v) => v,
        None => return Err(ParseHexError::InvalidGreen),
    };
    let blue = match hex_pair_value_exec(bytes[start + 4], bytes[start + 5]) {
        Some(v) => v,
        None => return Err(ParseHexError::InvalidBlue),
    };
    Ok(RgbaColor24 { color: RgbColor24 { red, green, blue }, alpha })
}

proof fn lemma_hex_digit_parses(d: int)
    requires
        0 <= d < 16,
    ensures
        (hex_digit(d) as u8) != 35,
        (hex_digit(d) as u8) != 43,
        '\0' <= hex_digit(d) <= '\u{7f}',
        hex_digit_value(hex_digit(d) as u8) == Some(d as u8),
{
}

proof fn lemma_hex_pair_parses(b: u8)
    ensures
        is_ascii_chars(hex_pair_seq(b)),
        hex_pair_value(hex_pair_seq(b)[0] as u8, hex_pair_seq(b)[1] as u8) == Some(b),
        hex_pair_seq(b)[0] as u8 != 35,
{
    lemma_hex_digit_parses((b / 16) as int);
    lemma_hex_digit_parses((b % 16) as int);
}

/// A character with ASCII capital letters made small.
pub open spec fn ascii_lower_char(c: char) -> char {
    if 'A' <= c && c <= 'Z' {
        ((c as int) + 32) as char
    } else {
        c
    }
}

/// A text with its ASCII capital letters made small (what `to_lowercase` does to
/// ASCII text).
pub open spec fn ascii_lowercase(s: Seq<char>) -> Seq<char> {
    s.map_values(|c: char| ascii_lower_char(c))
}

proof fn lemma_hex_digit_lower_parses(d: int)
    requires
        0 <= d < 16,
    ensures
        (ascii_lower_char(hex_digit(d)) as u8) != 35,
        '\0' <= ascii_lower_char(hex_digit(d)) <= '\u{7f}',
        hex_digit_value(ascii_lower_char(hex_digit(d)) as u8) == Some(d as u8),
{
}

/// The bytes of an ASCII text `#` followed by `n` characters that are not `#`: one
/// byte per character, the leading `#` trimmed, and every byte a character boundary.
proof fn lemma_hash_text_bytes(chars: Seq<char>, n: int)
    requires
        is_ascii_chars(chars),
        n >= 1,
        chars.len() == n + 1,
        chars[0] == '#',
        chars[1] != '#',
    ensures
        encode_utf8(chars).len() == n + 1,
        forall|i: int| 0 <= i <= n ==> #[trigger] encode_utf8(chars)[i] == chars[i] as u8,
        trim_leading_hash(encode_utf8(chars)) == encode_utf8(chars).drop_first(),
        pairs_on_char_boundaries(trim_leading_hash(encode_utf8(chars)), n),
{
    is_ascii_chars_encode_utf8(chars);
    let bytes = encode_utf8(chars);
    let rest = chars.drop_first();
    assert(is_ascii_chars(rest));
    is_ascii_chars_encode_utf8(rest);
    assert(bytes.drop_first() =~= encode_utf8(rest));
    encode_utf8_valid_utf8(rest);
    assert(bytes[1] != 35u8);
    assert(trim_leading_hash(bytes.drop_first()) == bytes.drop_first());
    let t = bytes.drop_first();
    assert forall|i: int| 0 < i < n && i % 2 == 0 implies is_char_boundary(t, i) by {
        is_char_boundary_iff_not_is_continuation_byte(t, i);
        assert(t[i] == rest[i] as u8);
    }
}

/// Rendering a color as `#RRGGBB` and parsing the text, as written or in lower case,
/// gives the color back; the pairs of the text fall on character boundaries, so
/// `parse_hex` returns that color.
pub proof fn lemma_rgb_hex_roundtrip(c: RgbColor24)
    ensures
        pairs_on_char_boundaries(trim_leading_hash(encode_utf8(rgb_hex_seq(c))), 6),
        parse_rgb_spec(encode_utf8(rgb_hex_seq(c))) == Ok::<RgbColor24, ParseHexError>(c),
        pairs_on_char_boundaries(trim_leading_hash(encode_utf8(ascii_lowercase(rgb_hex_seq(c)))), 6),
        parse_rgb_spec(encode_utf8(ascii_lowercase(rgb_hex_seq(c)))) == Ok::<RgbColor24, ParseHexError>(
            c,
        ),
{
    let chars = rgb_hex_seq(c);
    lemma_hex_pair_parses(c.red);
    lemma_hex_pair_parses(c.green);
    lemma_hex_pair_parses(c.blue);
    assert(is_ascii_chars(chars));
    lemma_hash_text_bytes(chars, 6);
    let lower = ascii_lowercase(chars);
    lemma_hex_digit_lower_parses((c.red / 16) as int);
    lemma_hex_digit_lower_parses((c.red % 16) as int);
    lemma_hex_digit_lower_parses((c.green / 16) as int);
    lemma_hex_digit_lower_parses((c.green % 16) as int);
    lemma_hex_digit_lower_parses((c.blue / 16) as int);
    lemma_hex_digit_lower_parses((c.blue % 16) as int);
    assert(lower.len() == 7);
    assert(lower[0] == '#');
    assert(lower[1] == ascii_lower_char(hex_digit((c.red / 16) as int)));
    assert(lower[2] == ascii_lower_char(hex_digit((c.red % 16) as int)));
    assert(lower[3] == ascii_lower_char(hex_digit((c.green / 16) as int)));
    assert(lower[4] == ascii_lower_char(hex_digit((c.green % 16) as int)));
    assert(lower[5] == ascii_lower_char(hex_digit((c.blue / 16) as int)));
    assert(lower[6] == ascii_lower_char(hex_digit((c.blue % 16) as int)));
    assert(is_ascii_chars(lower));
    lemma_hash_text_bytes(lower, 6);
    let lb = encode_utf8(lower);
    assert(hex_pair_value(lb[1], lb[2]) == Some(c.red));
    assert(hex_pair_value(lb[3], lb[4]) == Some(c.green));
    assert(hex_pair_value(lb[5], lb[6]) == Some(c.blue));
}

/// Rendering a color with alpha as `#RRGGBBAA` and parsing the text, as written or
/// in lower case, gives it back; the pairs of the text fall on character boundaries,
/// so `parse_hex` returns that color.
pub proof fn lemma_rgba_hex_roundtrip(c: RgbaColor24)
    ensures
        pairs_on_char_boundaries(trim_leading_hash(encode_utf8(rgba_hex_seq(c))), 8),
        parse_rgba_spec(encode_utf8(rgba_hex_seq(c))) == Ok::<RgbaColor24, ParseHexError>(c),
        pairs_on_char_boundaries(trim_leading_hash(encode_utf8(ascii_lowercase(rgba_hex_seq(c)))), 8),
        parse_rgba_spec(encode_utf8(ascii_lowercase(rgba_hex_seq(c)))) == Ok::<
            RgbaColor24,
            ParseHexError,
        >(c),
{
    let chars = rgba_hex_seq(c);
    let (r, g, b, a) = (c.color.red, c.color.green, c.color.blue, c.alpha);
    lemma_hex_pair_parses(r);
    lemma_hex_pair_parses(g);
    lemma_hex_pair_parses(b);
    lemma_hex_pair_parses(a);
    assert(is_ascii_chars(chars));
    lemma_hash_text_bytes(chars, 8);
    let lower = ascii_lowercase(chars);
    lemma_hex_digit_lower_parses((r / 16) as int);
    lemma_hex_digit_lower_parses((r % 16) as int);
    lemma_hex_digit_lower_parses((g / 16) as int);
    lemma_hex_digit_lower_parses((g % 16) as int);
    lemma_hex_digit_lower_parses((b / 16) as int);
    lemma_hex_digit_lower_parses((b % 16) as int);
    lemma_hex_digit_lower_parses((a / 16) as int);
    lemma_hex_digit_lower_parses((a % 16) as int);
    assert(lower.len() == 9);
    assert(lower[0] == '#');
    assert(lower[1] == ascii_lower_char(hex_digit((r / 16) as int)));
    assert(lower[2] == ascii_lower_char(hex_digit((r % 16) as int)));
    assert(lower[3] == ascii_lower_char(hex_digit((g / 16) as int)));
    assert(lower[4] == ascii_lower_char(hex_digit((g % 16) as int)));
    assert(lower[5] == ascii_lower_char(hex_digit((b / 16) as int)));
    assert(lower[6] == ascii_lower_char(hex_digit((b % 16) as int)));
    assert(lower[7] == ascii_lower_char(hex_digit((a / 16) as int)));
    assert(lower[8] == ascii_lower_char(hex_digit((a % 16) as int)));
    assert(is_ascii_chars(lower));
    lemma_hash_text_bytes(lower, 8);
    let lb = encode_utf8(lower);
    assert(hex_pair_value(lb[1], lb[2]) == Some(r));
    assert(hex_pair_value(lb[3], lb[4]) == Some(g));
    assert(hex_pair_value(lb[5], lb[6]) == Some(b));
    assert(hex_pair_value(lb[7], lb[8]) == Some(a));
}

impl RgbColor24 {
    /// Creates a color from its channels.
    pub fn new(red: u8, green: u8, blue: u8) -> (c: Self)
        ensures
            c == (RgbColor24 { red, green, blue }),
    {
        RgbColor24 { red, green, blue }
    }

    /// Creates a color from a `(red, green, blue)` triple.
    pub fn from_rgb(value: (u8, u8, u8)) -> (c: Self)
        ensures
            c == (RgbColor24 { red: value.0, green: value.1, blue: value.2 }),
    {
        Self::new(value.0, value.1, value.2)
    }

    /// Creates a color from a `(blue, green, red)` triple.
    pub fn from_bgr(value: (u8, u8, u8)) -> (c: Self)
        ensures
            c == (RgbColor24 { red: value.2, green: value.1, blue: value.0 }),
    {
        Self::new(value.2, value.1, value.0)
    }

    /// `RgbColor24(r=R, g=G, b=B)` with decimal channels.
    pub fn to_display_string(&self) -> (s: String)
        ensures
            s@ == "RgbColor24(r="@ + decimal_seq(self.red as nat) + ", g="@ + decimal_seq(
                self.green as nat,
            ) + ", b="@ + decimal_seq(self.blue as nat) + ")"@,
    {
        let mut s = String::new();
        push_str(&mut s, "RgbColor24(r=");
        push_decimal(&mut s, self.red as u64);
        push_str(&mut s, ", g=");
        push_decimal(&mut s, self.green as u64);
        push_str(&mut s, ", b=");
        push_decimal(&mut s, self.blue as u64);
        push_str(&mut s, ")");
        assert(s@ =~= "RgbColor24(r="@ + decimal_seq(self.red as nat) + ", g="@ + decimal_seq(
            self.green as nat,
        ) + ", b="@ + decimal_seq(self.blue as nat) + ")"@);
        s
    }
}

impl ToHex for RgbColor24 {
    /// `#RRGGBB` with upper-case digits.
    fn to_hex(&self) -> (s: String)
        ensures
            s@ == rgb_hex_seq(*self),
    {
        let mut s = String::new();
        push_char(&mut s, '#');
        push_hex_pair(&mut s, self.red);
        push_hex_pair(&mut s, self.green);
        push_hex_pair(&mut s, self.blue);
        assert(s@ =~= rgb_hex_seq(*self));
        s
    }

    /// Parses `#RRGGBB`; the text must not cut a character where the channels are split.
    fn parse_hex(hex: &str) -> (r: Result<Self, ParseHexError>)
        ensures
            pairs_on_char_boundaries(trim_leading_hash(hex.spec_bytes()), 6) ==> r
                == parse_rgb_spec(hex.spec_bytes()),
    {
        parse_rgb_hex(hex)
    }
}

impl RgbaColor24 {
    /// Creates a color with alpha.
    pub fn new(color: RgbColor24, alpha: u8) -> (c: Self)
        ensures
            c == (RgbaColor24 { color, alpha }),
    {
        RgbaColor24 { color, alpha }
    }

    /// `RgbaColor24(r=R, g=G, b=B, a=A)` with decimal channels.
    pub fn to_display_string(&self) -> (s: String)
        ensures
            s@ == "RgbaColor24(r="@ + decimal_seq(self.color.red as nat) + ", g="@
                + decimal_seq(self.color.green as nat) + ", b="@ + decimal_seq(
                self.color.blue as nat,
            ) + ", a="@ + decimal_seq(self.alpha as nat) + ")"@,
    {
        let mut s = String::new();
        push_str(&mut s, "RgbaColor24(r=");
        push_decimal(&mut s, self.color.red as u64);
        push_str(&mut s, ", g=");
        push_decimal(&mut s, self.color.green as u64);
        push_str(&mut s, ", b=");
        push_decimal(&mut s, self.color.blue as u64);
        push_str(&mut s, ", a=");
        push_decimal(&mut s, self.alpha as u64);
        push_str(&mut s, ")");
        assert(s@ =~= "RgbaColor24(r="@ + decimal_seq(self.color.red as nat) + ", g="@
            + decimal_seq(self.color.green as nat) + ", b="@ + decimal_seq(self.color.blue as nat)
            + ", a="@ + decimal_seq(self.alpha as nat) + ")"@);
        s
    }
}

impl ToHex for RgbaColor24 {
    /// `#RRGGBBAA` with upper-case digits.
    fn to_hex(&self) -> (s: String)
        ensures
            s@ == rgba_hex_seq(*self),
    {
        let mut s = String::new();
        push_char(&mut s, '#');
        push_hex_pair(&mut s, self.color.red);
        push_hex_pair(&mut s, self.color.green);
        push_hex_pair(&mut s, self.color.blue);
        push_hex_pair(&mut s, self.alpha);
        assert(s@ =~= rgba_hex_seq(*self));
        s
    }

    /// Parses `#RRGGBBAA`; the text must not cut a character where the channels are split.
    fn parse_hex(hex: &str) -> (r: Result<Self, ParseHexError>)
        ensures
            pairs_on_char_boundaries(trim_leading_hash(hex.spec_bytes()), 8) ==> r
                == parse_rgba_spec(hex.spec_bytes()),
    {
        parse_rgba_hex(hex)
    }
}

} // verus!
