//! RGB color values with `#rrggbb` parsing and formatting and pure
//! lighten/darken transforms.
//!
//! Channels are 8-bit values. Transform amounts are given in thousandths
//! (0 ..= 1000), standing for the unit interval: an amount of 0 leaves the
//! color unchanged, 1000 drives it fully toward white (lighten) or black
//! (darken). Each transformed channel is the linear interpolation
//! `c + (255 - c) * amount / 1000` (lighten) or `c * (1000 - amount) / 1000`
//! (darken), rounded to the nearest 8-bit value; results always stay within
//! the 8-bit channel range.
use crate::strutil::{append_dec, dec_digit, dec_digit_char, push_char, spec_dec};
use vstd::prelude::*;

verus! {

/// Error returned when a hex color string is malformed.
#[derive(Debug, Clone, Copy, PartialEq, Eq, Structural)]
pub enum ColorError {
    InvalidHex,
}

/// An RGB color with 8-bit channels.
#[derive(Debug, Clone, Copy, PartialEq, Eq, Structural)]
pub struct Color {
    pub red: u8,
    pub green: u8,
    pub blue: u8,
}

pub open spec fn is_hex_digit(c: char) -> bool {
    ('0' <= c && c <= '9') || ('a' <= c && c <= 'f') || ('A' <= c && c <= 'F')
}

/// The numeric value of a hex digit.
pub open spec fn hex_val(c: char) -> int {
    if '0' <= c && c <= '9' {
        c as int - '0' as int
    } else if 'a' <= c && c <= 'f' {
        10 + c as int - 'a' as int
    } else {
        10 + c as int - 'A' as int
    }
}

/// A well-formed color string: exactly 7 characters, `#` then 6 hex digits.
pub open spec fn valid_hex(s: Seq<char>) -> bool {
    s.len() == 7 && s[0] == '#' && forall|i: int| 1 <= i < 7 ==> is_hex_digit(#[trigger] s[i])
}

/// The byte encoded by the two hex digits at positions `i`, `i + 1`.
pub open spec fn byte_at(s: Seq<char>, i: int) -> u8 {
    (16 * hex_val(s[i]) + hex_val(s[i + 1])) as u8
}

/// The color a hex string denotes, if it is well formed.
pub open spec fn spec_from_hex(s: Seq<char>) -> Option<Color> {
    if valid_hex(s) {
        Some(Color { red: byte_at(s, 1), green: byte_at(s, 3), blue: byte_at(s, 5) })
    } else {
        None
    }
}

/// The lower-case hex digit for a value below 16.
pub open spec fn hex_digit_char(v: int) -> char {
    if v == 0 {
        '0'
    } else if v == 1 {
        '1'
    } else if v == 2 {
        '2'
    } else if v == 3 {
        '3'
    } else if v == 4 {
        '4'
    } else if v == 5 {
        '5'
    } else if v == 6 {
        '6'
    } else if v == 7 {
        '7'
    } else if v == 8 {
        '8'
    } else if v == 9 {
        '9'
    } else if v == 10 {
        'a'
    } else if v == 11 {
        'b'
    } else if v == 12 {
        'c'
    } else if v == 13 {
        'd'
    } else if v == 14 {
        'e'
    } else {
        'f'
    }
}

/// The two lower-case hex digits of a byte.
pub open spec fn hex_pair(b: u8) -> Seq<char> {
    seq![hex_digit_char(b as int / 16), hex_digit_char(b as int % 16)]
}

/// The `#rrggbb` form of a color, lower-case.
pub open spec fn spec_to_hex(c: Color) -> Seq<char> {
    seq!['#'] + hex_pair(c.red) + hex_pair(c.green) + hex_pair(c.blue)
}

/// A channel lightened by `amount` thousandths toward 255, rounded to nearest.
pub open spec fn lighten_channel(c: u8, amount: int) -> u8 {
    (((c as int) * 1000 + (255 - c as int) * amount + 500) / 1000) as u8
}

/// A channel darkened by `amount` thousandths toward 0, rounded to nearest.
pub open spec fn darken_channel(c: u8, amount: int) -> u8 {
    (((c as int) * (1000 - amount) + 500) / 1000) as u8
}

/// `rgba(r, g, b, a.aa)` with the alpha in hundredths, two decimal places.
pub open spec fn spec_to_rgba(c: Color, h: int) -> Seq<char> {
    "rgba("@ + spec_dec(c.red as int) + ", "@ + spec_dec(c.green as int) + ", "@ + spec_dec(
        c.blue as int,
    ) + ", "@ + spec_dec(h / 100) + seq!['.', dec_digit_char(h % 100 / 10), dec_digit_char(
        h % 100 % 10,
    ), ')']
}

pub open spec fn spec_lighten(c: Color, amount: int) -> Color {
    Color {
        red: lighten_channel(c.red, amount),
        green: lighten_channel(c.green, amount),
        blue: lighten_channel(c.blue, amount),
    }
}

pub open spec fn spec_darken(c: Color, amount: int) -> Color {
    Color {
        red: darken_channel(c.red, amount),
        green: darken_channel(c.green, amount),
        blue: darken_channel(c.blue, amount),
    }
}

/// The value of a hex digit character, or `None` if it is not one.
fn hex_digit_value(c: char) -> (r: Option<u8>)
    ensures
        match r {
            Some(v) => is_hex_digit(c) && v == hex_val(c) && v < 16,
            None => !is_hex_digit(c),
        },
{
    if '0' <= c && c <= '9' {
        Some(((c as u32) - ('0' as u32)) as u8)
    } else if 'a' <= c && c <= 'f' {
        Some((10 + (c as u32) - ('a' as u32)) as u8)
    } else if 'A' <= c && c <= 'F' {
        Some((10 + (c as u32) - ('A' as u32)) as u8)
    } else {
        None
    }
}

/// The lower-case hex digit character for a value below 16.
fn hex_digit(v: u8) -> (c: char)
    requires
        v < 16,
    ensures
        c == hex_digit_char(v as int),
{
    if v == 0 {
        '0'
    } else if v == 1 {
        '1'
    } else if v == 2 {
        '2'
    } else if v == 3 {
        '3'
    } else if v == 4 {
        '4'
    } else if v == 5 {
        '5'
    } else if v == 6 {
        '6'
    } else if v == 7 {
        '7'
    } else if v == 8 {
        '8'
    } else if v == 9 {
        '9'
    } else if v == 10 {
        'a'
    } else if v == 11 {
        'b'
    } else if v == 12 {
        'c'
    } else if v == 13 {
        'd'
    } else if v == 14 {
        'e'
    } else {
        'f'
    }
}

impl Color {
    pub fn new(red: u8, green: u8, blue: u8) -> (c: Color)
        ensures
            c == (Color { red, green, blue }),
    {
        Color { red, green, blue }
    }

    /// Parses `#rrggbb`; any other shape (wrong length, missing `#`, a
    /// non-hex digit) is `InvalidHex`.
    pub fn from_hex(hex: &str) -> (r: Result<Color, ColorError>)
        ensures
            r is Ok <==> valid_hex(hex@),
            r is Ok ==> Some(r->Ok_0) == spec_from_hex(hex@),
            r is Err ==> r->Err_0 == ColorError::InvalidHex,
    {
        if hex.unicode_len() != 7 {
            return Err(ColorError::InvalidHex);
        }
        if hex.get_char(0) != '#' {
            return Err(ColorError::InvalidHex);
        }
        let d1 = hex_digit_value(hex.get_char(1));
        let d2 = hex_digit_value(hex.get_char(2));
        let d3 = hex_digit_value(hex.get_char(3));
        let d4 = hex_digit_value(hex.get_char(4));
        let d5 = hex_digit_value(hex.get_char(5));
        let d6 = hex_digit_value(hex.get_char(6));
        match (d1, d2, d3, d4, d5, d6) {
            (Some(v1), Some(v2), Some(v3), Some(v4), Some(v5), Some(v6)) => {
                let c = Color { red: 16 * v1 + v2, green: 16 * v3 + v4, blue: 16 * v5 + v6 };
                assert(valid_hex(hex@));
                assert(c.red == byte_at(hex@, 1) && c.green == byte_at(hex@, 3) && c.blue
                    == byte_at(hex@, 5));
                Ok(c)
            },
            _ => Err(ColorError::InvalidHex),
        }
    }

    /// Formats the color as lower-case `#rrggbb`.
    pub fn to_hex(&self) -> (r: String)
        ensures
            r@ == spec_to_hex(*self),
            valid_hex(r@),
    {
        let mut s = String::new();
        push_char(&mut s, '#');
        append_hex_pair(&mut s, self.red);
        append_hex_pair(&mut s, self.green);
        append_hex_pair(&mut s, self.blue);
        assert(s@ =~= spec_to_hex(*self));
        proof {
            lemma_to_hex_valid(*self);
        }
        s
    }

    /// Lightens toward white by `amount` thousandths of the unit interval.
    pub fn lighten(self, amount: u16) -> (r: Color)
        requires
            amount <= 1000,
        ensures
            r == spec_lighten(self, amount as int),
    {
        Color {
            red: lighten_ch(self.red, amount),
            green: lighten_ch(self.green, amount),
            blue: lighten_ch(self.blue, amount),
        }
    }

    /// Formats `rgba(r, g, b, a.aa)` with the alpha given in hundredths,
    /// printed with exactly two decimal places.
    pub fn to_rgba(&self, alpha_hundredths: u16) -> (r: String)
        ensures
            r@ == spec_to_rgba(*self, alpha_hundredths as int),
    {
        let h = alpha_hundredths;
        let mut s = String::new();
        s.append("rgba(");
        append_dec(&mut s, self.red as u64);
        s.append(", ");
        append_dec(&mut s, self.green as u64);
        s.append(", ");
        append_dec(&mut s, self.blue as u64);
        s.append(", ");
        append_dec(&mut s, (h / 100) as u64);
        push_char(&mut s, '.');
        push_char(&mut s, dec_digit((h % 100 / 10) as u64));
        push_char(&mut s, dec_digit((h % 100 % 10) as u64));
        push_char(&mut s, ')');
        assert(s@ =~= spec_to_rgba(*self, h as int));
        s
    }

    /// Darkens toward black by `amount` thousandths of the unit interval.
    pub fn darken(self, amount: u16) -> (r: Color)
        requires
            amount <= 1000,
        ensures
            r == spec_darken(self, amount as int),
    {
        Color {
            red: darken_ch(self.red, amount),
            green: darken_ch(self.green, amount),
            blue: darken_ch(self.blue, amount),
        }
    }
}

/// The natural lower-case hex form of a byte: one digit below 16, else two.
pub open spec fn spec_byte_hex(b: u8) -> Seq<char> {
    if b < 16 {
        seq![hex_digit_char(b as int)]
    } else {
        hex_pair(b)
    }
}

/// Formats a byte as lower-case hex without padding, as the `hex` template
/// helper prints it.
pub fn byte_hex(b: u8) -> (r: String)
    ensures
        r@ == spec_byte_hex(b),
{
    let mut s = String::new();
    if b < 16 {
        push_char(&mut s, hex_digit(b));
    } else {
        append_hex_pair(&mut s, b);
    }
    assert(s@ =~= spec_byte_hex(b));
    s
}

fn append_hex_pair(s: &mut String, b: u8)
    ensures
        final(s)@ == old(s)@ + hex_pair(b),
{
    let hi = b / 16;
    let lo = b % 16;
    push_char(s, hex_digit(hi));
    push_char(s, hex_digit(lo));
    assert(s@ =~= old(s)@ + hex_pair(b));
}

fn lighten_ch(c: u8, amount: u16) -> (r: u8)
    requires
        amount <= 1000,
    ensures
        r == lighten_channel(c, amount as int),
{
    proof {
        assert((255 - c as int) * (amount as int) <= (255 - c as int) * 1000) by (nonlinear_arith)
            requires
                0 <= 255 - c as int,
                0 <= amount as int <= 1000,
        ;
        assert((c as int) * 1000 + (255 - c as int) * 1000 == 255 * 1000) by (nonlinear_arith);
    }
    let num: u32 = (c as u32) * 1000 + (255 - (c as u32)) * (amount as u32) + 500;
    assert(num as int / 1000 <= 255);
    (num / 1000) as u8
}

fn darken_ch(c: u8, amount: u16) -> (r: u8)
    requires
        amount <= 1000,
    ensures
        r == darken_channel(c, amount as int),
{
    proof {
        assert(0 <= (c as int) * (1000 - amount as int) <= 255 * 1000) by (nonlinear_arith)
            requires
                0 <= c as int <= 255,
                0 <= 1000 - amount as int <= 1000,
        ;
    }
    let num: u32 = (c as u32) * (1000 - (amount as u32)) + 500;
    assert(num as int / 1000 <= 255);
    (num / 1000) as u8
}

/// A formatted hex string is itself well formed.
proof fn lemma_to_hex_valid(c: Color)
    ensures
        valid_hex(spec_to_hex(c)),
{
    let s = spec_to_hex(c);
    assert(s.len() == 7);
    assert(s[0] == '#');
    assert forall|i: int| 1 <= i < 7 implies is_hex_digit(#[trigger] s[i]) by {
        assert(0 <= c.red as int / 16 < 16 && 0 <= c.red as int % 16 < 16);
        assert(0 <= c.green as int / 16 < 16 && 0 <= c.green as int % 16 < 16);
        assert(0 <= c.blue as int / 16 < 16 && 0 <= c.blue as int % 16 < 16);
    }
}

/// Round trip: re-encoding a parsed color and parsing it again gives the
/// same color, for every well-formed hex string.
pub proof fn lemma_hex_round_trip(s: Seq<char>)
    requires
        valid_hex(s),
    ensures
        spec_from_hex(s) is Some,
        spec_from_hex(spec_to_hex(spec_from_hex(s)->Some_0)) == spec_from_hex(s),
{
    let c = spec_from_hex(s)->Some_0;
    lemma_to_hex_valid(c);
    let t = spec_to_hex(c);
    lemma_byte_hex_pair(c.red);
    lemma_byte_hex_pair(c.green);
    lemma_byte_hex_pair(c.blue);
    assert(t[1] == hex_pair(c.red)[0] && t[2] == hex_pair(c.red)[1]);
    assert(t[3] == hex_pair(c.green)[0] && t[4] == hex_pair(c.green)[1]);
    assert(t[5] == hex_pair(c.blue)[0] && t[6] == hex_pair(c.blue)[1]);
    assert(byte_at(t, 1) == c.red);
    assert(byte_at(t, 3) == c.green);
    assert(byte_at(t, 5) == c.blue);
    assert(spec_from_hex(t)->Some_0 == c);
}

/// The hex pair of a byte decodes back to that byte.
proof fn lemma_byte_hex_pair(b: u8)
    ensures
        hex_val(hex_pair(b)[0]) == b as int / 16,
        hex_val(hex_pair(b)[1]) == b as int % 16,
        16 * (b as int / 16) + b as int % 16 == b as int,
{
    assert(0 <= b as int / 16 < 16);
    assert(0 <= b as int % 16 < 16);
    assert(16 * (b as int / 16) + b as int % 16 == b as int) by (nonlinear_arith);
}

/// Identity and extremes of the transforms: amount 0 changes nothing;
/// the full amount drives every channel to white (lighten) or black
/// (darken). Channels are 8-bit, so results are always within range.
pub proof fn lemma_transform_identity_extremes(c: Color)
    ensures
        spec_lighten(c, 0) == c,
        spec_darken(c, 0) == c,
        spec_lighten(c, 1000) == (Color { red: 255, green: 255, blue: 255 }),
        spec_darken(c, 1000) == (Color { red: 0, green: 0, blue: 0 }),
{
    lemma_channel_identity_extremes(c.red);
    lemma_channel_identity_extremes(c.green);
    lemma_channel_identity_extremes(c.blue);
}

proof fn lemma_channel_identity_extremes(c: u8)
    ensures
        lighten_channel(c, 0) == c,
        darken_channel(c, 0) == c,
        lighten_channel(c, 1000) == 255,
        darken_channel(c, 1000) == 0,
{
    vstd::arithmetic::div_mod::lemma_div_multiples_vanish_fancy(c as int, 500, 1000);
    assert(1000 * (c as int) == (c as int) * 1000) by (nonlinear_arith);
    assert((255 - c as int) * 0 == 0) by (nonlinear_arith);
    assert((c as int) * 1000 + (255 - c as int) * 1000 + 500 == 255 * 1000 + 500)
        by (nonlinear_arith);
    assert((255 * 1000 + 500) / 1000 == 255);
    assert((c as int) * (1000 - 1000) + 500 == 500) by (nonlinear_arith);
    assert(500int / 1000 == 0);
}

} // verus!
