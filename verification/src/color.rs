//! Colors of the wire protocol: an opaque RGB triple, an RGBA quadruple, and
//! the tagged union over both, with their exact wire grammar.
//!
//! The grammar: exactly 6 lowercase hex digits parse as RGB, exactly 8 as
//! RGBA (the last two digits are the alpha channel); any other length is an
//! `UnexpectedInputLength` error and a non-hex digit is `InvalidHex`.
//! Serialization is the exact inverse, two lowercase hex digits per channel.

use vstd::prelude::*;
use vstd::string::StrSliceExecFns;

use crate::digits::byte_hex;
use crate::digits::hex_digit_value;
use crate::digits::is_hex_digit;
use crate::digits::lemma_hex_value_char;

verus! {

/// A color of three byte channels: red, green, blue.
#[derive(Copy, Clone, Eq, PartialEq, Structural, Debug)]
pub struct RgbColor {
    pub r: u8,
    pub g: u8,
    pub b: u8,
}

/// An [`RgbColor`] plus a byte alpha channel.
#[derive(Copy, Clone, Eq, PartialEq, Structural, Debug)]
pub struct RgbaColor {
    pub rgb: RgbColor,
    pub alpha: u8,
}

/// A wire-protocol color: RGB or RGBA.
#[derive(Copy, Clone, Eq, PartialEq, Structural, Debug)]
pub enum Color {
    Rgb(RgbColor),
    Rgba(RgbaColor),
}

/// Why a color failed to parse.
#[derive(Copy, Clone, Eq, PartialEq, Structural, Debug)]
pub enum ParseColorError {
    /// The input was neither 6 nor 8 characters long.
    UnexpectedInputLength { length: usize },
    /// A character was not a lowercase hexadecimal digit.
    InvalidHex,
}

/// The byte two hex digits stand for, or `None` if either is not a
/// lowercase hex digit.
pub open spec fn spec_hex_byte(c1: char, c2: char) -> Option<u8> {
    if is_hex_digit(c1) && is_hex_digit(c2) {
        Some((16 * hex_digit_value(c1) + hex_digit_value(c2)) as u8)
    } else {
        None
    }
}

/// What parsing an RGB color returns, for every input.
pub open spec fn spec_parse_rgb(s: Seq<char>) -> Result<RgbColor, ParseColorError> {
    if s.len() != 6 {
        Err(ParseColorError::UnexpectedInputLength { length: s.len() as usize })
    } else {
        match (spec_hex_byte(s[0], s[1]), spec_hex_byte(s[2], s[3]), spec_hex_byte(s[4], s[5])) {
            (Some(r), Some(g), Some(b)) => Ok(RgbColor { r, g, b }),
            _ => Err(ParseColorError::InvalidHex),
        }
    }
}

/// What parsing an RGBA color returns, for every input.
pub open spec fn spec_parse_rgba(s: Seq<char>) -> Result<RgbaColor, ParseColorError> {
    if s.len() != 8 {
        Err(ParseColorError::UnexpectedInputLength { length: s.len() as usize })
    } else {
        match (spec_parse_rgb(s.take(6)), spec_hex_byte(s[6], s[7])) {
            (Ok(rgb), Some(alpha)) => Ok(RgbaColor { rgb, alpha }),
            _ => Err(ParseColorError::InvalidHex),
        }
    }
}

/// What parsing a color returns: dispatch purely on length, 6 to RGB and 8
/// to RGBA.
pub open spec fn spec_parse_color(s: Seq<char>) -> Result<Color, ParseColorError> {
    if s.len() == 6 {
        match spec_parse_rgb(s) {
            Ok(rgb) => Ok(Color::Rgb(rgb)),
            Err(e) => Err(e),
        }
    } else if s.len() == 8 {
        match spec_parse_rgba(s) {
            Ok(rgba) => Ok(Color::Rgba(rgba)),
            Err(e) => Err(e),
        }
    } else {
        Err(ParseColorError::UnexpectedInputLength { length: s.len() as usize })
    }
}

/// Wire form of an RGB color: three channels, two lowercase hex digits each.
pub open spec fn rgb_wire(c: RgbColor) -> Seq<char> {
    byte_hex(c.r) + byte_hex(c.g) + byte_hex(c.b)
}

/// Wire form of an RGBA color: the RGB channels, then the alpha channel.
pub open spec fn rgba_wire(c: RgbaColor) -> Seq<char> {
    rgb_wire(c.rgb) + byte_hex(c.alpha)
}

/// Wire form of a color. The alpha channel, when present, is never dropped.
pub open spec fn color_wire(c: Color) -> Seq<char> {
    match c {
        Color::Rgb(rgb) => rgb_wire(rgb),
        Color::Rgba(rgba) => rgba_wire(rgba),
    }
}

/// The byte two hex digits stand for.
fn hex_byte(c1: char, c2: char) -> (r: Option<u8>)
    ensures
        r == spec_hex_byte(c1, c2),
{
    match (crate::digits::hex_digit_of_char(c1), crate::digits::hex_digit_of_char(c2)) {
        (Some(h), Some(l)) => Some(16 * h + l),
        _ => None,
    }
}

impl RgbColor {
    /// The RGB color with the given channels.
    pub fn new(r: u8, g: u8, b: u8) -> (c: RgbColor)
        ensures
            c == (RgbColor { r, g, b }),
    {
        RgbColor { r, g, b }
    }

    /// Parse exactly 6 lowercase hex digits as three channel bytes.
    pub fn parse(s: &str) -> (r: Result<RgbColor, ParseColorError>)
        ensures
            r == spec_parse_rgb(s@),
    {
        let n = s.unicode_len();
        if n != 6 {
            return Err(ParseColorError::UnexpectedInputLength { length: n });
        }
        match (
            hex_byte(s.get_char(0), s.get_char(1)),
            hex_byte(s.get_char(2), s.get_char(3)),
            hex_byte(s.get_char(4), s.get_char(5)),
        ) {
            (Some(r), Some(g), Some(b)) => Ok(RgbColor { r, g, b }),
            _ => Err(ParseColorError::InvalidHex),
        }
    }

    /// Wire form: the three channels concatenated, lowercase hex.
    pub fn wire_string(&self) -> (r: String)
        ensures
            r@ == rgb_wire(*self),
    {
        let mut s = String::new();
        crate::digits::append_byte_hex(&mut s, self.r);
        crate::digits::append_byte_hex(&mut s, self.g);
        crate::digits::append_byte_hex(&mut s, self.b);
        proof {
            assert(s@ =~= rgb_wire(*self));
        }
        s
    }
}

impl RgbaColor {
    /// The RGBA color with the given channels.
    pub fn new(rgb: RgbColor, alpha: u8) -> (c: RgbaColor)
        ensures
            c == (RgbaColor { rgb, alpha }),
    {
        RgbaColor { rgb, alpha }
    }

    /// Parse exactly 8 lowercase hex digits: 6 for the RGB channels, 2 for
    /// the alpha channel.
    pub fn parse(s: &str) -> (r: Result<RgbaColor, ParseColorError>)
        ensures
            r == spec_parse_rgba(s@),
    {
        let n = s.unicode_len();
        if n != 8 {
            return Err(ParseColorError::UnexpectedInputLength { length: n });
        }
        let head = s.substring_char(0, 6);
        proof {
            assert(head@ =~= s@.take(6));
        }
        match (RgbColor::parse(head), hex_byte(s.get_char(6), s.get_char(7))) {
            (Ok(rgb), Some(alpha)) => Ok(RgbaColor { rgb, alpha }),
            _ => Err(ParseColorError::InvalidHex),
        }
    }

    /// Wire form: the RGB channels, then the alpha channel.
    pub fn wire_string(&self) -> (r: String)
        ensures
            r@ == rgba_wire(*self),
    {
        let mut s = self.rgb.wire_string();
        crate::digits::append_byte_hex(&mut s, self.alpha);
        s
    }
}

impl Color {
    /// Parse a color, dispatching purely on length: 6 hex digits are RGB,
    /// 8 are RGBA, anything else is `UnexpectedInputLength`.
    pub fn parse(s: &str) -> (r: Result<Color, ParseColorError>)
        ensures
            r == spec_parse_color(s@),
    {
        let n = s.unicode_len();
        if n == 6 {
            match RgbColor::parse(s) {
                Ok(rgb) => Ok(Color::Rgb(rgb)),
                Err(e) => Err(e),
            }
        } else if n == 8 {
            match RgbaColor::parse(s) {
                Ok(rgba) => Ok(Color::Rgba(rgba)),
                Err(e) => Err(e),
            }
        } else {
            Err(ParseColorError::UnexpectedInputLength { length: n })
        }
    }

    /// Wire form of the color.
    pub fn wire_string(&self) -> (r: String)
        ensures
            r@ == color_wire(*self),
    {
        match self {
            Color::Rgb(rgb) => rgb.wire_string(),
            Color::Rgba(rgba) => rgba.wire_string(),
        }
    }
}

/// Reading a byte back from its two hex digits and printing it again gives
/// the same two digits.
proof fn lemma_hex_byte_round_trip(c1: char, c2: char)
    requires
        is_hex_digit(c1),
        is_hex_digit(c2),
    ensures
        spec_hex_byte(c1, c2) matches Some(v) && byte_hex(v) == seq![c1, c2],
{
    lemma_hex_value_char(c1);
    lemma_hex_value_char(c2);
    let a = hex_digit_value(c1);
    let b = hex_digit_value(c2);
    let v = (16 * a + b) as u8;
    assert(v / 16 == a && v % 16 == b) by (nonlinear_arith)
        requires a < 16 && b < 16 && v == 16 * a + b;
    assert(byte_hex(v) =~= seq![c1, c2]);
}

/// Round trip for the 6-digit grammar: formatting the parsed RGB color
/// gives back exactly the input.
pub proof fn lemma_rgb_round_trip(s: Seq<char>)
    requires
        s.len() == 6,
        forall|i: int| 0 <= i < s.len() ==> is_hex_digit(s[i]),
    ensures
        spec_parse_rgb(s) matches Ok(c) && rgb_wire(c) == s,
{
    lemma_hex_byte_round_trip(s[0], s[1]);
    lemma_hex_byte_round_trip(s[2], s[3]);
    lemma_hex_byte_round_trip(s[4], s[5]);
    let rgb = spec_parse_rgb(s)->Ok_0;
    assert(rgb_wire(rgb) =~= s);
}

/// Round trip for the 8-digit grammar: formatting the parsed RGBA color
/// gives back exactly the input.
pub proof fn lemma_rgba_round_trip(s: Seq<char>)
    requires
        s.len() == 8,
        forall|i: int| 0 <= i < s.len() ==> is_hex_digit(s[i]),
    ensures
        spec_parse_rgba(s) matches Ok(c) && rgba_wire(c) == s,
{
    let t = s.take(6);
    assert(forall|i: int| 0 <= i < 6 ==> t[i] == s[i]);
    lemma_rgb_round_trip(t);
    lemma_hex_byte_round_trip(s[6], s[7]);
    let rgba = spec_parse_rgba(s)->Ok_0;
    assert(rgba_wire(rgba) =~= t + seq![s[6], s[7]]);
    assert(t + seq![s[6], s[7]] =~= s);
}

/// Round trip: formatting the color parsed from any valid 6- or 8-digit
/// lowercase hex string gives back exactly that string.
pub proof fn lemma_color_round_trip(s: Seq<char>)
    requires
        s.len() == 6 || s.len() == 8,
        forall|i: int| 0 <= i < s.len() ==> is_hex_digit(s[i]),
    ensures
        spec_parse_color(s) matches Ok(c) && color_wire(c) == s,
{
    if s.len() == 8 {
        lemma_rgba_round_trip(s);
    } else {
        lemma_rgb_round_trip(s);
    }
}

/// Color parsing dispatches purely on length: 6 characters give RGB, 8 give
/// RGBA, and any other length fails with that length.
pub proof fn lemma_color_parse_dispatch(s: Seq<char>)
    requires
        s.len() <= usize::MAX,
    ensures
        s.len() == 6 ==> (spec_parse_color(s) matches Ok(c) ==> c is Rgb),
        s.len() == 8 ==> (spec_parse_color(s) matches Ok(c) ==> c is Rgba),
        s.len() != 6 && s.len() != 8 ==> spec_parse_color(s) == Err::<Color, ParseColorError>(
            ParseColorError::UnexpectedInputLength { length: s.len() as usize },
        ),
{
}

} // verus!
