//! Canvas coordinates and their two textual forms.
//!
//! The wire grammar is two unsigned decimal integers separated by exactly
//! one space, `"1337 42"`. A separate comma-separated form, `"1337, 42"`,
//! exists for human display only and must never be used on the wire; the two
//! formatters are deliberately kept distinct.

use vstd::prelude::*;
use vstd::string::StrSliceExecFns;
use vstd::string::StringExecFns;

use crate::digits::dec_rep;
use crate::digits::spec_parse_u32;
use crate::digits::parse_u32;
use crate::digits::u32_to_dec;
use crate::scan::find_first;
use crate::scan::find_first_char;

verus! {

/// A pixel position: two non-negative integers bounded by the protocol's
/// 32-bit range.
#[derive(Copy, Clone, Eq, PartialEq, Structural, Debug)]
pub struct Coordinates {
    pub x: u32,
    pub y: u32,
}

/// Why coordinates failed to parse.
#[derive(Copy, Clone, Eq, PartialEq, Structural, Debug)]
pub enum ParseCoordinatesError {
    /// No space separator was found.
    SyntaxError,
    /// A token was not an unsigned decimal integer in 32-bit range.
    InvalidInteger,
}

/// What parsing coordinates returns, for every input: split at the first
/// space, then both tokens must be unsigned decimal integers.
pub open spec fn spec_parse_coordinates(s: Seq<char>) -> Result<
    Coordinates,
    ParseCoordinatesError,
> {
    match find_first(s, ' ') {
        None => Err(ParseCoordinatesError::SyntaxError),
        Some(i) => match (spec_parse_u32(s.take(i)), spec_parse_u32(s.skip(i + 1))) {
            (Some(x), Some(y)) => Ok(Coordinates { x, y }),
            _ => Err(ParseCoordinatesError::InvalidInteger),
        },
    }
}

/// Wire form: the two decimal integers separated by one space. This is the
/// form commands embed.
pub open spec fn coordinates_wire(c: Coordinates) -> Seq<char> {
    dec_rep(c.x as int) + seq![' '] + dec_rep(c.y as int)
}

/// Display form: comma-separated, for humans only, never for the wire.
pub open spec fn coordinates_display(c: Coordinates) -> Seq<char> {
    dec_rep(c.x as int) + seq![',', ' '] + dec_rep(c.y as int)
}

impl Coordinates {
    /// The position with the given components.
    pub fn new(x: u32, y: u32) -> (c: Coordinates)
        ensures
            c == (Coordinates { x, y }),
    {
        Coordinates { x, y }
    }

    /// Parse the wire form: two unsigned decimal integers separated by one
    /// space.
    pub fn parse(s: &str) -> (r: Result<Coordinates, ParseCoordinatesError>)
        ensures
            r == spec_parse_coordinates(s@),
    {
        let i = match find_first_char(s, ' ') {
            None => {
                return Err(ParseCoordinatesError::SyntaxError);
            },
            Some(i) => i,
        };
        let n = s.unicode_len();
        let xs = s.substring_char(0, i);
        let ys = s.substring_char(i + 1, n);
        proof {
            assert(xs@ =~= s@.take(i as int));
            assert(ys@ =~= s@.skip(i + 1));
        }
        match (parse_u32(xs), parse_u32(ys)) {
            (Some(x), Some(y)) => Ok(Coordinates { x, y }),
            _ => Err(ParseCoordinatesError::InvalidInteger),
        }
    }

    /// The wire form, space-separated. Commands must use this one.
    pub fn wire_string(&self) -> (r: String)
        ensures
            r@ == coordinates_wire(*self),
    {
        let mut s = u32_to_dec(self.x);
        proof {
            reveal_strlit(" ");
        }
        s.append(" ");
        s.append(u32_to_dec(self.y).as_str());
        proof {
            assert(s@ =~= coordinates_wire(*self));
        }
        s
    }

    /// The display form, comma-separated, for humans; never valid on the
    /// wire.
    pub fn display_string(&self) -> (r: String)
        ensures
            r@ == coordinates_display(*self),
    {
        let mut s = u32_to_dec(self.x);
        proof {
            reveal_strlit(", ");
        }
        s.append(", ");
        s.append(u32_to_dec(self.y).as_str());
        proof {
            assert(s@ =~= coordinates_display(*self));
        }
        s
    }
}

} // verus!
