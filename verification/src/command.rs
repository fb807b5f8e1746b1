//! Wire-protocol commands: `SetPixel` and `GetCanvasSize`, with their exact
//! grammar.
//!
//! `SetPixel` is the literal prefix `"PX "` followed by the coordinates'
//! wire form and, after one more space, the color; the color is the last
//! space-delimited token. `GetCanvasSize` is the exact literal `"SIZE"`.
//! Dispatch: input starting with `"PX"` attempts a `SetPixel` parse, input
//! exactly `"SIZE"` is `GetCanvasSize`, anything else is `UnknownCommand`.

use vstd::prelude::*;
use vstd::string::StrSliceExecFns;
use vstd::string::StringExecFns;

use crate::color::Color;
use crate::color::color_wire;
use crate::color::spec_parse_color;
use crate::color::ParseColorError;
use crate::coordinates::Coordinates;
use crate::coordinates::coordinates_wire;
use crate::coordinates::spec_parse_coordinates;
use crate::coordinates::ParseCoordinatesError;
use crate::scan::find_last;
use crate::scan::find_last_char;

verus! {

/// Query the canvas size; no payload. Its wire form is the literal `"SIZE"`.
#[derive(Copy, Clone, Eq, PartialEq, Structural, Debug)]
pub struct GetCanvasSizeCommand;

/// Set one pixel to one color.
#[derive(Copy, Clone, Eq, PartialEq, Structural, Debug)]
pub struct SetPixelCommand {
    pub coordinates: Coordinates,
    pub color: Color,
}

/// A wire-protocol command.
#[derive(Copy, Clone, Eq, PartialEq, Structural, Debug)]
pub enum Command {
    GetCanvasSize(GetCanvasSizeCommand),
    SetPixel(SetPixelCommand),
}

/// Why a `SetPixel` command failed to parse.
#[derive(Copy, Clone, Eq, PartialEq, Structural, Debug)]
pub enum ParseSetPixelCommandError {
    /// The `"PX "` prefix or the color separator was missing.
    Syntax,
    /// The coordinate tokens were invalid.
    ParseCoordinatesError(ParseCoordinatesError),
    /// The color token was invalid.
    ParseColorError(ParseColorError),
}

/// Why a command failed to parse.
#[derive(Copy, Clone, Eq, PartialEq, Structural, Debug)]
pub enum ParseCommandError {
    /// Neither a `"PX"`-prefixed input nor the literal `"SIZE"`.
    UnknownCommand,
    /// A `"PX"`-prefixed input that is not a valid `SetPixel` command.
    ParseSetPixelCommand(ParseSetPixelCommandError),
}

/// The `SetPixel` prefix: `'P'`, `'X'`, one space.
pub open spec fn set_pixel_prefix() -> Seq<char> {
    seq!['P', 'X', ' ']
}

/// The `GetCanvasSize` literal.
pub open spec fn size_literal() -> Seq<char> {
    seq!['S', 'I', 'Z', 'E']
}

/// What parsing a `SetPixel` command returns, for every input: the `"PX "`
/// prefix, then coordinates up to the last space, then the color.
pub open spec fn spec_parse_set_pixel(s: Seq<char>) -> Result<
    SetPixelCommand,
    ParseSetPixelCommandError,
> {
    if s.len() < 3 || s.take(3) != set_pixel_prefix() {
        Err(ParseSetPixelCommandError::Syntax)
    } else {
        let rest = s.skip(3);
        match find_last(rest, ' ') {
            None => Err(ParseSetPixelCommandError::Syntax),
            Some(i) => match spec_parse_coordinates(rest.take(i)) {
                Err(e) => Err(ParseSetPixelCommandError::ParseCoordinatesError(e)),
                Ok(coordinates) => match spec_parse_color(rest.skip(i + 1)) {
                    Err(e) => Err(ParseSetPixelCommandError::ParseColorError(e)),
                    Ok(color) => Ok(SetPixelCommand { coordinates, color }),
                },
            },
        }
    }
}

/// What parsing a command returns, for every input: dispatch on the `"PX"`
/// prefix and the `"SIZE"` literal.
pub open spec fn spec_parse_command(s: Seq<char>) -> Result<Command, ParseCommandError> {
    if s.len() >= 2 && s[0] == 'P' && s[1] == 'X' {
        match spec_parse_set_pixel(s) {
            Ok(c) => Ok(Command::SetPixel(c)),
            Err(e) => Err(ParseCommandError::ParseSetPixelCommand(e)),
        }
    } else if s == size_literal() {
        Ok(Command::GetCanvasSize(GetCanvasSizeCommand))
    } else {
        Err(ParseCommandError::UnknownCommand)
    }
}

/// Wire form of a `SetPixel` command: `"PX "`, the space-separated
/// coordinates, one space, the color.
pub open spec fn set_pixel_wire(c: SetPixelCommand) -> Seq<char> {
    set_pixel_prefix() + coordinates_wire(c.coordinates) + seq![' '] + color_wire(c.color)
}

/// Wire form of a command.
pub open spec fn command_wire(c: Command) -> Seq<char> {
    match c {
        Command::GetCanvasSize(_) => size_literal(),
        Command::SetPixel(sp) => set_pixel_wire(sp),
    }
}

impl GetCanvasSizeCommand {
    /// Wire form: the literal `"SIZE"`.
    pub fn wire_string(&self) -> (r: String)
        ensures
            r@ == size_literal(),
    {
        proof {
            reveal_strlit("SIZE");
            assert("SIZE"@ =~= size_literal());
        }
        String::from_str("SIZE")
    }
}

impl SetPixelCommand {
    /// The command that sets the pixel at `coordinates` to `color`.
    pub fn new(coordinates: Coordinates, color: Color) -> (c: SetPixelCommand)
        ensures
            c == (SetPixelCommand { coordinates, color }),
    {
        SetPixelCommand { coordinates, color }
    }

    /// Parse a `SetPixel` command: the `"PX "` prefix, coordinates, and the
    /// color as the last space-delimited token.
    pub fn parse(s: &str) -> (r: Result<SetPixelCommand, ParseSetPixelCommandError>)
        ensures
            r == spec_parse_set_pixel(s@),
    {
        let n = s.unicode_len();
        if n < 3 {
            return Err(ParseSetPixelCommandError::Syntax);
        }
        if !(s.get_char(0) == 'P' && s.get_char(1) == 'X' && s.get_char(2) == ' ') {
            proof {
                assert(s@.take(3) != set_pixel_prefix());
            }
            return Err(ParseSetPixelCommandError::Syntax);
        }
        proof {
            assert(s@.take(3) =~= set_pixel_prefix());
        }
        let rest = s.substring_char(3, n);
        proof {
            assert(rest@ =~= s@.skip(3));
        }
        let i = match find_last_char(rest, ' ') {
            None => {
                return Err(ParseSetPixelCommandError::Syntax);
            },
            Some(i) => i,
        };
        let coordinate_part = rest.substring_char(0, i);
        let color_part = rest.substring_char(i + 1, n - 3);
        proof {
            assert(coordinate_part@ =~= rest@.take(i as int));
            assert(color_part@ =~= rest@.skip(i + 1));
        }
        let coordinates = match Coordinates::parse(coordinate_part) {
            Err(e) => {
                return Err(ParseSetPixelCommandError::ParseCoordinatesError(e));
            },
            Ok(c) => c,
        };
        let color = match Color::parse(color_part) {
            Err(e) => {
                return Err(ParseSetPixelCommandError::ParseColorError(e));
            },
            Ok(c) => c,
        };
        Ok(SetPixelCommand { coordinates, color })
    }

    /// Wire form: `"PX {x} {y} {color}"`, with the space-separated wire form
    /// of the coordinates, never the comma display form.
    pub fn wire_string(&self) -> (r: String)
        ensures
            r@ == set_pixel_wire(*self),
    {
        proof {
            reveal_strlit("PX ");
            reveal_strlit(" ");
        }
        let mut s = String::from_str("PX ");
        s.append(self.coordinates.wire_string().as_str());
        s.append(" ");
        s.append(self.color.wire_string().as_str());
        proof {
            assert(s@ =~= set_pixel_wire(*self));
        }
        s
    }
}

impl Command {
    /// Parse a command: a `"PX"`-prefixed input must be a `SetPixel`
    /// command, the exact literal `"SIZE"` is `GetCanvasSize`, and anything
    /// else is `UnknownCommand`.
    pub fn parse(s: &str) -> (r: Result<Command, ParseCommandError>)
        ensures
            r == spec_parse_command(s@),
    {
        let n = s.unicode_len();
        if n >= 2 && s.get_char(0) == 'P' && s.get_char(1) == 'X' {
            match SetPixelCommand::parse(s) {
                Ok(c) => Ok(Command::SetPixel(c)),
                Err(e) => Err(ParseCommandError::ParseSetPixelCommand(e)),
            }
        } else if n == 4 && s.get_char(0) == 'S' && s.get_char(1) == 'I' && s.get_char(2) == 'Z'
            && s.get_char(3) == 'E' {
            proof {
                assert(s@ =~= size_literal());
            }
            Ok(Command::GetCanvasSize(GetCanvasSizeCommand))
        } else {
            proof {
                assert(s@ != size_literal());
            }
            Err(ParseCommandError::UnknownCommand)
        }
    }

    /// Wire form of the command.
    pub fn wire_string(&self) -> (r: String)
        ensures
            r@ == command_wire(*self),
    {
        match self {
            Command::GetCanvasSize(c) => c.wire_string(),
            Command::SetPixel(c) => c.wire_string(),
        }
    }
}

} // verus!
