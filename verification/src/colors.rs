//! Colors for log headers: a closed set of named ANSI colors plus an
//! arbitrary custom escape sequence, and the text-wrapping codec over them.

use vstd::prelude::*;
use vstd::string::*;

verus! {

/// A color used to style log header text.
///
/// `Plain` renders as a no-op; every named color stands for a fixed ANSI
/// escape sequence; `Custom` carries an arbitrary escape sequence verbatim.
#[derive(PartialEq, Eq, Hash, Debug)]
pub enum Color {
    Plain,
    Black,
    Blue,
    Cyan,
    Green,
    Gray,
    Magenta,
    Red,
    White,
    Yellow,
    Custom(String),
}

impl Clone for Color {
    fn clone(&self) -> (r: Color)
        ensures
            r == *self,
    {
        match self {
            Color::Plain => Color::Plain,
            Color::Black => Color::Black,
            Color::Blue => Color::Blue,
            Color::Cyan => Color::Cyan,
            Color::Green => Color::Green,
            Color::Gray => Color::Gray,
            Color::Magenta => Color::Magenta,
            Color::Red => Color::Red,
            Color::White => Color::White,
            Color::Yellow => Color::Yellow,
            Color::Custom(s) => Color::Custom(s.clone()),
        }
    }
}

impl Default for Color {
    fn default() -> (r: Color)
        ensures
            r == Color::Blue,
    {
        Color::Blue
    }
}

/// The ANSI reset sequence appended after every colored text.
pub open spec fn reset_code() -> Seq<char> {
    "\x1b[0m"@
}

/// The escape sequence a color stands for: empty for `Plain`, the fixed ANSI
/// code for a named color, and the carried string for `Custom`.
pub open spec fn color_code_spec(c: Color) -> Seq<char> {
    match c {
        Color::Plain => Seq::<char>::empty(),
        Color::Black => "\x1b[30m"@,
        Color::Blue => "\x1b[34m"@,
        Color::Cyan => "\x1b[36m"@,
        Color::Green => "\x1b[32m"@,
        Color::Gray => "\x1b[90m"@,
        Color::Magenta => "\x1b[35m"@,
        Color::Red => "\x1b[31m"@,
        Color::White => "\x1b[37m"@,
        Color::Yellow => "\x1b[33m"@,
        Color::Custom(s) => s@,
    }
}

/// How text is wrapped in a color: unchanged for `Plain` (no trailing reset
/// code), and `code + text + reset` for every other color.
pub open spec fn wrap_spec(text: Seq<char>, c: Color) -> Seq<char> {
    match c {
        Color::Plain => text,
        _ => color_code_spec(c) + text + reset_code(),
    }
}

/// Law: wrapping text in any color other than `Plain` yields exactly the
/// color's escape code, the text, and the reset code, in that order; wrapping
/// in `Plain` returns the text unchanged, with no trailing reset code.
pub proof fn lemma_color_wrap_round_trip(text: Seq<char>, c: Color)
    ensures
        !(c matches Color::Plain) ==> wrap_spec(text, c) == color_code_spec(c) + text + reset_code(),
        wrap_spec(text, Color::Plain) == text,
{
}

impl Color {
    /// The named color of the given table index, for indices 0 through 9;
    /// index 10 yields an empty custom color.
    pub fn try_from(value: i32) -> (r: Result<Color, &'static str>)
        ensures
            r is Ok <==> 0 <= value <= 10,
            0 <= value <= 9 ==> (r matches Ok(c) && c == color_of_index(value)),
            value == 10 ==> (r matches Ok(c) && c matches Color::Custom(s) && s@ == Seq::<char>::empty()),
    {
        match value {
            0 => Ok(Color::Plain),
            1 => Ok(Color::Black),
            2 => Ok(Color::Blue),
            3 => Ok(Color::Cyan),
            4 => Ok(Color::Green),
            5 => Ok(Color::Gray),
            6 => Ok(Color::Magenta),
            7 => Ok(Color::Red),
            8 => Ok(Color::White),
            9 => Ok(Color::Yellow),
            10 => Ok(Color::Custom(String::new())),
            _ => Err("Invalid value! Please provide a value in range 0-10."),
        }
    }
}

/// The named color each table index from 0 through 9 stands for.
pub open spec fn color_of_index(value: i32) -> Color
    recommends
        0 <= value <= 9,
{
    if value == 0 {
        Color::Plain
    } else if value == 1 {
        Color::Black
    } else if value == 2 {
        Color::Blue
    } else if value == 3 {
        Color::Cyan
    } else if value == 4 {
        Color::Green
    } else if value == 5 {
        Color::Gray
    } else if value == 6 {
        Color::Magenta
    } else if value == 7 {
        Color::Red
    } else if value == 8 {
        Color::White
    } else {
        Color::Yellow
    }
}

/// The escape sequence of a color, as an owned string.
pub fn get_color_code(color: &Color) -> (r: String)
    ensures
        r@ == color_code_spec(*color),
{
    match color {
        Color::Plain => String::new(),
        Color::Black => String::from_str("\x1b[30m"),
        Color::Blue => String::from_str("\x1b[34m"),
        Color::Cyan => String::from_str("\x1b[36m"),
        Color::Green => String::from_str("\x1b[32m"),
        Color::Gray => String::from_str("\x1b[90m"),
        Color::Magenta => String::from_str("\x1b[35m"),
        Color::Red => String::from_str("\x1b[31m"),
        Color::White => String::from_str("\x1b[37m"),
        Color::Yellow => String::from_str("\x1b[33m"),
        Color::Custom(s) => s.clone(),
    }
}

/// Colors the given text with ANSI escape codes: `Plain` leaves the text
/// unchanged, every other color wraps it as `code + text + reset`.
pub fn color_text(text: &str, color: Color) -> (r: String)
    ensures
        r@ == wrap_spec(text@, color),
{
    match color {
        Color::Plain => text.to_owned(),
        _ => {
            let mut r = get_color_code(&color);
            r.append(text);
            r.append("\x1b[0m");
            r
        },
    }
}

} // verus!
