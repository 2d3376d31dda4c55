//! The colors of the widgets.

use crate::text::{concat, copy_of, decimal, decimal_string, lowercase, str_eq};
use vstd::prelude::*;

verus! {

/// A color of the terminal.
#[derive(Clone, Copy, Debug, PartialEq, Eq, Structural)]
pub enum TuiColor {
    /// The default color of the terminal.
    Reset,
    Black,
    Red,
    Green,
    Yellow,
    Blue,
    Magenta,
    Cyan,
    Gray,
    DarkGray,
    LightRed,
    LightGreen,
    LightYellow,
    LightBlue,
    LightMagenta,
    LightCyan,
    White,
    /// A color given by its red, green and blue parts.
    Rgb(u8, u8, u8),
    /// A color of the terminal's palette.
    Indexed(u8),
}

/// Wrapper for widget colors.
#[derive(Clone, Copy, Debug, PartialEq, Eq, Structural)]
pub struct Color {
    /// Inner widget color type.
    pub inner: TuiColor,
}

/// The red, green and blue parts that a text denotes in hexadecimal
/// notation, as `colorsys::Rgb::from_hex_str` reads it; `None` where it
/// refuses the text.
pub uninterp spec fn hex_rgb(s: Seq<char>) -> Option<(u8, u8, u8)>;

/// Reads a color in hexadecimal notation with
/// `colorsys::Rgb::from_hex_str`. The result is a function of the text
/// alone and known only under the name [`hex_rgb`]; the three parts are
/// handed out as bytes.
#[verifier::external_body]
fn rgb_from_hex_str(s: &str) -> (r: Option<(u8, u8, u8)>)
    ensures
        r == hex_rgb(s@),
{
    match colorsys::Rgb::from_hex_str(s) {
        Ok(rgb) => Some((rgb.red() as u8, rgb.green() as u8, rgb.blue() as u8)),
        Err(_) => None,
    }
}

/// The character of a hexadecimal digit, in lower case.
pub open spec fn hex_digit_char(d: nat) -> char {
    if d == 0 {
        '0'
    } else if d == 1 {
        '1'
    } else if d == 2 {
        '2'
    } else if d == 3 {
        '3'
    } else if d == 4 {
        '4'
    } else if d == 5 {
        '5'
    } else if d == 6 {
        '6'
    } else if d == 7 {
        '7'
    } else if d == 8 {
        '8'
    } else if d == 9 {
        '9'
    } else if d == 10 {
        'a'
    } else if d == 11 {
        'b'
    } else if d == 12 {
        'c'
    } else if d == 13 {
        'd'
    } else if d == 14 {
        'e'
    } else {
        'f'
    }
}

/// A color in hexadecimal notation: `#` and two digits for each part.
pub open spec fn hex_color_text(r: u8, g: u8, b: u8) -> Seq<char> {
    seq![
        '#',
        hex_digit_char((r / 16) as nat),
        hex_digit_char((r % 16) as nat),
        hex_digit_char((g / 16) as nat),
        hex_digit_char((g % 16) as nat),
        hex_digit_char((b / 16) as nat),
        hex_digit_char((b % 16) as nat),
    ]
}

/// Writes a color in hexadecimal notation with
/// `colorsys::Rgb::to_hex_string`: `#` and each part as two hexadecimal
/// digits in lower case.
#[verifier::external_body]
pub(crate) fn rgb_to_hex_string(r: u8, g: u8, b: u8) -> (text: String)
    ensures
        text@ == hex_color_text(r, g, b),
{
    colorsys::Rgb::from((r, g, b)).to_hex_string()
}

/// The color that a lower-case name denotes, if it is the name of one.
pub open spec fn named_color(name: Seq<char>) -> Option<TuiColor> {
    if name == "black"@ {
        Some(TuiColor::Black)
    } else if name == "red"@ {
        Some(TuiColor::Red)
    } else if name == "green"@ {
        Some(TuiColor::Green)
    } else if name == "yellow"@ {
        Some(TuiColor::Yellow)
    } else if name == "blue"@ {
        Some(TuiColor::Blue)
    } else if name == "magenta"@ {
        Some(TuiColor::Magenta)
    } else if name == "cyan"@ {
        Some(TuiColor::Cyan)
    } else if name == "gray"@ {
        Some(TuiColor::Gray)
    } else if name == "darkgray"@ {
        Some(TuiColor::DarkGray)
    } else if name == "lightred"@ {
        Some(TuiColor::LightRed)
    } else if name == "lightgreen"@ {
        Some(TuiColor::LightGreen)
    } else if name == "lightyellow"@ {
        Some(TuiColor::LightYellow)
    } else if name == "lightblue"@ {
        Some(TuiColor::LightBlue)
    } else if name == "lightmagenta"@ {
        Some(TuiColor::LightMagenta)
    } else if name == "lightcyan"@ {
        Some(TuiColor::LightCyan)
    } else if name == "white"@ {
        Some(TuiColor::White)
    } else {
        None
    }
}

/// The color that a text denotes, given its lower-case form and what it
/// denotes in hexadecimal notation: a named color, else the color of the
/// notation, else gray.
pub open spec fn color_of(lowered: Seq<char>, hex: Option<(u8, u8, u8)>) -> TuiColor {
    match named_color(lowered) {
        Some(color) => color,
        None => match hex {
            Some((r, g, b)) => TuiColor::Rgb(r, g, b),
            None => TuiColor::Gray,
        },
    }
}

/// The lower-case name of a color; a color given by its parts is written
/// in hexadecimal notation.
pub open spec fn color_text(color: TuiColor) -> Seq<char> {
    match color {
        TuiColor::Reset => "reset"@,
        TuiColor::Black => "black"@,
        TuiColor::Red => "red"@,
        TuiColor::Green => "green"@,
        TuiColor::Yellow => "yellow"@,
        TuiColor::Blue => "blue"@,
        TuiColor::Magenta => "magenta"@,
        TuiColor::Cyan => "cyan"@,
        TuiColor::Gray => "gray"@,
        TuiColor::DarkGray => "darkgray"@,
        TuiColor::LightRed => "lightred"@,
        TuiColor::LightGreen => "lightgreen"@,
        TuiColor::LightYellow => "lightyellow"@,
        TuiColor::LightBlue => "lightblue"@,
        TuiColor::LightMagenta => "lightmagenta"@,
        TuiColor::LightCyan => "lightcyan"@,
        TuiColor::White => "white"@,
        TuiColor::Rgb(r, g, b) => hex_color_text(r, g, b),
        TuiColor::Indexed(i) => "indexed("@ + decimal(i as nat) + ")"@,
    }
}

fn find_named_color(name: &str) -> (r: Option<TuiColor>)
    ensures
        r == named_color(name@),
{
    if str_eq(name, "black") {
        Some(TuiColor::Black)
    } else if str_eq(name, "red") {
        Some(TuiColor::Red)
    } else if str_eq(name, "green") {
        Some(TuiColor::Green)
    } else if str_eq(name, "yellow") {
        Some(TuiColor::Yellow)
    } else if str_eq(name, "blue") {
        Some(TuiColor::Blue)
    } else if str_eq(name, "magenta") {
        Some(TuiColor::Magenta)
    } else if str_eq(name, "cyan") {
        Some(TuiColor::Cyan)
    } else if str_eq(name, "gray") {
        Some(TuiColor::Gray)
    } else if str_eq(name, "darkgray") {
        Some(TuiColor::DarkGray)
    } else if str_eq(name, "lightred") {
        Some(TuiColor::LightRed)
    } else if str_eq(name, "lightgreen") {
        Some(TuiColor::LightGreen)
    } else if str_eq(name, "lightyellow") {
        Some(TuiColor::LightYellow)
    } else if str_eq(name, "lightblue") {
        Some(TuiColor::LightBlue)
    } else if str_eq(name, "lightmagenta") {
        Some(TuiColor::LightMagenta)
    } else if str_eq(name, "lightcyan") {
        Some(TuiColor::LightCyan)
    } else if str_eq(name, "white") {
        Some(TuiColor::White)
    } else {
        None
    }
}

impl TuiColor {
    /// The lower-case name of the color, or its hexadecimal notation.
    pub fn to_text(&self) -> (r: String)
        ensures
            r@ == color_text(*self),
    {
        match self {
            TuiColor::Reset => copy_of("reset"),
            TuiColor::Black => copy_of("black"),
            TuiColor::Red => copy_of("red"),
            TuiColor::Green => copy_of("green"),
            TuiColor::Yellow => copy_of("yellow"),
            TuiColor::Blue => copy_of("blue"),
            TuiColor::Magenta => copy_of("magenta"),
            TuiColor::Cyan => copy_of("cyan"),
            TuiColor::Gray => copy_of("gray"),
            TuiColor::DarkGray => copy_of("darkgray"),
            TuiColor::LightRed => copy_of("lightred"),
            TuiColor::LightGreen => copy_of("lightgreen"),
            TuiColor::LightYellow => copy_of("lightyellow"),
            TuiColor::LightBlue => copy_of("lightblue"),
            TuiColor::LightMagenta => copy_of("lightmagenta"),
            TuiColor::LightCyan => copy_of("lightcyan"),
            TuiColor::White => copy_of("white"),
            TuiColor::Rgb(r, g, b) => rgb_to_hex_string(*r, *g, *b),
            TuiColor::Indexed(i) => {
                let number = decimal_string(*i as u64);
                let mut out = concat("indexed(", number.as_str());
                out.append(")");
                out
            },
        }
    }
}

impl Color {
    /// Returns the underlying color.
    pub fn get(self) -> (r: TuiColor)
        ensures
            r == self.inner,
    {
        self.inner
    }

    /// The color that a text denotes, given its lower-case form and what
    /// it denotes in hexadecimal notation.
    pub fn from_parts(lowered: &str, hex: Option<(u8, u8, u8)>) -> (r: Color)
        ensures
            r.inner == color_of(lowered@, hex),
    {
        Color {
            inner: match find_named_color(lowered) {
                Some(color) => color,
                None => match hex {
                    Some((r, g, b)) => TuiColor::Rgb(r, g, b),
                    None => TuiColor::Gray,
                },
            },
        }
    }

    /// The color that a text denotes: the name of a color in any case, or
    /// its red, green and blue parts in hexadecimal notation such as
    /// `12312F`. Any other text denotes gray.
    pub fn from(s: &str) -> (r: Color)
        ensures
            r.inner == color_of(lowercase(s@), hex_rgb("#"@ + s@)),
    {
        let lowered = s.to_lowercase();
        let notation = concat("#", s);
        let hex = rgb_from_hex_str(notation.as_str());
        Color::from_parts(lowered.as_str(), hex)
    }

    /// The color that a text denotes; this never fails.
    pub fn from_str(s: &str) -> (r: Result<Color, ()>)
        ensures
            r matches Ok(color) && color.inner == color_of(lowercase(s@), hex_rgb("#"@ + s@)),
    {
        Ok(Color::from(s))
    }
}

impl Default for Color {
    fn default() -> (r: Self)
        ensures
            r.inner == TuiColor::Gray,
    {
        Self { inner: TuiColor::Gray }
    }
}

} // verus!
