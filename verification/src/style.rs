//! Terminal styles as plain owned values.
//!
//! A [`Style`] mirrors the capabilities of an ANSI-capable colored
//! stream: optional foreground and background colors, a few boolean
//! attributes, and a reset flag. The unverified shell maps these onto
//! its concrete terminal writer.

use vstd::prelude::*;
use vstd::string::StrSliceExecFns;

verus! {

/// A terminal color: one of the eight named ANSI colors, a 256-color
/// palette index, or a 24-bit RGB triple.
#[derive(Clone, Copy, Debug, PartialEq, Eq, Structural)]
pub enum TextColor {
    Black,
    Blue,
    Green,
    Red,
    Cyan,
    Magenta,
    Yellow,
    White,
    Ansi256(u8),
    Rgb(u8, u8, u8),
}

/// A full style specification for a run of output text.
#[derive(Clone, Copy, Debug, PartialEq, Eq, Structural)]
pub struct Style {
    pub fg: Option<TextColor>,
    pub bg: Option<TextColor>,
    pub bold: bool,
    pub intense: bool,
    pub underline: bool,
    pub italic: bool,
    pub reset: bool,
}

impl Style {
    /// The style with no colors and no attributes set.
    pub fn plain() -> (r: Style)
        ensures
            r == Style::spec_plain(),
    {
        Style {
            fg: None,
            bg: None,
            bold: false,
            intense: false,
            underline: false,
            italic: false,
            reset: false,
        }
    }

    pub open spec fn spec_plain() -> Style {
        Style {
            fg: None,
            bg: None,
            bold: false,
            intense: false,
            underline: false,
            italic: false,
            reset: false,
        }
    }

    /// This style with the foreground replaced.
    pub fn with_fg(self, c: TextColor) -> (r: Style)
        ensures
            r == self.spec_with_fg(c),
    {
        Style { fg: Some(c), ..self }
    }

    pub open spec fn spec_with_fg(self, c: TextColor) -> Style {
        Style { fg: Some(c), ..self }
    }

    /// This style with the bold attribute set.
    pub fn with_bold(self) -> (r: Style)
        ensures
            r == self.spec_with_bold(),
    {
        Style { bold: true, ..self }
    }

    pub open spec fn spec_with_bold(self) -> Style {
        Style { bold: true, ..self }
    }

    /// This style with the reset flag set, as the renderer applies to
    /// the base style of each render pass.
    pub fn with_reset(self) -> (r: Style)
        ensures
            r == self.spec_with_reset(),
    {
        Style { reset: true, ..self }
    }

    pub open spec fn spec_with_reset(self) -> Style {
        Style { reset: true, ..self }
    }
}

/// The configuration surface's name for a named color.
pub open spec fn spec_color_name(c: TextColor) -> Option<Seq<char>> {
    match c {
        TextColor::Black => Some("black"@),
        TextColor::Blue => Some("blue"@),
        TextColor::Green => Some("green"@),
        TextColor::Red => Some("red"@),
        TextColor::Cyan => Some("cyan"@),
        TextColor::Magenta => Some("magenta"@),
        TextColor::Yellow => Some("yellow"@),
        TextColor::White => Some("white"@),
        _ => None,
    }
}

/// The name a named color is written as in configuration; palette and
/// RGB colors have none (they are written as numbers).
pub fn color_name(c: &TextColor) -> (r: Option<&'static str>)
    ensures
        r is Some <==> spec_color_name(*c) is Some,
        r matches Some(s) ==> spec_color_name(*c) == Some(s@),
{
    match c {
        TextColor::Black => Some("black"),
        TextColor::Blue => Some("blue"),
        TextColor::Green => Some("green"),
        TextColor::Red => Some("red"),
        TextColor::Cyan => Some("cyan"),
        TextColor::Magenta => Some("magenta"),
        TextColor::Yellow => Some("yellow"),
        TextColor::White => Some("white"),
        TextColor::Ansi256(_) => None,
        TextColor::Rgb(_, _, _) => None,
    }
}

/// The named color a configuration string denotes, if any: the name
/// round-trips through [`color_name`].
pub fn color_from_name(s: &str) -> (r: Option<TextColor>)
    ensures
        r matches Some(c) ==> spec_color_name(c) == Some(s@),
        r is None ==> forall|c: TextColor| spec_color_name(c) != Some(s@),
{
    if crate::strutil::str_eq(s, "black") {
        Some(TextColor::Black)
    } else if crate::strutil::str_eq(s, "blue") {
        Some(TextColor::Blue)
    } else if crate::strutil::str_eq(s, "green") {
        Some(TextColor::Green)
    } else if crate::strutil::str_eq(s, "red") {
        Some(TextColor::Red)
    } else if crate::strutil::str_eq(s, "cyan") {
        Some(TextColor::Cyan)
    } else if crate::strutil::str_eq(s, "magenta") {
        Some(TextColor::Magenta)
    } else if crate::strutil::str_eq(s, "yellow") {
        Some(TextColor::Yellow)
    } else if crate::strutil::str_eq(s, "white") {
        Some(TextColor::White)
    } else {
        proof {
            assert forall|c: TextColor| spec_color_name(c) != Some(s@) by {
                match c {
                    TextColor::Black => assert(spec_color_name(c) == Some("black"@)),
                    TextColor::Blue => assert(spec_color_name(c) == Some("blue"@)),
                    TextColor::Green => assert(spec_color_name(c) == Some("green"@)),
                    TextColor::Red => assert(spec_color_name(c) == Some("red"@)),
                    TextColor::Cyan => assert(spec_color_name(c) == Some("cyan"@)),
                    TextColor::Magenta => assert(spec_color_name(c) == Some("magenta"@)),
                    TextColor::Yellow => assert(spec_color_name(c) == Some("yellow"@)),
                    TextColor::White => assert(spec_color_name(c) == Some("white"@)),
                    _ => (),
                }
            }
        }
        None
    }
}

/// The value of a hexadecimal digit, or 16 for any other character.
pub open spec fn hex_val(c: char) -> int {
    if c == '0' {
        0
    } else if c == '1' {
        1
    } else if c == '2' {
        2
    } else if c == '3' {
        3
    } else if c == '4' {
        4
    } else if c == '5' {
        5
    } else if c == '6' {
        6
    } else if c == '7' {
        7
    } else if c == '8' {
        8
    } else if c == '9' {
        9
    } else if c == 'a' || c == 'A' {
        10
    } else if c == 'b' || c == 'B' {
        11
    } else if c == 'c' || c == 'C' {
        12
    } else if c == 'd' || c == 'D' {
        13
    } else if c == 'e' || c == 'E' {
        14
    } else if c == 'f' || c == 'F' {
        15
    } else {
        16
    }
}

fn hex_val_exec(c: char) -> (r: u8)
    ensures
        r == hex_val(c),
{
    match c {
        '0' => 0,
        '1' => 1,
        '2' => 2,
        '3' => 3,
        '4' => 4,
        '5' => 5,
        '6' => 6,
        '7' => 7,
        '8' => 8,
        '9' => 9,
        'a' | 'A' => 10,
        'b' | 'B' => 11,
        'c' | 'C' => 12,
        'd' | 'D' => 13,
        'e' | 'E' => 14,
        'f' | 'F' => 15,
        _ => 16,
    }
}

/// Whether a string is a sharp sign followed by six hexadecimal
/// digits.
pub open spec fn valid_hex_color(s: Seq<char>) -> bool {
    s.len() == 7 && s[0] == '#' && (forall|i: int| 1 <= i < 7 ==> hex_val(#[trigger] s[i]) < 16)
}

/// The RGB triple an RGB color string denotes: a sharp sign followed
/// by six hexadecimal digits, two per channel. Any other string
/// denotes no color.
pub fn parse_hex_color(s: &str) -> (r: Option<TextColor>)
    ensures
        r is Some <==> valid_hex_color(s@),
        r matches Some(c) ==> c == TextColor::Rgb(
            (hex_val(s@[1]) * 16 + hex_val(s@[2])) as u8,
            (hex_val(s@[3]) * 16 + hex_val(s@[4])) as u8,
            (hex_val(s@[5]) * 16 + hex_val(s@[6])) as u8,
        ),
{
    if s.unicode_len() != 7 {
        return None;
    }
    if s.get_char(0) != '#' {
        return None;
    }
    let d1 = hex_val_exec(s.get_char(1));
    let d2 = hex_val_exec(s.get_char(2));
    let d3 = hex_val_exec(s.get_char(3));
    let d4 = hex_val_exec(s.get_char(4));
    let d5 = hex_val_exec(s.get_char(5));
    let d6 = hex_val_exec(s.get_char(6));
    if d1 >= 16 || d2 >= 16 || d3 >= 16 || d4 >= 16 || d5 >= 16 || d6 >= 16 {
        return None;
    }
    Some(TextColor::Rgb(d1 * 16 + d2, d3 * 16 + d4, d5 * 16 + d6))
}

/// A segment's color choice: either scaled from the rendered value via
/// a fixed color ramp, or a fixed user-supplied style (possibly none).
#[derive(Clone, Copy, Debug, PartialEq, Eq, Structural)]
pub enum ScaledColor {
    Scaled,
    Fixed(Option<Style>),
}

impl Default for ScaledColor {
    fn default() -> (r: Self)
        ensures
            r == ScaledColor::Scaled,
    {
        ScaledColor::Scaled
    }
}

} // verus!
