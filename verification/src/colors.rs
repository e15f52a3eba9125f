//! The interface's palette.
//!
//! Each colour is written as `#RRGGBB` and read by ratatui's colour parser.

use vstd::prelude::*;

verus! {

/// A colour by its red, green and blue parts.
#[derive(Copy, Clone, Debug, PartialEq, Eq, Structural, Hash)]
pub struct Rgb {
    pub r: u8,
    pub g: u8,
    pub b: u8,
}

/// The value of a hexadecimal digit, in either case.
pub open spec fn hex_digit(c: char) -> Option<int> {
    if '0' <= c <= '9' {
        Some(c as u32 - '0' as u32)
    } else if 'a' <= c <= 'f' {
        Some(c as u32 - 'a' as u32 + 10)
    } else if 'A' <= c <= 'F' {
        Some(c as u32 - 'A' as u32 + 10)
    } else {
        None
    }
}

/// Whether `s` is `#` followed by six hexadecimal digits.
pub open spec fn is_hex_color(s: Seq<char>) -> bool {
    &&& s.len() == 7
    &&& s[0] == '#'
    &&& forall|i: int| 1 <= i < 7 ==> hex_digit(#[trigger] s[i]) is Some
}

/// The number that two hexadecimal digits write.
pub open spec fn hex_byte(high: char, low: char) -> u8 {
    (16 * hex_digit(high).unwrap() + hex_digit(low).unwrap()) as u8
}

/// The colour that `#RRGGBB` writes.
pub open spec fn hex_color(s: Seq<char>) -> Rgb {
    Rgb { r: hex_byte(s[1], s[2]), g: hex_byte(s[3], s[4]), b: hex_byte(s[5], s[6]) }
}

/// Reads a colour with ratatui's `Color::from_str`.
///
/// Trusted, for a string of the form `#RRGGBB` only: the parser returns the
/// RGB colour whose three parts are the three pairs of hexadecimal digits.
#[verifier::external_body]
fn parse_hex_color(s: &str) -> (color: Option<Rgb>)
    requires
        is_hex_color(s@),
    ensures
        color == Some(hex_color(s@)),
{
    match s.parse::<ratatui::style::Color>() {
        Ok(ratatui::style::Color::Rgb(r, g, b)) => Some(Rgb { r, g, b }),
        _ => None,
    }
}

/// The colour that the literal `s` writes.
fn color(s: &str) -> (c: Rgb)
    requires
        is_hex_color(s@),
    ensures
        c == hex_color(s@),
{
    match parse_hex_color(s) {
        Some(c) => c,
        None => unreached(),
    }
}

/// The background of the widget under the pointer.
pub fn selected() -> (c: Rgb)
    ensures
        c == (Rgb { r: 0x4E, g: 0x4A, b: 0x4F }),
{
    dark_gray()
}

pub fn black() -> (c: Rgb)
    ensures
        c == (Rgb { r: 0x14, g: 0x0C, b: 0x1C }),
{
    proof {
        reveal_strlit("#140C1C");
    }
    color("#140C1C")
}

pub fn dark_red() -> (c: Rgb)
    ensures
        c == (Rgb { r: 0x44, g: 0x24, b: 0x34 }),
{
    proof {
        reveal_strlit("#442434");
    }
    color("#442434")
}

pub fn dark_blue() -> (c: Rgb)
    ensures
        c == (Rgb { r: 0x30, g: 0x34, b: 0x6D }),
{
    proof {
        reveal_strlit("#30346D");
    }
    color("#30346D")
}

pub fn dark_gray() -> (c: Rgb)
    ensures
        c == (Rgb { r: 0x4E, g: 0x4A, b: 0x4F }),
{
    proof {
        reveal_strlit("#4E4A4F");
    }
    color("#4E4A4F")
}

pub fn brown() -> (c: Rgb)
    ensures
        c == (Rgb { r: 0x85, g: 0x4C, b: 0x30 }),
{
    proof {
        reveal_strlit("#854C30");
    }
    color("#854C30")
}

pub fn dark_green() -> (c: Rgb)
    ensures
        c == (Rgb { r: 0x34, g: 0x65, b: 0x24 }),
{
    proof {
        reveal_strlit("#346524");
    }
    color("#346524")
}

pub fn red() -> (c: Rgb)
    ensures
        c == (Rgb { r: 0xD0, g: 0x46, b: 0x48 }),
{
    proof {
        reveal_strlit("#D04648");
    }
    color("#D04648")
}

pub fn light_gray() -> (c: Rgb)
    ensures
        c == (Rgb { r: 0x75, g: 0x71, b: 0x61 }),
{
    proof {
        reveal_strlit("#757161");
    }
    color("#757161")
}

pub fn light_blue() -> (c: Rgb)
    ensures
        c == (Rgb { r: 0x59, g: 0x7D, b: 0xCE }),
{
    proof {
        reveal_strlit("#597DCE");
    }
    color("#597DCE")
}

pub fn orange() -> (c: Rgb)
    ensures
        c == (Rgb { r: 0xD2, g: 0x7D, b: 0x2C }),
{
    proof {
        reveal_strlit("#D27D2C");
    }
    color("#D27D2C")
}

pub fn blue_gray() -> (c: Rgb)
    ensures
        c == (Rgb { r: 0x85, g: 0x95, b: 0xA1 }),
{
    proof {
        reveal_strlit("#8595A1");
    }
    color("#8595A1")
}

pub fn light_green() -> (c: Rgb)
    ensures
        c == (Rgb { r: 0x6D, g: 0xAA, b: 0x2C }),
{
    proof {
        reveal_strlit("#6DAA2C");
    }
    color("#6DAA2C")
}

pub fn peach() -> (c: Rgb)
    ensures
        c == (Rgb { r: 0xD2, g: 0xAA, b: 0x99 }),
{
    proof {
        reveal_strlit("#D2AA99");
    }
    color("#D2AA99")
}

pub fn cyan() -> (c: Rgb)
    ensures
        c == (Rgb { r: 0x6D, g: 0xC2, b: 0xCA }),
{
    proof {
        reveal_strlit("#6DC2CA");
    }
    color("#6DC2CA")
}

pub fn yellow() -> (c: Rgb)
    ensures
        c == (Rgb { r: 0xDA, g: 0xD4, b: 0x5E }),
{
    proof {
        reveal_strlit("#DAD45E");
    }
    color("#DAD45E")
}

pub fn white() -> (c: Rgb)
    ensures
        c == (Rgb { r: 0xDE, g: 0xEE, b: 0xD6 }),
{
    proof {
        reveal_strlit("#DEEED6");
    }
    color("#DEEED6")
}

} // verus!
