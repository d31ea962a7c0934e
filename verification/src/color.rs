//! Colours: the sixteen named ones and those given by red, green and blue.

use vstd::prelude::*;

verus! {

/// A colour of the terminal's palette.
#[derive(Clone, Copy, Debug, PartialEq, Eq, Structural)]
pub enum NamedColor {
    Black,
    Red,
    Green,
    Yellow,
    Blue,
    Magenta,
    Cyan,
    Gray,
    DarkGray,
    LightRed,
    LightGreen,
    LightYellow,
    LightBlue,
    LightMagenta,
    LightCyan,
    White,
}

/// A colour: one of the palette, or one mixed from red, green and blue.
#[derive(Clone, Copy, Debug, PartialEq, Eq, Structural)]
pub enum Color {
    /// A colour of the palette.
    Named(NamedColor),
    /// Red, green and blue, each from 0 to 255.
    Rgb(u8, u8, u8),
}

/// What brightening adds to each of red, green and blue.
pub const BRIGHTEN_STEP: u8 = 50;

/// The full strength of a pulse, in thousandths.
pub const FULL_INTENSITY: u16 = 1000;

/// A channel made brighter: `BRIGHTEN_STEP` more, and 255 at most.
pub open spec fn brighter_channel(v: u8) -> u8 {
    if v + BRIGHTEN_STEP > 255 {
        255
    } else {
        (v + BRIGHTEN_STEP) as u8
    }
}

/// The brighter variant of a colour. A palette colour that has a light
/// counterpart becomes that counterpart, every other palette colour becomes
/// white, and a mixed colour gains `BRIGHTEN_STEP` in each channel.
pub open spec fn brightened(c: Color) -> Color {
    match c {
        Color::Named(NamedColor::Red) => Color::Named(NamedColor::LightRed),
        Color::Named(NamedColor::Green) => Color::Named(NamedColor::LightGreen),
        Color::Named(NamedColor::Yellow) => Color::Named(NamedColor::LightYellow),
        Color::Named(NamedColor::Blue) => Color::Named(NamedColor::LightBlue),
        Color::Named(NamedColor::Magenta) => Color::Named(NamedColor::LightMagenta),
        Color::Named(NamedColor::Cyan) => Color::Named(NamedColor::LightCyan),
        Color::Named(_) => Color::Named(NamedColor::White),
        Color::Rgb(r, g, b) => Color::Rgb(
            brighter_channel(r),
            brighter_channel(g),
            brighter_channel(b),
        ),
    }
}

/// A channel at `permille` thousandths of its strength, rounded down, and
/// 255 at most.
pub open spec fn scaled_channel(v: u8, permille: u16) -> u8 {
    if v * permille / 1000 > 255 {
        255
    } else {
        (v * permille / 1000) as u8
    }
}

/// A colour at `permille` thousandths of its strength. Only a mixed colour
/// has a strength to scale: a palette colour stays as it is.
pub open spec fn scaled(c: Color, permille: u16) -> Color {
    match c {
        Color::Named(n) => Color::Named(n),
        Color::Rgb(r, g, b) => Color::Rgb(
            scaled_channel(r, permille),
            scaled_channel(g, permille),
            scaled_channel(b, permille),
        ),
    }
}

fn brighten_channel(v: u8) -> (out: u8)
    ensures
        out == brighter_channel(v),
{
    if v > 255 - BRIGHTEN_STEP {
        255
    } else {
        v + BRIGHTEN_STEP
    }
}

fn scale_channel(v: u8, permille: u16) -> (out: u8)
    ensures
        out == scaled_channel(v, permille),
{
    assert(v * permille <= 255 * 65535) by (nonlinear_arith)
        requires
            0 <= v <= 255,
            0 <= permille <= 65535,
    ;
    let wide: u32 = (v as u32) * (permille as u32) / 1000;
    if wide > 255 {
        255
    } else {
        wide as u8
    }
}

impl Color {
    /// The brighter variant of the colour.
    pub fn brighten(self) -> (out: Color)
        ensures
            out == brightened(self),
    {
        match self {
            Color::Named(NamedColor::Red) => Color::Named(NamedColor::LightRed),
            Color::Named(NamedColor::Green) => Color::Named(NamedColor::LightGreen),
            Color::Named(NamedColor::Yellow) => Color::Named(NamedColor::LightYellow),
            Color::Named(NamedColor::Blue) => Color::Named(NamedColor::LightBlue),
            Color::Named(NamedColor::Magenta) => Color::Named(NamedColor::LightMagenta),
            Color::Named(NamedColor::Cyan) => Color::Named(NamedColor::LightCyan),
            Color::Named(_) => Color::Named(NamedColor::White),
            Color::Rgb(r, g, b) => Color::Rgb(
                brighten_channel(r),
                brighten_channel(g),
                brighten_channel(b),
            ),
        }
    }

    /// The colour at `permille` thousandths of its strength.
    pub fn scale(self, permille: u16) -> (out: Color)
        ensures
            out == scaled(self, permille),
    {
        match self {
            Color::Named(n) => Color::Named(n),
            Color::Rgb(r, g, b) => Color::Rgb(
                scale_channel(r, permille),
                scale_channel(g, permille),
                scale_channel(b, permille),
            ),
        }
    }
}

/// Brightening makes no channel darker, and a colour at full strength is
/// the colour itself.
pub proof fn lemma_brighten_and_scale(c: Color)
    ensures
        c matches Color::Rgb(r, g, b) ==> brightened(c) matches Color::Rgb(r2, g2, b2) && r2 >= r
            && g2 >= g && b2 >= b,
        scaled(c, FULL_INTENSITY) == c,
{
}

/// A pulse that is not above full strength makes no channel brighter.
pub proof fn lemma_scale_dims(c: Color, permille: u16)
    requires
        permille <= FULL_INTENSITY,
    ensures
        c matches Color::Rgb(r, g, b) ==> scaled(c, permille) matches Color::Rgb(r2, g2, b2) && r2
            <= r && g2 <= g && b2 <= b,
{
    if let Color::Rgb(r, g, b) = c {
        assert(r * permille / 1000 <= r) by (nonlinear_arith)
            requires
                0 <= r,
                0 <= permille <= 1000,
        ;
        assert(g * permille / 1000 <= g) by (nonlinear_arith)
            requires
                0 <= g,
                0 <= permille <= 1000,
        ;
        assert(b * permille / 1000 <= b) by (nonlinear_arith)
            requires
                0 <= b,
                0 <= permille <= 1000,
        ;
    }
}

} // verus!
