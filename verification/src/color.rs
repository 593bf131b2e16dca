//! Colors as four 8-bit channels.

use vstd::prelude::*;

verus! {

/// A color with red, green, blue and alpha channels, each from 0 to 255.
/// An alpha of 255 is opaque.
#[derive(Clone, Copy, Debug, PartialEq, Eq, Structural)]
pub struct Rgba {
    pub r: u8,
    pub g: u8,
    pub b: u8,
    pub a: u8,
}

/// A foreground and a background color.
#[derive(Clone, Copy, Debug, PartialEq, Eq, Structural)]
pub struct ColorPair {
    pub fg: Rgba,
    pub bg: Rgba,
}

impl Rgba {
    /// Opaque white as a specification value.
    pub open spec fn spec_white() -> Rgba {
        Rgba { r: 255, g: 255, b: 255, a: 255 }
    }

    /// Opaque black as a specification value.
    pub open spec fn spec_black() -> Rgba {
        Rgba { r: 0, g: 0, b: 0, a: 255 }
    }

    /// Builds a color from its four channels.
    pub fn from_u8(r: u8, g: u8, b: u8, a: u8) -> (c: Rgba)
        ensures
            c == (Rgba { r, g, b, a }),
    {
        Rgba { r, g, b, a }
    }

    /// Opaque white, the default foreground.
    pub fn white() -> (c: Rgba)
        ensures
            c == Rgba::spec_white(),
    {
        Rgba { r: 255, g: 255, b: 255, a: 255 }
    }

    /// Opaque black, the default background.
    pub fn black() -> (c: Rgba)
        ensures
            c == Rgba::spec_black(),
    {
        Rgba { r: 0, g: 0, b: 0, a: 255 }
    }
}

impl ColorPair {
    /// Pairs a foreground with a background.
    pub fn new(fg: Rgba, bg: Rgba) -> (p: ColorPair)
        ensures
            p == (ColorPair { fg, bg }),
    {
        ColorPair { fg, bg }
    }
}

} // verus!
