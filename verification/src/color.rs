//! An RGBA color with one byte per channel.

use vstd::prelude::*;

verus! {

/// A color with 8-bit red, green, blue and alpha channels.
#[derive(Clone, Copy, Debug, PartialEq, Eq, Structural)]
pub struct ColorU {
    pub r: u8,
    pub g: u8,
    pub b: u8,
    pub a: u8,
}

impl ColorU {
    /// The color with the given channels.
    pub fn new(r: u8, g: u8, b: u8, a: u8) -> (c: ColorU)
        ensures
            c == (ColorU { r, g, b, a }),
    {
        ColorU { r, g, b, a }
    }
}

/// The opaque mid-gray used for participants and indicators that carry no color of their own.
pub open spec fn neutral_gray() -> ColorU {
    ColorU { r: 128, g: 128, b: 128, a: 255 }
}

} // verus!
