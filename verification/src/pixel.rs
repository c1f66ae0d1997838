//! RGBA pixels and the colors the icon renderer draws with.

use vstd::prelude::*;

verus! {

/// One pixel of the icon canvas: red, green, blue and alpha channels,
/// eight bits each.
#[derive(Clone, Copy, PartialEq, Eq, Structural, Debug)]
pub struct Rgba8 {
    pub r: u8,
    pub g: u8,
    pub b: u8,
    pub a: u8,
}

/// The fully transparent pixel: what the numeral cutout leaves behind.
pub open spec fn transparent() -> Rgba8 {
    Rgba8 { r: 0, g: 0, b: 0, a: 0 }
}

/// Opaque white: the default template-mode fill, and the color of the numeral glyph.
pub open spec fn opaque_white() -> Rgba8 {
    Rgba8 { r: 255, g: 255, b: 255, a: 255 }
}

/// The high-severity background: bright red.
pub open spec fn bright_red() -> Rgba8 {
    Rgba8 { r: 255, g: 0, b: 0, a: 255 }
}

/// The moderate-severity background: amber.
pub open spec fn amber() -> Rgba8 {
    Rgba8 { r: 255, g: 120, b: 0, a: 255 }
}

/// Executable constructor for the fully transparent pixel.
pub fn transparent_pixel() -> (c: Rgba8)
    ensures
        c == transparent(),
{
    Rgba8 { r: 0, g: 0, b: 0, a: 0 }
}

/// Executable constructor for opaque white.
pub fn opaque_white_pixel() -> (c: Rgba8)
    ensures
        c == opaque_white(),
{
    Rgba8 { r: 255, g: 255, b: 255, a: 255 }
}

} // verus!
