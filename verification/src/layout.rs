//! Layout decisions of the icon renderer: render mode, severity color,
//! font size, draw origin, and the numeral text itself.
//!
//! The canvas side length, the two font sizes and the two vertical offsets
//! are fixed layout constants, tuned by eye for one- to three-digit numerals
//! on the small square canvas; they are not derived from font metrics.

use vstd::prelude::*;
use vstd::arithmetic::div_mod::{lemma_div_is_ordered, lemma_div_non_zero, lemma_mod_bound};
use crate::pixel::{Rgba8, bright_red, amber};

verus! {

/// Side length of the square icon canvas, in pixels.
pub const ICON_SIZE: u32 = 44;

/// Glyph size for one- and two-digit percentages, in pixels.
pub const FONT_SIZE_PX: u32 = 36;

/// Smaller glyph size for the three-digit value 100, so the wider string
/// still fits the fixed canvas, in pixels.
pub const FONT_SIZE_100_PX: u32 = 30;

/// Top offset of the glyph baseline box for one- and two-digit values, in pixels.
pub const TOP_OFFSET_PX: u32 = 3;

/// Larger top offset for the value 100, compensating for its smaller glyph size,
/// in pixels.
pub const TOP_OFFSET_100_PX: u32 = 6;

/// How the icon encodes the percentage visually.
#[derive(Clone, Copy, PartialEq, Eq, Structural, Debug)]
pub enum RenderMode {
    /// Monochrome icon whose numeral is a transparent cutout; the host
    /// platform re-tints it.
    Template,
    /// Solid severity-colored background with an opaque white numeral.
    Color,
}

/// Mode choice: template above 50 percent, color at or below.
pub open spec fn spec_render_mode(p: int) -> RenderMode {
    if p > 50 {
        RenderMode::Template
    } else {
        RenderMode::Color
    }
}

/// Picks the render mode for a percentage. Every percentage maps to exactly
/// one mode: template if and only if the value is above 50.
pub fn render_mode(percentage: u8) -> (m: RenderMode)
    ensures
        m == spec_render_mode(percentage as int),
        m == RenderMode::Template <==> percentage > 50,
        m == RenderMode::Color <==> percentage <= 50,
{
    if percentage > 50 {
        RenderMode::Template
    } else {
        RenderMode::Color
    }
}

impl RenderMode {
    /// Whether the host platform should mark the delivered icon as a
    /// template (auto-tintable) image. This must mirror the mode the
    /// renderer chose for the same percentage.
    pub fn is_template(&self) -> (r: bool)
        ensures
            r <==> *self == RenderMode::Template,
    {
        match self {
            RenderMode::Template => true,
            RenderMode::Color => false,
        }
    }
}

/// Background color in color mode: bright red at or below 20 percent,
/// amber above.
pub open spec fn spec_severity_color(p: int) -> Rgba8 {
    if p <= 20 {
        bright_red()
    } else {
        amber()
    }
}

/// Picks the color-mode background for a percentage.
pub fn severity_color(percentage: u8) -> (c: Rgba8)
    ensures
        c == spec_severity_color(percentage as int),
        percentage <= 20 ==> c == bright_red(),
        percentage > 20 ==> c == amber(),
{
    if percentage <= 20 {
        Rgba8 { r: 255, g: 0, b: 0, a: 255 }
    } else {
        Rgba8 { r: 255, g: 120, b: 0, a: 255 }
    }
}

/// Glyph size policy: two tiers, not continuous scaling.
pub open spec fn spec_font_size(p: int) -> u32 {
    if p == 100 {
        FONT_SIZE_100_PX
    } else {
        FONT_SIZE_PX
    }
}

/// Picks the glyph size for a percentage: the smaller size exactly for 100.
pub fn font_size_px(percentage: u8) -> (s: u32)
    ensures
        s == spec_font_size(percentage as int),
{
    if percentage == 100 {
        FONT_SIZE_100_PX
    } else {
        FONT_SIZE_PX
    }
}

/// The glyph size used for 100 is strictly smaller than the size used for
/// any other percentage.
pub proof fn lemma_font_size_100_smallest(p: int)
    requires
        p != 100,
    ensures
        spec_font_size(100) < spec_font_size(p),
{
}

/// Vertical draw origin: a fixed constant, larger for 100.
pub open spec fn spec_top_offset(p: int) -> u32 {
    if p == 100 {
        TOP_OFFSET_100_PX
    } else {
        TOP_OFFSET_PX
    }
}

/// Picks the vertical draw origin for a percentage.
pub fn top_offset_px(percentage: u8) -> (y: u32)
    ensures
        y == spec_top_offset(percentage as int),
{
    if percentage == 100 {
        TOP_OFFSET_100_PX
    } else {
        TOP_OFFSET_PX
    }
}

/// Horizontal draw origin that centers a text of the given width on the
/// canvas: the part of the free space left of the text, floored to a whole
/// pixel, and never negative.
pub open spec fn spec_centered_x(text_width: int) -> int {
    if text_width <= ICON_SIZE {
        (ICON_SIZE - text_width) / 2
    } else {
        0
    }
}

/// Computes the centered horizontal draw origin for a measured text width.
pub fn centered_x(text_width: u32) -> (x: u32)
    ensures
        x == spec_centered_x(text_width as int),
        x <= ICON_SIZE / 2,
{
    if text_width <= ICON_SIZE {
        (ICON_SIZE - text_width) / 2
    } else {
        0
    }
}

/// The ASCII digit for a value in [0, 9].
pub open spec fn digit_ascii(d: int) -> u8 {
    (48 + d) as u8
}

/// Decimal digits of a value in [0, 1000), most significant first, with no
/// leading zeros and no other characters.
pub open spec fn spec_decimal_digits(n: int) -> Seq<u8>
    recommends
        0 <= n < 1000,
{
    if n < 10 {
        seq![digit_ascii(n)]
    } else if n < 100 {
        seq![digit_ascii(n / 10), digit_ascii(n % 10)]
    } else {
        seq![digit_ascii(n / 100), digit_ascii((n / 10) % 10), digit_ascii(n % 10)]
    }
}

/// Decimal text law: every byte of the text is an ASCII digit, and a text
/// of more than one digit never starts with a zero.
pub proof fn lemma_decimal_digits_wellformed(n: int)
    requires
        0 <= n < 1000,
    ensures
        forall|i: int|
            0 <= i < spec_decimal_digits(n).len() ==> 48 <= #[trigger] spec_decimal_digits(n)[i]
                <= 57,
        spec_decimal_digits(n).len() > 1 ==> spec_decimal_digits(n)[0] != 48,
{
    lemma_mod_bound(n, 10);
    lemma_mod_bound(n / 10, 10);
    if 10 <= n < 100 {
        lemma_div_non_zero(n, 10);
        lemma_div_is_ordered(n, 99, 10);
    }
    if n >= 100 {
        lemma_div_non_zero(n, 100);
        lemma_div_is_ordered(n, 999, 100);
    }
}

/// The text the icon draws: exactly the decimal digits of the percentage,
/// as ASCII bytes, with no extra characters.
pub fn percentage_text(percentage: u8) -> (t: Vec<u8>)
    ensures
        t@ == spec_decimal_digits(percentage as int),
        1 <= t@.len() <= 3,
{
    let mut t: Vec<u8> = Vec::new();
    if percentage >= 100 {
        t.push(48 + percentage / 100);
        t.push(48 + (percentage / 10) % 10);
        t.push(48 + percentage % 10);
    } else if percentage >= 10 {
        t.push(48 + percentage / 10);
        t.push(48 + percentage % 10);
    } else {
        t.push(48 + percentage);
    }
    proof {
        assert(t@ =~= spec_decimal_digits(percentage as int));
    }
    t
}

} // verus!
