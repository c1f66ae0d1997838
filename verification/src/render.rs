//! The icon renderer's composition pipeline: from a percentage and a
//! rasterized glyph canvas to the finished icon pixels and their PNG bytes.
//!
//! The glyph canvas is the numeral rendered in white onto a fully
//! transparent canvas of the icon's own dimensions; its alpha channel is
//! the glyph's ink coverage. Rasterizing it takes a font and real-valued
//! glyph metrics, so it happens outside this library; everything from that
//! canvas to the encoded icon is verified here.

use vstd::prelude::*;
use crate::pixel::{Rgba8, transparent};
use crate::layout::{
    RenderMode, ICON_SIZE, render_mode, severity_color, spec_render_mode, spec_severity_color,
};
use crate::canvas::{Canvas, NUM_PIXELS, spec_blend_white, spec_rgba_bytes};
use crate::canvas::lemma_blend_opaque_stays_opaque;
use crate::codec::{encode_rgba_png, png_bytes_of};

verus! {

/// Why a render failed.
#[derive(Clone, Copy, PartialEq, Eq, Structural, Debug)]
pub enum RenderError {
    /// No candidate font data could be read or parsed. No icon is produced.
    FontUnavailable,
    /// The finished canvas could not be serialized to the output format.
    /// A well-formed fixed-size canvas should always encode, so this
    /// signals an internal invariant violation.
    EncodeFailure,
}

/// The canvas pixel count is exactly the square of the icon side length.
pub proof fn lemma_canvas_is_icon_square()
    ensures
        NUM_PIXELS == ICON_SIZE * ICON_SIZE,
{
}

/// Template-mode pixels: the glyph punched out of a solid fill. Wherever
/// the glyph canvas has any ink (non-zero alpha) the icon is fully
/// transparent; everywhere else it keeps the fill color.
pub open spec fn spec_template_pixels(fill: Rgba8, glyph: Seq<Rgba8>) -> Seq<Rgba8> {
    Seq::new(
        glyph.len(),
        |i: int|
            if glyph[i].a > 0 {
                transparent()
            } else {
                fill
            },
    )
}

/// Color-mode pixels: the white glyph blended over a solid severity-colored
/// background, pixel by pixel at the glyph's coverage.
pub open spec fn spec_color_pixels(bg: Rgba8, glyph: Seq<Rgba8>) -> Seq<Rgba8> {
    Seq::new(glyph.len(), |i: int| spec_blend_white(bg, glyph[i].a))
}

/// The finished icon pixels for a percentage: the template cutout above 50,
/// the severity-colored composite at or below 50. The template fill color
/// is a platform-conditioned configuration value and comes in as an
/// argument.
pub open spec fn spec_icon_pixels(p: int, template_fill: Rgba8, glyph: Seq<Rgba8>) -> Seq<Rgba8> {
    if spec_render_mode(p) == RenderMode::Template {
        spec_template_pixels(template_fill, glyph)
    } else {
        spec_color_pixels(spec_severity_color(p), glyph)
    }
}

/// Template-mode cutout law: every pixel where the glyph has ink is fully
/// transparent in the finished icon, and every other pixel keeps the solid
/// fill color.
pub proof fn lemma_template_cutout(fill: Rgba8, glyph: Seq<Rgba8>, i: int)
    requires
        0 <= i < glyph.len(),
    ensures
        glyph[i].a > 0 ==> spec_template_pixels(fill, glyph)[i] == transparent(),
        glyph[i].a == 0 ==> spec_template_pixels(fill, glyph)[i] == fill,
{
}

/// Color-mode opacity law: at or below 50 percent no pixel of the finished
/// icon is ever transparent — the alpha channel is full everywhere, whatever
/// the glyph looks like.
pub proof fn lemma_color_mode_opaque(p: int, template_fill: Rgba8, glyph: Seq<Rgba8>, i: int)
    requires
        p <= 50,
        0 <= i < glyph.len(),
    ensures
        spec_icon_pixels(p, template_fill, glyph)[i].a == 255,
{
    lemma_blend_opaque_stays_opaque(glyph[i].a as int);
    assert(spec_severity_color(p).a == 255);
    assert(spec_icon_pixels(p, template_fill, glyph)[i] == spec_blend_white(
        spec_severity_color(p),
        glyph[i].a,
    ));
}

/// Builds the finished icon canvas for a percentage from the rasterized
/// glyph canvas: fills, then punches the cutout (template mode) or blends
/// the white glyph over the severity color (color mode).
pub fn compose_icon(percentage: u8, template_fill: Rgba8, glyph: &Canvas) -> (c: Canvas)
    requires
        glyph.wf(),
    ensures
        c.wf(),
        c@ == spec_icon_pixels(percentage as int, template_fill, glyph@),
{
    let mode = render_mode(percentage);
    match mode {
        RenderMode::Template => {
            let mut c = Canvas::filled(template_fill);
            c.apply_cutout(glyph);
            proof {
                assert(c@ =~= spec_icon_pixels(percentage as int, template_fill, glyph@));
            }
            c
        },
        RenderMode::Color => {
            let bg = severity_color(percentage);
            let mut c = Canvas::filled(bg);
            c.overlay_white_glyph(glyph);
            proof {
                assert(c@ =~= spec_icon_pixels(percentage as int, template_fill, glyph@));
            }
            c
        },
    }
}

/// Renders the battery icon for a percentage: composes the finished canvas
/// from the rasterized glyph canvas and serializes it to PNG bytes. The
/// render succeeds, and the bytes are exactly the PNG encoding of the
/// composed square canvas; were the encoder ever to fail on the
/// well-formed canvas, that failure would be surfaced rather than
/// swallowed.
pub fn generate_battery_icon(percentage: u8, template_fill: Rgba8, glyph: &Canvas) -> (r: Result<
    Vec<u8>,
    RenderError,
>)
    requires
        glyph.wf(),
    ensures
        r is Ok,
        r matches Ok(b) ==> b@ == png_bytes_of(
            ICON_SIZE as int,
            ICON_SIZE as int,
            spec_rgba_bytes(spec_icon_pixels(percentage as int, template_fill, glyph@)),
        ),
        r matches Err(e) ==> e == RenderError::EncodeFailure,
{
    let icon = compose_icon(percentage, template_fill, glyph);
    let bytes = icon.to_rgba_bytes();
    proof {
        lemma_canvas_is_icon_square();
    }
    match encode_rgba_png(ICON_SIZE, ICON_SIZE, &bytes) {
        Ok(png) => Ok(png),
        Err(_) => Err(RenderError::EncodeFailure),
    }
}

} // verus!
