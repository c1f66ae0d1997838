//! The icon canvas: a fixed square grid of RGBA pixels, with the two
//! compositing passes the renderer uses — the template-mode cutout and the
//! color-mode white-glyph overlay.

use vstd::prelude::*;
use vstd::arithmetic::div_mod::{
    lemma_div_is_ordered, lemma_div_multiples_vanish, lemma_fundamental_div_mod, lemma_mod_bound,
};
use vstd::arithmetic::mul::lemma_mul_inequality;
use crate::pixel::{Rgba8, transparent, transparent_pixel};

verus! {

/// Number of pixels of the square canvas: the side length squared.
pub const NUM_PIXELS: usize = 1936;

/// A square RGBA canvas of fixed side length, stored row by row.
/// Pixel (x, y) lives at flat index `y * side + x`.
pub struct Canvas {
    pixels: Vec<Rgba8>,
}

impl View for Canvas {
    type V = Seq<Rgba8>;

    closed spec fn view(&self) -> Seq<Rgba8> {
        self.pixels@
    }
}

/// One channel of a source-over blend of white at coverage `a` onto an
/// opaque background channel `c`, in eight-bit fixed point.
pub open spec fn spec_blend_channel(c: int, a: int) -> int {
    c + (a * (255 - c)) / 255
}

/// The pixel a white glyph of coverage `a` leaves when composited over the
/// background pixel `bg`. The alpha channel blends toward full opacity the
/// same way the color channels blend toward white.
pub open spec fn spec_blend_white(bg: Rgba8, a: u8) -> Rgba8 {
    Rgba8 {
        r: spec_blend_channel(bg.r as int, a as int) as u8,
        g: spec_blend_channel(bg.g as int, a as int) as u8,
        b: spec_blend_channel(bg.b as int, a as int) as u8,
        a: spec_blend_channel(bg.a as int, a as int) as u8,
    }
}

/// The blend of any coverage onto a channel stays a channel: it lands
/// between the background value and 255.
pub proof fn lemma_blend_channel_bounds(c: int, a: int)
    requires
        0 <= c <= 255,
        0 <= a <= 255,
    ensures
        c <= spec_blend_channel(c, a) <= 255,
{
    lemma_mul_inequality(a, 255, 255 - c);
    lemma_div_is_ordered(a * (255 - c), 255 * (255 - c), 255);
    lemma_div_multiples_vanish(255 - c, 255);
    assert(a * (255 - c) >= 0) by (nonlinear_arith)
        requires
            a >= 0,
            255 - c >= 0,
    ;
    lemma_div_is_ordered(0, a * (255 - c), 255);
}

/// Blending onto a fully opaque channel keeps it fully opaque.
pub proof fn lemma_blend_opaque_stays_opaque(a: int)
    requires
        0 <= a <= 255,
    ensures
        spec_blend_channel(255, a) == 255,
{
}

/// One channel of the white-glyph blend, executable.
fn blend_channel(c: u8, a: u8) -> (r: u8)
    ensures
        r as int == spec_blend_channel(c as int, a as int),
{
    proof {
        lemma_blend_channel_bounds(c as int, a as int);
    }
    let head: u32 = (a as u32) * (255 - (c as u32));
    let r32: u32 = (c as u32) + head / 255;
    r32 as u8
}

impl Canvas {
    /// A canvas is well formed when it holds exactly the fixed pixel count.
    pub open spec fn wf(&self) -> bool {
        self@.len() == NUM_PIXELS
    }

    /// A canvas with every pixel set to `color`.
    pub fn filled(color: Rgba8) -> (c: Canvas)
        ensures
            c.wf(),
            forall|i: int| 0 <= i < NUM_PIXELS ==> c@[i] == color,
    {
        let mut pixels: Vec<Rgba8> = Vec::new();
        let mut i: usize = 0;
        while i < NUM_PIXELS
            invariant
                i <= NUM_PIXELS,
                pixels@.len() == i,
                forall|j: int| 0 <= j < i ==> pixels@[j] == color,
            decreases NUM_PIXELS - i,
        {
            pixels.push(color);
            i = i + 1;
        }
        Canvas { pixels }
    }

    /// Wraps a pixel vector as a canvas: succeeds exactly when the vector
    /// holds the fixed pixel count, and then keeps the pixels unchanged.
    pub fn from_pixels(pixels: Vec<Rgba8>) -> (r: Option<Canvas>)
        ensures
            pixels@.len() == NUM_PIXELS ==> (r matches Some(c) && c@ == pixels@),
            pixels@.len() != NUM_PIXELS ==> r is None,
    {
        if pixels.len() == NUM_PIXELS {
            Some(Canvas { pixels })
        } else {
            None
        }
    }

    /// The pixel at flat index `i`.
    pub fn pixel_at(&self, i: usize) -> (p: Rgba8)
        requires
            self.wf(),
            i < NUM_PIXELS,
        ensures
            p == self@[i as int],
    {
        self.pixels[i]
    }

    /// Punches the glyph out of this canvas: wherever the glyph canvas has
    /// any ink (non-zero alpha), the pixel becomes fully transparent; every
    /// other pixel keeps its old value.
    pub fn apply_cutout(&mut self, glyph: &Canvas)
        requires
            old(self).wf(),
            glyph.wf(),
        ensures
            final(self).wf(),
            forall|i: int|
                0 <= i < NUM_PIXELS ==> #[trigger] final(self)@[i] == (if glyph@[i].a > 0 {
                    transparent()
                } else {
                    old(self)@[i]
                }),
    {
        let mut i: usize = 0;
        while i < NUM_PIXELS
            invariant
                i <= NUM_PIXELS,
                self.wf(),
                glyph.wf(),
                forall|j: int|
                    0 <= j < i ==> #[trigger] self@[j] == (if glyph@[j].a > 0 {
                        transparent()
                    } else {
                        old(self)@[j]
                    }),
                forall|j: int| i <= j < NUM_PIXELS ==> #[trigger] self@[j] == old(self)@[j],
            decreases NUM_PIXELS - i,
        {
            if glyph.pixels[i].a > 0 {
                self.pixels.set(i, transparent_pixel());
            }
            i = i + 1;
        }
    }

    /// Composites the white glyph over this canvas: every pixel becomes the
    /// source-over blend of white at the glyph's coverage (its alpha channel)
    /// onto the old pixel.
    pub fn overlay_white_glyph(&mut self, glyph: &Canvas)
        requires
            old(self).wf(),
            glyph.wf(),
        ensures
            final(self).wf(),
            forall|i: int|
                0 <= i < NUM_PIXELS ==> #[trigger] final(self)@[i] == spec_blend_white(
                    old(self)@[i],
                    glyph@[i].a,
                ),
    {
        let mut i: usize = 0;
        while i < NUM_PIXELS
            invariant
                i <= NUM_PIXELS,
                self.wf(),
                glyph.wf(),
                forall|j: int|
                    0 <= j < i ==> #[trigger] self@[j] == spec_blend_white(
                        old(self)@[j],
                        glyph@[j].a,
                    ),
                forall|j: int| i <= j < NUM_PIXELS ==> #[trigger] self@[j] == old(self)@[j],
            decreases NUM_PIXELS - i,
        {
            let bg = self.pixels[i];
            let cov = glyph.pixels[i].a;
            let blended = Rgba8 {
                r: blend_channel(bg.r, cov),
                g: blend_channel(bg.g, cov),
                b: blend_channel(bg.b, cov),
                a: blend_channel(bg.a, cov),
            };
            self.pixels.set(i, blended);
            i = i + 1;
        }
    }
}

/// The flat RGBA byte layout of a pixel sequence: four bytes per pixel, in
/// channel order red, green, blue, alpha.
pub open spec fn spec_rgba_bytes(s: Seq<Rgba8>) -> Seq<u8> {
    Seq::new(
        (4 * s.len()) as nat,
        |i: int|
            {
                let p = s[i / 4];
                if i % 4 == 0 {
                    p.r
                } else if i % 4 == 1 {
                    p.g
                } else if i % 4 == 2 {
                    p.b
                } else {
                    p.a
                }
            },
    )
}

impl Canvas {
    /// Flattens the canvas to its raw RGBA bytes, four per pixel in channel
    /// order.
    pub fn to_rgba_bytes(&self) -> (b: Vec<u8>)
        requires
            self.wf(),
        ensures
            b@ == spec_rgba_bytes(self@),
            b@.len() == 4 * NUM_PIXELS,
    {
        let mut b: Vec<u8> = Vec::new();
        let mut i: usize = 0;
        while i < NUM_PIXELS
            invariant
                i <= NUM_PIXELS,
                self.wf(),
                b@.len() == 4 * i,
                forall|j: int|
                    0 <= j < i ==> b@[4 * j] == self@[j].r && b@[4 * j + 1] == self@[j].g && b@[4
                        * j + 2] == self@[j].b && b@[4 * j + 3] == self@[j].a,
            decreases NUM_PIXELS - i,
        {
            let p = self.pixels[i];
            b.push(p.r);
            b.push(p.g);
            b.push(p.b);
            b.push(p.a);
            i = i + 1;
        }
        proof {
            assert forall|j: int| 0 <= j < 4 * NUM_PIXELS implies b@[j] == spec_rgba_bytes(
                self@,
            )[j] by {
                lemma_fundamental_div_mod(j, 4);
                lemma_mod_bound(j, 4);
                let q = j / 4;
                assert(b@[4 * q] == self@[q].r && b@[4 * q + 1] == self@[q].g && b@[4 * q + 2]
                    == self@[q].b && b@[4 * q + 3] == self@[q].a);
            }
            assert(b@ =~= spec_rgba_bytes(self@));
        }
        b
    }
}

} // verus!
