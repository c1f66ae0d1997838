//! Trusted boundary to the `ab_glyph` crate: deciding whether candidate
//! font data parses as a usable font.

use vstd::prelude::*;
use crate::render::RenderError;

verus! {

/// Whether `ab_glyph` accepts the given bytes as a font. Parsing is
/// deterministic, so this is a function of the bytes alone.
pub uninterp spec fn font_parses(data: Seq<u8>) -> bool;

/// Relies on `ab_glyph::FontRef::try_from_slice`: whether font data parses
/// depends on the bytes alone, and the call returns `Ok` exactly for data
/// that parses.
#[verifier::external_body]
fn font_data_parses(data: &Vec<u8>) -> (r: bool)
    ensures
        r == font_parses(data@),
{
    ab_glyph::FontRef::try_from_slice(data.as_slice()).is_ok()
}

/// Checks candidate font data: accepts it exactly when it parses as a font,
/// and otherwise reports the font as unavailable.
pub fn validate_font_data(data: &Vec<u8>) -> (r: Result<(), RenderError>)
    ensures
        r is Ok <==> font_parses(data@),
        r matches Err(e) ==> e == RenderError::FontUnavailable,
{
    if font_data_parses(data) {
        Ok(())
    } else {
        Err(RenderError::FontUnavailable)
    }
}

} // verus!
