//! Where a caption goes on an image, and how large it is written.
//!
//! Everything is derived from the image's width and height. The font grows
//! with the width, from 24 pixels at 1920 pixels of width or less. The caption
//! stands in a band that takes the lowest 30 % of the image.

use crate::wrap::{spec_wrap, wrap};
use vstd::prelude::*;

verus! {

/// Font size in pixels on an image of the reference width or narrower.
pub const BASE_FONT_SIZE: u32 = 24;

/// Width in pixels of the image for which the base font size is meant.
pub const REFERENCE_WIDTH: u32 = 1920;

/// Distance in pixels of the title from the band's top and the image's left.
pub const TEXT_INSET: u32 = 20;

/// Number of units that make one pixel of font size.
pub const UNITS_PER_PIXEL: u64 = 1920;

/// A font size, held in units of 1/1920 pixel so that
/// `BASE_FONT_SIZE * width / REFERENCE_WIDTH` is held exactly.
#[derive(Clone, Copy, Debug, PartialEq, Eq, Structural)]
pub struct FontScale {
    pub units: u64,
}

/// The font size for an image of `width` pixels, in units of 1/1920 pixel:
/// `24 * max(1, width / 1920)` pixels.
pub open spec fn spec_font_units(width: nat) -> nat {
    if width <= 1920 {
        24 * 1920
    } else {
        24 * width
    }
}

/// Height in pixels of the caption band: 30 % of the image's height, rounded down.
pub open spec fn spec_band_height(height: nat) -> nat {
    height * 3 / 10
}

/// The first row of the caption band.
pub open spec fn spec_band_top(height: nat) -> nat {
    (height - spec_band_height(height)) as nat
}

/// Number of characters to a line of the body: the width divided by half the
/// font size, rounded down.
pub open spec fn spec_chars_per_line(width: nat) -> nat {
    (2 * 1920 * width) / spec_font_units(width)
}

/// Distance in pixels from the title's top to the body's top: one and a half
/// font sizes, rounded down.
pub open spec fn spec_body_offset(width: nat) -> nat {
    (3 * spec_font_units(width)) / (2 * 1920)
}

impl FontScale {
    /// The whole pixels of this size.
    pub open spec fn spec_whole_pixels(self) -> nat {
        (self.units / 1920) as nat
    }

    /// Returns the whole pixels of this size, dropping the fraction.
    pub fn whole_pixels(&self) -> (pixels: u64)
        ensures
            pixels == self.spec_whole_pixels(),
    {
        self.units / UNITS_PER_PIXEL
    }
}

/// Computes the font size for an image of `width` pixels.
///
/// It is 24 pixels up to a width of 1920, and grows in proportion above:
/// 48 pixels at 3840.
pub fn font_scale(width: u32) -> (scale: FontScale)
    ensures
        scale.units == spec_font_units(width as nat),
        scale.spec_whole_pixels() >= 24,
        width <= 1920 ==> scale.spec_whole_pixels() == 24,
{
    let wide: u64 = if width <= REFERENCE_WIDTH { REFERENCE_WIDTH as u64 } else { width as u64 };
    FontScale { units: 24 * wide }
}

/// Computes the height of the caption band of an image `height` pixels high.
pub fn band_height(height: u32) -> (band: u32)
    ensures
        band == spec_band_height(height as nat),
        band <= height,
{
    ((height as u64) * 3 / 10) as u32
}

/// Computes the first row of the caption band of an image `height` pixels high.
pub fn band_top(height: u32) -> (top: u32)
    ensures
        top == spec_band_top(height as nat),
        top <= height,
        top + spec_band_height(height as nat) == height,
{
    height - band_height(height)
}

/// Computes how many characters a line of the body may hold on an image of
/// `width` pixels. Above the reference width that is always 160.
pub fn chars_per_line(width: u32) -> (count: usize)
    ensures
        count == spec_chars_per_line(width as nat),
        width <= 1920 ==> count == width / 12,
        width > 1920 ==> count == 160,
{
    let scale = font_scale(width);
    let doubled: u64 = 3840 * (width as u64);
    let count: u64 = doubled / scale.units;
    proof {
        let w: int = width as int;
        if width <= 1920 {
            assert((3840 * w) / 46080 == w / 12) by {
                vstd::arithmetic::div_mod::lemma_div_denominator(3840 * w, 3840, 12);
                vstd::arithmetic::div_mod::lemma_div_by_multiple(w, 3840);
            }
        } else {
            assert((3840 * w) / (24 * w) == 160) by {
                vstd::arithmetic::div_mod::lemma_div_by_multiple(160, 24 * w);
                assert(160 * (24 * w) == 3840 * w) by (nonlinear_arith);
            }
        }
    }
    count as usize
}

/// Where the parts of an overlay go on an image, in pixels from its top left.
#[derive(Clone, Copy, Debug, PartialEq, Eq, Structural)]
pub struct Geometry {
    /// Size of the font, for the title and the body alike.
    pub scale: FontScale,
    /// First row of the band that is darkened.
    pub band_top: u32,
    /// Number of rows of the band, which reaches the image's last row.
    pub band_height: u32,
    /// Left edge of the title.
    pub title_x: u32,
    /// Top edge of the title.
    pub title_y: u64,
    /// Left edge of the body.
    pub body_x: u32,
    /// Top edge of the body's first line.
    pub body_y: u64,
    /// Number of characters that a line of the body may hold.
    pub chars_per_line: usize,
}

/// The geometry of an overlay on an image of `width` by `height` pixels.
pub open spec fn spec_geometry(width: nat, height: nat) -> Geometry {
    Geometry {
        scale: FontScale { units: spec_font_units(width) as u64 },
        band_top: spec_band_top(height) as u32,
        band_height: spec_band_height(height) as u32,
        title_x: 20,
        title_y: (spec_band_top(height) + 20) as u64,
        body_x: 20,
        body_y: (spec_band_top(height) + 20 + spec_body_offset(width)) as u64,
        chars_per_line: spec_chars_per_line(width) as usize,
    }
}

/// Computes where the parts of an overlay go on an image of `width` by
/// `height` pixels.
pub fn geometry(width: u32, height: u32) -> (placed: Geometry)
    ensures
        placed == spec_geometry(width as nat, height as nat),
        placed.scale.units == spec_font_units(width as nat),
        placed.band_top + placed.band_height == height,
        placed.title_y == placed.band_top + TEXT_INSET,
        placed.body_y == placed.title_y + spec_body_offset(width as nat),
        placed.chars_per_line == spec_chars_per_line(width as nat),
{
    let scale = font_scale(width);
    let top = band_top(height);
    let title_y: u64 = (top as u64) + (TEXT_INSET as u64);
    let offset: u64 = (3 * scale.units) / 3840;
    Geometry {
        scale,
        band_top: top,
        band_height: band_height(height),
        title_x: TEXT_INSET,
        title_y,
        body_x: TEXT_INSET,
        body_y: title_y + offset,
        chars_per_line: chars_per_line(width),
    }
}

/// The text of an overlay.
#[derive(Clone, Debug, PartialEq, Eq)]
pub struct OverlaySpec {
    pub title: String,
    pub body: String,
}

/// What is to be drawn on an image, and where.
#[derive(Clone, Debug, PartialEq, Eq)]
pub struct OverlayPlan {
    /// Where the parts go.
    pub geometry: Geometry,
    /// The title, on one line.
    pub title: String,
    /// The body, wrapped to `geometry.chars_per_line`.
    pub body: String,
}

/// Plans the overlay of `caption` on an image of `width` by `height` pixels:
/// the title as it is, the body wrapped to the number of characters that a
/// line holds at this width.
pub fn plan_overlay(width: u32, height: u32, caption: &OverlaySpec) -> (plan: OverlayPlan)
    ensures
        plan.geometry == spec_geometry(width as nat, height as nat),
        plan.title@ == caption.title@,
        plan.body@ == spec_wrap(caption.body@, spec_chars_per_line(width as nat)),
{
    let placed = geometry(width, height);
    OverlayPlan {
        geometry: placed,
        title: caption.title.clone(),
        body: wrap(caption.body.as_str(), placed.chars_per_line),
    }
}

} // verus!
