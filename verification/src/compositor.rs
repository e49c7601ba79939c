//! The steps of compositing that need no font: an image is decoded, its
//! caption band darkened and the caption laid out. Drawing the glyphs is the
//! caller's part; `Raster::encode_jpeg` then writes the finished canvas.

use crate::error::OverlayError;
use crate::overlay::{plan_overlay, spec_chars_per_line, spec_geometry, OverlayPlan, OverlaySpec};
use crate::raster::{decoded_image, spec_darken, Raster, RasterView};
use crate::wrap::spec_wrap;
use vstd::prelude::*;

verus! {

/// An image made ready for its caption, and where the caption goes.
#[derive(Debug)]
pub struct OverlayJob {
    /// The image with its caption band darkened.
    pub canvas: Raster,
    /// What is to be drawn on the canvas.
    pub plan: OverlayPlan,
}

/// Whether `job` is what `caption` on `image` calls for.
pub open spec fn spec_job_for(job: OverlayJob, image: RasterView, caption: OverlaySpec) -> bool {
    &&& job.canvas@ == spec_darken(image)
    &&& job.plan.geometry == spec_geometry(image.width, image.height)
    &&& job.plan.title@ == caption.title@
    &&& job.plan.body@ == spec_wrap(caption.body@, spec_chars_per_line(image.width))
}

/// Makes a decoded image ready for `caption`: darkens its band and lays the
/// caption out for its sides. The band is darkened in the same way whatever
/// the caption holds, an empty one too.
pub fn prepare_decoded(image: Raster, caption: &OverlaySpec) -> (job: OverlayJob)
    ensures
        spec_job_for(job, image@, *caption),
        job.canvas@.width == image@.width,
        job.canvas@.height == image@.height,
{
    let plan = plan_overlay(image.width(), image.height(), caption);
    OverlayJob { canvas: image.darken_band(), plan }
}

/// Decodes an image file held in memory and makes it ready for `caption`.
///
/// Fails with `DecodeError` exactly where the bytes are not an image in a
/// format that can be read.
pub fn prepare(image_bytes: &[u8], caption: &OverlaySpec) -> (job: Result<OverlayJob, OverlayError>)
    ensures
        job is Ok <==> decoded_image(image_bytes@) is Some,
        job is Err ==> job == Err::<OverlayJob, OverlayError>(OverlayError::DecodeError),
        job matches Ok(j) ==> spec_job_for(j, decoded_image(image_bytes@)->0, *caption),
{
    match Raster::decode(image_bytes) {
        Ok(image) => Ok(prepare_decoded(image, caption)),
        Err(e) => Err(e),
    }
}

/// The canvas depends on the image alone: two captions on one image, an
/// empty one too, give the same darkened canvas, with the sides of the image.
pub proof fn law_canvas_ignores_caption(
    first: OverlayJob,
    second: OverlayJob,
    image: RasterView,
    one: OverlaySpec,
    other: OverlaySpec,
)
    requires
        spec_job_for(first, image, one),
        spec_job_for(second, image, other),
    ensures
        first.canvas@ == second.canvas@,
        first.canvas@.width == image.width,
        first.canvas@.height == image.height,
        first.canvas@.pixels.len() == image.pixels.len(),
        first.plan.geometry == second.plan.geometry,
{
}

} // verus!
