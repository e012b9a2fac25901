//! The render pipeline: from a source raster, a zoom factor, a pan offset,
//! a filter and a quality tier to an encoded buffer for display.

use crate::encoding::{encode_png, png_encoding, png_header_dimensions};
use crate::raster::{spec_region, SourceRaster};
use crate::resampling::{resample, resample_fits, resampled, RenderError, ResamplingType};
use crate::viewport::{
    crop_rectangle, spec_clamped_steps, spec_crop_rectangle, PanOffset, ZoomFactor,
};
use vstd::prelude::*;

verus! {

/// The quality class of a render pass.
#[derive(Clone, Copy, Debug, PartialEq, Eq, Structural)]
pub enum RenderTier {
    /// Fast and approximate, for the time content is being dragged.
    Preview,
    /// With the filter the user chose, once the input has come to rest.
    Final,
}

/// An encoded image, tagged with the tier of the pass that made it.
#[derive(Debug)]
pub struct RenderedBuffer {
    pub bytes: Vec<u8>,
    pub tier: RenderTier,
}

/// The filter a pass of `tier` runs with: nearest neighbour for a preview,
/// whatever was selected, and the selected filter otherwise.
pub open spec fn spec_effective_algorithm(
    algorithm: ResamplingType,
    tier: RenderTier,
) -> ResamplingType {
    match tier {
        RenderTier::Preview => ResamplingType::Point,
        RenderTier::Final => algorithm,
    }
}

/// The filter a pass of `tier` runs with.
pub fn effective_algorithm(algorithm: ResamplingType, tier: RenderTier) -> (a: ResamplingType)
    ensures
        a == spec_effective_algorithm(algorithm, tier),
{
    match tier {
        RenderTier::Preview => ResamplingType::Point,
        RenderTier::Final => algorithm,
    }
}

/// The raster of a render pass before it is encoded: the crop rectangle of
/// the viewport, cut from the source and resampled back to the source's
/// dimensions with the tier's filter.
pub open spec fn rendered_pixels(
    pixels: Seq<u8>,
    width: int,
    height: int,
    steps: int,
    pan_x: int,
    pan_y: int,
    algorithm: ResamplingType,
    tier: RenderTier,
) -> Seq<u8> {
    let (x, y, w, h) = spec_crop_rectangle(width, height, steps, pan_x, pan_y);
    resampled(
        spec_region(pixels, width, x, y, w, h),
        w,
        h,
        width,
        height,
        spec_effective_algorithm(algorithm, tier),
    )
}

/// The encoded bytes of a render pass: its raster, encoded; `None` where
/// the encoder writes no file for that raster.
pub open spec fn rendered(
    pixels: Seq<u8>,
    width: int,
    height: int,
    steps: int,
    pan_x: int,
    pan_y: int,
    algorithm: ResamplingType,
    tier: RenderTier,
) -> Option<Seq<u8>> {
    png_encoding(
        width,
        height,
        rendered_pixels(pixels, width, height, steps, pan_x, pan_y, algorithm, tier),
    )
}

impl RenderedBuffer {
    /// This buffer is what a pass over `source` with these settings gives:
    /// it carries the pass's tier and bytes, and its header declares the
    /// dimensions of the source, the size every pass renders at.
    pub open spec fn is_render_of(
        &self,
        source: &SourceRaster,
        zoom: ZoomFactor,
        pan: PanOffset,
        algorithm: ResamplingType,
        tier: RenderTier,
    ) -> bool {
        &&& self.tier == tier
        &&& rendered(
            source.spec_pixels(),
            source.spec_width(),
            source.spec_height(),
            zoom.spec_steps(),
            pan.x as int,
            pan.y as int,
            algorithm,
            tier,
        ) == Some(self.bytes@)
        &&& png_header_dimensions(self.bytes@) == Some(
            (source.spec_width(), source.spec_height()),
        )
    }
}

/// What the error of a failed pass tells of `encoded`, the file the encoder
/// writes for the pass's raster: `EncodeFailure` comes only where there is
/// no such file, so that a pass whose raster can be encoded fails with
/// `ResizeFailure` or not at all.
pub open spec fn pass_failed(error: RenderError, encoded: Option<Seq<u8>>) -> bool {
    error == RenderError::EncodeFailure ==> encoded is None
}

/// One render pass over `source`.
///
/// The viewport's crop rectangle is cut from the source and resampled to
/// the source's own dimensions, with nearest neighbour for a preview and
/// with `algorithm` otherwise; the result is encoded losslessly and tagged
/// with `tier`.  Nothing but the returned value is touched.
///
/// The pass fails with `ResizeFailure` where a raster of the source's size
/// does not fit the kernel's index arithmetic or the kernel gives up, and
/// with `EncodeFailure` exactly where the kernel gave a raster and the
/// encoder writes no file for it.
pub fn render(
    source: &SourceRaster,
    zoom: ZoomFactor,
    pan: PanOffset,
    algorithm: ResamplingType,
    tier: RenderTier,
) -> (r: Result<RenderedBuffer, RenderError>)
    ensures
        match r {
            Ok(buffer) => buffer.is_render_of(source, zoom, pan, algorithm, tier),
            Err(e) => pass_failed(
                e,
                rendered(
                    source.spec_pixels(),
                    source.spec_width(),
                    source.spec_height(),
                    zoom.spec_steps(),
                    pan.x as int,
                    pan.y as int,
                    algorithm,
                    tier,
                ),
            ),
        },
        r is Ok ==> resample_fits(source.spec_height(), source.spec_width(), source.spec_height()),
        !resample_fits(source.spec_height(), source.spec_width(), source.spec_height()) ==> r
            == Err::<RenderedBuffer, RenderError>(RenderError::ResizeFailure),
{
    let width: u32 = source.width();
    let height: u32 = source.height();
    let rect = crop_rectangle(width, height, zoom, pan);
    let region = source.region(rect);
    let filter = effective_algorithm(algorithm, tier);
    let raster = match resample(&region, width, height, filter) {
        Ok(raster) => raster,
        Err(e) => {
            proof {
                lemma_fits_by_area(
                    region.spec_height(),
                    source.spec_height(),
                    source.spec_width(),
                );
            }
            return Err(e);
        },
    };
    proof {
        lemma_fits_by_area(region.spec_height(), source.spec_height(), source.spec_width());
    }
    match encode_png(raster) {
        Ok(bytes) => Ok(RenderedBuffer { bytes, tier }),
        Err(e) => Err(e),
    }
}

/// A target as large as the source fits the kernel for every region of the
/// source exactly when it fits for the source as a whole.
proof fn lemma_fits_by_area(region_height: int, height: int, width: int)
    requires
        1 <= region_height <= height,
        1 <= width,
    ensures
        resample_fits(height, width, height) ==> resample_fits(region_height, width, height),
{
    assert(width * region_height <= width * height) by (nonlinear_arith)
        requires
            1 <= region_height <= height,
            1 <= width,
    ;
}

/// The bytes of a pass that resamples with `resample` itself: the pipeline
/// at the final tier.
pub fn crop_and_scale(
    ori: &SourceRaster,
    scale: ZoomFactor,
    offset: PanOffset,
    resample: ResamplingType,
) -> (r: Result<Vec<u8>, RenderError>)
    ensures
        match r {
            Ok(bytes) => {
                &&& rendered(
                    ori.spec_pixels(),
                    ori.spec_width(),
                    ori.spec_height(),
                    scale.spec_steps(),
                    offset.x as int,
                    offset.y as int,
                    resample,
                    RenderTier::Final,
                ) == Some(bytes@)
                &&& png_header_dimensions(bytes@) == Some((ori.spec_width(), ori.spec_height()))
            },
            Err(e) => pass_failed(
                e,
                rendered(
                    ori.spec_pixels(),
                    ori.spec_width(),
                    ori.spec_height(),
                    scale.spec_steps(),
                    offset.x as int,
                    offset.y as int,
                    resample,
                    RenderTier::Final,
                ),
            ),
        },
        !resample_fits(ori.spec_height(), ori.spec_width(), ori.spec_height()) ==> r == Err::<
            Vec<u8>,
            RenderError,
        >(RenderError::ResizeFailure),
{
    match render(ori, scale, offset, resample, RenderTier::Final) {
        Ok(buffer) => Ok(buffer.bytes),
        Err(e) => Err(e),
    }
}

/// The bytes of a pass for the zoom slider alone: the view stays centred,
/// at the zoom nearest to `slider_value / 50` in the slider's domain.  With
/// no image loaded there is nothing to render and the bytes are empty.
pub fn scale_image_async(
    ori_img: Option<&SourceRaster>,
    slider_value: u8,
    resampling_type: ResamplingType,
) -> (r: Result<Vec<u8>, RenderError>)
    ensures
        match ori_img {
            None => r matches Ok(bytes) && bytes@.len() == 0,
            Some(img) => {
                let encoded = rendered(
                    img.spec_pixels(),
                    img.spec_width(),
                    img.spec_height(),
                    spec_clamped_steps(slider_value),
                    0,
                    0,
                    resampling_type,
                    RenderTier::Final,
                );
                &&& match r {
                    Ok(bytes) => {
                        &&& encoded == Some(bytes@)
                        &&& png_header_dimensions(bytes@) == Some(
                            (img.spec_width(), img.spec_height()),
                        )
                    },
                    Err(e) => pass_failed(e, encoded),
                }
                &&& !resample_fits(img.spec_height(), img.spec_width(), img.spec_height()) ==> r
                    == Err::<Vec<u8>, RenderError>(RenderError::ResizeFailure)
            },
        },
{
    match ori_img {
        None => Ok(Vec::new()),
        Some(img) => crop_and_scale(
            img,
            ZoomFactor::clamped(slider_value),
            PanOffset::zero(),
            resampling_type,
        ),
    }
}

/// Rendering twice with the same source, zoom, pan, filter and tier gives
/// the same bytes: any two buffers of one pass are equal.
pub proof fn law_render_idempotent(
    source: SourceRaster,
    zoom: ZoomFactor,
    pan: PanOffset,
    algorithm: ResamplingType,
    tier: RenderTier,
    first: RenderedBuffer,
    second: RenderedBuffer,
)
    requires
        first.is_render_of(&source, zoom, pan, algorithm, tier),
        second.is_render_of(&source, zoom, pan, algorithm, tier),
    ensures
        first.bytes@ == second.bytes@,
        first.tier == second.tier,
{
}

/// What a rendered buffer decodes to has exactly the dimensions the pass
/// was asked for, those of the source: its header declares them.
pub proof fn law_rendered_buffer_has_target_dimensions(
    source: SourceRaster,
    zoom: ZoomFactor,
    pan: PanOffset,
    algorithm: ResamplingType,
    tier: RenderTier,
    buffer: RenderedBuffer,
)
    requires
        buffer.is_render_of(&source, zoom, pan, algorithm, tier),
    ensures
        png_header_dimensions(buffer.bytes@) == Some((source.spec_width(), source.spec_height())),
{
}

/// A preview does not depend on the selected filter: it is always the
/// nearest-neighbour pass.
pub proof fn law_preview_ignores_selected_filter(
    source: SourceRaster,
    zoom: ZoomFactor,
    pan: PanOffset,
    one: ResamplingType,
    other: ResamplingType,
    buffer: RenderedBuffer,
)
    requires
        buffer.is_render_of(&source, zoom, pan, one, RenderTier::Preview),
    ensures
        buffer.is_render_of(&source, zoom, pan, other, RenderTier::Preview),
{
}

} // verus!
