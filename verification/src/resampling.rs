//! The resampling kernel: a packed RGB raster resized to given dimensions
//! with a chosen interpolation filter.

use crate::raster::SourceRaster;
use vstd::prelude::*;

verus! {

/// The interpolation filter of a resampling pass.
#[derive(Clone, Copy, Debug, PartialEq, Eq, Structural)]
pub enum ResamplingType {
    /// Nearest neighbour: the fastest, with blocky results.
    Point,
    /// Bilinear.
    Triangle,
    /// Catmull-Rom cubic.
    Catrom,
    /// Mitchell-Netravali cubic.
    Mitchell,
    /// Sinc windowed by sinc, three lobes.
    Lanczos3,
}

impl ResamplingType {
    /// The display name of the filter.
    pub open spec fn spec_name(&self) -> Seq<char> {
        match self {
            ResamplingType::Point => "Point"@,
            ResamplingType::Triangle => "Triangle"@,
            ResamplingType::Catrom => "Catrom"@,
            ResamplingType::Mitchell => "Mitchell"@,
            ResamplingType::Lanczos3 => "Lanczos3"@,
        }
    }

    /// The display name of the filter.
    pub fn name(&self) -> (n: &'static str)
        ensures
            n@ == self.spec_name(),
    {
        match self {
            ResamplingType::Point => "Point",
            ResamplingType::Triangle => "Triangle",
            ResamplingType::Catrom => "Catrom",
            ResamplingType::Mitchell => "Mitchell",
            ResamplingType::Lanczos3 => "Lanczos3",
        }
    }

    /// Every filter, from the fastest to the most costly.
    pub fn all() -> (v: Vec<ResamplingType>)
        ensures
            v@ == seq![
                ResamplingType::Point,
                ResamplingType::Triangle,
                ResamplingType::Catrom,
                ResamplingType::Mitchell,
                ResamplingType::Lanczos3,
            ],
    {
        let v = vec![
            ResamplingType::Point,
            ResamplingType::Triangle,
            ResamplingType::Catrom,
            ResamplingType::Mitchell,
            ResamplingType::Lanczos3,
        ];
        assert(v@ =~= seq![
            ResamplingType::Point,
            ResamplingType::Triangle,
            ResamplingType::Catrom,
            ResamplingType::Mitchell,
            ResamplingType::Lanczos3,
        ]);
        v
    }
}

/// Why a render pass produced no buffer.
#[derive(Clone, Copy, Debug, PartialEq, Eq, Structural)]
pub enum RenderError {
    /// The resampling kernel gave no raster of the target size.
    ResizeFailure,
    /// The resampled raster could not be encoded.
    EncodeFailure,
}

/// `resize::Error`, the kernel's own account of a failure.  Nothing is read
/// from it.
#[verifier::external_type_specification]
#[verifier::external_body]
pub struct ExResizeError(resize::Error);

/// The packed RGB bytes that `resize` computes when it resamples `pixels`,
/// a `src_width` by `src_height` raster, to `dst_width` by `dst_height` with
/// the filter of `algorithm`.
pub uninterp spec fn resampled(
    pixels: Seq<u8>,
    src_width: int,
    src_height: int,
    dst_width: int,
    dst_height: int,
    algorithm: ResamplingType,
) -> Seq<u8>;

/// The sizes that the kernel's index arithmetic can hold on this machine:
/// the target buffer, and the products it forms to split its work.
pub open spec fn resample_fits(src_height: int, dst_width: int, dst_height: int) -> bool {
    &&& dst_width * dst_height * 3 <= usize::MAX
    &&& dst_width * dst_width <= usize::MAX
    &&& dst_width * src_height <= usize::MAX
}

/// `resize::new` followed by `Resizer::resize`, on packed RGB8 bytes viewed
/// as pixels through `rgb::FromSlice`.
///
/// On success the buffer handed in is returned, overwritten with the
/// resampled pixels: the contract names those bytes and claims nothing of the
/// filters' arithmetic.  The sizes are required to agree because `resize`
/// refuses buffers of another length, and to fit because it multiplies them
/// unchecked.  A failure is the kernel running out of memory.
#[verifier::external_body]
fn resize_rgb8(
    pixels: &Vec<u8>,
    src_width: usize,
    src_height: usize,
    dst_width: usize,
    dst_height: usize,
    algorithm: ResamplingType,
    mut target: Vec<u8>,
) -> (r: Result<Vec<u8>, resize::Error>)
    requires
        1 <= src_width <= u32::MAX,
        1 <= src_height <= u32::MAX,
        1 <= dst_width <= u32::MAX,
        1 <= dst_height <= u32::MAX,
        pixels@.len() == src_width * src_height * 3,
        target@.len() == dst_width * dst_height * 3,
        resample_fits(src_height as int, dst_width as int, dst_height as int),
    ensures
        r matches Ok(out) ==> out@.len() == dst_width * dst_height * 3 && out@ == resampled(
            pixels@,
            src_width as int,
            src_height as int,
            dst_width as int,
            dst_height as int,
            algorithm,
        ),
{
    let filter = match algorithm {
        ResamplingType::Point => resize::Type::Point,
        ResamplingType::Triangle => resize::Type::Triangle,
        ResamplingType::Catrom => resize::Type::Catrom,
        ResamplingType::Mitchell => resize::Type::Mitchell,
        ResamplingType::Lanczos3 => resize::Type::Lanczos3,
    };
    let format = resize::Pixel::RGB8;
    let mut resizer = resize::new(src_width, src_height, dst_width, dst_height, format, filter)?;
    let source = rgb::FromSlice::as_rgb(pixels.as_slice());
    resizer.resize(source, rgb::FromSlice::as_rgb_mut(target.as_mut_slice()))?;
    Ok(target)
}

/// What a resampling pass returns for each outcome of the kernel: the
/// raster over the bytes it produced where they fill `width` by `height`
/// pixels, and `ResizeFailure` otherwise.
pub fn resampled_raster(outcome: Result<Vec<u8>, resize::Error>, width: u32, height: u32) -> (r:
    Result<SourceRaster, RenderError>)
    ensures
        match outcome {
            Ok(bytes) => if width >= 1 && height >= 1 && bytes@.len() == width * height * 3 {
                r matches Ok(raster) && raster.wf() && raster.spec_width() == width
                    && raster.spec_height() == height && raster.spec_pixels() == bytes@
            } else {
                r == Err::<SourceRaster, RenderError>(RenderError::ResizeFailure)
            },
            Err(_) => r == Err::<SourceRaster, RenderError>(RenderError::ResizeFailure),
        },
{
    match outcome {
        Ok(bytes) => match SourceRaster::new(width, height, bytes) {
            Some(raster) => Ok(raster),
            None => Err(RenderError::ResizeFailure),
        },
        Err(_) => Err(RenderError::ResizeFailure),
    }
}

/// Whether a target of these dimensions fits the kernel on this machine.
fn check_fits(src_height: u32, dst_width: u32, dst_height: u32) -> (b: bool)
    ensures
        b == resample_fits(src_height as int, dst_width as int, dst_height as int),
{
    assert(dst_width * dst_height <= 0xFFFF_FFFF * 0xFFFF_FFFF && dst_width * dst_width
        <= 0xFFFF_FFFF * 0xFFFF_FFFF && dst_width * src_height <= 0xFFFF_FFFF * 0xFFFF_FFFF)
        by (nonlinear_arith)
        requires
            dst_width <= 0xFFFF_FFFF,
            dst_height <= 0xFFFF_FFFF,
            src_height <= 0xFFFF_FFFF,
    ;
    let limit: u128 = usize::MAX as u128;
    let area: u128 = dst_width as u128 * dst_height as u128;
    let square: u128 = dst_width as u128 * dst_width as u128;
    let mixed: u128 = dst_width as u128 * src_height as u128;
    area * 3 <= limit && square <= limit && mixed <= limit
}

/// `region` resampled to exactly `dst_width` by `dst_height` pixels with the
/// filter of `algorithm`.
///
/// The pass fails with `ResizeFailure` where the target does not fit this
/// machine's index arithmetic, and where the kernel itself gives up.
pub fn resample(
    region: &SourceRaster,
    dst_width: u32,
    dst_height: u32,
    algorithm: ResamplingType,
) -> (r: Result<SourceRaster, RenderError>)
    requires
        dst_width >= 1,
        dst_height >= 1,
    ensures
        match r {
            Ok(raster) => {
                &&& resample_fits(region.spec_height(), dst_width as int, dst_height as int)
                &&& raster.wf()
                &&& raster.spec_width() == dst_width
                &&& raster.spec_height() == dst_height
                &&& raster.spec_pixels() == resampled(
                    region.spec_pixels(),
                    region.spec_width(),
                    region.spec_height(),
                    dst_width as int,
                    dst_height as int,
                    algorithm,
                )
            },
            Err(e) => e == RenderError::ResizeFailure,
        },
{
    if !check_fits(region.height(), dst_width, dst_height) {
        return Err(RenderError::ResizeFailure);
    }
    let target: Vec<u8> = vec![0u8; dst_width as usize * dst_height as usize * 3];
    let outcome = resize_rgb8(
        region.pixels(),
        region.width() as usize,
        region.height() as usize,
        dst_width as usize,
        dst_height as usize,
        algorithm,
        target,
    );
    resampled_raster(outcome, dst_width, dst_height)
}

} // verus!
