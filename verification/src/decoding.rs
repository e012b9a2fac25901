//! Decoding of an image file's bytes into a raster.

use crate::raster::SourceRaster;
use vstd::prelude::*;

verus! {

/// Why a file gave no image.
#[derive(Clone, Copy, Debug, PartialEq, Eq, Structural)]
pub enum DecodeError {
    /// The bytes are no image of the format that the path's extension
    /// names, or the extension names no format that is read.
    DecodeFailure,
}

/// The image that `image` decodes from `bytes` in the format that the
/// extension of `path` names, as width, height and packed 8-bit RGB bytes;
/// `None` where the bytes hold no such image.
pub uninterp spec fn decoded(path: Seq<char>, bytes: Seq<u8>) -> Option<(int, int, Seq<u8>)>;

/// `image::ImageFormat::from_path` for the format, then
/// `image::load_from_memory_with_format` and `DynamicImage::to_rgb8`, taken
/// apart into width, height and packed bytes.
///
/// What is decoded is what `image` makes of these bytes, the same whenever
/// it is asked.  Nothing is claimed of a failure: besides bytes that are no
/// image, the decoders give up where memory runs short.
#[verifier::external_body]
fn load_rgb8(path: &str, bytes: &Vec<u8>) -> (r: Result<(u32, u32, Vec<u8>), image::ImageError>)
    ensures
        r matches Ok((width, height, pixels)) ==> decoded(path@, bytes@) == Some(
            (width as int, height as int, pixels@),
        ),
{
    let format = image::ImageFormat::from_path(path)?;
    let picture = image::load_from_memory_with_format(bytes.as_slice(), format)?.to_rgb8();
    Ok((picture.width(), picture.height(), picture.into_raw()))
}

/// What decoding returns for each outcome of the decoder: the raster over
/// the decoded bytes where they fill its width and height and neither is
/// zero, and `DecodeFailure` otherwise.
pub fn decoded_raster(outcome: Result<(u32, u32, Vec<u8>), image::ImageError>) -> (r: Result<
    SourceRaster,
    DecodeError,
>)
    ensures
        match outcome {
            Ok((width, height, pixels)) => if width >= 1 && height >= 1 && pixels@.len() == width
                * height * 3 {
                r matches Ok(raster) && raster.wf() && raster.spec_width() == width
                    && raster.spec_height() == height && raster.spec_pixels() == pixels@
            } else {
                r == Err::<SourceRaster, DecodeError>(DecodeError::DecodeFailure)
            },
            Err(_) => r == Err::<SourceRaster, DecodeError>(DecodeError::DecodeFailure),
        },
{
    match outcome {
        Ok((width, height, pixels)) => match SourceRaster::new(width, height, pixels) {
            Some(raster) => Ok(raster),
            None => Err(DecodeError::DecodeFailure),
        },
        Err(_) => Err(DecodeError::DecodeFailure),
    }
}

/// The image that the bytes of the file at `path` hold, as 8-bit RGB.  The
/// format is taken from the extension of the path.
///
/// A raster that is returned is the decoded image.  Bytes that hold no
/// image, or an image with an empty side, give `DecodeFailure`.
pub fn decode_image(path: &str, bytes: &Vec<u8>) -> (r: Result<SourceRaster, DecodeError>)
    ensures
        match r {
            Ok(raster) => {
                &&& raster.wf()
                &&& decoded(path@, bytes@) == Some(
                    (raster.spec_width(), raster.spec_height(), raster.spec_pixels()),
                )
            },
            Err(e) => e == DecodeError::DecodeFailure,
        },
        decoded(path@, bytes@) is None ==> r is Err,
        decoded(path@, bytes@) matches Some((width, height, pixels)) && (width < 1 || height < 1
            || pixels.len() != width * height * 3) ==> r is Err,
{
    decoded_raster(load_rgb8(path, bytes))
}

} // verus!
