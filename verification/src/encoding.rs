//! Lossless encoding of a rendered raster, and the reading of an encoded
//! buffer's dimensions from its header.

use crate::raster::SourceRaster;
use crate::resampling::RenderError;
use vstd::prelude::*;

verus! {

/// `image::ImageError`, the codec's own account of a failure.  Nothing is
/// read from it.
#[verifier::external_type_specification]
#[verifier::external_body]
pub struct ExImageError(image::ImageError);

/// The PNG file that `image` writes for a `width` by `height` raster of
/// packed RGB8 `pixels`, or `None` where it writes none.
pub uninterp spec fn png_encoding(width: int, height: int, pixels: Seq<u8>) -> Option<Seq<u8>>;

/// Length of the PNG signature and the header chunk up to its dimensions.
pub const PNG_HEADER_LEN: usize = 24;

/// The fixed bytes that open every PNG file: the signature, the length of
/// the header chunk and its name.
pub open spec fn png_preamble() -> Seq<u8> {
    seq![137u8, 80, 78, 71, 13, 10, 26, 10, 0, 0, 0, 13, 73, 72, 68, 82]
}

/// The unsigned integer that four bytes hold, the most significant first.
pub open spec fn big_endian(b0: u8, b1: u8, b2: u8, b3: u8) -> int {
    ((b0 as int * 256 + b1 as int) * 256 + b2 as int) * 256 + b3 as int
}

/// The dimensions that the header of an encoded buffer declares: `None`
/// where the buffer does not open as a PNG file or declares an empty image.
pub open spec fn png_header_dimensions(bytes: Seq<u8>) -> Option<(int, int)> {
    if bytes.len() >= 24 && bytes.subrange(0, 16) == png_preamble() {
        let width = big_endian(bytes[16], bytes[17], bytes[18], bytes[19]);
        let height = big_endian(bytes[20], bytes[21], bytes[22], bytes[23]);
        if width >= 1 && height >= 1 {
            Some((width, height))
        } else {
            None
        }
    } else {
        None
    }
}

fn read_big_endian(bytes: &Vec<u8>, at: usize) -> (v: u32)
    requires
        at + 4 <= bytes@.len(),
    ensures
        v == big_endian(bytes@[at as int], bytes@[at + 1], bytes@[at + 2], bytes@[at + 3]),
{
    let len: usize = bytes.len();
    assert(at + 4 <= len);
    let b0: u32 = bytes[at] as u32;
    let b1: u32 = bytes[at + 1] as u32;
    let b2: u32 = bytes[at + 2] as u32;
    let b3: u32 = bytes[at + 3] as u32;
    ((b0 * 256 + b1) * 256 + b2) * 256 + b3
}

/// The dimensions that an encoded buffer declares, read from its header.
pub fn encoded_dimensions(bytes: &Vec<u8>) -> (r: Option<(u32, u32)>)
    ensures
        match r {
            Some((w, h)) => png_header_dimensions(bytes@) == Some((w as int, h as int)),
            None => png_header_dimensions(bytes@) is None,
        },
{
    if bytes.len() < PNG_HEADER_LEN {
        return None;
    }
    let preamble: [u8; 16] = [137, 80, 78, 71, 13, 10, 26, 10, 0, 0, 0, 13, 73, 72, 68, 82];
    let mut i: usize = 0;
    while i < 16
        invariant
            i <= 16,
            bytes@.len() >= 24,
            preamble@ == png_preamble(),
            forall|j: int| 0 <= j < i ==> bytes@[j] == png_preamble()[j],
        decreases 16 - i,
    {
        if bytes[i] != preamble[i] {
            proof {
                assert(bytes@.subrange(0, 16)[i as int] == bytes@[i as int]);
            }
            return None;
        }
        i += 1;
    }
    proof {
        assert(bytes@.subrange(0, 16) =~= png_preamble());
    }
    let width: u32 = read_big_endian(bytes, 16);
    let height: u32 = read_big_endian(bytes, 20);
    if width >= 1 && height >= 1 {
        Some((width, height))
    } else {
        None
    }
}

/// `image::RgbImage::from_raw` followed by `ImageBuffer::write_to` with
/// `ImageFormat::Png`, into a buffer in memory.
///
/// The outcome is what `image` makes of this raster, the same whenever it
/// is asked: the bytes of the file, or a failure.  Of the bytes the contract
/// claims only the opening: the PNG signature and the header chunk with the
/// raster's width and height, which the encoder writes before anything
/// else.
#[verifier::external_body]
fn write_png_rgb8(width: u32, height: u32, pixels: Vec<u8>) -> (r: Result<
    Vec<u8>,
    image::ImageError,
>)
    requires
        width >= 1,
        height >= 1,
        pixels@.len() == width * height * 3,
    ensures
        match r {
            Ok(bytes) => {
                &&& png_encoding(width as int, height as int, pixels@) == Some(bytes@)
                &&& png_header_dimensions(bytes@) == Some((width as int, height as int))
            },
            Err(_) => png_encoding(width as int, height as int, pixels@) is None,
        },
{
    let raster = image::RgbImage::from_raw(width, height, pixels).unwrap();
    let mut bytes: Vec<u8> = Vec::new();
    raster.write_to(&mut std::io::Cursor::new(&mut bytes), image::ImageFormat::Png)?;
    Ok(bytes)
}

/// What an encoding pass returns for each outcome of the encoder: its bytes,
/// or `EncodeFailure`.
pub fn encoded_bytes(outcome: Result<Vec<u8>, image::ImageError>) -> (r: Result<
    Vec<u8>,
    RenderError,
>)
    ensures
        match outcome {
            Ok(bytes) => r matches Ok(out) && out@ == bytes@,
            Err(_) => r == Err::<Vec<u8>, RenderError>(RenderError::EncodeFailure),
        },
{
    match outcome {
        Ok(bytes) => Ok(bytes),
        Err(_) => Err(RenderError::EncodeFailure),
    }
}

/// `raster` encoded losslessly as a PNG file.
///
/// The pass succeeds exactly where the encoder writes a file for the
/// raster, and fails with `EncodeFailure` otherwise.
pub fn encode_png(raster: SourceRaster) -> (r: Result<Vec<u8>, RenderError>)
    ensures
        match r {
            Ok(bytes) => {
                &&& png_encoding(raster.spec_width(), raster.spec_height(), raster.spec_pixels())
                    == Some(bytes@)
                &&& png_header_dimensions(bytes@) == Some(
                    (raster.spec_width(), raster.spec_height()),
                )
            },
            Err(e) => {
                &&& e == RenderError::EncodeFailure
                &&& png_encoding(raster.spec_width(), raster.spec_height(), raster.spec_pixels())
                    is None
            },
        },
{
    let width: u32 = raster.width();
    let height: u32 = raster.height();
    let outcome = write_png_rgb8(width, height, raster.into_pixels());
    encoded_bytes(outcome)
}

} // verus!
