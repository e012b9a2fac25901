use image_browser::decoding::{decode_image, decoded_raster, DecodeError};
use image_browser::encoding::encode_png;
use image_browser::raster::SourceRaster;
use image_browser::render::{render, RenderTier};
use image_browser::resampling::ResamplingType;
use image_browser::viewport::{PanOffset, ZoomFactor};

fn sample(width: u32, height: u32) -> SourceRaster {
    let pixels: Vec<u8> = (0..(width * height * 3)).map(|i| (i * 29 % 256) as u8).collect();
    SourceRaster::new(width, height, pixels).unwrap()
}

#[test]
fn encoding_then_decoding_gives_the_raster_back() {
    let raster = sample(9, 4);
    let pixels = raster.pixels().clone();
    let bytes = encode_png(raster).unwrap();
    let decoded = decode_image("/tmp/render.png", &bytes).expect("a PNG file");
    assert_eq!((decoded.width(), decoded.height()), (9, 4));
    assert_eq!(decoded.pixels(), &pixels);
}

#[test]
fn rendered_buffer_decodes_to_the_size_of_the_source() {
    let source = sample(33, 21);
    for tier in [RenderTier::Preview, RenderTier::Final] {
        let buffer = render(
            &source,
            ZoomFactor::clamped(130),
            PanOffset { x: -40, y: 12 },
            ResamplingType::Mitchell,
            tier,
        )
        .unwrap();
        let decoded = decode_image("buffer.png", &buffer.bytes).unwrap();
        assert_eq!((decoded.width(), decoded.height()), (33, 21));
    }
}

#[test]
fn format_goes_by_the_extension() {
    let bytes = encode_png(sample(3, 3)).unwrap();
    assert_eq!(decode_image("picture.jpg", &bytes).err(), Some(DecodeError::DecodeFailure));
    assert_eq!(decode_image("picture.txt", &bytes).err(), Some(DecodeError::DecodeFailure));
    assert_eq!(decode_image("picture", &bytes).err(), Some(DecodeError::DecodeFailure));
    assert!(decode_image("picture.PNG", &bytes).is_ok());
}

#[test]
fn other_bytes_are_a_decode_failure() {
    assert_eq!(decode_image("a.png", &vec![]).err(), Some(DecodeError::DecodeFailure));
    assert_eq!(decode_image("a.png", &vec![1, 2, 3, 4]).err(), Some(DecodeError::DecodeFailure));
    let mut bytes = encode_png(sample(3, 3)).unwrap();
    bytes.truncate(30);
    assert_eq!(decode_image("a.png", &bytes).err(), Some(DecodeError::DecodeFailure));
}

#[test]
fn decoder_outcomes_are_checked_for_their_shape() {
    let failure = image::ImageError::IoError(std::io::Error::other("unreadable"));
    assert_eq!(decoded_raster(Err(failure)).err(), Some(DecodeError::DecodeFailure));
    assert_eq!(decoded_raster(Ok((2, 2, vec![0; 11]))).err(), Some(DecodeError::DecodeFailure));
    assert_eq!(decoded_raster(Ok((0, 2, vec![]))).err(), Some(DecodeError::DecodeFailure));
    let raster = decoded_raster(Ok((2, 1, vec![1, 2, 3, 4, 5, 6]))).unwrap();
    assert_eq!((raster.width(), raster.height()), (2, 1));
    assert_eq!(raster.pixels(), &vec![1, 2, 3, 4, 5, 6]);
}
