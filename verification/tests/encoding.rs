use image_browser::encoding::{encode_png, encoded_bytes, encoded_dimensions};
use image_browser::raster::SourceRaster;
use image_browser::resampling::RenderError;

fn sample(width: u32, height: u32) -> SourceRaster {
    let pixels: Vec<u8> = (0..(width * height * 3)).map(|i| (i * 13 % 256) as u8).collect();
    SourceRaster::new(width, height, pixels).unwrap()
}

#[test]
fn encoded_buffer_decodes_to_the_same_raster() {
    let raster = sample(7, 5);
    let pixels = raster.pixels().clone();
    let bytes = encode_png(raster).expect("encoding into memory");
    let decoded = image::load_from_memory(&bytes).expect("a PNG file").to_rgb8();
    assert_eq!(decoded.dimensions(), (7, 5));
    assert_eq!(decoded.into_raw(), pixels);
}

#[test]
fn encoded_buffer_declares_its_dimensions() {
    for (w, h) in [(1u32, 1u32), (7, 5), (300, 2), (2, 300)] {
        let bytes = encode_png(sample(w, h)).unwrap();
        assert_eq!(encoded_dimensions(&bytes), Some((w, h)));
    }
}

#[test]
fn header_is_read_big_endian() {
    let mut bytes = vec![137u8, 80, 78, 71, 13, 10, 26, 10, 0, 0, 0, 13, 73, 72, 68, 82];
    bytes.extend_from_slice(&[0, 0, 1, 2]);
    bytes.extend_from_slice(&[1, 0, 0, 3]);
    assert_eq!(encoded_dimensions(&bytes), Some((258, 16_777_219)));
}

#[test]
fn other_bytes_declare_nothing() {
    assert_eq!(encoded_dimensions(&vec![]), None);
    assert_eq!(encoded_dimensions(&vec![137, 80, 78, 71]), None);
    assert_eq!(encoded_dimensions(&vec![0; 64]), None);
    let mut bytes = encode_png(sample(3, 3)).unwrap();
    bytes[1] = b'Q';
    assert_eq!(encoded_dimensions(&bytes), None);
    let mut short = encode_png(sample(3, 3)).unwrap();
    short.truncate(23);
    assert_eq!(encoded_dimensions(&short), None);
}

#[test]
fn empty_image_in_header_declares_nothing() {
    let mut bytes = vec![137u8, 80, 78, 71, 13, 10, 26, 10, 0, 0, 0, 13, 73, 72, 68, 82];
    bytes.extend_from_slice(&[0, 0, 0, 0]);
    bytes.extend_from_slice(&[0, 0, 0, 9]);
    assert_eq!(encoded_dimensions(&bytes), None);
}

#[test]
fn encoder_failure_is_an_encode_failure() {
    let failure = image::ImageError::IoError(std::io::Error::other("disk full"));
    assert_eq!(encoded_bytes(Err(failure)), Err(RenderError::EncodeFailure));
    assert_eq!(encoded_bytes(Ok(vec![1, 2, 3])), Ok(vec![1, 2, 3]));
}
