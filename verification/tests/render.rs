use image_browser::encoding::encoded_dimensions;
use image_browser::raster::SourceRaster;
use image_browser::render::{
    crop_and_scale, effective_algorithm, render, scale_image_async, RenderTier,
};
use image_browser::resampling::ResamplingType;
use image_browser::viewport::{PanOffset, ZoomFactor};

/// Four flat quadrants: red, green, blue, white.
fn quadrants(width: u32, height: u32) -> SourceRaster {
    let mut pixels = Vec::new();
    for y in 0..height {
        for x in 0..width {
            let colour: [u8; 3] = match (x < width / 2, y < height / 2) {
                (true, true) => [255, 0, 0],
                (false, true) => [0, 255, 0],
                (true, false) => [0, 0, 255],
                (false, false) => [255, 255, 255],
            };
            pixels.extend_from_slice(&colour);
        }
    }
    SourceRaster::new(width, height, pixels).unwrap()
}

fn zoom(steps: u8) -> ZoomFactor {
    ZoomFactor::from_slider(steps).unwrap()
}

fn decode(bytes: &[u8]) -> image::RgbImage {
    image::load_from_memory(bytes).expect("a PNG file").to_rgb8()
}

#[test]
fn rendered_buffer_decodes_to_target_dimensions() {
    let source = quadrants(40, 20);
    for tier in [RenderTier::Preview, RenderTier::Final] {
        for algorithm in ResamplingType::all() {
            for steps in [25u8, 50, 100, 150] {
                let buffer = render(&source, zoom(steps), PanOffset { x: 3, y: -2 }, algorithm, tier)
                    .expect("a small render");
                assert_eq!(buffer.tier, tier);
                assert_eq!(decode(&buffer.bytes).dimensions(), (40, 20));
                assert_eq!(encoded_dimensions(&buffer.bytes), Some((40, 20)));
            }
        }
    }
}

#[test]
fn rendering_twice_gives_identical_bytes() {
    let source = quadrants(31, 17);
    for tier in [RenderTier::Preview, RenderTier::Final] {
        for algorithm in ResamplingType::all() {
            let pan = PanOffset { x: -5, y: 9 };
            let first = render(&source, zoom(120), pan, algorithm, tier).unwrap();
            let second = render(&source, zoom(120), pan, algorithm, tier).unwrap();
            assert_eq!(first.bytes, second.bytes);
            assert_eq!(first.tier, second.tier);
        }
    }
}

#[test]
fn neutral_zoom_with_nearest_neighbour_is_the_source() {
    let source = quadrants(16, 12);
    let buffer = render(
        &source,
        ZoomFactor::neutral(),
        PanOffset { x: 100, y: -100 },
        ResamplingType::Point,
        RenderTier::Final,
    )
    .unwrap();
    assert_eq!(&decode(&buffer.bytes).into_raw(), source.pixels());
}

#[test]
fn double_zoom_shows_the_centre() {
    // 200 by 100 at zoom 2 shows (50, 25, 100, 50): one quarter of each
    // quadrant, so the picture is again made of the four quadrants.
    let source = quadrants(200, 100);
    let buffer = render(
        &source,
        zoom(100),
        PanOffset::zero(),
        ResamplingType::Point,
        RenderTier::Final,
    )
    .unwrap();
    let shown = decode(&buffer.bytes);
    assert_eq!(shown.dimensions(), (200, 100));
    for (x, y, colour) in [
        (0u32, 0u32, [255u8, 0, 0]),
        (90, 40, [255, 0, 0]),
        (199, 0, [0, 255, 0]),
        (110, 40, [0, 255, 0]),
        (0, 99, [0, 0, 255]),
        (90, 60, [0, 0, 255]),
        (199, 99, [255, 255, 255]),
        (110, 60, [255, 255, 255]),
    ] {
        assert_eq!(shown.get_pixel(x, y).0, colour);
    }
}

#[test]
fn drag_moves_the_shown_window() {
    // at zoom 2 a drag of 100 display pixels to the right moves the window
    // 50 source pixels to the left: (0, 25, 100, 50) holds no green or white.
    let source = quadrants(200, 100);
    let buffer = render(
        &source,
        zoom(100),
        PanOffset { x: 100, y: 0 },
        ResamplingType::Point,
        RenderTier::Final,
    )
    .unwrap();
    let shown = decode(&buffer.bytes);
    assert_eq!(shown.get_pixel(199, 10).0, [255, 0, 0]);
    assert_eq!(shown.get_pixel(199, 90).0, [0, 0, 255]);
}

#[test]
fn far_drag_shows_a_single_quadrant() {
    // dragged far to the right and down, the window sticks to the top left:
    // (0, 0, 100, 50) is all red.
    let source = quadrants(200, 100);
    let buffer = render(
        &source,
        zoom(100),
        PanOffset { x: 100_000, y: 100_000 },
        ResamplingType::Lanczos3,
        RenderTier::Final,
    )
    .unwrap();
    for pixel in decode(&buffer.bytes).into_raw().chunks(3) {
        assert_eq!(pixel, &[255, 0, 0]);
    }
}

#[test]
fn preview_runs_with_nearest_neighbour_whatever_is_selected() {
    let source = quadrants(30, 30);
    let pan = PanOffset { x: 4, y: 4 };
    let nearest = render(&source, zoom(75), pan, ResamplingType::Point, RenderTier::Final).unwrap();
    for algorithm in ResamplingType::all() {
        let preview = render(&source, zoom(75), pan, algorithm, RenderTier::Preview).unwrap();
        assert_eq!(preview.bytes, nearest.bytes);
        assert_eq!(effective_algorithm(algorithm, RenderTier::Preview), ResamplingType::Point);
        assert_eq!(effective_algorithm(algorithm, RenderTier::Final), algorithm);
    }
}

#[test]
fn final_tier_runs_with_the_selected_filter() {
    let source = quadrants(30, 30);
    let sharp = render(
        &source,
        zoom(75),
        PanOffset::zero(),
        ResamplingType::Point,
        RenderTier::Final,
    )
    .unwrap();
    let smooth = render(
        &source,
        zoom(75),
        PanOffset::zero(),
        ResamplingType::Triangle,
        RenderTier::Final,
    )
    .unwrap();
    assert_ne!(decode(&sharp.bytes).into_raw(), decode(&smooth.bytes).into_raw());
}

#[test]
fn crop_and_scale_is_the_final_pass() {
    let source = quadrants(24, 18);
    let pan = PanOffset { x: -2, y: 6 };
    for algorithm in ResamplingType::all() {
        let bytes = crop_and_scale(&source, zoom(90), pan, algorithm).unwrap();
        let buffer = render(&source, zoom(90), pan, algorithm, RenderTier::Final).unwrap();
        assert_eq!(bytes, buffer.bytes);
    }
}

#[test]
fn slider_pass_is_centred_and_clamped() {
    let source = quadrants(24, 18);
    let by_slider = scale_image_async(Some(&source), 100, ResamplingType::Catrom).unwrap();
    let by_hand =
        crop_and_scale(&source, zoom(100), PanOffset::zero(), ResamplingType::Catrom).unwrap();
    assert_eq!(by_slider, by_hand);
    let beyond = scale_image_async(Some(&source), 255, ResamplingType::Catrom).unwrap();
    let at_most =
        crop_and_scale(&source, zoom(150), PanOffset::zero(), ResamplingType::Catrom).unwrap();
    assert_eq!(beyond, at_most);
    let below = scale_image_async(Some(&source), 0, ResamplingType::Point).unwrap();
    assert_eq!(&decode(&below).into_raw(), source.pixels());
}

#[test]
fn slider_pass_without_image_is_empty() {
    assert_eq!(scale_image_async(None, 50, ResamplingType::Lanczos3), Ok(Vec::new()));
}
