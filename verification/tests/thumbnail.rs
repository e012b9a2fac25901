use image_browser::raster::SourceRaster;
use image_browser::resampling::RenderError;
use image_browser::thumbnail::{
    cover_rectangle, failed_placeholder, is_supported_extension, missing_placeholder,
    thumbnail_from, thumbnail_from_decode, thumbnail_of, thumbnail_plan, unsupported_placeholder,
    Thumbnail, ThumbnailCache, ThumbnailPlan, THUMBNAIL_BYTES, THUMBNAIL_SIZE,
};
use image_browser::viewport::CropRectangle;

fn flat_raster(width: u32, height: u32, colour: [u8; 3]) -> SourceRaster {
    let mut pixels = Vec::new();
    for _ in 0..(width * height) {
        pixels.extend_from_slice(&colour);
    }
    SourceRaster::new(width, height, pixels).unwrap()
}

fn is_flat(thumbnail: &Thumbnail, colour: [u8; 4]) -> bool {
    thumbnail.pixels().len() == THUMBNAIL_BYTES
        && thumbnail.pixels().chunks(4).all(|p| p == colour)
}

#[test]
fn thumbnail_for_txt_is_the_placeholder_without_decoding() {
    assert_eq!(thumbnail_plan("/home/me/notes.txt", true), ThumbnailPlan::Unsupported);
    let mut cache = ThumbnailCache::new();
    let shown = cache.get_or_create("/home/me/notes.txt", true, None);
    assert!(is_flat(&shown, [150, 150, 150, 150]));
    // what was decoded, had it been, plays no part
    let image = flat_raster(10, 10, [1, 2, 3]);
    let mut other = ThumbnailCache::new();
    let shown = other.get_or_create("/home/me/notes.txt", true, Some(&image));
    assert!(is_flat(&shown, [150, 150, 150, 150]));
    assert!(other.contains_key("/home/me/notes.txt"));
}

#[test]
fn plan_goes_by_file_and_extension() {
    assert_eq!(thumbnail_plan("/gone/cat.png", false), ThumbnailPlan::Missing);
    assert_eq!(thumbnail_plan("/gone/notes.txt", false), ThumbnailPlan::Missing);
    assert_eq!(thumbnail_plan("/home/cat", true), ThumbnailPlan::Unsupported);
    assert_eq!(thumbnail_plan("/home/.png", true), ThumbnailPlan::Unsupported);
    for name in
        ["a.png", "a.jpg", "a.jpeg", "a.gif", "a.bmp", "a.tiff", "a.webp", "a.svg", "a.PNG", "a.JpEg"]
    {
        assert_eq!(thumbnail_plan(name, true), ThumbnailPlan::Decode, "{name}");
    }
    for name in ["a.txt", "a.tif", "a.png.bak", "a.pngx", "a.", "png"] {
        assert_eq!(thumbnail_plan(name, true), ThumbnailPlan::Unsupported, "{name}");
    }
}

#[test]
fn supported_extensions_ignore_case() {
    for ext in ["png", "jpg", "jpeg", "gif", "bmp", "tiff", "webp", "svg", "PNG", "Gif", "WEBP"] {
        assert!(is_supported_extension(ext), "{ext}");
    }
    for ext in ["", "txt", "pn", "pngg", "jp", "heic", "tif"] {
        assert!(!is_supported_extension(ext), "{ext}");
    }
}

#[test]
fn placeholders_are_flat_and_of_the_fixed_size() {
    assert_eq!(THUMBNAIL_SIZE, 80);
    assert_eq!(THUMBNAIL_BYTES, 80 * 80 * 4);
    assert!(is_flat(&missing_placeholder(), [200, 200, 200, 200]));
    assert!(is_flat(&unsupported_placeholder(), [150, 150, 150, 150]));
    assert!(is_flat(&failed_placeholder(), [255, 100, 100, 255]));
    assert!(is_flat(&Thumbnail::flat(1, 2, 3, 4), [1, 2, 3, 4]));
    assert_eq!(missing_placeholder().width(), 80);
    assert_eq!(missing_placeholder().height(), 80);
}

#[test]
fn thumbnail_needs_the_exact_buffer() {
    assert!(Thumbnail::new(vec![0; THUMBNAIL_BYTES]).is_some());
    assert!(Thumbnail::new(vec![0; THUMBNAIL_BYTES - 1]).is_none());
    assert!(Thumbnail::new(vec![]).is_none());
}

#[test]
fn cover_rectangle_is_the_centred_square() {
    assert_eq!(cover_rectangle(200, 100), CropRectangle { x: 50, y: 0, width: 100, height: 100 });
    assert_eq!(cover_rectangle(100, 200), CropRectangle { x: 0, y: 50, width: 100, height: 100 });
    assert_eq!(cover_rectangle(80, 80), CropRectangle { x: 0, y: 0, width: 80, height: 80 });
    assert_eq!(cover_rectangle(1, 1), CropRectangle { x: 0, y: 0, width: 1, height: 1 });
    assert_eq!(cover_rectangle(5, 2), CropRectangle { x: 1, y: 0, width: 2, height: 2 });
}

#[test]
fn thumbnail_of_an_image_is_opaque_and_of_the_fixed_size() {
    let image = flat_raster(300, 120, [10, 20, 30]);
    let thumbnail = thumbnail_of(&image);
    assert!(is_flat(&thumbnail, [10, 20, 30, 255]));
}

#[test]
fn thumbnail_crops_the_overflow() {
    // left third red, middle third green, right third blue: the centred
    // square of a 300 by 100 image is all green.
    let mut pixels = Vec::new();
    for _ in 0..100 {
        for x in 0..300 {
            let colour: [u8; 3] = if x < 100 {
                [255, 0, 0]
            } else if x < 200 {
                [0, 255, 0]
            } else {
                [0, 0, 255]
            };
            pixels.extend_from_slice(&colour);
        }
    }
    let image = SourceRaster::new(300, 100, pixels).unwrap();
    assert!(is_flat(&thumbnail_of(&image), [0, 255, 0, 255]));
}

#[test]
fn failures_give_the_red_placeholder() {
    assert!(is_flat(&thumbnail_from_decode(None), [255, 100, 100, 255]));
    assert!(is_flat(&thumbnail_from(Err(RenderError::ResizeFailure)), [255, 100, 100, 255]));
    let wrong_size = flat_raster(79, 80, [1, 1, 1]);
    assert!(is_flat(&thumbnail_from(Ok(wrong_size)), [255, 100, 100, 255]));
    let right_size = flat_raster(80, 80, [9, 8, 7]);
    assert!(is_flat(&thumbnail_from(Ok(right_size)), [9, 8, 7, 255]));
}

#[test]
fn cache_creates_once_and_keeps() {
    let mut cache = ThumbnailCache::new();
    assert!(!cache.contains_key("/p/cat.png"));
    assert!(cache.get("/p/cat.png").is_none());
    let image = flat_raster(90, 90, [5, 6, 7]);
    let first = cache.get_or_create("/p/cat.png", true, Some(&image));
    assert!(is_flat(&first, [5, 6, 7, 255]));
    assert!(cache.contains_key("/p/cat.png"));
    // a second request is answered from the cache, whatever is handed in
    let other = flat_raster(90, 90, [50, 60, 70]);
    let second = cache.get_or_create("/p/cat.png", false, Some(&other));
    assert!(is_flat(&second, [5, 6, 7, 255]));
    assert!(is_flat(cache.get("/p/cat.png").unwrap(), [5, 6, 7, 255]));
}

#[test]
fn cache_keys_are_exact() {
    let mut cache = ThumbnailCache::new();
    cache.insert("/p/cat.png".to_string(), Thumbnail::flat(1, 1, 1, 1));
    assert!(cache.contains_key("/p/cat.png"));
    assert!(!cache.contains_key("/p/./cat.png"));
    assert!(!cache.contains_key("/p/CAT.png"));
    assert!(!cache.contains_key("/p/cat.png/"));
}

#[test]
fn cache_insert_replaces() {
    let mut cache = ThumbnailCache::new();
    cache.insert("a".to_string(), Thumbnail::flat(1, 1, 1, 1));
    cache.insert("b".to_string(), Thumbnail::flat(2, 2, 2, 2));
    cache.insert("a".to_string(), Thumbnail::flat(3, 3, 3, 3));
    assert!(is_flat(cache.get("a").unwrap(), [3, 3, 3, 3]));
    assert!(is_flat(cache.get("b").unwrap(), [2, 2, 2, 2]));
}

#[test]
fn cache_misses_for_missing_and_undecodable_files() {
    let mut cache = ThumbnailCache::new();
    assert!(is_flat(&cache.get_or_create("/gone.png", false, None), [200, 200, 200, 200]));
    assert!(is_flat(&cache.get_or_create("/broken.png", true, None), [255, 100, 100, 255]));
    assert!(is_flat(cache.get("/gone.png").unwrap(), [200, 200, 200, 200]));
    assert!(is_flat(cache.get("/broken.png").unwrap(), [255, 100, 100, 255]));
}

#[test]
fn first_missing_follows_the_order_of_the_paths() {
    let mut cache = ThumbnailCache::new();
    let paths = vec!["a".to_string(), "b".to_string(), "c".to_string()];
    assert_eq!(cache.first_missing(&paths), Some(0));
    cache.insert("a".to_string(), Thumbnail::flat(0, 0, 0, 0));
    cache.insert("c".to_string(), Thumbnail::flat(0, 0, 0, 0));
    assert_eq!(cache.first_missing(&paths), Some(1));
    cache.insert("b".to_string(), Thumbnail::flat(0, 0, 0, 0));
    assert_eq!(cache.first_missing(&paths), None);
    assert_eq!(cache.first_missing(&Vec::new()), None);
}

#[test]
fn duplicate_is_a_copy() {
    let t = Thumbnail::flat(4, 3, 2, 1);
    assert_eq!(t.duplicate().pixels(), t.pixels());
}
