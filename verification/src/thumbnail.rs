//! Thumbnails: small square RGBA rasters made from a source image, the
//! flat placeholders that stand in where none can be made, and the cache
//! that keeps them by path.

use crate::path::{ascii_lowered, chars_of, extension, is_word, same_text, spec_extension};
use crate::raster::{spec_region, SourceRaster};
use crate::resampling::{resample, resampled, RenderError, ResamplingType};
use crate::viewport::CropRectangle;
use vstd::prelude::*;

verus! {

/// Side of every thumbnail, in pixels.
pub const THUMBNAIL_SIZE: u32 = 80;

/// Bytes of every thumbnail: `THUMBNAIL_SIZE` squared RGBA pixels.
pub const THUMBNAIL_BYTES: usize = 25600;

/// A thumbnail: `THUMBNAIL_SIZE` by `THUMBNAIL_SIZE` RGBA pixels, row by
/// row, four bytes per pixel.
#[derive(Debug)]
pub struct Thumbnail {
    pixels: Vec<u8>,
}

/// The bytes of a raster in which every pixel is `(r, g, b, a)`.
pub open spec fn flat_pixels(r: u8, g: u8, b: u8, a: u8) -> Seq<u8> {
    Seq::new(
        THUMBNAIL_BYTES as nat,
        |i: int|
            if i % 4 == 0 {
                r
            } else if i % 4 == 1 {
                g
            } else if i % 4 == 2 {
                b
            } else {
                a
            },
    )
}

/// Packed RGB bytes as RGBA bytes, every pixel opaque.
pub open spec fn with_alpha(rgb: Seq<u8>) -> Seq<u8> {
    Seq::new(
        (rgb.len() / 3 * 4) as nat,
        |i: int|
            if i % 4 == 3 {
                255u8
            } else {
                rgb[i / 4 * 3 + i % 4]
            },
    )
}

impl Thumbnail {
    /// The RGBA bytes of the thumbnail.
    pub closed spec fn spec_pixels(&self) -> Seq<u8> {
        self.pixels@
    }

    /// Validity of a thumbnail: its buffer has the one size there is.
    pub open spec fn wf(&self) -> bool {
        self.spec_pixels().len() == THUMBNAIL_BYTES
    }

    #[verifier::type_invariant]
    closed spec fn inv(&self) -> bool {
        self.wf()
    }

    /// A thumbnail over `pixels`, or `None` where they are not
    /// `THUMBNAIL_BYTES` many.
    pub fn new(pixels: Vec<u8>) -> (r: Option<Thumbnail>)
        ensures
            r.is_some() <==> pixels@.len() == THUMBNAIL_BYTES,
            r matches Some(t) ==> t.wf() && t.spec_pixels() == pixels@,
    {
        if pixels.len() == THUMBNAIL_BYTES {
            Some(Thumbnail { pixels })
        } else {
            None
        }
    }

    /// A thumbnail of one colour.
    pub fn flat(r: u8, g: u8, b: u8, a: u8) -> (t: Thumbnail)
        ensures
            t.wf(),
            t.spec_pixels() == flat_pixels(r, g, b, a),
    {
        let mut pixels: Vec<u8> = Vec::new();
        let mut i: usize = 0;
        while i < THUMBNAIL_BYTES
            invariant
                i <= THUMBNAIL_BYTES,
                i % 4 == 0,
                pixels@.len() == i,
                forall|j: int| 0 <= j < i ==> pixels@[j] == flat_pixels(r, g, b, a)[j],
            decreases THUMBNAIL_BYTES - i,
        {
            pixels.push(r);
            pixels.push(g);
            pixels.push(b);
            pixels.push(a);
            i += 4;
        }
        proof {
            assert(pixels@ =~= flat_pixels(r, g, b, a));
        }
        Thumbnail { pixels }
    }

    /// Width in pixels.
    pub fn width(&self) -> (w: u32)
        ensures
            w == THUMBNAIL_SIZE,
    {
        THUMBNAIL_SIZE
    }

    /// Height in pixels.
    pub fn height(&self) -> (h: u32)
        ensures
            h == THUMBNAIL_SIZE,
    {
        THUMBNAIL_SIZE
    }

    /// The RGBA bytes, `THUMBNAIL_BYTES` of them.
    pub fn pixels(&self) -> (p: &Vec<u8>)
        ensures
            p@ == self.spec_pixels(),
            p@.len() == THUMBNAIL_BYTES,
    {
        proof {
            use_type_invariant(self);
        }
        &self.pixels
    }

    /// A copy of this thumbnail.
    pub fn duplicate(&self) -> (t: Thumbnail)
        ensures
            t.wf(),
            t.spec_pixels() == self.spec_pixels(),
    {
        proof {
            use_type_invariant(self);
        }
        let mut pixels: Vec<u8> = Vec::new();
        let mut i: usize = 0;
        while i < self.pixels.len()
            invariant
                i <= self.pixels@.len(),
                pixels@ == self.pixels@.subrange(0, i as int),
            decreases self.pixels@.len() - i,
        {
            pixels.push(self.pixels[i]);
            proof {
                assert(pixels@ =~= self.pixels@.subrange(0, i + 1));
            }
            i += 1;
        }
        proof {
            assert(self.pixels@.subrange(0, self.pixels@.len() as int) =~= self.pixels@);
        }
        Thumbnail { pixels }
    }
}

/// The placeholder for a path that is no file: grey, half opaque.
pub fn missing_placeholder() -> (t: Thumbnail)
    ensures
        t.wf(),
        t.spec_pixels() == flat_pixels(200, 200, 200, 200),
{
    Thumbnail::flat(200, 200, 200, 200)
}

/// The placeholder for a file of an unsupported type: darker grey.
pub fn unsupported_placeholder() -> (t: Thumbnail)
    ensures
        t.wf(),
        t.spec_pixels() == flat_pixels(150, 150, 150, 150),
{
    Thumbnail::flat(150, 150, 150, 150)
}

/// The placeholder for an image that could not be decoded or resized:
/// light red.
pub fn failed_placeholder() -> (t: Thumbnail)
    ensures
        t.wf(),
        t.spec_pixels() == flat_pixels(255, 100, 100, 255),
{
    Thumbnail::flat(255, 100, 100, 255)
}

/// Whether a file with this extension is taken for an image, whatever the
/// case of its letters.
pub open spec fn spec_supported_extension(ext: Seq<char>) -> bool {
    let lowered = ascii_lowered(ext);
    ||| lowered == "png"@
    ||| lowered == "jpg"@
    ||| lowered == "jpeg"@
    ||| lowered == "gif"@
    ||| lowered == "bmp"@
    ||| lowered == "tiff"@
    ||| lowered == "webp"@
    ||| lowered == "svg"@
}

/// Whether the path has an extension that is taken for an image.
pub open spec fn spec_supported_path(path: Seq<char>) -> bool {
    match spec_extension(path) {
        Some(ext) => spec_supported_extension(ext),
        None => false,
    }
}

/// Whether a file with this extension is taken for an image.
pub fn is_supported_extension(ext: &str) -> (b: bool)
    ensures
        b == spec_supported_extension(ext@),
{
    proof {
        reveal_strlit("png");
        reveal_strlit("jpg");
        reveal_strlit("jpeg");
        reveal_strlit("gif");
        reveal_strlit("bmp");
        reveal_strlit("tiff");
        reveal_strlit("webp");
        reveal_strlit("svg");
        assert(ascii_lowered("png"@) =~= "png"@);
        assert(ascii_lowered("jpg"@) =~= "jpg"@);
        assert(ascii_lowered("jpeg"@) =~= "jpeg"@);
        assert(ascii_lowered("gif"@) =~= "gif"@);
        assert(ascii_lowered("bmp"@) =~= "bmp"@);
        assert(ascii_lowered("tiff"@) =~= "tiff"@);
        assert(ascii_lowered("webp"@) =~= "webp"@);
        assert(ascii_lowered("svg"@) =~= "svg"@);
    }
    let text = chars_of(ext);
    is_word(&text, "png") || is_word(&text, "jpg") || is_word(&text, "jpeg") || is_word(
        &text,
        "gif",
    ) || is_word(&text, "bmp") || is_word(&text, "tiff") || is_word(&text, "webp") || is_word(
        &text,
        "svg",
    )
}

/// What making a thumbnail for a path begins with.
#[derive(Clone, Copy, Debug, PartialEq, Eq, Structural)]
pub enum ThumbnailPlan {
    /// The path is no file: the placeholder for a missing file, without
    /// decoding.
    Missing,
    /// The file's extension is not that of an image: the placeholder for an
    /// unsupported type, without decoding.
    Unsupported,
    /// The file is to be decoded and its image made small.
    Decode,
}

/// What making a thumbnail for `path` begins with, given whether the path
/// is a file.
pub open spec fn spec_plan(path: Seq<char>, is_file: bool) -> ThumbnailPlan {
    if !is_file {
        ThumbnailPlan::Missing
    } else if !spec_supported_path(path) {
        ThumbnailPlan::Unsupported
    } else {
        ThumbnailPlan::Decode
    }
}

/// What making a thumbnail for `path` begins with.  Only `Decode` asks for
/// the file to be read.
pub fn thumbnail_plan(path: &str, is_file: bool) -> (plan: ThumbnailPlan)
    ensures
        plan == spec_plan(path@, is_file),
{
    if !is_file {
        return ThumbnailPlan::Missing;
    }
    let supported = match extension(path) {
        Some(ext) => is_supported_extension(ext.as_str()),
        None => false,
    };
    if supported {
        ThumbnailPlan::Decode
    } else {
        ThumbnailPlan::Unsupported
    }
}

/// The largest centred square of a `width` by `height` source: what a
/// square thumbnail covers, the overflow of the longer side cut off.
pub open spec fn spec_cover_rectangle(width: int, height: int) -> (int, int, int, int) {
    let side = if width < height { width } else { height };
    ((width - side) / 2, (height - side) / 2, side, side)
}

/// The largest centred square of a `width` by `height` source.
pub fn cover_rectangle(width: u32, height: u32) -> (rect: CropRectangle)
    requires
        width >= 1,
        height >= 1,
    ensures
        (rect.x as int, rect.y as int, rect.width as int, rect.height as int)
            == spec_cover_rectangle(width as int, height as int),
        rect.inside(width as int, height as int),
{
    let side: u32 = if width < height { width } else { height };
    CropRectangle { x: (width - side) / 2, y: (height - side) / 2, width: side, height: side }
}

/// The RGBA bytes of the thumbnail of a source: its cover square resampled
/// to `THUMBNAIL_SIZE` with the three-lobed Lanczos filter, every pixel
/// opaque.
pub open spec fn spec_thumbnail_pixels(pixels: Seq<u8>, width: int, height: int) -> Seq<u8> {
    let (x, y, side, _) = spec_cover_rectangle(width, height);
    with_alpha(
        resampled(
            spec_region(pixels, width, x, y, side, side),
            side,
            side,
            THUMBNAIL_SIZE as int,
            THUMBNAIL_SIZE as int,
            ResamplingType::Lanczos3,
        ),
    )
}

/// Packed RGB bytes of a whole thumbnail as RGBA bytes, every pixel opaque.
fn opaque(rgb: &Vec<u8>) -> (rgba: Vec<u8>)
    requires
        rgb@.len() == THUMBNAIL_SIZE * THUMBNAIL_SIZE * 3,
    ensures
        rgba@ == with_alpha(rgb@),
        rgba@.len() == THUMBNAIL_BYTES,
{
    let mut rgba: Vec<u8> = Vec::new();
    let mut p: usize = 0;
    while p < 6400
        invariant
            p <= 6400,
            rgb@.len() == 19200,
            rgba@.len() == 4 * p,
            forall|j: int| 0 <= j < 4 * p ==> rgba@[j] == with_alpha(rgb@)[j],
        decreases 6400 - p,
    {
        rgba.push(rgb[3 * p]);
        rgba.push(rgb[3 * p + 1]);
        rgba.push(rgb[3 * p + 2]);
        rgba.push(255);
        p += 1;
    }
    proof {
        assert(rgba@ =~= with_alpha(rgb@));
    }
    rgba
}

/// The thumbnail that a resampling pass to `THUMBNAIL_SIZE` yields: its
/// raster with every pixel opaque, or the placeholder for a failure where
/// the pass failed or gave another size.
pub fn thumbnail_from(outcome: Result<SourceRaster, RenderError>) -> (t: Thumbnail)
    ensures
        t.wf(),
        t.spec_pixels() == (match outcome {
            Ok(raster) => if raster.spec_width() == THUMBNAIL_SIZE && raster.spec_height()
                == THUMBNAIL_SIZE {
                with_alpha(raster.spec_pixels())
            } else {
                flat_pixels(255, 100, 100, 255)
            },
            Err(_) => flat_pixels(255, 100, 100, 255),
        }),
{
    match outcome {
        Ok(raster) => {
            if raster.width() == THUMBNAIL_SIZE && raster.height() == THUMBNAIL_SIZE {
                let rgba = opaque(raster.pixels());
                Thumbnail { pixels: rgba }
            } else {
                failed_placeholder()
            }
        },
        Err(_) => failed_placeholder(),
    }
}

/// The thumbnail of `source`: its cover square made `THUMBNAIL_SIZE` wide
/// and high, or the placeholder for a failure where the kernel gave up.
pub fn thumbnail_of(source: &SourceRaster) -> (t: Thumbnail)
    ensures
        t.wf(),
        t.spec_pixels() == spec_thumbnail_pixels(
            source.spec_pixels(),
            source.spec_width(),
            source.spec_height(),
        ) || t.spec_pixels() == flat_pixels(255, 100, 100, 255),
{
    let rect = cover_rectangle(source.width(), source.height());
    let region = source.region(rect);
    let outcome = resample(&region, THUMBNAIL_SIZE, THUMBNAIL_SIZE, ResamplingType::Lanczos3);
    thumbnail_from(outcome)
}

/// The thumbnail for what decoding a file gave: that of the image, or the
/// placeholder for a failure where there is none.
pub fn thumbnail_from_decode(decoded: Option<&SourceRaster>) -> (t: Thumbnail)
    ensures
        t.wf(),
        match decoded {
            Some(source) => t.spec_pixels() == spec_thumbnail_pixels(
                source.spec_pixels(),
                source.spec_width(),
                source.spec_height(),
            ) || t.spec_pixels() == flat_pixels(255, 100, 100, 255),
            None => t.spec_pixels() == flat_pixels(255, 100, 100, 255),
        },
{
    match decoded {
        Some(source) => thumbnail_of(source),
        None => failed_placeholder(),
    }
}

/// One entry of the cache.
#[derive(Debug)]
pub struct CachedThumbnail {
    path: String,
    thumbnail: Thumbnail,
}

/// Thumbnails by path.  A path is a key as it is written; nothing is ever
/// evicted.
#[derive(Debug)]
pub struct ThumbnailCache {
    entries: Vec<CachedThumbnail>,
}

/// The key of entry `i`.
spec fn key_at(entries: Seq<CachedThumbnail>, i: int) -> Seq<char> {
    entries[i].path@
}

/// Whether some entry has the key `path`.
spec fn has_key(entries: Seq<CachedThumbnail>, path: Seq<char>) -> bool {
    exists|i: int| 0 <= i < entries.len() && #[trigger] key_at(entries, i) == path
}

/// An entry with the key `path`.
spec fn index_of(entries: Seq<CachedThumbnail>, path: Seq<char>) -> int {
    choose|i: int| 0 <= i < entries.len() && #[trigger] key_at(entries, i) == path
}

/// No key occurs twice.
spec fn distinct_keys(entries: Seq<CachedThumbnail>) -> bool {
    forall|i: int, j: int|
        0 <= i < j < entries.len() ==> #[trigger] key_at(entries, i) != #[trigger] key_at(
            entries,
            j,
        )
}

impl ThumbnailCache {
    /// The cache as a map from paths to the RGBA bytes of their thumbnails.
    pub closed spec fn view(&self) -> Map<Seq<char>, Seq<u8>> {
        Map::new(
            |path: Seq<char>| has_key(self.entries@, path),
            |path: Seq<char>| self.entries@[index_of(self.entries@, path)].thumbnail.spec_pixels(),
        )
    }

    /// Validity of a cache: one entry per path, each a valid thumbnail.
    pub closed spec fn wf(&self) -> bool {
        &&& distinct_keys(self.entries@)
        &&& forall|i: int|
            0 <= i < self.entries@.len() ==> (#[trigger] self.entries@[i]).thumbnail.wf()
    }

    #[verifier::type_invariant]
    closed spec fn inv(&self) -> bool {
        self.wf()
    }

    /// An empty cache.
    pub fn new() -> (cache: ThumbnailCache)
        ensures
            cache.wf(),
            cache@ == Map::<Seq<char>, Seq<u8>>::empty(),
    {
        let cache = ThumbnailCache { entries: Vec::new() };
        proof {
            assert(cache@ =~= Map::<Seq<char>, Seq<u8>>::empty());
        }
        cache
    }

    /// The position of the entry for `path`, if there is one.
    fn position(&self, path: &str) -> (r: Option<usize>)
        ensures
            match r {
                Some(i) => i < self.entries@.len() && key_at(self.entries@, i as int) == path@,
                None => !has_key(self.entries@, path@),
            },
    {
        let mut i: usize = 0;
        while i < self.entries.len()
            invariant
                i <= self.entries@.len(),
                forall|j: int| 0 <= j < i ==> #[trigger] key_at(self.entries@, j) != path@,
            decreases self.entries@.len() - i,
        {
            if same_text(self.entries[i].path.as_str(), path) {
                return Some(i);
            }
            i += 1;
        }
        None
    }

    /// Whether a thumbnail is cached for `path`.
    pub fn contains_key(&self, path: &str) -> (b: bool)
        ensures
            b == self@.dom().contains(path@),
    {
        self.position(path).is_some()
    }

    /// The thumbnail cached for `path`, if there is one.
    pub fn get(&self, path: &str) -> (r: Option<&Thumbnail>)
        ensures
            match r {
                Some(t) => self@.dom().contains(path@) && t.spec_pixels() == self@[path@] && t.wf(),
                None => !self@.dom().contains(path@),
            },
    {
        proof {
            use_type_invariant(self);
        }
        match self.position(path) {
            Some(i) => {
                proof {
                    let chosen = index_of(self.entries@, path@);
                    assert(key_at(self.entries@, chosen) == path@);
                    assert(chosen == i);
                }
                Some(&self.entries[i].thumbnail)
            },
            None => None,
        }
    }

    /// Caches `thumbnail` for `path`, in place of what was cached for it
    /// before.
    pub fn insert(&mut self, path: String, thumbnail: Thumbnail)
        ensures
            final(self).wf(),
            final(self)@ == old(self)@.insert(path@, thumbnail.spec_pixels()),
    {
        proof {
            use_type_invariant(&*self);
            use_type_invariant(&thumbnail);
        }
        let ghost before = self.entries@;
        let ghost pixels = thumbnail.spec_pixels();
        let ghost key = path@;
        let at = self.position(path.as_str());
        let mut entries: Vec<CachedThumbnail> = Vec::new();
        core::mem::swap(&mut entries, &mut self.entries);
        match at {
            Some(i) => {
                entries.set(i, CachedThumbnail { path, thumbnail });
            },
            None => {
                entries.push(CachedThumbnail { path, thumbnail });
            },
        }
        proof {
            let after = entries@;
            let slot: int = match at {
                Some(i) => i as int,
                None => before.len() as int,
            };
            assert(key_at(after, slot) == key);
            assert forall|k: int| 0 <= k < before.len() implies #[trigger] key_at(after, k)
                == key_at(before, k) by {}
            assert(distinct_keys(after)) by {
                assert forall|a: int, b: int| 0 <= a < b < after.len() implies #[trigger] key_at(
                    after,
                    a,
                ) != #[trigger] key_at(after, b) by {
                    if b < before.len() {
                        assert(key_at(before, a) != key_at(before, b));
                    }
                }
            }
            assert forall|k: int| 0 <= k < after.len() implies (
            #[trigger] after[k]).thumbnail.wf() by {
                if k != slot {
                    assert(after[k] == before[k]);
                }
            }
        }
        self.entries = entries;
        proof {
            let after = self.entries@;
            let slot: int = match at {
                Some(i) => i as int,
                None => before.len() as int,
            };
            assert(key_at(after, slot) == key);
            assert forall|k: int| 0 <= k < before.len() implies #[trigger] key_at(after, k)
                == key_at(before, k) by {}
            let wanted = old(self)@.insert(key, pixels);
            let cached = final(self)@;
            assert forall|q: Seq<char>| #[trigger]
                cached.dom().contains(q) <==> wanted.dom().contains(q) by {
                if has_key(after, q) {
                    let j = index_of(after, q);
                    if j < before.len() {
                        assert(key_at(before, j) == key_at(after, j));
                    }
                }
                if has_key(before, q) {
                    let j = index_of(before, q);
                    assert(key_at(after, j) == q);
                }
            }
            assert forall|q: Seq<char>| #[trigger] cached.dom().contains(q) implies cached[q]
                == wanted[q] by {
                let j = index_of(after, q);
                assert(key_at(after, j) == q);
                if q == key {
                    assert(j == slot) by {
                        if j < slot {
                            assert(key_at(after, j) != key_at(after, slot));
                        } else if slot < j {
                            assert(key_at(after, slot) != key_at(after, j));
                        }
                    }
                } else {
                    assert(j != slot);
                    assert(j < before.len());
                    let j0 = index_of(before, q);
                    assert(key_at(before, j) == q);
                    assert(key_at(before, j0) == q);
                    assert(j0 == j) by {
                        if j0 < j {
                            assert(key_at(before, j0) != key_at(before, j));
                        } else if j < j0 {
                            assert(key_at(before, j) != key_at(before, j0));
                        }
                    }
                }
            }
            assert(cached =~= wanted);
        }
    }

    /// The thumbnail for `path`, made and cached where none is cached yet.
    ///
    /// A cached thumbnail is returned as it is.  Otherwise the plan for the
    /// path decides: a placeholder where the path is no file or has no image
    /// extension, whatever `decoded` holds, and else the thumbnail of the
    /// decoded image, or the placeholder for a failure.  What is returned is
    /// cached for the path.
    pub fn get_or_create(
        &mut self,
        path: &str,
        is_file: bool,
        decoded: Option<&SourceRaster>,
    ) -> (t: Thumbnail)
        ensures
            final(self).wf(),
            t.wf(),
            final(self)@ == old(self)@.insert(path@, t.spec_pixels()),
            old(self)@.dom().contains(path@) ==> t.spec_pixels() == old(self)@[path@]
                && final(self)@ == old(self)@,
            !old(self)@.dom().contains(path@) ==> match spec_plan(path@, is_file) {
                ThumbnailPlan::Missing => t.spec_pixels() == flat_pixels(200, 200, 200, 200),
                ThumbnailPlan::Unsupported => t.spec_pixels() == flat_pixels(150, 150, 150, 150),
                ThumbnailPlan::Decode => match decoded {
                    Some(source) => t.spec_pixels() == spec_thumbnail_pixels(
                        source.spec_pixels(),
                        source.spec_width(),
                        source.spec_height(),
                    ) || t.spec_pixels() == flat_pixels(255, 100, 100, 255),
                    None => t.spec_pixels() == flat_pixels(255, 100, 100, 255),
                },
            },
    {
        match self.get(path) {
            Some(cached) => {
                let copy = cached.duplicate();
                proof {
                    use_type_invariant(&*self);
                    assert(old(self)@.insert(path@, copy.spec_pixels()) =~= old(self)@);
                }
                return copy;
            },
            None => {},
        }
        let made = match thumbnail_plan(path, is_file) {
            ThumbnailPlan::Missing => missing_placeholder(),
            ThumbnailPlan::Unsupported => unsupported_placeholder(),
            ThumbnailPlan::Decode => thumbnail_from_decode(decoded),
        };
        let copy = made.duplicate();
        self.insert(path.to_owned(), made);
        copy
    }

    /// The first of `paths` for which no thumbnail is cached yet.
    pub fn first_missing(&self, paths: &Vec<String>) -> (r: Option<usize>)
        ensures
            match r {
                Some(i) => {
                    &&& i < paths@.len()
                    &&& !self@.dom().contains(paths@[i as int]@)
                    &&& forall|j: int| 0 <= j < i ==> self@.dom().contains(#[trigger] paths@[j]@)
                },
                None => forall|j: int|
                    0 <= j < paths@.len() ==> self@.dom().contains(#[trigger] paths@[j]@),
            },
    {
        let mut i: usize = 0;
        while i < paths.len()
            invariant
                i <= paths@.len(),
                forall|j: int| 0 <= j < i ==> self@.dom().contains(#[trigger] paths@[j]@),
            decreases paths@.len() - i,
        {
            if !self.contains_key(paths[i].as_str()) {
                return Some(i);
            }
            i += 1;
        }
        None
    }
}

} // verus!
