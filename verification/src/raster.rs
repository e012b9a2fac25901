//! Packed 8-bit RGB rasters and the extraction of a rectangle from one.

use crate::viewport::CropRectangle;
use vstd::arithmetic::div_mod::lemma_fundamental_div_mod_converse;
use vstd::prelude::*;

verus! {

/// Bytes per pixel of a packed RGB raster.
pub const CHANNELS: usize = 3;

/// An 8-bit RGB pixel grid, row by row, three bytes per pixel.
///
/// A raster is never empty and its buffer holds exactly
/// `width * height * 3` bytes.
#[derive(Debug)]
pub struct SourceRaster {
    width: u32,
    height: u32,
    pixels: Vec<u8>,
}

/// The bytes of the `rw` by `rh` rectangle at `(x, y)` of a packed RGB grid
/// that is `width` pixels wide: byte `i` of the result lies in row
/// `i / (3 * rw)` of the rectangle, `i % (3 * rw)` bytes into it.
pub open spec fn spec_region(pixels: Seq<u8>, width: int, x: int, y: int, rw: int, rh: int) -> Seq<
    u8,
> {
    Seq::new(
        (rw * rh * 3) as nat,
        |i: int| pixels[((y + i / (3 * rw)) * width + x) * 3 + i % (3 * rw)],
    )
}

impl SourceRaster {
    /// Width in pixels.
    pub closed spec fn spec_width(&self) -> int {
        self.width as int
    }

    /// Height in pixels.
    pub closed spec fn spec_height(&self) -> int {
        self.height as int
    }

    /// The packed bytes, row by row.
    pub closed spec fn spec_pixels(&self) -> Seq<u8> {
        self.pixels@
    }

    /// Validity of a raster: no empty side, and a buffer of the exact length.
    pub open spec fn wf(&self) -> bool {
        &&& 1 <= self.spec_width() <= u32::MAX
        &&& 1 <= self.spec_height() <= u32::MAX
        &&& self.spec_pixels().len() == self.spec_width() * self.spec_height() * 3
    }

    #[verifier::type_invariant]
    closed spec fn inv(&self) -> bool {
        self.wf()
    }

    /// A raster over `pixels`, or `None` where a side is zero or the buffer
    /// does not hold exactly `width * height * 3` bytes.
    pub fn new(width: u32, height: u32, pixels: Vec<u8>) -> (r: Option<SourceRaster>)
        ensures
            r.is_some() <==> (width >= 1 && height >= 1 && pixels@.len() == width * height * 3),
            r matches Some(raster) ==> {
                &&& raster.wf()
                &&& raster.spec_width() == width
                &&& raster.spec_height() == height
                &&& raster.spec_pixels() == pixels@
            },
    {
        if width == 0 || height == 0 {
            return None;
        }
        assert(width * height <= 0xFFFF_FFFF * 0xFFFF_FFFF) by (nonlinear_arith)
            requires
                width <= 0xFFFF_FFFF,
                height <= 0xFFFF_FFFF,
        ;
        let area: u64 = width as u64 * height as u64;
        let held: usize = pixels.len();
        if area > (u64::MAX / 3) {
            return None;
        }
        let wanted: u64 = area * 3;
        if held as u64 == wanted {
            Some(SourceRaster { width, height, pixels })
        } else {
            None
        }
    }

    /// Width in pixels, at least 1.
    pub fn width(&self) -> (w: u32)
        ensures
            w == self.spec_width(),
            w >= 1,
    {
        proof {
            use_type_invariant(self);
        }
        self.width
    }

    /// Height in pixels, at least 1.
    pub fn height(&self) -> (h: u32)
        ensures
            h == self.spec_height(),
            h >= 1,
    {
        proof {
            use_type_invariant(self);
        }
        self.height
    }

    /// The packed bytes, `width * height * 3` of them.
    pub fn pixels(&self) -> (p: &Vec<u8>)
        ensures
            p@ == self.spec_pixels(),
            p@.len() == self.spec_width() * self.spec_height() * 3,
    {
        proof {
            use_type_invariant(self);
        }
        &self.pixels
    }

    /// The pixels of `rect`, as a raster of their own.
    pub fn region(&self, rect: CropRectangle) -> (r: SourceRaster)
        requires
            rect.inside(self.spec_width(), self.spec_height()),
        ensures
            r.wf(),
            r.spec_width() == rect.width,
            r.spec_height() == rect.height,
            r.spec_pixels() == spec_region(
                self.spec_pixels(),
                self.spec_width(),
                rect.x as int,
                rect.y as int,
                rect.width as int,
                rect.height as int,
            ),
    {
        proof {
            use_type_invariant(self);
            lemma_region_fits(
                self.width as int,
                self.height as int,
                rect.x as int,
                rect.y as int,
                rect.width as int,
                rect.height as int,
                0,
                0,
            );
        }
        let total: usize = self.pixels.len();
        let width: usize = self.width as usize;
        let x: usize = rect.x as usize;
        let y: usize = rect.y as usize;
        let rows: usize = rect.height as usize;
        let row_len: usize = rect.width as usize * 3;
        let mut out: Vec<u8> = Vec::new();
        let mut row: usize = 0;
        while row < rows
            invariant
                self.wf(),
                rect.inside(self.spec_width(), self.spec_height()),
                width == self.width,
                total == self.width * self.height * 3,
                self.pixels@.len() == total,
                x == rect.x,
                y == rect.y,
                rows == rect.height,
                row_len == rect.width * 3,
                row <= rows,
                out@.len() == row * row_len,
                forall|j: int|
                    0 <= j < out@.len() ==> out@[j] == self.pixels@[((y + j / (row_len as int))
                        * width + x) * 3 + j % (row_len as int)],
            decreases rows - row,
        {
            proof {
                lemma_region_fits(
                    width as int,
                    self.height as int,
                    x as int,
                    y as int,
                    rect.width as int,
                    rows as int,
                    row as int,
                    0,
                );
            }
            let start: usize = ((y + row) * width + x) * 3;
            let mut k: usize = 0;
            while k < row_len
                invariant
                    self.wf(),
                    rect.inside(self.spec_width(), self.spec_height()),
                    width == self.width,
                    total == self.width * self.height * 3,
                    self.pixels@.len() == total,
                    x == rect.x,
                    y == rect.y,
                    rows == rect.height,
                    row_len == rect.width * 3,
                    row < rows,
                    k <= row_len,
                    start == ((y + row) * width + x) * 3,
                    out@.len() == row * row_len + k,
                    forall|j: int|
                        0 <= j < out@.len() ==> out@[j] == self.pixels@[((y + j / (
                        row_len as int)) * width + x) * 3 + j % (row_len as int)],
                decreases row_len - k,
            {
                proof {
                    lemma_region_fits(
                        width as int,
                        self.height as int,
                        x as int,
                        y as int,
                        rect.width as int,
                        rows as int,
                        row as int,
                        k as int,
                    );
                    lemma_fundamental_div_mod_converse(
                        row * row_len + k,
                        row_len as int,
                        row as int,
                        k as int,
                    );
                }
                out.push(self.pixels[start + k]);
                k += 1;
            }
            proof {
                assert((row + 1) * row_len == row * row_len + row_len) by (nonlinear_arith);
            }
            row += 1;
        }
        proof {
            assert(rect.width * rect.height * 3 == rows * row_len) by (nonlinear_arith)
                requires
                    rows == rect.height,
                    row_len == rect.width * 3,
            ;
            assert(out@ =~= spec_region(
                self.pixels@,
                self.width as int,
                rect.x as int,
                rect.y as int,
                rect.width as int,
                rect.height as int,
            ));
        }
        SourceRaster { width: rect.width, height: rect.height, pixels: out }
    }

    /// The raster given up for its buffer.
    pub fn into_pixels(self) -> (p: Vec<u8>)
        ensures
            p@ == self.spec_pixels(),
            p@.len() == self.spec_width() * self.spec_height() * 3,
    {
        proof {
            use_type_invariant(&self);
        }
        self.pixels
    }
}

/// Byte `k` of row `row` of a rectangle inside a `width` by `height` grid
/// lies inside the grid's buffer, and so does the end of that row.
proof fn lemma_region_fits(
    width: int,
    height: int,
    x: int,
    y: int,
    rw: int,
    rh: int,
    row: int,
    k: int,
)
    requires
        0 <= x,
        0 <= y,
        1 <= rw,
        1 <= rh,
        x + rw <= width,
        y + rh <= height,
        0 <= row < rh,
        0 <= k < 3 * rw,
    ensures
        0 <= ((y + row) * width + x) * 3 + k < width * height * 3,
        0 <= (y + row) * width <= ((y + row) * width + x) * 3,
        rw * 3 <= width * height * 3,
{
    assert((y + row) * width + width <= height * width && 0 <= (y + row) * width)
        by (nonlinear_arith)
        requires
            0 <= y + row,
            y + row + 1 <= height,
            width >= 0,
    ;
    assert(width <= width * height) by (nonlinear_arith)
        requires
            width >= 0,
            height >= 1,
    ;
}

} // verus!
