//! Viewport mapping: from source dimensions, a zoom factor and a pan offset
//! to the rectangle of the source that is shown.
//!
//! All quantities are exact rationals with denominator `2 * steps`, where
//! `steps` counts fiftieths of magnification, so no rounding happens before
//! the final floor to whole source pixels.

use vstd::prelude::*;

verus! {

/// Zoom steps that make up a magnification of exactly 1.
pub const ZOOM_UNIT: u8 = 50;

/// Smallest zoom step count, a magnification of one half.
pub const ZOOM_MIN: u8 = 25;

/// Largest zoom step count, a magnification of three.
pub const ZOOM_MAX: u8 = 150;

/// The step count of the zoom nearest to `value / 50` in the slider's
/// domain.
pub open spec fn spec_clamped_steps(value: u8) -> int {
    if value < ZOOM_MIN {
        ZOOM_MIN as int
    } else if value > ZOOM_MAX {
        ZOOM_MAX as int
    } else {
        value as int
    }
}

/// A magnification in fiftieths, always within `ZOOM_MIN..=ZOOM_MAX`.
#[derive(Clone, Copy, Debug)]
pub struct ZoomFactor {
    steps: u8,
}

impl ZoomFactor {
    /// The step count of this factor as a mathematical integer.
    pub closed spec fn spec_steps(&self) -> int {
        self.steps as int
    }

    /// Validity of a zoom factor: its step count lies in the slider's domain.
    pub open spec fn wf(&self) -> bool {
        ZOOM_MIN <= self.spec_steps() <= ZOOM_MAX
    }

    #[verifier::type_invariant]
    closed spec fn inv(&self) -> bool {
        self.wf()
    }

    /// A zoom factor of `value / 50`, or `None` outside the slider's domain.
    pub fn from_slider(value: u8) -> (r: Option<ZoomFactor>)
        ensures
            r.is_some() <==> ZOOM_MIN <= value <= ZOOM_MAX,
            r matches Some(z) ==> z.spec_steps() == value && z.wf(),
    {
        if ZOOM_MIN <= value && value <= ZOOM_MAX {
            Some(ZoomFactor { steps: value })
        } else {
            None
        }
    }

    /// The zoom factor nearest to `value / 50` within the slider's domain.
    pub fn clamped(value: u8) -> (z: ZoomFactor)
        ensures
            z.wf(),
            z.spec_steps() == spec_clamped_steps(value),
    {
        if value < ZOOM_MIN {
            ZoomFactor { steps: ZOOM_MIN }
        } else if value > ZOOM_MAX {
            ZoomFactor { steps: ZOOM_MAX }
        } else {
            ZoomFactor { steps: value }
        }
    }

    /// The factor that shows the source unmagnified.
    pub fn neutral() -> (z: ZoomFactor)
        ensures
            z.spec_steps() == ZOOM_UNIT,
            z.wf(),
    {
        ZoomFactor { steps: ZOOM_UNIT }
    }

    /// The step count, the slider value this factor was made from.
    pub fn steps(&self) -> (s: u8)
        ensures
            s == self.spec_steps(),
            ZOOM_MIN <= s <= ZOOM_MAX,
    {
        proof {
            use_type_invariant(self);
        }
        self.steps
    }
}

/// Pan in whole display pixels, accumulated over drag events.
#[derive(Clone, Copy, Debug, PartialEq, Eq, Structural)]
pub struct PanOffset {
    pub x: i32,
    pub y: i32,
}

/// `value` brought into the range of an `i32`.
pub open spec fn saturated(value: int) -> int {
    if value < i32::MIN {
        i32::MIN as int
    } else if value > i32::MAX {
        i32::MAX as int
    } else {
        value
    }
}

/// `a + b`, held within the range of an `i32`.
pub fn saturating_sum(a: i32, b: i32) -> (r: i32)
    ensures
        r == saturated(a + b),
{
    let wide: i64 = a as i64 + b as i64;
    if wide < i32::MIN as i64 {
        i32::MIN
    } else if wide > i32::MAX as i64 {
        i32::MAX
    } else {
        wide as i32
    }
}

/// `a - b`, held within the range of an `i32`.
pub fn saturating_difference(a: i32, b: i32) -> (r: i32)
    ensures
        r == saturated(a - b),
{
    let wide: i64 = a as i64 - b as i64;
    if wide < i32::MIN as i64 {
        i32::MIN
    } else if wide > i32::MAX as i64 {
        i32::MAX
    } else {
        wide as i32
    }
}

impl PanOffset {
    /// No pan at all, the offset of a freshly loaded image.
    pub fn zero() -> (p: PanOffset)
        ensures
            p == (PanOffset { x: 0, y: 0 }),
    {
        PanOffset { x: 0, y: 0 }
    }

    /// This offset moved by one drag step; each axis stops at the limits of
    /// `i32` instead of wrapping.
    pub fn translated(self, dx: i32, dy: i32) -> (p: PanOffset)
        ensures
            p.x == saturated(self.x + dx),
            p.y == saturated(self.y + dy),
    {
        PanOffset { x: saturating_sum(self.x, dx), y: saturating_sum(self.y, dy) }
    }
}

/// The part of the source that is shown, in source pixels.
#[derive(Clone, Copy, Debug, PartialEq, Eq, Structural)]
pub struct CropRectangle {
    pub x: u32,
    pub y: u32,
    pub width: u32,
    pub height: u32,
}

impl CropRectangle {
    /// The rectangle is not empty and lies inside a source of the given size.
    pub open spec fn inside(&self, source_width: int, source_height: int) -> bool {
        &&& self.width >= 1
        &&& self.height >= 1
        &&& self.x + self.width <= source_width
        &&& self.y + self.height <= source_height
    }
}

/// Numerator, over `steps`, of the logical view size `size / zoom` along one
/// axis, never less than one pixel.
pub open spec fn view_numerator(size: int, steps: int) -> int {
    if size * 50 >= steps {
        size * 50
    } else {
        steps
    }
}

/// First source pixel shown along one axis.
///
/// The view is centred on the source and moved against the drag by
/// `offset / zoom`; the corner is then held at or above zero, at or below
/// `size - view`, and rounded down.  In units of `1 / (2 * steps)` the centred
/// corner is `size * steps - view_numerator` and the drag is `100 * offset`.
pub open spec fn crop_origin(size: int, steps: int, offset: int) -> int {
    let slack = size * steps - view_numerator(size, steps);
    let wanted = slack - 100 * offset;
    let raised = if wanted < 0 { 0 } else { wanted };
    let held = if raised > 2 * slack { 2 * slack } else { raised };
    if held <= 0 {
        0
    } else {
        held / (2 * steps)
    }
}

/// Number of source pixels shown along one axis: the whole pixels of the
/// view, cut down to what the source has left after the origin.
pub open spec fn crop_extent(size: int, steps: int, offset: int) -> int {
    let whole = view_numerator(size, steps) / steps;
    let left = size - crop_origin(size, steps, offset);
    if whole < left {
        whole
    } else {
        left
    }
}

/// The crop rectangle for a source of `width` by `height` pixels.
pub open spec fn spec_crop_rectangle(
    width: int,
    height: int,
    steps: int,
    pan_x: int,
    pan_y: int,
) -> (int, int, int, int) {
    (
        crop_origin(width, steps, pan_x),
        crop_origin(height, steps, pan_y),
        crop_extent(width, steps, pan_x),
        crop_extent(height, steps, pan_y),
    )
}

proof fn lemma_products_bounded(size: int, steps: int)
    requires
        1 <= size <= u32::MAX,
        ZOOM_MIN <= steps <= ZOOM_MAX,
    ensures
        size <= size * steps <= 150 * 0xFFFF_FFFF,
        size * 50 <= 50 * 0xFFFF_FFFF,
        steps <= size * steps,
{
    assert(size * steps <= 150 * 0xFFFF_FFFF && size <= size * steps && steps <= size * steps)
        by (nonlinear_arith)
        requires
            1 <= size <= 0xFFFF_FFFF,
            25 <= steps <= 150,
    ;
}

/// Along one axis the shown range is never empty and never leaves the
/// source, whatever the drag offset.
pub proof fn lemma_axis_within_source(size: int, steps: int, offset: int)
    requires
        size >= 1,
        steps >= 1,
    ensures
        0 <= crop_origin(size, steps, offset),
        1 <= crop_extent(size, steps, offset),
        crop_origin(size, steps, offset) + crop_extent(size, steps, offset) <= size,
{
    let view = view_numerator(size, steps);
    let slack = size * steps - view;
    let origin = crop_origin(size, steps, offset);
    let whole = view / steps;
    assert(view >= steps);
    assert(whole >= 1) by (nonlinear_arith)
        requires
            view >= steps,
            steps >= 1,
            whole == view / steps,
    ;
    if slack < 0 {
        assert(origin == 0);
    } else {
        let wanted = slack - 100 * offset;
        let raised = if wanted < 0 { 0 } else { wanted };
        let held = if raised > 2 * slack { 2 * slack } else { raised };
        assert(0 <= origin && origin * (2 * steps) <= 2 * slack) by (nonlinear_arith)
            requires
                steps >= 1,
                0 <= held <= 2 * slack,
                origin == (if held <= 0 { 0 } else { held / (2 * steps) }),
        ;
        assert(origin <= size - whole) by (nonlinear_arith)
            requires
                origin * (2 * steps) <= 2 * slack,
                slack == size * steps - view,
                whole == view / steps,
                view >= steps,
                steps >= 1,
        ;
    }
}

/// Origin and extent of the shown range along one axis.
fn crop_axis(size: u32, steps: u8, offset: i32) -> (r: (u32, u32))
    requires
        size >= 1,
        ZOOM_MIN <= steps <= ZOOM_MAX,
    ensures
        r.0 == crop_origin(size as int, steps as int, offset as int),
        r.1 == crop_extent(size as int, steps as int, offset as int),
        r.1 >= 1,
        r.0 + r.1 <= size,
{
    proof {
        lemma_products_bounded(size as int, steps as int);
        lemma_axis_within_source(size as int, steps as int, offset as int);
    }
    let scaled: u64 = size as u64 * steps as u64;
    let unit: u64 = size as u64 * 50;
    let view: u64 = if unit >= steps as u64 { unit } else { steps as u64 };
    let whole: u64 = view / steps as u64;
    let origin: u64 = if view > scaled {
        0
    } else {
        let slack: u64 = scaled - view;
        let wanted: i64 = slack as i64 - 100 * (offset as i64);
        if wanted <= 0 {
            0
        } else {
            let held: u64 = if wanted as u64 > 2 * slack { 2 * slack } else { wanted as u64 };
            held / (2 * steps as u64)
        }
    };
    let left: u64 = size as u64 - origin;
    let extent: u64 = if whole < left { whole } else { left };
    (origin as u32, extent as u32)
}

/// The rectangle of a `width` by `height` source that is shown at `zoom`
/// after the content was dragged by `pan`.
///
/// The rectangle has the logical size `(width / zoom, height / zoom)`, is
/// centred on the source, moved against the drag by `pan / zoom`, and held
/// inside the source; at a zoom below one it is the whole source.
pub fn crop_rectangle(width: u32, height: u32, zoom: ZoomFactor, pan: PanOffset) -> (rect:
    CropRectangle)
    requires
        width >= 1,
        height >= 1,
    ensures
        (rect.x as int, rect.y as int, rect.width as int, rect.height as int)
            == spec_crop_rectangle(
            width as int,
            height as int,
            zoom.spec_steps(),
            pan.x as int,
            pan.y as int,
        ),
        rect.inside(width as int, height as int),
{
    let steps: u8 = zoom.steps();
    let (x, w) = crop_axis(width, steps, pan.x);
    let (y, h) = crop_axis(height, steps, pan.y);
    CropRectangle { x, y, width: w, height: h }
}

/// However far the content is dragged, at every zoom above zero (so at
/// every zoom of the slider's domain), the crop rectangle is not empty and
/// lies inside the source: `0 <= x`, `0 <= y`, `x + w <= width` and
/// `y + h <= height`.
pub proof fn law_crop_rectangle_within_source(
    width: int,
    height: int,
    steps: int,
    pan_x: int,
    pan_y: int,
)
    requires
        width >= 1,
        height >= 1,
        steps >= 1,
    ensures
        ({
            let (x, y, w, h) = spec_crop_rectangle(width, height, steps, pan_x, pan_y);
            &&& 0 <= x
            &&& 0 <= y
            &&& 1 <= w
            &&& 1 <= h
            &&& x + w <= width
            &&& y + h <= height
        }),
{
    lemma_axis_within_source(width, steps, pan_x);
    lemma_axis_within_source(height, steps, pan_y);
}

/// At the neutral zoom the crop rectangle is the whole source, wherever the
/// content was dragged.
pub proof fn law_neutral_zoom_shows_whole_source(width: int, height: int, pan_x: int, pan_y: int)
    requires
        width >= 1,
        height >= 1,
    ensures
        spec_crop_rectangle(width, height, ZOOM_UNIT as int, pan_x, pan_y) == (
            0int,
            0int,
            width,
            height,
        ),
{
    assert(view_numerator(width, 50) == width * 50);
    assert(view_numerator(height, 50) == height * 50);
    assert((width * 50) / 50 == width);
    assert((height * 50) / 50 == height);
}

/// Dragging further in one direction never moves the shown range back: the
/// origin falls, or stays, as the offset grows.
pub proof fn law_origin_follows_drag(size: int, steps: int, nearer: int, further: int)
    requires
        size >= 1,
        steps >= 1,
        nearer <= further,
    ensures
        crop_origin(size, steps, further) <= crop_origin(size, steps, nearer),
{
    let slack = size * steps - view_numerator(size, steps);
    if slack >= 0 {
        let wanted_n = slack - 100 * nearer;
        let wanted_f = slack - 100 * further;
        let raised_n = if wanted_n < 0 { 0 } else { wanted_n };
        let raised_f = if wanted_f < 0 { 0 } else { wanted_f };
        let held_n = if raised_n > 2 * slack { 2 * slack } else { raised_n };
        let held_f = if raised_f > 2 * slack { 2 * slack } else { raised_f };
        assert(held_f <= held_n);
        assert(held_f / (2 * steps) <= held_n / (2 * steps)) by (nonlinear_arith)
            requires
                0 <= held_f <= held_n,
                steps >= 1,
        ;
        assert(0 <= held_n / (2 * steps)) by (nonlinear_arith)
            requires
                0 <= held_n,
                steps >= 1,
        ;
    }
}

} // verus!
