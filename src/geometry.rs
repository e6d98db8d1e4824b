//! Rectangles in pixels and fractions of a parent rectangle.
use vstd::prelude::*;

verus! {

/// The fixed-point value that stands for the fraction 1: a fraction `f` means `f / UNIT`.
pub const UNIT: u16 = 10000;

/// An axis-aligned rectangle in pixels: its top-left corner and its extent.
#[derive(Clone, Copy, Debug, PartialEq, Eq, Structural)]
pub struct Rect {
    pub x: i64,
    pub y: i64,
    pub w: u32,
    pub h: u32,
}

/// A position in pixels, such as the pointer's.
#[derive(Clone, Copy, Debug, PartialEq, Eq, Structural)]
pub struct Point {
    pub x: i64,
    pub y: i64,
}

/// Both components of a pair of fractions lie in `[0, 1]`.
pub open spec fn is_normalized(v: [u16; 2]) -> bool {
    v[0] <= UNIT && v[1] <= UNIT
}

/// `frac / UNIT` of `len`, rounded down.
pub open spec fn scale(frac: u16, len: u32) -> int {
    (frac as int * len as int) / (UNIT as int)
}

/// Left edge of the rectangle at `origin` within `parent`.
pub open spec fn layout_x(origin: [u16; 2], parent: Rect) -> int {
    scale(origin[0], parent.w) + parent.x
}

/// Top edge of the rectangle at `origin` within `parent`.
pub open spec fn layout_y(origin: [u16; 2], parent: Rect) -> int {
    scale(origin[1], parent.h) + parent.y
}

/// Width of a rectangle of `size` within `parent`.
pub open spec fn layout_w(size: [u16; 2], parent: Rect) -> int {
    scale(size[0], parent.w)
}

/// Height of a rectangle of `size` within `parent`.
pub open spec fn layout_h(size: [u16; 2], parent: Rect) -> int {
    scale(size[1], parent.h)
}

/// The rectangle that `origin` and `size` describe within `parent` can be held in a `Rect`.
pub open spec fn layout_fits(origin: [u16; 2], size: [u16; 2], parent: Rect) -> bool {
    &&& i64::MIN <= layout_x(origin, parent) <= i64::MAX
    &&& i64::MIN <= layout_y(origin, parent) <= i64::MAX
    &&& layout_w(size, parent) <= u32::MAX
    &&& layout_h(size, parent) <= u32::MAX
}

/// The rectangle that `origin` and `size`, as fractions of `parent`, describe.
pub open spec fn layout_spec(origin: [u16; 2], size: [u16; 2], parent: Rect) -> Rect {
    Rect {
        x: layout_x(origin, parent) as i64,
        y: layout_y(origin, parent) as i64,
        w: layout_w(size, parent) as u32,
        h: layout_h(size, parent) as u32,
    }
}

/// The point lies in the rectangle, edges included.
pub open spec fn contains_spec(r: Rect, p: Point) -> bool {
    &&& r.x <= p.x <= r.x + r.w
    &&& r.y <= p.y <= r.y + r.h
}

/// A normalized size never makes a rectangle larger than its parent.
pub proof fn lemma_scale_bounded(frac: u16, len: u32)
    requires
        frac <= UNIT,
    ensures
        0 <= scale(frac, len) <= len,
{
    assert(0 <= frac as int * len as int <= UNIT as int * len as int) by (nonlinear_arith)
        requires
            0 <= frac <= UNIT,
            0 <= len,
    ;
    assert((UNIT as int * len as int) / (UNIT as int) == len as int) by (nonlinear_arith);
    assert((frac as int * len as int) / (UNIT as int) <= (UNIT as int * len as int) / (UNIT as int))
        by (nonlinear_arith)
        requires
            frac as int * len as int <= UNIT as int * len as int,
    ;
}

/// A normalized size always gives a rectangle that a `Rect` can hold; only the
/// position can leave the range of pixels.
pub proof fn lemma_normalized_size_fits(size: [u16; 2], parent: Rect)
    requires
        is_normalized(size),
    ensures
        0 <= layout_w(size, parent) <= parent.w,
        0 <= layout_h(size, parent) <= parent.h,
{
    lemma_scale_bounded(size[0], parent.w);
    lemma_scale_bounded(size[1], parent.h);
}

impl Rect {
    /// A rectangle with its top-left corner at the origin.
    pub fn new(w: u32, h: u32) -> (r: Rect)
        ensures
            r == (Rect { x: 0, y: 0, w, h }),
    {
        Rect { x: 0, y: 0, w, h }
    }

    /// Whether `p` lies in this rectangle; points on an edge count as inside.
    pub fn contains(&self, p: Point) -> (r: bool)
        ensures
            r == contains_spec(*self, p),
    {
        let px = p.x as i128;
        let py = p.y as i128;
        let right = self.x as i128 + self.w as i128;
        let bottom = self.y as i128 + self.h as i128;
        px >= self.x as i128 && px <= right && py <= bottom && py >= self.y as i128
    }
}

/// `frac / UNIT` of `len`, rounded down.
pub(crate) fn scale_exec(frac: u16, len: u32) -> (r: u64)
    ensures
        r as int == scale(frac, len),
{
    assert(frac as int * len as int <= 0xffff * 0xffff_ffff) by (nonlinear_arith);
    (frac as u64 * len as u64) / (UNIT as u64)
}

/// The rectangle that `origin` and `size`, as fractions of `parent`, describe:
/// its corner is `origin * (parent.w, parent.h) + (parent.x, parent.y)` and its
/// extent `size * (parent.w, parent.h)`, each product rounded down to a pixel.
/// `None` exactly where that rectangle leaves the range of a `Rect`.
pub fn layout(origin: [u16; 2], size: [u16; 2], parent: Rect) -> (r: Option<Rect>)
    ensures
        r == (if layout_fits(origin, size, parent) {
            Some(layout_spec(origin, size, parent))
        } else {
            None::<Rect>
        }),
{
    let x = scale_exec(origin[0], parent.w) as i128 + parent.x as i128;
    let y = scale_exec(origin[1], parent.h) as i128 + parent.y as i128;
    let w = scale_exec(size[0], parent.w);
    let h = scale_exec(size[1], parent.h);
    if x < i64::MIN as i128 || x > i64::MAX as i128 || y < i64::MIN as i128 || y > i64::MAX as i128
        || w > u32::MAX as u64 || h > u32::MAX as u64 {
        None
    } else {
        Some(Rect { x: x as i64, y: y as i64, w: w as u32, h: h as u32 })
    }
}

} // verus!
