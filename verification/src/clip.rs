//! Clipping: the restriction on which pixels a drawing call may affect.
//!
//! A clip borrows its shape or region data for the duration of one drawing
//! call only; it owns nothing.

use vstd::prelude::*;

verus! {

/// An axis-aligned rectangle in surface pixel coordinates.
#[derive(PartialEq, Eq, Structural, Clone, Copy, Debug)]
pub struct Rect {
    pub x: u32,
    pub y: u32,
    pub width: u32,
    pub height: u32,
}

/// Whether the point `(x, y)` lies inside the rectangle.
pub open spec fn rect_contains(r: Rect, x: int, y: int) -> bool {
    &&& r.x <= x < r.x + r.width
    &&& r.y <= y < r.y + r.height
}

/// A region: the union of a set of rectangles.
#[derive(Debug)]
pub struct Region {
    pub rects: Vec<Rect>,
}

/// Whether the point `(x, y)` lies inside any rectangle of the region.
pub open spec fn region_contains(rects: Seq<Rect>, x: int, y: int) -> bool {
    exists|i: int| 0 <= i < rects.len() && rect_contains(rects[i], x, y)
}

/// A clip is a restriction that a drawing operation applies: none at all, a
/// single shape, or a region. The borrowed data must not outlive the call.
#[non_exhaustive]
pub enum Clip<'a> {
    /// Do not clip.
    Unclipped,
    /// Clip to a single shape.
    Shape(&'a Rect),
    /// Clip to a region.
    Region(&'a Region),
}

/// The mathematical value of a [`Clip`]: the same alternatives over plain
/// values.
pub enum ClipView {
    Unclipped,
    Shape(Rect),
    Region(Seq<Rect>),
}

/// Whether a clip permits the pixel `(x, y)` to be affected.
pub open spec fn clip_allows(c: ClipView, x: int, y: int) -> bool {
    match c {
        ClipView::Unclipped => true,
        ClipView::Shape(r) => rect_contains(r, x, y),
        ClipView::Region(rects) => region_contains(rects, x, y),
    }
}

impl<'a> View for Clip<'a> {
    type V = ClipView;

    open spec fn view(&self) -> ClipView {
        match self {
            Clip::Unclipped => ClipView::Unclipped,
            Clip::Shape(r) => ClipView::Shape(**r),
            Clip::Region(reg) => ClipView::Region(reg.rects@),
        }
    }
}

/// Whether the point `(x, y)` lies inside the rectangle.
pub fn rect_contains_exec(r: &Rect, x: u32, y: u32) -> (b: bool)
    ensures
        b == rect_contains(*r, x as int, y as int),
{
    let xw: u64 = x as u64;
    let yw: u64 = y as u64;
    xw >= r.x as u64 && xw < r.x as u64 + r.width as u64 && yw >= r.y as u64 && yw < r.y as u64
        + r.height as u64
}

/// Whether the point `(x, y)` lies inside any rectangle of the region.
pub fn region_contains_exec(reg: &Region, x: u32, y: u32) -> (b: bool)
    ensures
        b == region_contains(reg.rects@, x as int, y as int),
{
    let n = reg.rects.len();
    let mut i: usize = 0;
    while i < n
        invariant
            0 <= i <= n,
            n == reg.rects@.len(),
            forall|j: int| 0 <= j < i ==> !rect_contains(reg.rects@[j], x as int, y as int),
        decreases n - i,
    {
        if rect_contains_exec(&reg.rects[i], x, y) {
            return true;
        }
        i += 1;
    }
    false
}

/// Whether the clip permits the pixel `(x, y)` to be affected.
pub fn clip_allows_exec(c: &Clip<'_>, x: u32, y: u32) -> (b: bool)
    ensures
        b == clip_allows(c@, x as int, y as int),
{
    match c {
        Clip::Unclipped => true,
        Clip::Shape(r) => rect_contains_exec(r, x, y),
        Clip::Region(reg) => region_contains_exec(reg, x, y),
    }
}

} // verus!
