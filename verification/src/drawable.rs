//! The capability contract a surface must implement: paint and mask
//! operations, independent of backend.
//!
//! A drawable's identity is behavioral: the observable state is its pixel
//! grid, and identical sequences of honored paint/mask calls leave identical
//! grids. Within one drawable, sequential calls observe each other's
//! effects in call order. A backend that cannot honor a pattern, clip or
//! operation variant fails with an error and leaves the grid unchanged
//! rather than silently ignoring the request.

use vstd::prelude::*;
use crate::clip::Clip;
use crate::clip::ClipView;
use crate::clip::clip_allows;
use crate::color::Color;
use crate::color::CompositeOperation;
use crate::color::spec_composite;
use crate::color::spec_modulate;
use crate::error::Error;
use crate::image::RasterView;
use crate::pattern::Pattern;

verus! {

/// The mathematical value of a [`Pattern`]: a solid color, an image's
/// pixel grid, or a nested surface's pixel grid.
pub enum PatternView {
    Solid(Color),
    Image(RasterView),
    Surface(RasterView),
}

/// What painting a solid color leaves of a surface: every pixel the clip
/// permits is composited with the color under `op`; every other pixel
/// stays.
pub open spec fn spec_paint_solid(
    m: RasterView,
    op: CompositeOperation,
    color: Color,
    clip: ClipView,
) -> RasterView {
    RasterView {
        width: m.width,
        height: m.height,
        pixels: Seq::new(
            m.pixels.len(),
            |i: int|
                if clip_allows(clip, i % m.width as int, i / m.width as int) {
                    spec_composite(op, color, m.pixels[i])
                } else {
                    m.pixels[i]
                },
        ),
    }
}

/// What masking a solid color by a solid mask leaves of a surface: the
/// source's coverage is scaled by the mask's coverage at each point, then
/// composited under `op` — exactly the manual decomposition of a mask
/// call.
pub open spec fn spec_mask_solid(
    m: RasterView,
    op: CompositeOperation,
    color: Color,
    coverage: u8,
    clip: ClipView,
) -> RasterView {
    spec_paint_solid(m, op, spec_modulate(color, coverage), clip)
}

/// Law: a painted pixel is exactly the composite of the color with what
/// was there, wherever the clip permits, and untouched everywhere else —
/// so the final state of a surface is the sequential application of its
/// paint calls in call order.
pub proof fn lemma_paint_pixelwise(
    m: RasterView,
    op: CompositeOperation,
    color: Color,
    clip: ClipView,
    i: int,
)
    requires
        0 <= i < m.pixels.len(),
    ensures
        clip_allows(clip, i % m.width as int, i / m.width as int) ==> spec_paint_solid(
            m,
            op,
            color,
            clip,
        ).pixels[i] == spec_composite(op, color, m.pixels[i]),
        !clip_allows(clip, i % m.width as int, i / m.width as int) ==> spec_paint_solid(
            m,
            op,
            color,
            clip,
        ).pixels[i] == m.pixels[i],
{
}

/// Law: paint calls are order-sensitive. Replacing with `a` and then with
/// `b` over the same clip leaves `b`'s pixels wherever the clip permits —
/// the same surface as replacing with `b` alone — while the reversed order
/// leaves `a`'s pixels there. Replacing is not commutative in general.
pub proof fn lemma_replace_order(m: RasterView, a: Color, b: Color, clip: ClipView)
    ensures
        spec_paint_solid(
            spec_paint_solid(m, CompositeOperation::Replace, a, clip),
            CompositeOperation::Replace,
            b,
            clip,
        ) == spec_paint_solid(m, CompositeOperation::Replace, b, clip),
{
    let once = spec_paint_solid(m, CompositeOperation::Replace, a, clip);
    let twice = spec_paint_solid(once, CompositeOperation::Replace, b, clip);
    let direct = spec_paint_solid(m, CompositeOperation::Replace, b, clip);
    assert(twice.pixels =~= direct.pixels);
}

/// Law: a mask call is its manual decomposition: scale the pattern's
/// coverage by the mask's coverage, then paint the modulated color with
/// the same operation and clip.
pub proof fn lemma_mask_decomposes(
    m: RasterView,
    op: CompositeOperation,
    color: Color,
    coverage: u8,
    clip: ClipView,
)
    ensures
        spec_mask_solid(m, op, color, coverage, clip) == spec_paint_solid(
            m,
            op,
            spec_modulate(color, coverage),
            clip,
        ),
{
}

/// A type whose observable state is a pixel grid.
pub trait Raster: Sized {
    /// The observable pixel state.
    spec fn model(&self) -> RasterView;
}

/// A surface that can be drawn on.
pub trait Drawable: Raster {
    /// Which paint requests this backend honors.
    spec fn supports_paint(
        &self,
        op: CompositeOperation,
        pattern: PatternView,
        clip: ClipView,
    ) -> bool;

    /// Which mask requests this backend honors.
    spec fn supports_mask(
        &self,
        op: CompositeOperation,
        pattern: PatternView,
        mask: PatternView,
        clip: ClipView,
    ) -> bool;

    /// Paint a pattern to the surface: composite the pattern onto every
    /// pixel the clip permits. Fails, leaving every pixel as it was, on
    /// exactly the requests the backend does not honor.
    fn paint<P: Raster>(
        &mut self,
        op: CompositeOperation,
        pattern: &mut Pattern<'_, P>,
        clip: &Clip<'_>,
    ) -> (r: Result<(), Error>)
        ensures
            r is Ok <==> old(self).supports_paint(op, (*old(pattern)).model(), clip@),
            r is Err ==> final(self).model() == old(self).model(),
            r is Ok ==> ((*old(pattern)).model() matches PatternView::Solid(c)
                ==> final(self).model() == spec_paint_solid(old(self).model(), op, c, clip@)),
            (*old(pattern)).model() is Solid ==> *final(pattern) == *old(pattern),
    ;

    /// Paint a pattern to the surface using another pattern as a mask:
    /// the pattern's coverage is modulated by the mask's coverage at each
    /// point, then composited under `op`, restricted by the clip. Fails,
    /// leaving every pixel as it was, on exactly the requests the backend
    /// does not honor.
    fn mask<P: Raster, Q: Raster>(
        &mut self,
        op: CompositeOperation,
        pattern: &mut Pattern<'_, P>,
        mask: &mut Pattern<'_, Q>,
        clip: &Clip<'_>,
    ) -> (r: Result<(), Error>)
        ensures
            r is Ok <==> old(self).supports_mask(
                op,
                (*old(pattern)).model(),
                (*old(mask)).model(),
                clip@,
            ),
            r is Err ==> final(self).model() == old(self).model(),
            r is Ok ==> ((*old(pattern)).model() matches PatternView::Solid(c)
                ==> ((*old(mask)).model() matches PatternView::Solid(k)
                ==> final(self).model() == spec_mask_solid(old(self).model(), op, c, k.a, clip@))),
            (*old(pattern)).model() is Solid ==> *final(pattern) == *old(pattern),
            (*old(mask)).model() is Solid ==> *final(mask) == *old(mask),
    ;
}

} // verus!
