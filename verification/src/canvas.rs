//! A canvas: a thin binder that pairs a caller's intent with a concrete
//! drawable to issue operations.
//!
//! The canvas is stateless: it imposes no contract beyond forwarding each
//! request to the drawable it binds.

use vstd::prelude::*;
use crate::clip::Clip;
use crate::color::CompositeOperation;
use crate::drawable::Drawable;
use crate::drawable::PatternView;
use crate::drawable::Raster;
use crate::drawable::spec_mask_solid;
use crate::drawable::spec_paint_solid;
use crate::error::Error;
use crate::pattern::Pattern;

verus! {

/// A context for drawing to a [`Drawable`].
pub struct Canvas<D> {
    /// The surface to draw to.
    surface: D,
}

impl<D: Drawable> Canvas<D> {
    /// The drawable this canvas binds.
    pub closed spec fn bound(&self) -> D {
        self.surface
    }

    /// Bind a drawable.
    pub fn new(surface: D) -> (r: Canvas<D>)
        ensures
            r.bound() == surface,
    {
        Canvas { surface }
    }

    /// Give the bound drawable back.
    pub fn into_inner(self) -> (r: D)
        ensures
            r == self.bound(),
    {
        self.surface
    }

    /// Forward a paint request to the bound drawable.
    pub fn paint<P: Raster>(
        &mut self,
        op: CompositeOperation,
        pattern: &mut Pattern<'_, P>,
        clip: &Clip<'_>,
    ) -> (r: Result<(), Error>)
        ensures
            r is Ok <==> old(self).bound().supports_paint(op, (*old(pattern)).model(), clip@),
            r is Err ==> final(self).bound().model() == old(self).bound().model(),
            r is Ok ==> ((*old(pattern)).model() matches PatternView::Solid(c)
                ==> final(self).bound().model() == spec_paint_solid(
                    old(self).bound().model(),
                    op,
                    c,
                    clip@,
                )),
            (*old(pattern)).model() is Solid ==> *final(pattern) == *old(pattern),
    {
        self.surface.paint(op, pattern, clip)
    }

    /// Forward a mask request to the bound drawable.
    pub fn mask<P: Raster, Q: Raster>(
        &mut self,
        op: CompositeOperation,
        pattern: &mut Pattern<'_, P>,
        mask: &mut Pattern<'_, Q>,
        clip: &Clip<'_>,
    ) -> (r: Result<(), Error>)
        ensures
            r is Ok <==> old(self).bound().supports_mask(
                op,
                (*old(pattern)).model(),
                (*old(mask)).model(),
                clip@,
            ),
            r is Err ==> final(self).bound().model() == old(self).bound().model(),
            r is Ok ==> ((*old(pattern)).model() matches PatternView::Solid(c)
                ==> ((*old(mask)).model() matches PatternView::Solid(k)
                ==> final(self).bound().model() == spec_mask_solid(
                    old(self).bound().model(),
                    op,
                    c,
                    k.a,
                    clip@,
                ))),
            (*old(pattern)).model() is Solid ==> *final(pattern) == *old(pattern),
            (*old(mask)).model() is Solid ==> *final(mask) == *old(mask),
    {
        self.surface.mask(op, pattern, mask, clip)
    }
}

} // verus!
