//! Patterns: the paint sources a drawing operation may use, as either the
//! primary paint or a mask.

use vstd::prelude::*;
use crate::color::Color;
use crate::drawable::Raster;
use crate::drawable::PatternView;
use crate::image::ImageData;

verus! {

/// A pattern to use as a source or mask for a drawing operation.
#[non_exhaustive]
pub enum Pattern<'a, D> {
    /// A solid color.
    SolidColor(Color),
    /// An image, borrowed for the duration of one call.
    Image(&'a ImageData),
    /// Another surface, held exclusively: painting into it to realize its
    /// pixels may itself be necessary before it can be sampled.
    Surface(D),
}

impl<'a, D: Raster> Pattern<'a, D> {
    /// The mathematical value of the pattern.
    pub open spec fn model(self) -> PatternView {
        match self {
            Pattern::SolidColor(c) => PatternView::Solid(c),
            Pattern::Image(img) => PatternView::Image(img@),
            Pattern::Surface(s) => PatternView::Surface(s.model()),
        }
    }
}

} // verus!
