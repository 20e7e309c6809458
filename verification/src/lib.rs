//! A common interface for two-dimensional vector graphics.
//!
//! The crate gives callers one uniform way to draw: a [`Drawable`] capability
//! (paint and mask operations), closed [`Pattern`] and [`Clip`] alternatives
//! to describe what is painted and where, an opaque [`Error`] that keeps
//! backend-internal failure types out of the public interface, and an
//! ordered-fallback dispatch ([`ContextInit`], [`Context`], [`Surface`]) that
//! binds a display to the first backend kind that initializes successfully.

mod canvas;
mod clip;
mod color;
mod dispatch;
mod drawable;
mod error;
mod image;
mod image_buffer;
mod pattern;

pub use canvas::Canvas;
pub use clip::Clip;
pub use clip::ClipView;
pub use clip::Rect;
pub use clip::Region;
pub use clip::clip_allows;
pub use clip::clip_allows_exec;
pub use clip::rect_contains;
pub use clip::region_contains;
pub use color::Color;
pub use color::CompositeOperation;
pub use color::composite;
pub use color::modulate;
pub use color::spec_composite;
pub use color::spec_modulate;
pub use color::spec_source_over;
pub use dispatch::BackendKind;
pub use dispatch::Context;
pub use dispatch::ContextInit;
pub use dispatch::InitView;
pub use dispatch::Surface;
pub use dispatch::lemma_all_failed_keeps_last;
pub use dispatch::lemma_fallback_run;
pub use dispatch::lemma_first_success_selected;
pub use dispatch::state_after;
pub use drawable::Drawable;
pub use drawable::Raster;
pub use drawable::PatternView;
pub use drawable::lemma_mask_decomposes;
pub use drawable::lemma_paint_pixelwise;
pub use drawable::lemma_replace_order;
pub use drawable::spec_mask_solid;
pub use drawable::spec_paint_solid;
pub use error::Cause;
pub use error::CauseView;
pub use error::Error;
pub use error::ErrorView;
pub use image::ImageData;
pub use image::RasterView;
pub use image_buffer::CAUSE_INVALID_BUFFER;
pub use image_buffer::CAUSE_UNSUPPORTED_PATTERN;
pub use image_buffer::ImageBuffer;
pub use image_buffer::pixel_at;
pub use image_buffer::raster_of_bytes;
pub use pattern::Pattern;
