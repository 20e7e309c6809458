//! An in-memory image: pixel data exposed by coordinate.
//!
//! Images are consumed only as pattern sources; this crate never produces
//! one.

use vstd::prelude::*;
use crate::color::Color;

verus! {

/// Pixel data addressed by coordinate: `width * height` colors in row-major
/// order.
#[derive(Debug)]
pub struct ImageData {
    width: u32,
    height: u32,
    pixels: Vec<Color>,
}

/// The mathematical value of a raster: a grid of colors, row-major.
pub struct RasterView {
    pub width: nat,
    pub height: nat,
    pub pixels: Seq<Color>,
}

impl RasterView {
    /// A well-formed raster holds exactly one color per coordinate.
    pub open spec fn wf(self) -> bool {
        self.pixels.len() == self.width * self.height
    }

    /// The color at `(x, y)`.
    pub open spec fn pixel(self, x: int, y: int) -> Color {
        self.pixels[y * self.width + x]
    }
}

impl View for ImageData {
    type V = RasterView;

    closed spec fn view(&self) -> RasterView {
        RasterView {
            width: self.width as nat,
            height: self.height as nat,
            pixels: self.pixels@,
        }
    }
}

impl ImageData {
    /// Build an image from its dimensions and row-major pixels. Succeeds
    /// exactly when the pixel count matches the dimensions.
    pub fn new(width: u32, height: u32, pixels: Vec<Color>) -> (r: Option<ImageData>)
        ensures
            match r {
                Some(img) => img@ == (RasterView {
                    width: width as nat,
                    height: height as nat,
                    pixels: pixels@,
                }) && img@.wf(),
                None => pixels@.len() != width as nat * height as nat,
            },
    {
        proof {
            assert(width as int * height as int <= 0xffff_ffff * 0xffff_ffff) by (nonlinear_arith)
                requires
                    0 <= width as int <= 0xffff_ffff,
                    0 <= height as int <= 0xffff_ffff,
            ;
        }
        let want: u64 = width as u64 * height as u64;
        if pixels.len() as u64 == want {
            Some(ImageData { width, height, pixels })
        } else {
            None
        }
    }

    /// The width in pixels.
    pub fn width(&self) -> (r: u32)
        ensures
            r as nat == self@.width,
    {
        self.width
    }

    /// The height in pixels.
    pub fn height(&self) -> (r: u32)
        ensures
            r as nat == self@.height,
    {
        self.height
    }

    /// The color at `(x, y)`.
    pub fn sample(&self, x: u32, y: u32) -> (c: Color)
        requires
            self@.wf(),
            (x as nat) < self@.width,
            (y as nat) < self@.height,
        ensures
            c == self@.pixel(x as int, y as int),
    {
        proof {
            assert(y as int * self@.width + x < self@.pixels.len()) by (nonlinear_arith)
                requires
                    self@.pixels.len() == self@.width * self@.height,
                    0 <= x as int && (x as int) < self@.width,
                    0 <= y as int && (y as int) < self@.height,
            ;
            assert(y as int * self@.width + x >= 0) by (nonlinear_arith)
                requires
                    0 <= x as int,
                    0 <= y as int,
                    0 <= self@.width,
            ;
        }
        let n = self.pixels.len();
        proof {
            assert((y as int * self@.width + x as int) < n as int);
        }
        let idx: usize = y as usize * self.width as usize + x as usize;
        self.pixels[idx]
    }
}

} // verus!
