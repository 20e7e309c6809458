//! A software surface: an image buffer of raw RGBA bytes that can be drawn
//! to through the [`Drawable`] contract.

use vstd::prelude::*;
use vstd::pervasive::VecAdditionalExecFns;
use crate::clip::Clip;
use crate::clip::ClipView;
use crate::clip::clip_allows;
use crate::clip::clip_allows_exec;
use crate::color::Color;
use crate::color::CompositeOperation;
use crate::color::composite;
use crate::color::modulate;
use crate::drawable::Drawable;
use crate::drawable::PatternView;
use crate::drawable::Raster;
use crate::drawable::spec_paint_solid;
use crate::error::Cause;
use crate::error::Error;
use crate::image::RasterView;
use crate::pattern::Pattern;
use vstd::string::StringExecFns;

verus! {

/// The cause code of an error raised because a surface's backing buffer no
/// longer matches its dimensions.
pub const CAUSE_INVALID_BUFFER: u64 = 1;

/// The cause code of an error raised because a backend does not honor the
/// requested pattern variant.
pub const CAUSE_UNSUPPORTED_PATTERN: u64 = 2;

/// The color stored at pixel `i` of a raw RGBA byte sequence.
pub open spec fn pixel_at(bytes: Seq<u8>, i: int) -> Color {
    Color { r: bytes[4 * i], g: bytes[4 * i + 1], b: bytes[4 * i + 2], a: bytes[4 * i + 3] }
}

/// The pixel grid stored in a raw RGBA byte sequence of the given
/// dimensions.
pub open spec fn raster_of_bytes(bytes: Seq<u8>, width: nat, height: nat) -> RasterView {
    RasterView {
        width,
        height,
        pixels: Seq::new(width * height, |i: int| pixel_at(bytes, i)),
    }
}

/// An image buffer that can be drawn to: `width * height` RGBA pixels, four
/// bytes each, row-major.
#[derive(Debug)]
pub struct ImageBuffer {
    /// The buffer to draw to.
    buffer: Vec<u8>,
    /// The width of the image.
    width: u32,
    /// The height of the image.
    height: u32,
}

/// Read the color of pixel `i` from a raw RGBA buffer.
fn get_pixel(buffer: &Vec<u8>, i: usize) -> (c: Color)
    requires
        4 * i + 3 < buffer@.len(),
    ensures
        c == pixel_at(buffer@, i as int),
{
    proof {
        assert(buffer.len() == buffer@.len());
    }
    Color { r: buffer[4 * i], g: buffer[4 * i + 1], b: buffer[4 * i + 2], a: buffer[4 * i + 3] }
}

/// Write the color of pixel `i` into a raw RGBA buffer, leaving every other
/// pixel as it was.
fn set_pixel(buffer: &mut Vec<u8>, i: usize, c: Color)
    requires
        4 * i + 3 < old(buffer)@.len(),
    ensures
        final(buffer)@.len() == old(buffer)@.len(),
        pixel_at(final(buffer)@, i as int) == c,
        forall|j: int|
            0 <= j && j != i && 4 * j + 3 < old(buffer)@.len() ==> pixel_at(final(buffer)@, j)
                == pixel_at(old(buffer)@, j),
{
    proof {
        assert(buffer.len() == buffer@.len());
    }
    buffer.set(4 * i, c.r);
    buffer.set(4 * i + 1, c.g);
    buffer.set(4 * i + 2, c.b);
    buffer.set(4 * i + 3, c.a);
}

impl ImageBuffer {
    /// The raw bytes currently backing the surface.
    pub closed spec fn spec_bytes(&self) -> Seq<u8> {
        self.buffer@
    }

    /// A well-formed surface has exactly four bytes per pixel.
    pub closed spec fn wf(&self) -> bool {
        self.buffer@.len() == 4 * (self.width as nat) * (self.height as nat)
    }

    /// Create a new image buffer over the given bytes. The buffer is taken
    /// as it is: drawing demands four bytes per pixel and fails otherwise.
    pub fn new(buffer: Vec<u8>, width: u32, height: u32) -> (r: ImageBuffer)
        ensures
            r.spec_bytes() == buffer@,
            r.model() == raster_of_bytes(buffer@, width as nat, height as nat),
            r.wf() <==> buffer@.len() == 4 * (width as nat) * (height as nat),
    {
        ImageBuffer { buffer, width, height }
    }

    /// The width in pixels.
    pub fn width(&self) -> (r: u32)
        ensures
            r as nat == self.model().width,
    {
        self.width
    }

    /// The height in pixels.
    pub fn height(&self) -> (r: u32)
        ensures
            r as nat == self.model().height,
    {
        self.height
    }

    /// The raw bytes backing the surface.
    pub fn bytes(&self) -> (r: &Vec<u8>)
        ensures
            r@ == self.spec_bytes(),
    {
        &self.buffer
    }

    /// Give the backing bytes back, consuming the surface.
    pub fn into_inner(self) -> (r: Vec<u8>)
        ensures
            r@ == self.spec_bytes(),
    {
        self.buffer
    }

    /// Whether the backing buffer matches the dimensions, so that drawing
    /// is honored.
    pub fn is_well_formed(&self) -> (b: bool)
        ensures
            b == self.wf(),
    {
        proof {
            assert(4 * (self.width as int) * (self.height as int) <= 4 * 0xffff_ffff
                * 0xffff_ffff) by (nonlinear_arith)
                requires
                    0 <= self.width as int <= 0xffff_ffff,
                    0 <= self.height as int <= 0xffff_ffff,
            ;
        }
        let want: u128 = 4 * (self.width as u128) * (self.height as u128);
        self.buffer.len() as u128 == want
    }

    /// Composite the given color onto every pixel the clip permits.
    fn paint_color(&mut self, op: CompositeOperation, color: Color, clip: &Clip<'_>)
        requires
            old(self).wf(),
        ensures
            final(self).wf(),
            final(self).model() == spec_paint_solid(old(self).model(), op, color, clip@),
    {
        let ghost orig = self.buffer@;
        let ghost target = spec_paint_solid(
            raster_of_bytes(orig, self.width as nat, self.height as nat),
            op,
            color,
            clip@,
        );
        let w = self.width;
        let h = self.height;
        let len = self.buffer.len();
        let n: usize = len / 4;
        proof {
            assert(len as int == 4 * (w as int) * (h as int));
            assert(4 * (w as int) * (h as int) / 4 == (w as int) * (h as int))
                by (nonlinear_arith)
            ;
            assert(target.pixels.len() == (w as nat) * (h as nat));
        }
        let mut i: usize = 0;
        while i < n
            invariant
                0 <= i <= n,
                self.width == w,
                self.height == h,
                self.buffer@.len() == orig.len(),
                orig.len() == 4 * (w as nat) * (h as nat),
                n as int == (w as int) * (h as int),
                target == spec_paint_solid(
                    raster_of_bytes(orig, w as nat, h as nat),
                    op,
                    color,
                    clip@,
                ),
                target.pixels.len() == n,
                forall|p: int| i <= p < n ==> pixel_at(self.buffer@, p) == pixel_at(orig, p),
                forall|p: int| 0 <= p < i ==> pixel_at(self.buffer@, p) == target.pixels[p],
            decreases n - i,
        {
            proof {
                assert((w as int) * (h as int) > 0);
                assert(w as int > 0 && h as int > 0) by (nonlinear_arith)
                    requires
                        (w as int) * (h as int) > 0,
                        w as int >= 0,
                        h as int >= 0,
                ;
                assert(4 * i + 3 < orig.len()) by (nonlinear_arith)
                    requires
                        0 <= i as int,
                        (i as int) < (w as int) * (h as int),
                        orig.len() == 4 * (w as nat) * (h as nat),
                ;
            }
            proof {
                assert(i as int % (w as int) < w as int && i as int / (w as int) >= 0
                    && i as int / (w as int) < h as int) by (nonlinear_arith)
                    requires
                        w as int > 0,
                        h as int > 0,
                        0 <= i as int,
                        (i as int) < (w as int) * (h as int),
                ;
            }
            let x: u32 = (i % (w as usize)) as u32;
            let y: u32 = (i / (w as usize)) as u32;
            proof {
                assert(x as int == i as int % (w as int));
                assert(y as int == i as int / (w as int));
            }
            if clip_allows_exec(clip, x, y) {
                let dst = get_pixel(&self.buffer, i);
                let src = composite(op, color, dst);
                let ghost before = self.buffer@;
                set_pixel(&mut self.buffer, i, src);
                proof {
                    assert(clip_allows(clip@, i as int % (w as int), i as int / (w as int)));
                    assert(target.pixels[i as int] == src);
                    assert forall|p: int| 0 <= p < n && p != i implies pixel_at(
                        self.buffer@,
                        p,
                    ) == pixel_at(before, p) by {
                        assert(4 * ((w as int) * (h as int)) == 4 * (w as int) * (h as int))
                            by (nonlinear_arith)
                        ;
                        assert(4 * p + 3 < before.len());
                    }
                }
            } else {
                proof {
                    assert(target.pixels[i as int] == pixel_at(orig, i as int));
                }
            }
            i += 1;
        }
        proof {
            assert(self.model().pixels =~= target.pixels);
            assert(self.model() == target);
        }
    }

    /// The error raised when the backing buffer no longer matches the
    /// dimensions.
    fn invalid_buffer_error(&self) -> (e: Error)
        ensures
            e@.shielded,
    {
        Error::from_error_with_message(
            Cause {
                code: CAUSE_INVALID_BUFFER,
                text: String::from_str("buffer length does not match the surface dimensions"),
            },
            String::from_str("image buffer is not drawable"),
        )
    }

    /// The error raised when a pattern variant is not honored by this
    /// backend.
    fn unsupported_pattern_error(&self) -> (e: Error)
        ensures
            !e@.shielded,
    {
        Error::from_public_error_with_message(
            Cause {
                code: CAUSE_UNSUPPORTED_PATTERN,
                text: String::from_str("only solid-color patterns are supported"),
            },
            String::from_str("unsupported pattern variant"),
        )
    }
}

impl Raster for ImageBuffer {
    closed spec fn model(&self) -> RasterView {
        raster_of_bytes(self.buffer@, self.width as nat, self.height as nat)
    }
}

impl Drawable for ImageBuffer {
    /// This software backend honors solid-color paints, every composite
    /// operation and every clip variant, whenever its buffer matches its
    /// dimensions.
    open spec fn supports_paint(
        &self,
        op: CompositeOperation,
        pattern: PatternView,
        clip: ClipView,
    ) -> bool {
        self.wf() && pattern is Solid
    }

    /// This software backend honors solid-color masks of solid-color
    /// paints, under the same conditions as painting.
    open spec fn supports_mask(
        &self,
        op: CompositeOperation,
        pattern: PatternView,
        mask: PatternView,
        clip: ClipView,
    ) -> bool {
        self.wf() && pattern is Solid && mask is Solid
    }

    fn paint<P: Raster>(
        &mut self,
        op: CompositeOperation,
        pattern: &mut Pattern<'_, P>,
        clip: &Clip<'_>,
    ) -> (r: Result<(), Error>) {
        if !self.is_well_formed() {
            return Err(self.invalid_buffer_error());
        }
        match pattern {
            Pattern::SolidColor(c) => {
                let color = *c;
                self.paint_color(op, color, clip);
                Ok(())
            },
            _ => Err(self.unsupported_pattern_error()),
        }
    }

    fn mask<P: Raster, Q: Raster>(
        &mut self,
        op: CompositeOperation,
        pattern: &mut Pattern<'_, P>,
        mask: &mut Pattern<'_, Q>,
        clip: &Clip<'_>,
    ) -> (r: Result<(), Error>) {
        if !self.is_well_formed() {
            return Err(self.invalid_buffer_error());
        }
        match (&*pattern, &*mask) {
            (Pattern::SolidColor(c), Pattern::SolidColor(k)) => {
                let color = *c;
                let coverage = k.a;
                self.paint_color(op, modulate(color, coverage), clip);
                Ok(())
            },
            _ => Err(self.unsupported_pattern_error()),
        }
    }
}

} // verus!
