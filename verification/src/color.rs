//! Colors and the composite operations that combine them.
//!
//! A color is straight-alpha RGBA with eight bits per channel. A composite
//! operation is the rule for combining a source pattern's color with a
//! destination pixel's existing color; the math here is exact integer
//! arithmetic, with the one division of each formula taken last and rounded
//! toward zero.

use vstd::prelude::*;

verus! {

/// An eight-bit straight-alpha RGBA color value.
#[derive(PartialEq, Eq, Structural, Clone, Copy, Debug)]
pub struct Color {
    pub r: u8,
    pub g: u8,
    pub b: u8,
    pub a: u8,
}

impl Color {
    /// Build a color from its four channels.
    pub fn new(r: u8, g: u8, b: u8, a: u8) -> (c: Color)
        ensures
            c == (Color { r, g, b, a }),
    {
        Color { r, g, b, a }
    }
}

/// The rule for combining a source color with a destination pixel's
/// existing color.
#[derive(PartialEq, Eq, Structural, Clone, Copy, Debug)]
pub enum CompositeOperation {
    /// The source replaces the destination outright.
    Replace,
    /// The source is drawn over the destination, weighted by its alpha.
    SourceOver,
}

/// The alpha that source-over compositing leaves behind:
/// the source's alpha plus whatever the destination's alpha kept of the
/// remaining coverage.
pub open spec fn over_alpha(sa: int, da: int) -> int {
    sa + da * (255 - sa) / 255
}

/// One color channel of source-over compositing: the source and destination
/// channels weighted by their respective coverage, normalized by the total
/// coverage. A total coverage of zero leaves an empty (zero) channel.
pub open spec fn over_channel(sc: int, dc: int, sa: int, da: int) -> int {
    let den = sa * 255 + da * (255 - sa);
    if den == 0 {
        0
    } else {
        (sc * sa * 255 + dc * da * (255 - sa)) / den
    }
}

/// Source-over compositing of two colors.
pub open spec fn spec_source_over(src: Color, dst: Color) -> Color {
    Color {
        r: over_channel(src.r as int, dst.r as int, src.a as int, dst.a as int) as u8,
        g: over_channel(src.g as int, dst.g as int, src.a as int, dst.a as int) as u8,
        b: over_channel(src.b as int, dst.b as int, src.a as int, dst.a as int) as u8,
        a: over_alpha(src.a as int, dst.a as int) as u8,
    }
}

/// What a composite operation makes of a source color and a destination
/// pixel's existing color.
pub open spec fn spec_composite(op: CompositeOperation, src: Color, dst: Color) -> Color {
    match op {
        CompositeOperation::Replace => src,
        CompositeOperation::SourceOver => spec_source_over(src, dst),
    }
}

/// A source color with its coverage scaled by a mask's coverage: the alpha
/// shrinks, the color channels stay.
pub open spec fn spec_modulate(src: Color, coverage: u8) -> Color {
    Color { r: src.r, g: src.g, b: src.b, a: (src.a as int * coverage as int / 255) as u8 }
}

/// A product of bounded non-negative factors stays under the product of the
/// bounds.
proof fn lemma_mul_bounds(a: int, b: int, amax: int, bmax: int)
    requires
        0 <= a <= amax,
        0 <= b <= bmax,
    ensures
        0 <= a * b <= amax * bmax,
{
    assert(0 <= a * b <= amax * bmax) by (nonlinear_arith)
        requires
            0 <= a <= amax,
            0 <= b <= bmax,
    ;
}

/// The product of two channel values stays under the square of the channel
/// maximum.
proof fn lemma_mul_channel_bound(a: int, b: int)
    requires
        0 <= a <= 255,
        0 <= b <= 255,
    ensures
        0 <= a * b <= 255 * 255,
{
    lemma_mul_bounds(a, b, 255, 255);
}

/// Source-over alpha stays a channel value.
pub proof fn lemma_over_alpha_bounds(sa: int, da: int)
    requires
        0 <= sa <= 255,
        0 <= da <= 255,
    ensures
        0 <= over_alpha(sa, da) <= 255,
{
    lemma_mul_channel_bound(da, 255 - sa);
    assert(da * (255 - sa) <= 255 * (255 - sa)) by (nonlinear_arith)
        requires
            0 <= da <= 255,
            0 <= 255 - sa,
    ;
    assert(da * (255 - sa) / 255 <= 255 * (255 - sa) / 255);
    assert(255 * (255 - sa) / 255 == 255 - sa) by (nonlinear_arith)
        requires
            0 <= sa <= 255,
    ;
}

/// Each source-over channel stays a channel value.
pub proof fn lemma_over_channel_bounds(sc: int, dc: int, sa: int, da: int)
    requires
        0 <= sc <= 255,
        0 <= dc <= 255,
        0 <= sa <= 255,
        0 <= da <= 255,
    ensures
        0 <= over_channel(sc, dc, sa, da) <= 255,
{
    let den = sa * 255 + da * (255 - sa);
    let num = sc * sa * 255 + dc * da * (255 - sa);
    lemma_mul_channel_bound(da, 255 - sa);
    if den != 0 {
        assert(num <= 255 * den) by (nonlinear_arith)
            requires
                0 <= sc <= 255,
                0 <= dc <= 255,
                0 <= sa <= 255,
                0 <= da <= 255,
                den == sa * 255 + da * (255 - sa),
                num == sc * sa * 255 + dc * da * (255 - sa),
        ;
        assert(0 <= num) by (nonlinear_arith)
            requires
                0 <= sc,
                0 <= sa,
                0 <= dc,
                0 <= da,
                da * (255 - sa) >= 0,
                num == sc * sa * 255 + dc * da * (255 - sa),
        ;
        vstd::arithmetic::div_mod::lemma_div_is_ordered(num, 255 * den, den);
        assert(255 * den / den == 255) by (nonlinear_arith)
            requires
                den > 0,
        ;
    }
}

/// One color channel of source-over compositing, as executable arithmetic.
fn over_channel_exec(sc: u8, dc: u8, sa: u8, da: u8) -> (r: u8)
    ensures
        r as int == over_channel(sc as int, dc as int, sa as int, da as int),
{
    let scw: u64 = sc as u64;
    let dcw: u64 = dc as u64;
    let saw: u64 = sa as u64;
    let daw: u64 = da as u64;
    proof {
        lemma_mul_channel_bound(daw as int, 255 - saw as int);
        lemma_mul_channel_bound(scw as int, saw as int);
        lemma_mul_channel_bound(dcw as int, daw as int);
        lemma_mul_bounds(scw as int * saw as int, 255int, (255 * 255) as int, 255int);
        lemma_mul_bounds(dcw as int, daw as int * (255 - saw as int), 255int, (255 * 255) as int);
        assert(dcw as int * (daw as int * (255 - saw as int)) <= 255 * (255 * 255))
            by (nonlinear_arith)
            requires
                0 <= dcw as int <= 255,
                0 <= daw as int * (255 - saw as int) <= 255 * 255,
        ;
        assert(scw as int * saw as int * 255 <= 255 * 255 * 255) by (nonlinear_arith)
            requires
                0 <= scw as int * saw as int <= 255 * 255,
        ;
        lemma_over_channel_bounds(sc as int, dc as int, sa as int, da as int);
    }
    let den: u64 = saw * 255 + daw * (255 - saw);
    if den == 0 {
        0
    } else {
        let num: u64 = scw * saw * 255 + dcw * (daw * (255 - saw));
        proof {
            assert(num as int == scw as int * saw as int * 255 + dcw as int * (daw as int * (255
                - saw as int)));
            assert(dcw as int * (daw as int * (255 - saw as int)) == dcw as int * daw as int * (255
                - saw as int)) by (nonlinear_arith);
        }
        (num / den) as u8
    }
}

/// Source-over alpha, as executable arithmetic.
fn over_alpha_exec(sa: u8, da: u8) -> (r: u8)
    ensures
        r as int == over_alpha(sa as int, da as int),
{
    let saw: u64 = sa as u64;
    let daw: u64 = da as u64;
    proof {
        lemma_mul_channel_bound(daw as int, 255 - saw as int);
        lemma_over_alpha_bounds(sa as int, da as int);
    }
    saw as u8 + (daw * (255 - saw) / 255) as u8
}

/// Composite a source color onto a destination pixel's existing color.
pub fn composite(op: CompositeOperation, src: Color, dst: Color) -> (r: Color)
    ensures
        r == spec_composite(op, src, dst),
{
    match op {
        CompositeOperation::Replace => src,
        CompositeOperation::SourceOver => Color {
            r: over_channel_exec(src.r, dst.r, src.a, dst.a),
            g: over_channel_exec(src.g, dst.g, src.a, dst.a),
            b: over_channel_exec(src.b, dst.b, src.a, dst.a),
            a: over_alpha_exec(src.a, dst.a),
        },
    }
}

/// Scale a source color's coverage by a mask's coverage.
pub fn modulate(src: Color, coverage: u8) -> (r: Color)
    ensures
        r == spec_modulate(src, coverage),
{
    proof {
        lemma_mul_channel_bound(src.a as int, coverage as int);
    }
    let scaled: u64 = src.a as u64 * coverage as u64 / 255;
    Color { r: src.r, g: src.g, b: src.b, a: scaled as u8 }
}

} // verus!
