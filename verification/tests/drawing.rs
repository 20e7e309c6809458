use scythe::Canvas;
use scythe::Clip;
use scythe::Color;
use scythe::CompositeOperation;
use scythe::Drawable;
use scythe::ImageBuffer;
use scythe::ImageData;
use scythe::Pattern;
use scythe::Rect;
use scythe::Region;
use scythe::composite;
use scythe::modulate;

fn buffer_1x1(c: Color) -> ImageBuffer {
    ImageBuffer::new(vec![c.r, c.g, c.b, c.a], 1, 1)
}

fn pixel(buf: &[u8], i: usize) -> Color {
    Color::new(buf[4 * i], buf[4 * i + 1], buf[4 * i + 2], buf[4 * i + 3])
}

fn solid(c: Color) -> Pattern<'static, ImageBuffer> {
    Pattern::SolidColor(c)
}

#[test]
fn replace_then_replace_keeps_last() {
    let a = Color::new(10, 20, 30, 40);
    let b = Color::new(50, 60, 70, 80);

    let mut surface = buffer_1x1(Color::new(0, 0, 0, 0));
    surface.paint(CompositeOperation::Replace, &mut solid(a), &Clip::Unclipped).unwrap();
    surface.paint(CompositeOperation::Replace, &mut solid(b), &Clip::Unclipped).unwrap();
    assert_eq!(surface.into_inner(), vec![50, 60, 70, 80]);

    let mut surface = buffer_1x1(Color::new(0, 0, 0, 0));
    surface.paint(CompositeOperation::Replace, &mut solid(b), &Clip::Unclipped).unwrap();
    surface.paint(CompositeOperation::Replace, &mut solid(a), &Clip::Unclipped).unwrap();
    assert_eq!(surface.into_inner(), vec![10, 20, 30, 40]);
}

#[test]
fn source_over_blend_red_blue() {
    // A 1x1 software surface: paint opaque red, then half-transparent blue
    // over it; the result is the exact algebraic blend.
    let mut surface = buffer_1x1(Color::new(0, 0, 0, 0));
    let red = Color::new(255, 0, 0, 255);
    let blue = Color::new(0, 0, 255, 128);
    surface.paint(CompositeOperation::Replace, &mut solid(red), &Clip::Unclipped).unwrap();
    surface.paint(CompositeOperation::SourceOver, &mut solid(blue), &Clip::Unclipped).unwrap();
    assert_eq!(surface.into_inner(), vec![127, 0, 128, 255]);
}

#[test]
fn mask_matches_manual_decomposition() {
    // mask(op, pattern, mask, clip) must equal modulating the pattern's
    // color by the mask's coverage and painting the result.
    let dst = Color::new(10, 20, 30, 255);
    let pattern_color = Color::new(200, 100, 50, 255);
    let mask_color = Color::new(0, 0, 0, 128);

    let mut masked = buffer_1x1(dst);
    masked
        .mask(
            CompositeOperation::SourceOver,
            &mut solid(pattern_color),
            &mut solid(mask_color),
            &Clip::Unclipped,
        )
        .unwrap();
    let masked_bytes = masked.into_inner();

    let mut manual = buffer_1x1(dst);
    let modulated = modulate(pattern_color, mask_color.a);
    manual.paint(CompositeOperation::SourceOver, &mut solid(modulated), &Clip::Unclipped).unwrap();
    let manual_bytes = manual.into_inner();

    assert_eq!(masked_bytes, manual_bytes);
    assert_eq!(masked_bytes, vec![105, 60, 40, 255]);

    // The same decomposition holds pointwise through the public composite.
    let expected = composite(CompositeOperation::SourceOver, modulated, dst);
    assert_eq!(pixel(&masked_bytes, 0), expected);
}

#[test]
fn clip_shape_limits_painted_pixels() {
    let mut surface = ImageBuffer::new(vec![0; 16], 2, 2);
    let red = Color::new(255, 0, 0, 255);
    let shape = Rect { x: 1, y: 0, width: 1, height: 1 };
    surface.paint(CompositeOperation::Replace, &mut solid(red), &Clip::Shape(&shape)).unwrap();
    let bytes = surface.into_inner();
    assert_eq!(pixel(&bytes, 0), Color::new(0, 0, 0, 0));
    assert_eq!(pixel(&bytes, 1), red);
    assert_eq!(pixel(&bytes, 2), Color::new(0, 0, 0, 0));
    assert_eq!(pixel(&bytes, 3), Color::new(0, 0, 0, 0));
}

#[test]
fn clip_region_is_union_of_rects() {
    let mut surface = ImageBuffer::new(vec![0; 16], 2, 2);
    let red = Color::new(255, 0, 0, 255);
    let region = Region {
        rects: vec![
            Rect { x: 0, y: 0, width: 1, height: 1 },
            Rect { x: 1, y: 1, width: 1, height: 1 },
        ],
    };
    surface.paint(CompositeOperation::Replace, &mut solid(red), &Clip::Region(&region)).unwrap();
    let bytes = surface.into_inner();
    assert_eq!(pixel(&bytes, 0), red);
    assert_eq!(pixel(&bytes, 1), Color::new(0, 0, 0, 0));
    assert_eq!(pixel(&bytes, 2), Color::new(0, 0, 0, 0));
    assert_eq!(pixel(&bytes, 3), red);
}

#[test]
fn unsupported_pattern_fails_and_leaves_pixels() {
    let mut surface = buffer_1x1(Color::new(9, 9, 9, 9));
    let image = ImageData::new(1, 1, vec![Color::new(1, 2, 3, 4)]).unwrap();
    let mut pattern: Pattern<'_, ImageBuffer> = Pattern::Image(&image);
    let err = surface
        .paint(CompositeOperation::Replace, &mut pattern, &Clip::Unclipped)
        .expect_err("image patterns are not honored by the software backend");
    assert!(!err.is_shielded());
    assert_eq!(err.message(), Some("unsupported pattern variant"));
    assert_eq!(surface.into_inner(), vec![9, 9, 9, 9]);
}

#[test]
fn invalid_buffer_fails_shielded() {
    // Three bytes cannot back a 1x1 RGBA surface.
    let mut surface = ImageBuffer::new(vec![0, 0, 0], 1, 1);
    assert!(!surface.is_well_formed());
    let err = surface
        .paint(CompositeOperation::Replace, &mut solid(Color::new(1, 2, 3, 4)), &Clip::Unclipped)
        .expect_err("an ill-formed buffer is not drawable");
    assert!(err.is_shielded());
    assert_eq!(surface.into_inner(), vec![0, 0, 0]);
}

#[test]
fn image_data_checks_pixel_count() {
    assert!(ImageData::new(2, 2, vec![Color::new(0, 0, 0, 0); 3]).is_none());
    let img = ImageData::new(2, 2, vec![Color::new(0, 0, 0, 0); 4]).unwrap();
    assert_eq!(img.width(), 2);
    assert_eq!(img.height(), 2);
}

#[test]
fn image_data_samples_by_coordinate() {
    let img = ImageData::new(
        2,
        1,
        vec![Color::new(1, 1, 1, 1), Color::new(2, 2, 2, 2)],
    )
    .unwrap();
    assert_eq!(img.sample(0, 0), Color::new(1, 1, 1, 1));
    assert_eq!(img.sample(1, 0), Color::new(2, 2, 2, 2));
}

#[test]
fn image_buffer_reports_dimensions() {
    let surface = ImageBuffer::new(vec![0; 8], 2, 1);
    assert_eq!(surface.width(), 2);
    assert_eq!(surface.height(), 1);
    assert!(surface.is_well_formed());
}

#[test]
fn canvas_forwards_to_bound_drawable() {
    let canvas = Canvas::new(buffer_1x1(Color::new(0, 0, 0, 0)));
    let mut canvas = canvas;
    let red = Color::new(255, 0, 0, 255);
    canvas.paint(CompositeOperation::Replace, &mut solid(red), &Clip::Unclipped).unwrap();
    let blue = Color::new(0, 0, 255, 128);
    canvas
        .mask(
            CompositeOperation::SourceOver,
            &mut solid(blue),
            &mut solid(Color::new(0, 0, 0, 255)),
            &Clip::Unclipped,
        )
        .unwrap();
    assert_eq!(canvas.into_inner().into_inner(), vec![127, 0, 128, 255]);
}

#[test]
fn composite_replace_is_source() {
    let src = Color::new(1, 2, 3, 4);
    let dst = Color::new(5, 6, 7, 8);
    assert_eq!(composite(CompositeOperation::Replace, src, dst), src);
}

#[test]
fn composite_source_over_fully_opaque_source_wins() {
    let src = Color::new(1, 2, 3, 255);
    let dst = Color::new(5, 6, 7, 8);
    assert_eq!(composite(CompositeOperation::SourceOver, src, dst), src);
}

#[test]
fn composite_source_over_transparent_source_keeps_destination() {
    let src = Color::new(200, 200, 200, 0);
    let dst = Color::new(5, 6, 7, 255);
    assert_eq!(composite(CompositeOperation::SourceOver, src, dst), dst);
}

#[test]
fn composite_source_over_both_transparent_is_empty() {
    let src = Color::new(5, 5, 5, 0);
    let dst = Color::new(7, 7, 7, 0);
    assert_eq!(composite(CompositeOperation::SourceOver, src, dst), Color::new(0, 0, 0, 0));
}

#[test]
fn modulate_scales_alpha_only() {
    let c = Color::new(9, 8, 7, 255);
    assert_eq!(modulate(c, 128), Color::new(9, 8, 7, 128));
    assert_eq!(modulate(c, 0), Color::new(9, 8, 7, 0));
    assert_eq!(modulate(c, 255), c);
}
