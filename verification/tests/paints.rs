use rive_rs::paint::{
    Brush, Color, Gradient, GradientKind, Paint, PaintStyle, RenderStyle, Stroke, StrokeCap,
    StrokeJoin,
};

#[test]
fn default_paint_fills_transparent_with_default_blend() {
    let paint = Paint::default();
    assert!(matches!(paint.style, RenderStyle::Fill));
    assert!(matches!(paint.brush, Brush::Solid(Color { b: 0, g: 0, r: 0, a: 0 })));
}

#[test]
fn becoming_a_stroke_materializes_defaults_once() {
    let mut paint = Paint::default();
    paint.set_style(PaintStyle::Stroke);
    assert!(matches!(
        paint.style,
        RenderStyle::Stroke(Stroke { thickness: 0, join: StrokeJoin::Round, cap: StrokeCap::Round }),
    ));
}

#[test]
fn repeated_stroke_style_keeps_existing_parameters() {
    let mut paint = Paint::default();
    paint.set_thickness(12);
    paint.set_join(StrokeJoin::Miter);
    paint.set_cap(StrokeCap::Butt);
    // Switching to stroke again must not discard what was set.
    paint.set_style(PaintStyle::Stroke);
    assert!(matches!(
        paint.style,
        RenderStyle::Stroke(Stroke { thickness: 12, join: StrokeJoin::Miter, cap: StrokeCap::Butt }),
    ));
}

#[test]
fn stroke_parameters_materialize_from_a_fill() {
    let mut paint = Paint::default();
    paint.set_join(StrokeJoin::Bevel);
    assert!(matches!(
        paint.style,
        RenderStyle::Stroke(Stroke { thickness: 0, join: StrokeJoin::Bevel, cap: StrokeCap::Round }),
    ));
    paint.set_style(PaintStyle::Fill);
    assert!(matches!(paint.style, RenderStyle::Fill));
}

#[test]
fn gradients_zip_colors_with_offsets() {
    let colors = vec![
        Color { b: 1, g: 2, r: 3, a: 4 },
        Color { b: 5, g: 6, r: 7, a: 8 },
    ];
    let offsets = vec![0, 65536, 99999];
    let gradient = Gradient::new_linear(0, 0, 10, 0, &colors, &offsets);
    assert!(matches!(gradient.kind, GradientKind::Linear { sx: 0, sy: 0, ex: 10, ey: 0 }));
    // Pairs are taken up to the shorter list; offsets pass through
    // unvalidated.
    assert_eq!(gradient.stops.len(), 2);
    assert_eq!(gradient.stops[0].offset, 0);
    assert_eq!(gradient.stops[1].offset, 65536);
    assert_eq!(gradient.stops[1].color, colors[1]);

    let radial = Gradient::new_radial(5, 5, 9, &colors, &offsets);
    assert!(matches!(radial.kind, GradientKind::Radial { cx: 5, cy: 5, radius: 9 }));

    let mut paint = Paint::default();
    paint.set_gradient(&gradient);
    match &paint.brush {
        Brush::Gradient(g) => assert_eq!(g.stops.len(), 2),
        _ => panic!("the paint must hold the gradient"),
    }
}
