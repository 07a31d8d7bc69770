//! Paint descriptors: fill/stroke style, solid and gradient brushes, and
//! blend modes.
//!
//! A paint has two orthogonal style states. Switching to a stroke
//! materializes default stroke parameters (width zero, round join and cap)
//! only when the paint was not already a stroke; previously set thickness,
//! join and cap are never discarded by a repeated style switch or by
//! setting one stroke parameter.

use vstd::prelude::*;

verus! {

/// Join style for stroked segments.
#[derive(Clone, Copy, Debug, PartialEq, Eq, Structural)]
pub enum StrokeJoin {
    Miter,
    Round,
    Bevel,
}

/// Cap style for open stroked subpaths.
#[derive(Clone, Copy, Debug, PartialEq, Eq, Structural)]
pub enum StrokeCap {
    Butt,
    Round,
    Square,
}

/// Blend mode applied when drawing; `SrcOver` is the default mode, and the
/// only one that needs no temporary blend layer.
#[derive(Clone, Copy, Debug, PartialEq, Eq, Structural)]
pub enum BlendMode {
    SrcOver,
    Screen,
    Overlay,
    Darken,
    Lighten,
    ColorDodge,
    ColorBurn,
    HardLight,
    SoftLight,
    Difference,
    Exclusion,
    Multiply,
    Hue,
    Saturation,
    Color,
    Luminosity,
}

/// Whether a paint fills or strokes.
#[derive(Clone, Copy, Debug, PartialEq, Eq, Structural)]
pub enum PaintStyle {
    Stroke,
    Fill,
}

/// A color in 8-bit channels, laid out blue, green, red, alpha.
#[derive(Clone, Copy, Debug, PartialEq, Eq, Structural)]
pub struct Color {
    pub b: u8,
    pub g: u8,
    pub r: u8,
    pub a: u8,
}

/// Stroke parameters carried by a stroking paint.
#[derive(Clone, Copy, Debug, PartialEq, Eq, Structural)]
pub struct Stroke {
    pub thickness: i64,
    pub join: StrokeJoin,
    pub cap: StrokeCap,
}

/// The stroke parameters materialized when a paint first becomes a stroke.
pub open spec fn default_stroke() -> Stroke {
    Stroke { thickness: 0, join: StrokeJoin::Round, cap: StrokeCap::Round }
}

/// Fill or stroke, with the stroke's parameters.
#[derive(Clone, Copy, Debug, PartialEq, Eq, Structural)]
pub enum RenderStyle {
    Fill,
    Stroke(Stroke),
}

/// One gradient color stop: a color at an offset along the gradient.
/// Offsets pass through unvalidated; ordering is the producer's concern.
#[derive(Clone, Copy, Debug, PartialEq, Eq, Structural)]
pub struct ColorStop {
    pub color: Color,
    pub offset: i64,
}

/// The geometry of a gradient: linear between two endpoints, or radial
/// around a center with a radius.
#[derive(Clone, Copy, Debug, PartialEq, Eq, Structural)]
pub enum GradientKind {
    Linear { sx: i64, sy: i64, ex: i64, ey: i64 },
    Radial { cx: i64, cy: i64, radius: i64 },
}

/// A gradient definition: its geometry plus its color stops.
#[verifier::ext_equal]
#[derive(Clone, Debug)]
pub struct Gradient {
    pub kind: GradientKind,
    pub stops: Vec<ColorStop>,
}

/// The color stops collected from parallel color and offset sequences:
/// pairs are taken up to the shorter of the two.
pub open spec fn zipped_stops(colors: Seq<Color>, offsets: Seq<i64>) -> Seq<ColorStop> {
    Seq::new(
        if colors.len() <= offsets.len() {
            colors.len()
        } else {
            offsets.len()
        },
        |i: int| ColorStop { color: colors[i], offset: offsets[i] },
    )
}

/// Collects parallel color and offset slices into a stop sequence, pairing
/// them index by index up to the shorter slice.
pub fn collect_stops(colors: &Vec<Color>, offsets: &Vec<i64>) -> (r: Vec<ColorStop>)
    ensures
        r@ == zipped_stops(colors@, offsets@),
{
    let n = if colors.len() <= offsets.len() {
        colors.len()
    } else {
        offsets.len()
    };
    let mut out: Vec<ColorStop> = Vec::new();
    let mut i: usize = 0;
    while i < n
        invariant
            0 <= i <= n,
            n == if colors@.len() <= offsets@.len() { colors@.len() } else { offsets@.len() },
            out@ =~= zipped_stops(colors@, offsets@).take(i as int),
        decreases n - i,
    {
        out.push(ColorStop { color: colors[i], offset: offsets[i] });
        proof {
            assert(zipped_stops(colors@, offsets@).take(i + 1)
                =~= zipped_stops(colors@, offsets@).take(i as int).push(
                    zipped_stops(colors@, offsets@)[i as int],
                ));
        }
        i = i + 1;
    }
    proof {
        assert(out@ =~= zipped_stops(colors@, offsets@));
    }
    out
}

impl Gradient {
    /// A linear gradient between two endpoints with the given stops.
    pub fn new_linear(
        sx: i64, sy: i64, ex: i64, ey: i64, colors: &Vec<Color>, offsets: &Vec<i64>,
    ) -> (r: Gradient)
        ensures
            r.kind == (GradientKind::Linear { sx, sy, ex, ey }),
            r.stops@ == zipped_stops(colors@, offsets@),
    {
        Gradient { kind: GradientKind::Linear { sx, sy, ex, ey }, stops: collect_stops(colors, offsets) }
    }

    /// A radial gradient around a center with the given stops.
    pub fn new_radial(
        cx: i64, cy: i64, radius: i64, colors: &Vec<Color>, offsets: &Vec<i64>,
    ) -> (r: Gradient)
        ensures
            r.kind == (GradientKind::Radial { cx, cy, radius }),
            r.stops@ == zipped_stops(colors@, offsets@),
    {
        Gradient { kind: GradientKind::Radial { cx, cy, radius }, stops: collect_stops(colors, offsets) }
    }
}

/// What a paint paints with: a solid color or a gradient.
#[derive(Clone, Debug)]
pub enum Brush {
    Solid(Color),
    Gradient(Gradient),
}

/// Two brushes paint alike: equal solids, or gradients with equal
/// geometry and equal stop sequences.
pub open spec fn brush_matches(a: Brush, b: Brush) -> bool {
    match (a, b) {
        (Brush::Solid(x), Brush::Solid(y)) => x == y,
        (Brush::Gradient(g), Brush::Gradient(h)) => g.kind == h.kind && g.stops@ == h.stops@,
        _ => false,
    }
}

/// Copies a brush; the copy paints exactly alike.
pub fn clone_brush(b: &Brush) -> (r: Brush)
    ensures
        brush_matches(r, *b),
{
    match b {
        Brush::Solid(c) => Brush::Solid(*c),
        Brush::Gradient(g) => Brush::Gradient(
            Gradient { kind: g.kind, stops: clone_stops(&g.stops) },
        ),
    }
}

/// The brush is a gradient with exactly the given geometry and stops.
pub open spec fn holds_gradient(b: Brush, g: Gradient) -> bool {
    match b {
        Brush::Gradient(h) => h.kind == g.kind && h.stops@ == g.stops@,
        Brush::Solid(_) => false,
    }
}

/// A paint descriptor: style, brush and blend mode.
#[derive(Clone, Debug)]
pub struct Paint {
    pub style: RenderStyle,
    pub brush: Brush,
    pub blend_mode: BlendMode,
}

/// The stroke parameters of a paint, or the defaults when it fills.
pub open spec fn stroke_or_default(style: RenderStyle) -> Stroke {
    match style {
        RenderStyle::Stroke(s) => s,
        RenderStyle::Fill => default_stroke(),
    }
}

impl Default for Paint {
    /// A filling paint with a fully transparent solid brush and the
    /// default blend mode.
    fn default() -> (r: Paint)
        ensures
            r.style == RenderStyle::Fill,
            r.brush == Brush::Solid(Color { b: 0, g: 0, r: 0, a: 0 }),
            r.blend_mode == BlendMode::SrcOver,
    {
        Paint {
            style: RenderStyle::Fill,
            brush: Brush::Solid(Color { b: 0, g: 0, r: 0, a: 0 }),
            blend_mode: BlendMode::SrcOver,
        }
    }
}

impl Paint {
    /// Switches between fill and stroke. Becoming a stroke materializes the
    /// default stroke parameters only if the paint was filling; a paint
    /// that already strokes keeps its parameters.
    pub fn set_style(&mut self, style: PaintStyle)
        ensures
            final(self).style == (match style {
                PaintStyle::Fill => RenderStyle::Fill,
                PaintStyle::Stroke => RenderStyle::Stroke(stroke_or_default(old(self).style)),
            }),
            final(self).brush == old(self).brush,
            final(self).blend_mode == old(self).blend_mode,
    {
        match style {
            PaintStyle::Fill => {
                self.style = RenderStyle::Fill;
            }
            PaintStyle::Stroke => {
                match self.style {
                    RenderStyle::Stroke(_) => {}
                    RenderStyle::Fill => {
                        self.style = RenderStyle::Stroke(
                            Stroke { thickness: 0, join: StrokeJoin::Round, cap: StrokeCap::Round },
                        );
                    }
                }
            }
        }
    }

    /// Paints with a solid color.
    pub fn set_color(&mut self, color: Color)
        ensures
            final(self).brush == Brush::Solid(color),
            final(self).style == old(self).style,
            final(self).blend_mode == old(self).blend_mode,
    {
        self.brush = Brush::Solid(color);
    }

    /// Sets the stroke width, materializing a stroke with default join and
    /// cap if the paint was filling; an existing stroke keeps its join and
    /// cap.
    pub fn set_thickness(&mut self, thickness: i64)
        ensures
            final(self).style == RenderStyle::Stroke(
                Stroke { thickness, ..stroke_or_default(old(self).style) },
            ),
            final(self).brush == old(self).brush,
            final(self).blend_mode == old(self).blend_mode,
    {
        let base = match self.style {
            RenderStyle::Stroke(s) => s,
            RenderStyle::Fill => Stroke {
                thickness: 0,
                join: StrokeJoin::Round,
                cap: StrokeCap::Round,
            },
        };
        self.style = RenderStyle::Stroke(Stroke { thickness, join: base.join, cap: base.cap });
    }

    /// Sets the stroke join in the same materializing way.
    pub fn set_join(&mut self, join: StrokeJoin)
        ensures
            final(self).style == RenderStyle::Stroke(
                Stroke { join, ..stroke_or_default(old(self).style) },
            ),
            final(self).brush == old(self).brush,
            final(self).blend_mode == old(self).blend_mode,
    {
        let base = match self.style {
            RenderStyle::Stroke(s) => s,
            RenderStyle::Fill => Stroke {
                thickness: 0,
                join: StrokeJoin::Round,
                cap: StrokeCap::Round,
            },
        };
        self.style = RenderStyle::Stroke(Stroke { thickness: base.thickness, join, cap: base.cap });
    }

    /// Sets the stroke cap in the same materializing way; both ends of a
    /// subpath are capped alike.
    pub fn set_cap(&mut self, cap: StrokeCap)
        ensures
            final(self).style == RenderStyle::Stroke(
                Stroke { cap, ..stroke_or_default(old(self).style) },
            ),
            final(self).brush == old(self).brush,
            final(self).blend_mode == old(self).blend_mode,
    {
        let base = match self.style {
            RenderStyle::Stroke(s) => s,
            RenderStyle::Fill => Stroke {
                thickness: 0,
                join: StrokeJoin::Round,
                cap: StrokeCap::Round,
            },
        };
        self.style = RenderStyle::Stroke(Stroke { thickness: base.thickness, join: base.join, cap });
    }

    /// Sets the blend mode.
    pub fn set_blend_mode(&mut self, blend_mode: BlendMode)
        ensures
            final(self).blend_mode == blend_mode,
            final(self).style == old(self).style,
            final(self).brush == old(self).brush,
    {
        self.blend_mode = blend_mode;
    }

    /// Paints with a copy of the given gradient.
    pub fn set_gradient(&mut self, gradient: &Gradient)
        ensures
            holds_gradient(final(self).brush, *gradient),
            final(self).style == old(self).style,
            final(self).blend_mode == old(self).blend_mode,
    {
        let copy = Gradient { kind: gradient.kind, stops: clone_stops(&gradient.stops) };
        self.brush = Brush::Gradient(copy);
    }

    /// Stroke caches are the backend's concern; the descriptor is
    /// unchanged.
    pub fn invalidate_stroke(&mut self)
        ensures
            *final(self) == *old(self),
    {
    }
}

/// Copies a stop sequence element by element.
fn clone_stops(stops: &Vec<ColorStop>) -> (r: Vec<ColorStop>)
    ensures
        r@ == stops@,
{
    let mut out: Vec<ColorStop> = Vec::new();
    let mut i: usize = 0;
    while i < stops.len()
        invariant
            0 <= i <= stops@.len(),
            out@ =~= stops@.take(i as int),
        decreases stops@.len() - i,
    {
        out.push(stops[i]);
        proof {
            assert(stops@.take(i + 1) =~= stops@.take(i as int).push(stops@[i as int]));
        }
        i = i + 1;
    }
    proof {
        assert(out@ =~= stops@);
    }
    out
}

} // verus!
