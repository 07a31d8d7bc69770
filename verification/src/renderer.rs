//! The renderer session: a transform/clip stack driven by the engine's
//! state operations, batching draw calls into a backend scene graph.
//!
//! The session state is a stack of affine transforms and a parallel stack
//! of clip flags; both always have equal length, at least one entry. A
//! push duplicates the top transform and records no clip; a pop restores
//! the previous transform and closes one backend clip layer exactly when
//! the popped flag was set. At most one clip layer is open per state
//! level. Draw calls that need no blend adjustment are recorded directly;
//! all others are wrapped in a temporary blend layer.

use vstd::prelude::*;
use crate::buffer::{u16s_of, Buffer};
use crate::geom::{
    self, compose_clamped, identity_spec, Affine, Point, RationalAffine,
};
use crate::paint::{brush_matches, clone_brush, BlendMode, Brush, Paint, RenderStyle, Stroke};
use crate::path::{clone_commands, FillRule, Path, PathCommand};
use crate::raster::{clone_bytes, Image};

verus! {

/// Full opacity, in 1/65536 units: opacities are carried as exact
/// fractions of this constant.
pub const OPACITY_ONE: i64 = 65536;

/// Largest magnitude a raw texture coordinate may take in a mesh draw.
pub const UV_LIMIT: i64 = 32768;

/// Largest image dimension a mesh draw admits; together with `UV_LIMIT`
/// it keeps scaled texture coordinates within the solver's range.
pub const IMAGE_DIM_LIMIT: u32 = 65536;

/// What kind of layer an opening records.
#[derive(Clone, Copy, Debug, PartialEq, Eq, Structural)]
pub enum LayerKind {
    /// A clipping layer: what is drawn inside is clipped to the shape.
    Clip,
    /// A compositing layer isolating the given blend mode.
    Blend(BlendMode),
}

/// The shape a layer is scoped to.
#[derive(Debug)]
pub enum LayerShape {
    /// The bounding box of the given geometry.
    PathBounds { elements: Vec<PathCommand> },
    /// The geometry itself, filled under the given rule.
    Geometry { elements: Vec<PathCommand>, fill: FillRule },
    /// The axis-aligned rectangle from the origin to the given size.
    Rect { width: u32, height: u32 },
    /// The bounding box of the given triangle.
    TriangleBounds { p0: Point, p1: Point, p2: Point },
}

/// One operation recorded into the backend scene.
#[derive(Debug)]
pub enum SceneOp {
    /// Opens a layer; everything recorded until the matching close
    /// composites through it.
    PushLayer { kind: LayerKind, opacity: i64, transform: RationalAffine, shape: LayerShape },
    /// Closes the most recently opened layer.
    PopLayer,
    /// Fills a path with a brush under a transform.
    FillPath { elements: Vec<PathCommand>, fill: FillRule, brush: Brush, transform: RationalAffine },
    /// Strokes a path with a brush under a transform.
    StrokePath { elements: Vec<PathCommand>, stroke: Stroke, brush: Brush, transform: RationalAffine },
    /// Draws a whole image under a transform.
    DrawImage { width: u32, height: u32, data: Vec<u8>, transform: RationalAffine },
    /// Fills one triangle with an image brush: the triangle under the
    /// given transform, the image mapped by the brush transform.
    FillImageTriangle {
        width: u32,
        height: u32,
        data: Vec<u8>,
        p0: Point,
        p1: Point,
        p2: Point,
        transform: RationalAffine,
        brush_transform: RationalAffine,
    },
}

/// How an operation changes the number of open layers.
pub open spec fn op_layer_delta(op: SceneOp) -> int {
    match op {
        SceneOp::PushLayer { .. } => 1,
        SceneOp::PopLayer => -1,
        _ => 0,
    }
}

/// The number of layers a scene leaves open.
pub open spec fn open_layers(ops: Seq<SceneOp>) -> int
    decreases ops.len(),
{
    if ops.len() == 0 {
        0
    } else {
        open_layers(ops.drop_last()) + op_layer_delta(ops.last())
    }
}

pub proof fn lemma_open_layers_push(ops: Seq<SceneOp>, op: SceneOp)
    ensures
        open_layers(ops.push(op)) == open_layers(ops) + op_layer_delta(op),
{
    assert(ops.push(op).drop_last() =~= ops);
}

pub proof fn lemma_open_layers_le_len(ops: Seq<SceneOp>)
    ensures
        open_layers(ops) <= ops.len(),
    decreases ops.len(),
{
    if ops.len() > 0 {
        lemma_open_layers_le_len(ops.drop_last());
    }
}

/// The backend scene: the recorded operations plus a count of the layers
/// still open.
#[derive(Debug)]
pub struct SceneGraph {
    pub ops: Vec<SceneOp>,
    pub open: usize,
}

impl SceneGraph {
    /// The open-layer counter matches the recorded operations.
    pub open spec fn wf(self) -> bool {
        &&& self.open as int == open_layers(self.ops@)
        &&& open_layers(self.ops@) >= 0
    }

    /// An empty scene.
    pub fn new() -> (r: SceneGraph)
        ensures
            r.ops@ == Seq::<SceneOp>::empty(),
            r.open == 0,
            r.wf(),
    {
        let r = SceneGraph { ops: Vec::new(), open: 0 };
        proof {
            assert(r.ops@ =~= Seq::<SceneOp>::empty());
        }
        r
    }

    /// Opens a layer.
    pub fn push_layer(
        &mut self,
        kind: LayerKind,
        opacity: i64,
        transform: RationalAffine,
        shape: LayerShape,
    )
        requires
            old(self).wf(),
        ensures
            final(self).ops@.len() == old(self).ops@.len() + 1,
            final(self).ops@.take(old(self).ops@.len() as int) == old(self).ops@,
            is_layer_push(final(self).ops@.last(), kind, opacity, transform, shape),
            final(self).open == old(self).open + 1,
            final(self).wf(),
    {
        let ghost pre_ops = self.ops@;
        let op = SceneOp::PushLayer { kind, opacity, transform, shape };
        proof {
            lemma_open_layers_push(pre_ops, op);
        }
        self.ops.push(op);
        let n = self.ops.len();
        proof {
            lemma_open_layers_le_len(self.ops@);
            assert(self.open < n);
            assert(self.ops@.take(pre_ops.len() as int) =~= pre_ops);
        }
        self.open = self.open + 1;
    }

    /// Closes one layer; with no layer open this is a defensive no-op.
    pub fn pop_layer(&mut self)
        requires
            old(self).wf(),
        ensures
            old(self).open > 0 ==> {
                &&& final(self).ops@ == old(self).ops@.push(SceneOp::PopLayer)
                &&& final(self).open == old(self).open - 1
            },
            old(self).open == 0 ==> *final(self) == *old(self),
            final(self).wf(),
    {
        if self.open > 0 {
            proof {
                lemma_open_layers_push(self.ops@, SceneOp::PopLayer);
            }
            self.ops.push(SceneOp::PopLayer);
            self.open = self.open - 1;
        }
    }

    /// Records one draw operation; draws neither open nor close layers.
    pub fn record(&mut self, op: SceneOp)
        requires
            old(self).wf(),
            op_layer_delta(op) == 0,
        ensures
            final(self).ops@.len() == old(self).ops@.len() + 1,
            final(self).ops@.take(old(self).ops@.len() as int) == old(self).ops@,
            final(self).ops@.last() == op,
            final(self).open == old(self).open,
            final(self).wf(),
    {
        proof {
            lemma_open_layers_push(self.ops@, op);
        }
        let ghost pre_ops = self.ops@;
        self.ops.push(op);
        proof {
            assert(self.ops@.take(pre_ops.len() as int) =~= pre_ops);
        }
    }
}

/// The operation opens a layer with exactly these parameters. Shapes are
/// compared by content: geometry element for element.
pub open spec fn is_layer_push(
    op: SceneOp,
    kind: LayerKind,
    opacity: i64,
    transform: RationalAffine,
    shape: LayerShape,
) -> bool {
    match op {
        SceneOp::PushLayer { kind: k, opacity: o, transform: t, shape: s } => {
            k == kind && o == opacity && t == transform && shape_matches(s, shape)
        }
        _ => false,
    }
}

/// Two layer shapes agree in kind and content.
pub open spec fn shape_matches(a: LayerShape, b: LayerShape) -> bool {
    match (a, b) {
        (
            LayerShape::PathBounds { elements: e1 },
            LayerShape::PathBounds { elements: e2 },
        ) => e1@ == e2@,
        (
            LayerShape::Geometry { elements: e1, fill: f1 },
            LayerShape::Geometry { elements: e2, fill: f2 },
        ) => e1@ == e2@ && f1 == f2,
        (
            LayerShape::Rect { width: w1, height: h1 },
            LayerShape::Rect { width: w2, height: h2 },
        ) => w1 == w2 && h1 == h2,
        (
            LayerShape::TriangleBounds { p0: a0, p1: a1, p2: a2 },
            LayerShape::TriangleBounds { p0: b0, p1: b1, p2: b2 },
        ) => a0 == b0 && a1 == b1 && a2 == b2,
        _ => false,
    }
}

/// How many entries of a clip-flag stack are set.
pub open spec fn true_count(s: Seq<bool>) -> int
    decreases s.len(),
{
    if s.len() == 0 {
        0
    } else {
        true_count(s.drop_last()) + if s.last() { 1int } else { 0int }
    }
}

pub proof fn lemma_true_count_nonneg(s: Seq<bool>)
    ensures
        true_count(s) >= 0,
    decreases s.len(),
{
    if s.len() > 0 {
        lemma_true_count_nonneg(s.drop_last());
    }
}

pub proof fn lemma_true_count_push(s: Seq<bool>, b: bool)
    ensures
        true_count(s.push(b)) == true_count(s) + if b { 1int } else { 0int },
{
    assert(s.push(b).drop_last() =~= s);
}

pub proof fn lemma_true_count_update_last(s: Seq<bool>, b: bool)
    requires
        s.len() > 0,
    ensures
        true_count(s.update(s.len() - 1, b)) == true_count(s)
            - (if s.last() { 1int } else { 0int }) + (if b { 1int } else { 0int }),
{
    assert(s.update(s.len() - 1, b).drop_last() =~= s.drop_last());
    assert(s.update(s.len() - 1, b).last() == b);
}

/// The given transform as an unscaled rational.
pub open spec fn rat_of(t: Affine) -> RationalAffine {
    RationalAffine {
        a: t.a as i128,
        b: t.b as i128,
        c: t.c as i128,
        d: t.d as i128,
        e: t.e as i128,
        f: t.f as i128,
        den: 1,
    }
}

/// A renderer session: the backend scene under construction and the
/// transform/clip stacks.
#[derive(Debug)]
pub struct Renderer {
    pub scene: SceneGraph,
    pub transforms: Vec<Affine>,
    pub clips: Vec<bool>,
}

impl Renderer {
    /// Session well-formedness: the stacks run in parallel and are never
    /// empty, every stacked transform is bounded, the scene's counter is
    /// sound, and at least as many layers are open as clip flags are set.
    pub open spec fn wf(self) -> bool {
        &&& self.transforms@.len() == self.clips@.len()
        &&& self.transforms@.len() >= 1
        &&& forall|i: int|
            0 <= i < self.transforms@.len() ==> geom::bounded(#[trigger] self.transforms@[i])
        &&& self.scene.wf()
        &&& true_count(self.clips@) <= self.scene.open as int
    }

    /// The current top-of-stack transform.
    pub open spec fn top_transform(self) -> Affine {
        self.transforms@.last()
    }

    /// The current stack depth.
    pub open spec fn depth(self) -> int {
        self.transforms@.len() as int
    }
}

impl Default for Renderer {
    /// A fresh session: an empty scene over a single identity transform
    /// with no clip active.
    fn default() -> (r: Renderer)
        ensures
            r.scene.ops@ == Seq::<SceneOp>::empty(),
            r.scene.open == 0,
            r.transforms@ == seq![identity_spec()],
            r.clips@ == seq![false],
            r.wf(),
    {
        let mut transforms: Vec<Affine> = Vec::new();
        transforms.push(Affine::identity());
        let mut clips: Vec<bool> = Vec::new();
        clips.push(false);
        let r = Renderer { scene: SceneGraph::new(), transforms, clips };
        proof {
            assert(r.transforms@ =~= seq![identity_spec()]);
            assert(r.clips@ =~= Seq::<bool>::empty().push(false));
            lemma_true_count_push(Seq::<bool>::empty(), false);
            assert(r.clips@ =~= seq![false]);
        }
        r
    }
}

/// A state push duplicates the top transform and records no clip; the
/// scene is untouched.
pub open spec fn state_push_rel(pre: Renderer, post: Renderer) -> bool {
    &&& post.transforms@ == pre.transforms@.push(pre.transforms@.last())
    &&& post.clips@ == pre.clips@.push(false)
    &&& post.scene.ops@ == pre.scene.ops@
    &&& post.scene.open == pre.scene.open
}

/// A state pop restores the previous transform and flag, closing one
/// scene layer exactly when the popped flag was set; popping the last
/// entry refloors the stacks at a single identity/no-clip entry.
pub open spec fn state_pop_rel(pre: Renderer, post: Renderer) -> bool {
    &&& (if pre.transforms@.len() > 1 {
        post.transforms@ == pre.transforms@.drop_last() && post.clips@ == pre.clips@.drop_last()
    } else {
        post.transforms@ == seq![identity_spec()] && post.clips@ == seq![false]
    })
    &&& (if pre.clips@.last() {
        post.scene.ops@ == pre.scene.ops@.push(SceneOp::PopLayer)
            && post.scene.open == pre.scene.open - 1
    } else {
        post.scene.ops@ == pre.scene.ops@ && post.scene.open == pre.scene.open
    })
}

/// A transform right-multiplies the top of the stack, clamped into the
/// stack range; nothing else moves.
pub open spec fn transform_rel(pre: Renderer, post: Renderer, t: Affine) -> bool {
    &&& post.transforms@ == pre.transforms@.update(
        pre.transforms@.len() - 1,
        compose_clamped(pre.transforms@.last(), t),
    )
    &&& post.clips@ == pre.clips@
    &&& post.scene.ops@ == pre.scene.ops@
    &&& post.scene.open == pre.scene.open
}

/// The operation opens a clip layer for exactly this path under this
/// transform.
pub open spec fn is_clip_push(op: SceneOp, t: Affine, path: Path) -> bool {
    match op {
        SceneOp::PushLayer { kind, opacity, transform, shape } => {
            &&& kind == LayerKind::Clip
            &&& opacity == OPACITY_ONE
            &&& transform == rat_of(t)
            &&& match shape {
                LayerShape::Geometry { elements, fill } => {
                    elements@ == path.elements@ && fill == path.fill
                }
                _ => false,
            }
        }
        _ => false,
    }
}

/// Setting a clip closes the layer of a clip already active at this
/// depth, opens one clip layer for the given path under the current
/// transform, and marks the depth clipped. Exactly one clip layer per
/// state level is ever open.
pub open spec fn set_clip_rel(pre: Renderer, post: Renderer, path: Path) -> bool {
    let base = pre.scene.ops@.len() as int;
    &&& post.transforms@ == pre.transforms@
    &&& post.clips@ == pre.clips@.update(pre.clips@.len() - 1, true)
    &&& (if pre.clips@.last() {
        &&& post.scene.ops@.len() == base + 2
        &&& post.scene.ops@.take(base) == pre.scene.ops@
        &&& post.scene.ops@[base] is PopLayer
        &&& is_clip_push(post.scene.ops@[base + 1], pre.transforms@.last(), path)
        &&& post.scene.open == pre.scene.open
    } else {
        &&& post.scene.ops@.len() == base + 1
        &&& post.scene.ops@.take(base) == pre.scene.ops@
        &&& is_clip_push(post.scene.ops@[base], pre.transforms@.last(), path)
        &&& post.scene.open == pre.scene.open + 1
    })
}

impl Renderer {
    /// Duplicates the current transform onto the stack and pushes a clear
    /// clip flag.
    pub fn state_push(&mut self)
        requires
            old(self).wf(),
        ensures
            state_push_rel(*old(self), *final(self)),
            final(self).wf(),
    {
        let n = self.transforms.len();
        let top = self.transforms[n - 1];
        self.transforms.push(top);
        self.clips.push(false);
        proof {
            lemma_true_count_push(old(self).clips@, false);
        }
    }

    /// Pops transform and clip flag, closing one scene layer exactly when
    /// the popped flag was set; the stacks never become empty.
    pub fn state_pop(&mut self)
        requires
            old(self).wf(),
        ensures
            state_pop_rel(*old(self), *final(self)),
            final(self).wf(),
    {
        let n = self.transforms.len();
        let flag = self.clips[n - 1];
        self.transforms.pop();
        self.clips.pop();
        proof {
            assert(old(self).clips@.drop_last() =~= self.clips@);
            assert(old(self).transforms@.drop_last() =~= self.transforms@);
            lemma_true_count_nonneg(old(self).clips@.drop_last());
        }
        if flag {
            self.scene.pop_layer();
        }
        if self.transforms.len() == 0 {
            self.transforms.push(Affine::identity());
            self.clips.push(false);
            proof {
                assert(self.transforms@ =~= seq![identity_spec()]);
                assert(self.clips@ =~= Seq::<bool>::empty().push(false));
                lemma_true_count_push(Seq::<bool>::empty(), false);
                assert(self.clips@ =~= seq![false]);
            }
        }
    }

    /// Right-multiplies the current transform by the given one, clamped
    /// into the stack range.
    pub fn transform(&mut self, t: &Affine)
        requires
            old(self).wf(),
        ensures
            transform_rel(*old(self), *final(self), *t),
            final(self).wf(),
    {
        let n = self.transforms.len();
        let top = self.transforms[n - 1];
        let composed = geom::compose(&top, t);
        self.transforms.set(n - 1, composed);
    }

    /// Replaces the clip at the current depth: closes the previous clip
    /// layer if one is active here, then opens a clip layer for this path
    /// under the current transform.
    pub fn set_clip(&mut self, path: &Path)
        requires
            old(self).wf(),
        ensures
            set_clip_rel(*old(self), *final(self), *path),
            final(self).wf(),
    {
        let ghost ops0 = self.scene.ops@;
        let n = self.clips.len();
        let had = self.clips[n - 1];
        proof {
            if old(self).clips@.last() {
                lemma_true_count_nonneg(old(self).clips@.drop_last());
            }
        }
        if had {
            self.scene.pop_layer();
        }
        let ghost ops1 = self.scene.ops@;
        let nt = self.transforms.len();
        let top = self.transforms[nt - 1];
        let shape = LayerShape::Geometry {
            elements: clone_commands(&path.elements),
            fill: path.fill,
        };
        let rt = RationalAffine::from_affine(&top);
        proof {
            assert(rt == rat_of(top));
        }
        self.scene.push_layer(LayerKind::Clip, OPACITY_ONE, rt, shape);
        self.clips.set(n - 1, true);
        proof {
            lemma_true_count_update_last(old(self).clips@, true);
            assert(self.scene.ops@.take(ops1.len() as int) == ops1);
            if old(self).clips@.last() {
                assert(ops1 == ops0.push(SceneOp::PopLayer));
                assert(self.scene.ops@.take(ops0.len() as int) =~= ops0);
                assert(self.scene.ops@[ops0.len() as int] == ops1[ops0.len() as int]);
                assert(self.scene.ops@[ops0.len() as int] is PopLayer);
            } else {
                assert(self.scene.ops@.take(ops0.len() as int) =~= ops0);
            }
            assert(self.scene.ops@.last() == self.scene.ops@[self.scene.ops@.len() - 1]);
        }
    }
}

/// The operation draws exactly this path with this paint under this
/// transform: a fill for a filling paint, a stroke with the paint's
/// stroke parameters otherwise, with a brush painting like the paint's.
pub open spec fn is_path_draw(op: SceneOp, path: Path, paint: Paint, t: Affine) -> bool {
    match paint.style {
        RenderStyle::Fill => match op {
            SceneOp::FillPath { elements, fill, brush, transform } => {
                &&& elements@ == path.elements@
                &&& fill == path.fill
                &&& brush_matches(brush, paint.brush)
                &&& transform == rat_of(t)
            }
            _ => false,
        },
        RenderStyle::Stroke(s) => match op {
            SceneOp::StrokePath { elements, stroke, brush, transform } => {
                &&& elements@ == path.elements@
                &&& stroke == s
                &&& brush_matches(brush, paint.brush)
                &&& transform == rat_of(t)
            }
            _ => false,
        },
    }
}

/// The operation opens a blend layer scoped to the bounding box of this
/// path's geometry.
pub open spec fn is_blend_push_bounds(
    op: SceneOp, blend: BlendMode, opacity: i64, t: Affine, path: Path,
) -> bool {
    match op {
        SceneOp::PushLayer { kind, opacity: o, transform, shape } => {
            &&& kind == LayerKind::Blend(blend)
            &&& o == opacity
            &&& transform == rat_of(t)
            &&& match shape {
                LayerShape::PathBounds { elements } => elements@ == path.elements@,
                _ => false,
            }
        }
        _ => false,
    }
}

/// Drawing a path records the draw directly when the paint blends with
/// the default mode; any other mode wraps the draw in a temporary blend
/// layer scoped to the path's bounding box. The stacks and the number of
/// open layers are unchanged either way.
pub open spec fn draw_path_rel(pre: Renderer, post: Renderer, path: Path, paint: Paint) -> bool {
    let base = pre.scene.ops@.len() as int;
    let top = pre.transforms@.last();
    &&& post.transforms@ == pre.transforms@
    &&& post.clips@ == pre.clips@
    &&& post.scene.open == pre.scene.open
    &&& (if paint.blend_mode == BlendMode::SrcOver {
        &&& post.scene.ops@.len() == base + 1
        &&& post.scene.ops@.take(base) == pre.scene.ops@
        &&& is_path_draw(post.scene.ops@[base], path, paint, top)
    } else {
        &&& post.scene.ops@.len() == base + 3
        &&& post.scene.ops@.take(base) == pre.scene.ops@
        &&& is_blend_push_bounds(post.scene.ops@[base], paint.blend_mode, OPACITY_ONE, top, path)
        &&& is_path_draw(post.scene.ops@[base + 1], path, paint, top)
        &&& post.scene.ops@[base + 2] is PopLayer
    })
}

/// The rational transform centers a width-by-height rectangle on the
/// origin of `t`: it is `t` translated by minus half the size, kept exact
/// with denominator two.
pub open spec fn is_centered(rt: RationalAffine, t: Affine, w: u32, h: u32) -> bool {
    &&& rt.a == 2 * t.a
    &&& rt.b == 2 * t.b
    &&& rt.c == 2 * t.c
    &&& rt.d == 2 * t.d
    &&& rt.e == 2 * t.e - t.a * w - t.c * h
    &&& rt.f == 2 * t.f - t.b * w - t.d * h
    &&& rt.den == 2
}

/// The operation draws exactly this image, centered on the origin of the
/// given transform.
pub open spec fn is_image_draw(op: SceneOp, img: Image, t: Affine) -> bool {
    match op {
        SceneOp::DrawImage { width, height, data, transform } => {
            &&& width == img.width
            &&& height == img.height
            &&& data@ == img.data@
            &&& is_centered(transform, t, img.width, img.height)
        }
        _ => false,
    }
}

/// The operation opens a blend layer scoped to the image's rectangle,
/// centered like the image.
pub open spec fn is_blend_push_rect(
    op: SceneOp, blend: BlendMode, opacity: i64, t: Affine, w: u32, h: u32,
) -> bool {
    match op {
        SceneOp::PushLayer { kind, opacity: o, transform, shape } => {
            &&& kind == LayerKind::Blend(blend)
            &&& o == opacity
            &&& is_centered(transform, t, w, h)
            &&& match shape {
                LayerShape::Rect { width, height } => width == w && height == h,
                _ => false,
            }
        }
        _ => false,
    }
}

/// Drawing an image centers it on the current transform origin and skips
/// the temporary blend layer exactly when no blending or opacity
/// adjustment is needed: default blend mode at full opacity.
pub open spec fn draw_image_rel(
    pre: Renderer, post: Renderer, img: Image, blend: BlendMode, opacity: i64,
) -> bool {
    let base = pre.scene.ops@.len() as int;
    let top = pre.transforms@.last();
    &&& post.transforms@ == pre.transforms@
    &&& post.clips@ == pre.clips@
    &&& post.scene.open == pre.scene.open
    &&& (if blend == BlendMode::SrcOver && opacity == OPACITY_ONE {
        &&& post.scene.ops@.len() == base + 1
        &&& post.scene.ops@.take(base) == pre.scene.ops@
        &&& is_image_draw(post.scene.ops@[base], img, top)
    } else {
        &&& post.scene.ops@.len() == base + 3
        &&& post.scene.ops@.take(base) == pre.scene.ops@
        &&& is_blend_push_rect(post.scene.ops@[base], blend, opacity, top, img.width, img.height)
        &&& is_image_draw(post.scene.ops@[base + 1], img, top)
        &&& post.scene.ops@[base + 2] is PopLayer
    })
}

impl Renderer {
    /// Draws a path with a paint under the current transform, wrapping
    /// the draw in a temporary blend layer unless the paint blends with
    /// the default mode.
    pub fn draw_path(&mut self, path: &Path, paint: &Paint)
        requires
            old(self).wf(),
        ensures
            draw_path_rel(*old(self), *final(self), *path, *paint),
            final(self).wf(),
    {
        let ghost ops0 = self.scene.ops@;
        let n = self.transforms.len();
        let top = self.transforms[n - 1];
        let rt = RationalAffine::from_affine(&top);
        proof {
            assert(rt == rat_of(top));
        }
        let skip = paint.blend_mode == BlendMode::SrcOver;
        if !skip {
            let bounds = LayerShape::PathBounds { elements: clone_commands(&path.elements) };
            self.scene.push_layer(LayerKind::Blend(paint.blend_mode), OPACITY_ONE, rt, bounds);
        }
        let ghost ops1 = self.scene.ops@;
        let op = match &paint.style {
            RenderStyle::Fill => SceneOp::FillPath {
                elements: clone_commands(&path.elements),
                fill: path.fill,
                brush: clone_brush(&paint.brush),
                transform: rt,
            },
            RenderStyle::Stroke(s) => SceneOp::StrokePath {
                elements: clone_commands(&path.elements),
                stroke: *s,
                brush: clone_brush(&paint.brush),
                transform: rt,
            },
        };
        self.scene.record(op);
        let ghost ops2 = self.scene.ops@;
        if !skip {
            self.scene.pop_layer();
        }
        proof {
            if !(paint.blend_mode == BlendMode::SrcOver) {
                assert(ops2 == self.scene.ops@.drop_last());
                assert(self.scene.ops@.take(ops0.len() as int) =~= ops0);
                assert(self.scene.ops@[ops0.len() as int] == ops1[ops0.len() as int]);
                assert(self.scene.ops@[ops0.len() as int + 1] == ops2[ops0.len() as int + 1]);
            } else {
                assert(self.scene.ops@.take(ops0.len() as int) =~= ops0);
            }
        }
    }

    /// Draws an image centered on the current transform origin; the
    /// temporary blend layer is skipped exactly when the blend mode is
    /// the default and the opacity is full.
    pub fn draw_image(&mut self, image: &Image, blend_mode: BlendMode, opacity: i64)
        requires
            old(self).wf(),
        ensures
            draw_image_rel(*old(self), *final(self), *image, blend_mode, opacity),
            final(self).wf(),
    {
        let ghost ops0 = self.scene.ops@;
        let n = self.transforms.len();
        let top = self.transforms[n - 1];
        let half = RationalAffine {
            a: 2,
            b: 0,
            c: 0,
            d: 2,
            e: -(image.width as i128),
            f: -(image.height as i128),
            den: 2,
        };
        let ct = geom::compose_rational(&top, &half);
        proof {
            geom::lemma_mul_neg(top.a as int, image.width as int);
            geom::lemma_mul_neg(top.c as int, image.height as int);
            geom::lemma_mul_neg(top.b as int, image.width as int);
            geom::lemma_mul_neg(top.d as int, image.height as int);
            assert(is_centered(ct, top, image.width, image.height));
        }
        let skip = blend_mode == BlendMode::SrcOver && opacity == OPACITY_ONE;
        if !skip {
            self.scene.push_layer(
                LayerKind::Blend(blend_mode),
                opacity,
                ct,
                LayerShape::Rect { width: image.width, height: image.height },
            );
        }
        let ghost ops1 = self.scene.ops@;
        self.scene.record(SceneOp::DrawImage {
            width: image.width,
            height: image.height,
            data: clone_bytes(&image.data),
            transform: ct,
        });
        let ghost ops2 = self.scene.ops@;
        if !skip {
            self.scene.pop_layer();
        }
        proof {
            if !(blend_mode == BlendMode::SrcOver && opacity == OPACITY_ONE) {
                assert(ops2 == self.scene.ops@.drop_last());
                assert(self.scene.ops@.take(ops0.len() as int) =~= ops0);
                assert(self.scene.ops@[ops0.len() as int] == ops1[ops0.len() as int]);
                assert(self.scene.ops@[ops0.len() as int + 1] == ops2[ops0.len() as int + 1]);
            } else {
                assert(self.scene.ops@.take(ops0.len() as int) =~= ops0);
            }
        }
    }

    /// Draws a textured triangle mesh: for each index triple, fills the
    /// triangle of the three indexed vertices with the image, mapped by
    /// the affine correspondence from the scaled texture triangle and
    /// nudged by a uniform 103/100 scale from the triangle's centroid to
    /// close seams between adjacent triangles. A trailing partial triple
    /// is ignored. Index, coordinate and size bounds keep every product
    /// exact.
    #[verifier::loop_isolation(false)]
    pub fn draw_image_mesh(
        &mut self,
        image: &Image,
        vertices: &Vec<Point>,
        uvs: &Vec<Point>,
        indices: &Buffer,
        blend_mode: BlendMode,
        opacity: i64,
    )
        requires
            old(self).wf(),
            image.width <= IMAGE_DIM_LIMIT,
            image.height <= IMAGE_DIM_LIMIT,
            forall|i: int|
                0 <= i < u16s_of(indices.data@).len() ==> {
                    &&& (#[trigger] u16s_of(indices.data@)[i]) < vertices@.len()
                    &&& u16s_of(indices.data@)[i] < uvs@.len()
                },
            forall|i: int|
                0 <= i < vertices@.len() ==> geom::coord_bounded(#[trigger] vertices@[i]),
            forall|i: int|
                0 <= i < uvs@.len() ==> {
                    &&& -UV_LIMIT <= (#[trigger] uvs@[i]).x <= UV_LIMIT
                    &&& -UV_LIMIT <= uvs@[i].y <= UV_LIMIT
                },
        ensures
            draw_image_mesh_rel(
                *old(self), *final(self), *image,
                vertices@, uvs@, u16s_of(indices.data@), blend_mode, opacity,
            ),
            final(self).wf(),
    {
        let idx = indices.as_u16s();
        let total = idx.len();
        let tc = total / 3;
        proof {
            assert(3 * tc <= total);
        }
        let nt = self.transforms.len();
        let top = self.transforms[nt - 1];
        let skip = blend_mode == BlendMode::SrcOver;
        let ghost ops_base = self.scene.ops@;
        let ghost gper: int = if skip { 1int } else { 3int };
        let w64 = image.width as i64;
        let h64 = image.height as i64;
        let mut k: usize = 0;
        let mut at3: usize = 0;
        while k < tc
            invariant
                0 <= k <= tc,
                at3 == 3 * k,
                self.transforms@ == old(self).transforms@,
                self.clips@ == old(self).clips@,
                self.scene.wf(),
                self.scene.open == old(self).scene.open,
                self.scene.ops@.len() == ops_base.len() + k * gper,
                self.scene.ops@.take(ops_base.len() as int) == ops_base,
                forall|j: int|
                    0 <= j < k ==> #[trigger] mesh_triangle_ops(
                        self.scene.ops@, ops_base.len() + j * gper, *image, top,
                        vertices@, uvs@, idx@, j, blend_mode, opacity,
                    ),
            decreases tc - k,
        {
            let i0 = idx[at3] as usize;
            let i1 = idx[at3 + 1] as usize;
            let i2 = idx[at3 + 2] as usize;
            let p0 = vertices[i0];
            let p1 = vertices[i1];
            let p2 = vertices[i2];
            proof {
                geom::lemma_mul_bound(uvs@[i0 as int].x as int, w64 as int, UV_LIMIT as int, IMAGE_DIM_LIMIT as int);
                geom::lemma_mul_bound(uvs@[i0 as int].y as int, h64 as int, UV_LIMIT as int, IMAGE_DIM_LIMIT as int);
                geom::lemma_mul_bound(uvs@[i1 as int].x as int, w64 as int, UV_LIMIT as int, IMAGE_DIM_LIMIT as int);
                geom::lemma_mul_bound(uvs@[i1 as int].y as int, h64 as int, UV_LIMIT as int, IMAGE_DIM_LIMIT as int);
                geom::lemma_mul_bound(uvs@[i2 as int].x as int, w64 as int, UV_LIMIT as int, IMAGE_DIM_LIMIT as int);
                geom::lemma_mul_bound(uvs@[i2 as int].y as int, h64 as int, UV_LIMIT as int, IMAGE_DIM_LIMIT as int);
            }
            let uv0 = uvs[i0];
            let uv1 = uvs[i1];
            let uv2 = uvs[i2];
            let u0 = Point { x: uv0.x * w64, y: uv0.y * h64 };
            let u1 = Point { x: uv1.x * w64, y: uv1.y * h64 };
            let u2 = Point { x: uv2.x * w64, y: uv2.y * h64 };
            proof {
                assert(u0 == uv_scaled(uvs@[i0 as int], image.width, image.height));
                assert(u1 == uv_scaled(uvs@[i1 as int], image.width, image.height));
                assert(u2 == uv_scaled(uvs@[i2 as int], image.width, image.height));
            }
            let bt = geom::simplex_affine_mapping(u0, u1, u2, p0, p1, p2);
            let sx = p0.x + p1.x + p2.x;
            let sy = p0.y + p1.y + p2.y;
            let nudge = RationalAffine {
                a: 103,
                b: 0,
                c: 0,
                d: 103,
                e: -(sx as i128),
                f: -(sy as i128),
                den: 100,
            };
            let tt = geom::compose_rational(&top, &nudge);
            proof {
                assert(is_tri_transform(tt, top, p0, p1, p2));
                assert(is_tri_brush(bt, u0, u1, u2, p0, p1, p2));
            }
            let ghost pre_ops = self.scene.ops@;
            if !skip {
                self.scene.push_layer(
                    LayerKind::Blend(blend_mode),
                    opacity,
                    tt,
                    LayerShape::TriangleBounds { p0, p1, p2 },
                );
            }
            let ghost ops_mid = self.scene.ops@;
            self.scene.record(SceneOp::FillImageTriangle {
                width: image.width,
                height: image.height,
                data: clone_bytes(&image.data),
                p0,
                p1,
                p2,
                transform: tt,
                brush_transform: bt,
            });
            let ghost ops_mid2 = self.scene.ops@;
            if !skip {
                self.scene.pop_layer();
            }
            proof {
                assert(self.scene.ops@.take(pre_ops.len() as int) =~= pre_ops);
                if !skip {
                    assert(self.scene.ops@[pre_ops.len() as int] == ops_mid[pre_ops.len() as int]);
                    assert(self.scene.ops@[pre_ops.len() as int + 1]
                        == ops_mid2[pre_ops.len() as int + 1]);
                }
                assert(mesh_triangle_ops(
                    self.scene.ops@, ops_base.len() + k * gper, *image, top,
                    vertices@, uvs@, idx@, k as int, blend_mode, opacity,
                ));
                assert(self.scene.ops@.take(ops_base.len() as int) =~= ops_base);
                assert forall|j: int|
                    0 <= j < k + 1 implies #[trigger] mesh_triangle_ops(
                        self.scene.ops@, ops_base.len() + j * gper, *image, top,
                        vertices@, uvs@, idx@, j, blend_mode, opacity,
                    ) by {
                    if j < k {
                        assert(mesh_triangle_ops(
                            pre_ops, ops_base.len() + j * gper, *image, top,
                            vertices@, uvs@, idx@, j, blend_mode, opacity,
                        ));
                        assert(self.scene.ops@[ops_base.len() + j * gper]
                            == pre_ops[ops_base.len() + j * gper]);
                        if gper == 3 {
                            assert(self.scene.ops@[ops_base.len() + j * gper + 1]
                                == pre_ops[ops_base.len() + j * gper + 1]);
                            assert(self.scene.ops@[ops_base.len() + j * gper + 2]
                                == pre_ops[ops_base.len() + j * gper + 2]);
                        }
                    }
                }
            }
            k = k + 1;
            at3 = at3 + 3;
        }
        proof {
            assert(idx@ == u16s_of(indices.data@));
        }
    }

    /// Read access to the scene built so far.
    pub fn scene(&self) -> (r: &SceneGraph)
        ensures
            r == &self.scene,
    {
        &self.scene
    }

    /// Consumes the session, yielding the built scene.
    pub fn into_scene(self) -> (r: SceneGraph)
        ensures
            r == self.scene,
    {
        self.scene
    }
}

/// A texture coordinate scaled by the image dimensions.
pub open spec fn uv_scaled(uv: Point, w: u32, h: u32) -> Point {
    Point { x: (uv.x * w) as i64, y: (uv.y * h) as i64 }
}

/// The rational transform is the current transform nudged by a uniform
/// 103/100 scale from the triangle's centroid, kept exact with
/// denominator 100: exactly what composing the stack top with the
/// centroid scaling yields.
pub open spec fn is_tri_transform(
    rt: RationalAffine, top: Affine, p0: Point, p1: Point, p2: Point,
) -> bool {
    let sx = p0.x + p1.x + p2.x;
    let sy = p0.y + p1.y + p2.y;
    &&& rt.a == top.a * 103
    &&& rt.b == top.b * 103
    &&& rt.c == top.c * 103
    &&& rt.d == top.d * 103
    &&& rt.e == top.a * (-sx) + top.c * (-sy) + top.e * 100
    &&& rt.f == top.b * (-sx) + top.d * (-sy) + top.f * 100
    &&& rt.den == 100
}

/// The rational transform is the affine correspondence taking the scaled
/// texture triangle onto the destination triangle, as the solver yields
/// it.
pub open spec fn is_tri_brush(
    rt: RationalAffine, u0: Point, u1: Point, u2: Point, p0: Point, p1: Point, p2: Point,
) -> bool {
    &&& rt.a == geom::sam_p(u0, u1, u2, p0.x as int, p1.x as int, p2.x as int)
    &&& rt.b == geom::sam_p(u0, u1, u2, p0.y as int, p1.y as int, p2.y as int)
    &&& rt.c == geom::sam_q(u0, u1, u2, p0.x as int, p1.x as int, p2.x as int)
    &&& rt.d == geom::sam_q(u0, u1, u2, p0.y as int, p1.y as int, p2.y as int)
    &&& rt.e == geom::sam_t(u0, u1, u2, p0.x as int, p1.x as int, p2.x as int)
    &&& rt.f == geom::sam_t(u0, u1, u2, p0.y as int, p1.y as int, p2.y as int)
    &&& rt.den == geom::det_spec(u0, u1, u2)
}

/// The operation fills exactly this triangle with this image under the
/// nudged transform, the image mapped by the triangle's correspondence.
pub open spec fn is_tri_fill(
    op: SceneOp, img: Image, top: Affine,
    p0: Point, p1: Point, p2: Point, u0: Point, u1: Point, u2: Point,
) -> bool {
    match op {
        SceneOp::FillImageTriangle {
            width, height, data, p0: q0, p1: q1, p2: q2, transform, brush_transform,
        } => {
            &&& width == img.width
            &&& height == img.height
            &&& data@ == img.data@
            &&& q0 == p0 && q1 == p1 && q2 == p2
            &&& is_tri_transform(transform, top, p0, p1, p2)
            &&& is_tri_brush(brush_transform, u0, u1, u2, p0, p1, p2)
        }
        _ => false,
    }
}

/// The operation opens a blend layer scoped to this triangle's bounding
/// box under the nudged transform.
pub open spec fn is_blend_push_tri(
    op: SceneOp, blend: BlendMode, opacity: i64, top: Affine, p0: Point, p1: Point, p2: Point,
) -> bool {
    match op {
        SceneOp::PushLayer { kind, opacity: o, transform, shape } => {
            &&& kind == LayerKind::Blend(blend)
            &&& o == opacity
            &&& is_tri_transform(transform, top, p0, p1, p2)
            &&& match shape {
                LayerShape::TriangleBounds { p0: b0, p1: b1, p2: b2 } => {
                    b0 == p0 && b1 == p1 && b2 == p2
                }
                _ => false,
            }
        }
        _ => false,
    }
}

/// The operations recorded for mesh triangle `k`, starting at `at`: the
/// fill alone under the default blend mode, else the fill wrapped in a
/// blend layer.
pub open spec fn mesh_triangle_ops(
    ops: Seq<SceneOp>, at: int, img: Image, top: Affine,
    verts: Seq<Point>, uvs: Seq<Point>, idx: Seq<u16>, k: int,
    blend: BlendMode, opacity: i64,
) -> bool {
    let p0 = verts[idx[3 * k] as int];
    let p1 = verts[idx[3 * k + 1] as int];
    let p2 = verts[idx[3 * k + 2] as int];
    let u0 = uv_scaled(uvs[idx[3 * k] as int], img.width, img.height);
    let u1 = uv_scaled(uvs[idx[3 * k + 1] as int], img.width, img.height);
    let u2 = uv_scaled(uvs[idx[3 * k + 2] as int], img.width, img.height);
    if blend == BlendMode::SrcOver {
        is_tri_fill(ops[at], img, top, p0, p1, p2, u0, u1, u2)
    } else {
        &&& is_blend_push_tri(ops[at], blend, opacity, top, p0, p1, p2)
        &&& is_tri_fill(ops[at + 1], img, top, p0, p1, p2, u0, u1, u2)
        &&& ops[at + 2] is PopLayer
    }
}

/// Drawing a textured mesh records, for each index triple in order, the
/// triangle's image fill (wrapped in a blend layer unless the blend mode
/// is the default); a trailing partial triple is ignored. The stacks and
/// the number of open layers are unchanged.
pub open spec fn draw_image_mesh_rel(
    pre: Renderer, post: Renderer, img: Image,
    verts: Seq<Point>, uvs: Seq<Point>, idx: Seq<u16>,
    blend: BlendMode, opacity: i64,
) -> bool {
    let tc = idx.len() as int / 3;
    let per: int = if blend == BlendMode::SrcOver { 1 } else { 3 };
    let base = pre.scene.ops@.len() as int;
    &&& post.transforms@ == pre.transforms@
    &&& post.clips@ == pre.clips@
    &&& post.scene.open == pre.scene.open
    &&& post.scene.ops@.len() == base + tc * per
    &&& post.scene.ops@.take(base) == pre.scene.ops@
    &&& forall|k: int|
        0 <= k < tc ==> #[trigger] mesh_triangle_ops(
            post.scene.ops@, base + k * per, img, pre.transforms@.last(),
            verts, uvs, idx, k, blend, opacity,
        )
}

/// Pushing state and immediately popping it restores the session exactly:
/// the same stack depth, the same transforms and clip flags entry for
/// entry, and an unchanged scene.
pub proof fn lemma_push_pop_identity(r0: Renderer, r1: Renderer, r2: Renderer)
    requires
        r0.wf(),
        state_push_rel(r0, r1),
        state_pop_rel(r1, r2),
    ensures
        r2.transforms@ == r0.transforms@,
        r2.clips@ == r0.clips@,
        r2.depth() == r0.depth(),
        r2.top_transform() == r0.top_transform(),
        r2.scene.ops@ == r0.scene.ops@,
        r2.scene.open == r0.scene.open,
{
    assert(r1.transforms@.len() == r0.transforms@.len() + 1);
    assert(!r1.clips@.last());
    assert(r1.transforms@.drop_last() =~= r0.transforms@);
    assert(r1.clips@.drop_last() =~= r0.clips@);
}

/// Two clip replacements at the same depth leave exactly one clip layer
/// open for that depth: the second closes the first's layer before
/// opening its own, so the scene's open-layer count rises by at most one
/// over the pair, and the layer standing open last is the second path's.
pub proof fn lemma_set_clip_replaces(
    r0: Renderer, r1: Renderer, r2: Renderer, p: Path, q: Path,
)
    requires
        r0.wf(),
        set_clip_rel(r0, r1, p),
        set_clip_rel(r1, r2, q),
    ensures
        r1.clips@.last(),
        r2.scene.open == r1.scene.open,
        r2.scene.ops@[r2.scene.ops@.len() - 2] is PopLayer,
        is_clip_push(r2.scene.ops@.last(), r0.transforms@.last(), q),
        r2.scene.open as int == r0.scene.open + (if r0.clips@.last() { 0int } else { 1int }),
{
    assert(r1.clips@.last() == r1.clips@[r1.clips@.len() - 1]);
}

} // verus!
