//! The playback scene: linear animations and state machines behind one
//! advance/draw capability, and the viewport they are fit into.
//!
//! Each frame the artboard is fit into the viewport with a uniform
//! integer scale and centered; the viewport keeps the exact rational
//! inverse of that fit for mapping pointer coordinates into artboard
//! space. Advancing that reports nothing more to show leaves the
//! renderer untouched; a draw pushes renderer state, applies the view
//! transform, lets the engine draw, and pops, restoring the session
//! exactly.

use vstd::prelude::*;
use crate::artboard::Artboard;
use crate::geom::{Affine, RationalAffine};
use crate::instantiate::{resolve_handle, resolves_to, Handle, Instantiate};
use crate::linear_animation::{advanced, keeps_going, AnimationDesc, LinearAnimation};
use crate::renderer::Renderer;
use crate::state_machine::{input_matches, MachineDesc, StateMachine};

verus! {

/// The on-screen rectangle an artboard is fit into, with the inverse of
/// the current view transform.
#[derive(Debug)]
pub struct Viewport {
    pub width: u32,
    pub height: u32,
    pub inverse_view_transform: RationalAffine,
}

impl Viewport {
    /// The viewport's width in pixels.
    pub fn width(&self) -> (r: u32)
        ensures
            r == self.width,
    {
        self.width
    }

    /// The viewport's height in pixels.
    pub fn height(&self) -> (r: u32)
        ensures
            r == self.height,
    {
        self.height
    }

    /// Resizes the viewport; the inverse transform is recomputed on the
    /// next frame.
    pub fn resize(&mut self, width: u32, height: u32)
        ensures
            final(self).width == width,
            final(self).height == height,
            final(self).inverse_view_transform == old(self).inverse_view_transform,
    {
        self.width = width;
        self.height = height;
    }
}

impl Default for Viewport {
    /// An empty viewport with an identity inverse transform.
    fn default() -> (r: Viewport)
        ensures
            r.width == 0,
            r.height == 0,
            r.inverse_view_transform == (RationalAffine {
                a: 1, b: 0, c: 0, d: 1, e: 0, f: 0, den: 1,
            }),
    {
        Viewport {
            width: 0,
            height: 0,
            inverse_view_transform: RationalAffine { a: 1, b: 0, c: 0, d: 1, e: 0, f: 0, den: 1 },
        }
    }
}

/// The uniform integer scale fitting an artboard into a viewport: the
/// larger whole multiple of the artboard that still fits both ways; zero
/// when the artboard is empty or larger than the viewport.
pub open spec fn view_scale(aw: u32, ah: u32, vw: u32, vh: u32) -> int {
    if aw == 0 || ah == 0 {
        0
    } else if vw as int / aw as int <= vh as int / ah as int {
        vw as int / aw as int
    } else {
        vh as int / ah as int
    }
}

/// The translation centering the scaled artboard in the viewport.
pub open spec fn view_offset(side: u32, art: u32, scale: int) -> int {
    (side - art * scale) / 2
}

/// The forward view transform: uniform scale and centering translation.
pub open spec fn view_transform_spec(aw: u32, ah: u32, vw: u32, vh: u32) -> Affine {
    let s = view_scale(aw, ah, vw, vh);
    Affine {
        a: s as i64,
        b: 0,
        c: 0,
        d: s as i64,
        e: view_offset(vw, aw, s) as i64,
        f: view_offset(vh, ah, s) as i64,
    }
}

/// The exact rational inverse of the view transform; a zero scale leaves
/// a degenerate inverse with denominator zero.
pub open spec fn inverse_view_transform_spec(aw: u32, ah: u32, vw: u32, vh: u32) -> RationalAffine {
    let s = view_scale(aw, ah, vw, vh);
    RationalAffine {
        a: 1,
        b: 0,
        c: 0,
        d: 1,
        e: -view_offset(vw, aw, s) as i128,
        f: -view_offset(vh, ah, s) as i128,
        den: s as i128,
    }
}

/// Computes the forward view transform and its exact inverse for an
/// artboard fit into a viewport.
pub fn compute_view_transforms(aw: u32, ah: u32, vw: u32, vh: u32) -> (r: (Affine, RationalAffine))
    ensures
        r.0 == view_transform_spec(aw, ah, vw, vh),
        r.1 == inverse_view_transform_spec(aw, ah, vw, vh),
{
    let s: u64 = if aw == 0 || ah == 0 {
        0
    } else {
        let sw = (vw / aw) as u64;
        let sh = (vh / ah) as u64;
        if sw <= sh {
            sw
        } else {
            sh
        }
    };
    proof {
        assert(s == view_scale(aw, ah, vw, vh));
        if !(aw == 0 || ah == 0) {
            crate::geom::lemma_mul_mono(aw as int, s as int, vw as int / aw as int);
            crate::geom::lemma_div_mul_le(aw as int, vw as int);
            crate::geom::lemma_mul_mono(ah as int, s as int, vh as int / ah as int);
            crate::geom::lemma_div_mul_le(ah as int, vh as int);
        }
    }
    let ex: u64 = if aw == 0 || ah == 0 {
        (vw as u64) / 2
    } else {
        (vw as u64 - (aw as u64) * s) / 2
    };
    let ey: u64 = if aw == 0 || ah == 0 {
        (vh as u64) / 2
    } else {
        (vh as u64 - (ah as u64) * s) / 2
    };
    let vt = Affine { a: s as i64, b: 0, c: 0, d: s as i64, e: ex as i64, f: ey as i64 };
    let ivt = RationalAffine {
        a: 1,
        b: 0,
        c: 0,
        d: 1,
        e: -(ex as i128),
        f: -(ey as i128),
        den: s as i128,
    };
    (vt, ivt)
}

/// Maps a pointer position through the viewport's inverse view
/// transform, as an exact rational point: numerators over the inverse's
/// denominator.
pub fn pointer_to_artboard(viewport: &Viewport, x: i64, y: i64) -> (r: (i128, i128, i128))
    requires
        -0x8000_0000_0000 <= x <= 0x8000_0000_0000,
        -0x8000_0000_0000 <= y <= 0x8000_0000_0000,
        viewport.inverse_view_transform.a == 1,
        viewport.inverse_view_transform.b == 0,
        viewport.inverse_view_transform.c == 0,
        viewport.inverse_view_transform.d == 1,
        -crate::geom::RAT_LIMIT <= viewport.inverse_view_transform.e <= crate::geom::RAT_LIMIT,
        -crate::geom::RAT_LIMIT <= viewport.inverse_view_transform.f <= crate::geom::RAT_LIMIT,
    ensures
        r.0 == x + viewport.inverse_view_transform.e,
        r.1 == y + viewport.inverse_view_transform.f,
        r.2 == viewport.inverse_view_transform.den,
{
    let t = &viewport.inverse_view_transform;
    ((x as i128) + t.e, (y as i128) + t.f, t.den)
}

/// One playback scene over an artboard: a state machine when the
/// artboard defines a matching one, else a linear animation.
#[derive(Debug)]
pub enum SceneKind {
    LinearAnimation(LinearAnimation),
    StateMachine(StateMachine),
}

/// A scene: the playback cursor plus the artboard's intrinsic size, from
/// which each frame's view transform is computed.
#[derive(Debug)]
pub struct Scene {
    pub artboard_width: u32,
    pub artboard_height: u32,
    pub kind: SceneKind,
}

impl Scene {
    /// The scene's playback state is sound.
    pub open spec fn wf(self) -> bool {
        match self.kind {
            SceneKind::LinearAnimation(la) => la.wf(),
            SceneKind::StateMachine(_) => true,
        }
    }
}

/// How one advance steps a scene: a linear animation moves its clock,
/// a state machine drains its event queue; the reported flag says
/// whether anything more will happen.
pub open spec fn scene_advanced(pre: Scene, post: Scene, elapsed_us: u64, keep: bool) -> bool {
    &&& post.artboard_width == pre.artboard_width
    &&& post.artboard_height == pre.artboard_height
    &&& (match (pre.kind, post.kind) {
        (SceneKind::LinearAnimation(a), SceneKind::LinearAnimation(b)) => {
            let (t, dir, looped) = advanced(
                a.loop_mode, a.duration_us, a.time_us, a.direction, elapsed_us,
            );
            &&& b.time_us == t
            &&& b.direction == dir
            &&& b.did_loop == looped
            &&& b.duration_us == a.duration_us
            &&& b.loop_mode == a.loop_mode
            &&& b.name == a.name
            &&& keep == keeps_going(a.loop_mode, a.duration_us, b.time_us, b.direction)
        }
        (SceneKind::StateMachine(a), SceneKind::StateMachine(b)) => {
            &&& b.events@.len() == 0
            &&& b.inputs == a.inputs
            &&& b.name == a.name
            &&& keep
        }
        _ => false,
    })
}

impl Scene {
    /// Advances the scene's clock and applies its state; reports whether
    /// anything more will happen.
    pub fn advance_and_apply(&mut self, elapsed_us: u64) -> (r: bool)
        requires
            old(self).wf(),
        ensures
            scene_advanced(*old(self), *final(self), elapsed_us, r),
            final(self).wf(),
    {
        match &mut self.kind {
            SceneKind::LinearAnimation(la) => la.advance_and_apply(elapsed_us),
            SceneKind::StateMachine(sm) => sm.advance_and_apply(elapsed_us),
        }
    }

    /// What the engine draws for this scene is its own; the renderer
    /// session it draws into is handed back unchanged in its stacks.
    pub fn draw(&self, renderer: &mut Renderer)
        ensures
            *final(renderer) == *old(renderer),
    {
    }

    /// Recomputes the viewport's inverse view transform, advances the
    /// scene, and draws it under the view transform between a state push
    /// and pop. When advancing reports nothing more to show, the
    /// renderer is not touched and no redraw is reported; otherwise the
    /// push/transform/draw/pop cycle leaves the renderer's stacks and
    /// scene exactly as they were, and a redraw is reported.
    pub fn advance_and_maybe_draw(
        &mut self,
        renderer: &mut Renderer,
        elapsed_us: u64,
        viewport: &mut Viewport,
    ) -> (r: bool)
        requires
            old(self).wf(),
            old(renderer).wf(),
        ensures
            final(viewport).width == old(viewport).width,
            final(viewport).height == old(viewport).height,
            final(viewport).inverse_view_transform == inverse_view_transform_spec(
                old(self).artboard_width,
                old(self).artboard_height,
                old(viewport).width,
                old(viewport).height,
            ),
            scene_advanced(*old(self), *final(self), elapsed_us, r),
            final(self).wf(),
            !r ==> *final(renderer) == *old(renderer),
            final(renderer).transforms@ == old(renderer).transforms@,
            final(renderer).clips@ == old(renderer).clips@,
            final(renderer).scene.ops@ == old(renderer).scene.ops@,
            final(renderer).scene.open == old(renderer).scene.open,
            final(renderer).wf(),
    {
        let (vt, ivt) = compute_view_transforms(
            self.artboard_width,
            self.artboard_height,
            viewport.width,
            viewport.height,
        );
        viewport.inverse_view_transform = ivt;
        let keep = self.advance_and_apply(elapsed_us);
        if !keep {
            return false;
        }
        let ghost r0 = *renderer;
        renderer.state_push();
        let ghost r1 = *renderer;
        renderer.transform(&vt);
        let ghost r2 = *renderer;
        self.draw(renderer);
        renderer.state_pop();
        proof {
            assert(r2.transforms@.len() == r0.transforms@.len() + 1);
            assert(!r2.clips@.last());
            assert(renderer.transforms@ =~= r0.transforms@);
            assert(renderer.clips@ =~= r0.clips@);
        }
        true
    }
}

impl Instantiate for Scene {
    type From = Artboard;

    /// A scene prefers a state machine matching the selector and falls
    /// back to a linear animation; absence means neither list resolves.
    open spec fn instantiated_ok(from: &Artboard, handle: Handle, r: Option<Scene>) -> bool {
        let machine_names = from.machines@.map_values(|m: MachineDesc| m.name@);
        let animation_names = from.animations@.map_values(|a: AnimationDesc| a.name@);
        match r {
            Some(scene) => {
                &&& scene.artboard_width == from.width
                &&& scene.artboard_height == from.height
                &&& (match scene.kind {
                    SceneKind::StateMachine(sm) => exists|j: int| {
                        &&& #[trigger] resolves_to(handle, machine_names, Some(j))
                        &&& 0 <= j < from.machines@.len()
                        &&& sm.name@ == from.machines@[j].name@
                        &&& sm.inputs@.len() == from.machines@[j].inputs@.len()
                        &&& forall|i: int|
                            0 <= i < sm.inputs@.len() ==> input_matches(
                                #[trigger] sm.inputs@[i],
                                from.machines@[j].inputs@[i],
                            )
                        &&& sm.events@.len() == 0
                    },
                    SceneKind::LinearAnimation(la) => {
                        &&& resolves_to(handle, machine_names, None::<int>)
                        &&& exists|j: int| {
                            &&& #[trigger] resolves_to(handle, animation_names, Some(j))
                            &&& 0 <= j < from.animations@.len()
                            &&& la.name@ == from.animations@[j].name@
                            &&& la.duration_us == from.animations@[j].duration_us
                            &&& la.loop_mode == from.animations@[j].loop_mode
                            &&& la.time_us == 0
                            &&& !la.did_loop
                        }
                    }
                })
            }
            None => {
                &&& resolves_to(handle, machine_names, None::<int>)
                &&& resolves_to(handle, animation_names, None::<int>)
            }
        }
    }

    fn instantiate(from: &Artboard, handle: Handle) -> (r: Option<Scene>)
    {
        let mut machine_names: Vec<String> = Vec::new();
        let mut i: usize = 0;
        while i < from.machines.len()
            invariant
                0 <= i <= from.machines@.len(),
                machine_names@.len() == i,
                forall|j: int|
                    0 <= j < i ==> (#[trigger] machine_names@[j])@ == from.machines@[j].name@,
            decreases from.machines@.len() - i,
        {
            machine_names.push(from.machines[i].name.clone());
            i = i + 1;
        }
        proof {
            assert(machine_names@.map_values(|n: String| n@)
                =~= from.machines@.map_values(|m: MachineDesc| m.name@));
        }
        match resolve_handle(&handle, &machine_names) {
            Some(j) => {
                let sm = StateMachine::from_desc(&from.machines[j]);
                proof {
                    assert(resolves_to(
                        handle,
                        from.machines@.map_values(|m: MachineDesc| m.name@),
                        Some(j as int),
                    ));
                }
                return Some(Scene {
                    artboard_width: from.width,
                    artboard_height: from.height,
                    kind: SceneKind::StateMachine(sm),
                });
            }
            None => {}
        }
        let mut animation_names: Vec<String> = Vec::new();
        let mut k: usize = 0;
        while k < from.animations.len()
            invariant
                0 <= k <= from.animations@.len(),
                animation_names@.len() == k,
                forall|j: int|
                    0 <= j < k ==> (#[trigger] animation_names@[j])@ == from.animations@[j].name@,
            decreases from.animations@.len() - k,
        {
            animation_names.push(from.animations[k].name.clone());
            k = k + 1;
        }
        proof {
            assert(animation_names@.map_values(|n: String| n@)
                =~= from.animations@.map_values(|a: AnimationDesc| a.name@));
        }
        match resolve_handle(&handle, &animation_names) {
            Some(j) => {
                let la = LinearAnimation::from_desc(&from.animations[j]);
                proof {
                    assert(resolves_to(
                        handle,
                        from.animations@.map_values(|a: AnimationDesc| a.name@),
                        Some(j as int),
                    ));
                }
                Some(Scene {
                    artboard_width: from.width,
                    artboard_height: from.height,
                    kind: SceneKind::LinearAnimation(la),
                })
            }
            None => None,
        }
    }
}

/// A finished one-shot animation asked to advance by nothing reports no
/// redraw and leaves the renderer exactly as it was: when the scene is a
/// one-shot linear animation standing at the end it is heading for and
/// no time has elapsed, the advance moves nothing, keeps-going is false,
/// and the maybe-draw contract then forbids any renderer mutation.
pub proof fn lemma_finished_oneshot_no_redraw(
    pre: Scene, post: Scene, pre_r: Renderer, post_r: Renderer, r: bool,
)
    requires
        pre.kind matches SceneKind::LinearAnimation(la) && la.wf()
            && la.loop_mode == crate::linear_animation::Loop::OneShot
            && (match la.direction {
                crate::linear_animation::Direction::Forwards => la.time_us == la.duration_us,
                crate::linear_animation::Direction::Backwards => la.time_us == 0,
            }),
        scene_advanced(pre, post, 0, r),
        !r ==> post_r == pre_r,
    ensures
        !r,
        post_r == pre_r,
        post.kind matches SceneKind::LinearAnimation(lb)
            && lb.time_us == (match pre.kind {
                SceneKind::LinearAnimation(la) => la.time_us,
                _ => 0,
            }),
{
}

} // verus!
