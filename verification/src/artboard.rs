//! Artboards: named drawable canvases decoded from a document, from which
//! animations and state machines are instantiated, plus the components an
//! artboard contains.

use vstd::prelude::*;
use crate::file::File;
use crate::instantiate::{resolve_handle, resolves_to, Handle, Instantiate};
use crate::linear_animation::{anim_matches, clone_anim, AnimationDesc, LinearAnimation};
use crate::state_machine::{clone_machine, machine_matches, MachineDesc, StateMachine};

verus! {

/// The component type identifier of a text value run.
pub const TEXT_VALUE_RUN_TYPE_ID: u16 = 135;

/// A named element within an artboard.
#[derive(Debug)]
pub struct Component {
    pub name: String,
    pub type_id: u16,
    pub text: String,
}

impl Component {
    /// The component's name.
    pub fn name(&self) -> (r: String)
        ensures
            r@ == self.name@,
    {
        self.name.clone()
    }
}

/// A text run component: a component whose type marks it as carrying
/// text.
#[derive(Debug)]
pub struct TextValueRun {
    pub name: String,
    pub text: String,
}

impl TextValueRun {
    /// Views a component as a text run exactly when its type identifier
    /// marks one.
    pub fn try_from_component(c: &Component) -> (r: Option<TextValueRun>)
        ensures
            (match r {
                Some(t) => c.type_id == TEXT_VALUE_RUN_TYPE_ID && t.name@ == c.name@
                    && t.text@ == c.text@,
                None => c.type_id != TEXT_VALUE_RUN_TYPE_ID,
            }),
    {
        if c.type_id == TEXT_VALUE_RUN_TYPE_ID {
            Some(TextValueRun { name: c.name.clone(), text: c.text.clone() })
        } else {
            None
        }
    }

    /// The run's current text.
    pub fn get_text(&self) -> (r: String)
        ensures
            r@ == self.text@,
    {
        self.text.clone()
    }

    /// Replaces the run's text.
    pub fn set_text(&mut self, text: &str)
        ensures
            final(self).text@ == text@,
            final(self).name == old(self).name,
    {
        self.text = text.to_owned();
    }
}

/// An artboard: its intrinsic size and the animations and state machines
/// defined on it.
#[derive(Debug)]
pub struct Artboard {
    pub name: String,
    pub width: u32,
    pub height: u32,
    pub animations: Vec<AnimationDesc>,
    pub machines: Vec<MachineDesc>,
}

/// The artboards agree in name, size, and every animation and machine
/// description.
pub open spec fn artboard_matches(a: Artboard, b: Artboard) -> bool {
    &&& a.name@ == b.name@
    &&& a.width == b.width
    &&& a.height == b.height
    &&& a.animations@.len() == b.animations@.len()
    &&& forall|i: int|
        0 <= i < a.animations@.len() ==> anim_matches(#[trigger] a.animations@[i], b.animations@[i])
    &&& a.machines@.len() == b.machines@.len()
    &&& forall|i: int|
        0 <= i < a.machines@.len() ==> machine_matches(#[trigger] a.machines@[i], b.machines@[i])
}

/// Copies an artboard description.
pub fn clone_artboard(a: &Artboard) -> (r: Artboard)
    ensures
        artboard_matches(r, *a),
{
    let mut animations: Vec<AnimationDesc> = Vec::new();
    let mut i: usize = 0;
    while i < a.animations.len()
        invariant
            0 <= i <= a.animations@.len(),
            animations@.len() == i,
            forall|j: int|
                0 <= j < i ==> anim_matches(#[trigger] animations@[j], a.animations@[j]),
        decreases a.animations@.len() - i,
    {
        animations.push(clone_anim(&a.animations[i]));
        i = i + 1;
    }
    let mut machines: Vec<MachineDesc> = Vec::new();
    let mut k: usize = 0;
    while k < a.machines.len()
        invariant
            0 <= k <= a.machines@.len(),
            machines@.len() == k,
            forall|j: int| 0 <= j < k ==> machine_matches(#[trigger] machines@[j], a.machines@[j]),
        decreases a.machines@.len() - k,
    {
        machines.push(clone_machine(&a.machines[k]));
        k = k + 1;
    }
    Artboard { name: a.name.clone(), width: a.width, height: a.height, animations, machines }
}

impl Instantiate for Artboard {
    type From = File;

    /// A successful instantiation returns a copy of the artboard the
    /// selector resolves to; absence means the selector resolves to
    /// nothing.
    open spec fn instantiated_ok(from: &File, handle: Handle, r: Option<Artboard>) -> bool {
        let names = from.artboards@.map_values(|a: Artboard| a.name@);
        match r {
            Some(ab) => exists|j: int| {
                &&& #[trigger] resolves_to(handle, names, Some(j))
                &&& 0 <= j < from.artboards@.len()
                &&& artboard_matches(ab, from.artboards@[j])
            },
            None => resolves_to(handle, names, None::<int>),
        }
    }

    fn instantiate(from: &File, handle: Handle) -> (r: Option<Artboard>)
    {
        let mut names: Vec<String> = Vec::new();
        let mut i: usize = 0;
        while i < from.artboards.len()
            invariant
                0 <= i <= from.artboards@.len(),
                names@.len() == i,
                forall|j: int| 0 <= j < i ==> (#[trigger] names@[j])@ == from.artboards@[j].name@,
            decreases from.artboards@.len() - i,
        {
            names.push(from.artboards[i].name.clone());
            i = i + 1;
        }
        proof {
            assert(names@.map_values(|n: String| n@)
                =~= from.artboards@.map_values(|a: Artboard| a.name@));
        }
        match resolve_handle(&handle, &names) {
            Some(j) => {
                let ab = clone_artboard(&from.artboards[j]);
                proof {
                    assert(resolves_to(
                        handle,
                        from.artboards@.map_values(|a: Artboard| a.name@),
                        Some(j as int),
                    ));
                }
                Some(ab)
            }
            None => None,
        }
    }
}

impl Instantiate for LinearAnimation {
    type From = Artboard;

    /// A successful instantiation returns a fresh playback instance of
    /// the animation the selector resolves to, at the start and playing
    /// forwards; absence means the selector resolves to nothing.
    open spec fn instantiated_ok(
        from: &Artboard, handle: Handle, r: Option<LinearAnimation>,
    ) -> bool {
        let names = from.animations@.map_values(|a: AnimationDesc| a.name@);
        match r {
            Some(la) => exists|j: int| {
                &&& #[trigger] resolves_to(handle, names, Some(j))
                &&& 0 <= j < from.animations@.len()
                &&& la.name@ == from.animations@[j].name@
                &&& la.duration_us == from.animations@[j].duration_us
                &&& la.loop_mode == from.animations@[j].loop_mode
                &&& la.time_us == 0
                &&& la.direction == crate::linear_animation::Direction::Forwards
                &&& !la.did_loop
            },
            None => resolves_to(handle, names, None::<int>),
        }
    }

    fn instantiate(from: &Artboard, handle: Handle) -> (r: Option<LinearAnimation>)
    {
        let mut names: Vec<String> = Vec::new();
        let mut i: usize = 0;
        while i < from.animations.len()
            invariant
                0 <= i <= from.animations@.len(),
                names@.len() == i,
                forall|j: int| 0 <= j < i ==> (#[trigger] names@[j])@ == from.animations@[j].name@,
            decreases from.animations@.len() - i,
        {
            names.push(from.animations[i].name.clone());
            i = i + 1;
        }
        proof {
            assert(names@.map_values(|n: String| n@)
                =~= from.animations@.map_values(|a: AnimationDesc| a.name@));
        }
        match resolve_handle(&handle, &names) {
            Some(j) => {
                let la = LinearAnimation::from_desc(&from.animations[j]);
                proof {
                    assert(resolves_to(
                        handle,
                        from.animations@.map_values(|a: AnimationDesc| a.name@),
                        Some(j as int),
                    ));
                }
                Some(la)
            }
            None => None,
        }
    }
}

impl Instantiate for StateMachine {
    type From = Artboard;

    /// A successful instantiation returns a fresh instance of the machine
    /// the selector resolves to, with its authored inputs and an empty
    /// event queue; absence means the selector resolves to nothing.
    open spec fn instantiated_ok(
        from: &Artboard, handle: Handle, r: Option<StateMachine>,
    ) -> bool {
        let names = from.machines@.map_values(|m: MachineDesc| m.name@);
        match r {
            Some(sm) => exists|j: int| {
                &&& #[trigger] resolves_to(handle, names, Some(j))
                &&& 0 <= j < from.machines@.len()
                &&& sm.name@ == from.machines@[j].name@
                &&& sm.inputs@.len() == from.machines@[j].inputs@.len()
                &&& forall|i: int|
                    0 <= i < sm.inputs@.len() ==> crate::state_machine::input_matches(
                        #[trigger] sm.inputs@[i],
                        from.machines@[j].inputs@[i],
                    )
                &&& sm.events@.len() == 0
            },
            None => resolves_to(handle, names, None::<int>),
        }
    }

    fn instantiate(from: &Artboard, handle: Handle) -> (r: Option<StateMachine>)
    {
        let mut names: Vec<String> = Vec::new();
        let mut i: usize = 0;
        while i < from.machines.len()
            invariant
                0 <= i <= from.machines@.len(),
                names@.len() == i,
                forall|j: int| 0 <= j < i ==> (#[trigger] names@[j])@ == from.machines@[j].name@,
            decreases from.machines@.len() - i,
        {
            names.push(from.machines[i].name.clone());
            i = i + 1;
        }
        proof {
            assert(names@.map_values(|n: String| n@)
                =~= from.machines@.map_values(|m: MachineDesc| m.name@));
        }
        match resolve_handle(&handle, &names) {
            Some(j) => {
                let sm = StateMachine::from_desc(&from.machines[j]);
                proof {
                    assert(resolves_to(
                        handle,
                        from.machines@.map_values(|m: MachineDesc| m.name@),
                        Some(j as int),
                    ));
                }
                Some(sm)
            }
            None => None,
        }
    }
}

} // verus!
