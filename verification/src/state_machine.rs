//! State machine instances: named inputs driving the machine and the
//! queue of events it fired.
//!
//! Reading the event queue is non-destructive: the same queue is reported
//! until the next advance drains it. Property bags crossing the engine
//! boundary are validated before they are stored: an invalid UTF-8 key
//! leaves the bag unchanged.

use vstd::prelude::*;

verus! {

/// The tag of a machine input.
#[derive(Clone, Copy, Debug, PartialEq, Eq, Structural)]
pub enum InputTag {
    Bool,
    Number,
    Trigger,
}

/// A named boolean input.
#[derive(Debug)]
pub struct Bool {
    pub name: String,
    pub value: bool,
}

impl Bool {
    /// A fresh boolean input.
    pub fn new(name: String, value: bool) -> (r: Bool)
        ensures
            r.name == name,
            r.value == value,
    {
        Bool { name, value }
    }

    /// The input's name.
    pub fn name(&self) -> (r: String)
        ensures
            r@ == self.name@,
    {
        self.name.clone()
    }

    /// The current value.
    pub fn get(&self) -> (r: bool)
        ensures
            r == self.value,
    {
        self.value
    }

    /// Sets the value.
    pub fn set(&mut self, val: bool)
        ensures
            final(self).value == val,
            final(self).name == old(self).name,
    {
        self.value = val;
    }
}

/// A named numeric input; values are carried as exact integers in the
/// scale the machine was authored with.
#[derive(Debug)]
pub struct Number {
    pub name: String,
    pub value: i64,
}

impl Number {
    /// A fresh numeric input.
    pub fn new(name: String, value: i64) -> (r: Number)
        ensures
            r.name == name,
            r.value == value,
    {
        Number { name, value }
    }

    /// The input's name.
    pub fn name(&self) -> (r: String)
        ensures
            r@ == self.name@,
    {
        self.name.clone()
    }

    /// The current value.
    pub fn get(&self) -> (r: i64)
        ensures
            r == self.value,
    {
        self.value
    }

    /// Sets the value.
    pub fn set(&mut self, val: i64)
        ensures
            final(self).value == val,
            final(self).name == old(self).name,
    {
        self.value = val;
    }
}

/// A named trigger input.
#[derive(Debug)]
pub struct Trigger {
    pub name: String,
    pub fired: bool,
}

impl Trigger {
    /// A fresh, unfired trigger.
    pub fn new(name: String) -> (r: Trigger)
        ensures
            r.name == name,
            !r.fired,
    {
        Trigger { name, fired: false }
    }

    /// The input's name.
    pub fn name(&self) -> (r: String)
        ensures
            r@ == self.name@,
    {
        self.name.clone()
    }

    /// Fires the trigger.
    pub fn fire(&mut self)
        ensures
            final(self).fired,
            final(self).name == old(self).name,
    {
        self.fired = true;
    }
}

/// Any machine input.
#[derive(Debug)]
pub enum Input {
    Bool(Bool),
    Number(Number),
    Trigger(Trigger),
}

impl Input {
    /// The input's tag.
    pub open spec fn tag(self) -> InputTag {
        match self {
            Input::Bool(_) => InputTag::Bool,
            Input::Number(_) => InputTag::Number,
            Input::Trigger(_) => InputTag::Trigger,
        }
    }

    /// The input's name.
    pub open spec fn name_view(self) -> Seq<char> {
        match self {
            Input::Bool(b) => b.name@,
            Input::Number(n) => n.name@,
            Input::Trigger(t) => t.name@,
        }
    }
}

/// The inputs agree in tag, name, and state.
pub open spec fn input_matches(a: Input, b: Input) -> bool {
    match (a, b) {
        (Input::Bool(x), Input::Bool(y)) => x.name@ == y.name@ && x.value == y.value,
        (Input::Number(x), Input::Number(y)) => x.name@ == y.name@ && x.value == y.value,
        (Input::Trigger(x), Input::Trigger(y)) => x.name@ == y.name@ && x.fired == y.fired,
        _ => false,
    }
}

/// Copies one input.
pub fn clone_input(a: &Input) -> (r: Input)
    ensures
        input_matches(r, *a),
{
    match a {
        Input::Bool(x) => Input::Bool(Bool { name: x.name.clone(), value: x.value }),
        Input::Number(x) => Input::Number(Number { name: x.name.clone(), value: x.value }),
        Input::Trigger(x) => Input::Trigger(Trigger { name: x.name.clone(), fired: x.fired }),
    }
}

/// Copies an input list.
pub fn clone_inputs(v: &Vec<Input>) -> (r: Vec<Input>)
    ensures
        r@.len() == v@.len(),
        forall|i: int| 0 <= i < v@.len() ==> input_matches(#[trigger] r@[i], v@[i]),
{
    let mut out: Vec<Input> = Vec::new();
    let mut i: usize = 0;
    while i < v.len()
        invariant
            0 <= i <= v@.len(),
            out@.len() == i,
            forall|j: int| 0 <= j < i ==> input_matches(#[trigger] out@[j], v@[j]),
        decreases v@.len() - i,
    {
        out.push(clone_input(&v[i]));
        i = i + 1;
    }
    out
}

/// The tag of an event property's payload.
#[derive(Clone, Copy, Debug, PartialEq, Eq, Structural)]
pub enum PropertyTag {
    Bool,
    Number,
    String,
}

/// An event property's payload; numbers are carried as exact integers.
#[derive(Debug)]
pub enum Property {
    Bool(bool),
    Number(i64),
    String(String),
}

/// The payloads agree in tag and content.
pub open spec fn property_matches(a: Property, b: Property) -> bool {
    match (a, b) {
        (Property::Bool(x), Property::Bool(y)) => x == y,
        (Property::Number(x), Property::Number(y)) => x == y,
        (Property::String(x), Property::String(y)) => x@ == y@,
        _ => false,
    }
}

/// Copies one payload.
pub fn clone_property(a: &Property) -> (r: Property)
    ensures
        property_matches(r, *a),
{
    match a {
        Property::Bool(x) => Property::Bool(*x),
        Property::Number(x) => Property::Number(*x),
        Property::String(x) => Property::String(x.clone()),
    }
}

/// An event fired by a machine: its name, how long ago it fired, and its
/// property bag, an association list with unique keys kept in insertion
/// order.
#[derive(Debug)]
pub struct Event {
    pub name: String,
    pub delay_us: u64,
    pub properties: Vec<(String, Property)>,
}

/// The events agree in name, delay, and property bag.
pub open spec fn event_matches(a: Event, b: Event) -> bool {
    &&& a.name@ == b.name@
    &&& a.delay_us == b.delay_us
    &&& a.properties@.len() == b.properties@.len()
    &&& forall|i: int|
        0 <= i < a.properties@.len() ==> {
            &&& (#[trigger] a.properties@[i]).0@ == b.properties@[i].0@
            &&& property_matches(a.properties@[i].1, b.properties@[i].1)
        }
}

/// Copies one event.
pub fn clone_event(a: &Event) -> (r: Event)
    ensures
        event_matches(r, *a),
{
    let mut props: Vec<(String, Property)> = Vec::new();
    let mut i: usize = 0;
    while i < a.properties.len()
        invariant
            0 <= i <= a.properties@.len(),
            props@.len() == i,
            forall|j: int|
                0 <= j < i ==> {
                    &&& (#[trigger] props@[j]).0@ == a.properties@[j].0@
                    &&& property_matches(props@[j].1, a.properties@[j].1)
                },
        decreases a.properties@.len() - i,
    {
        let pair = &a.properties[i];
        props.push((pair.0.clone(), clone_property(&pair.1)));
        i = i + 1;
    }
    Event { name: a.name.clone(), delay_us: a.delay_us, properties: props }
}

/// The bag `post` is `pre` with the property for key `k` set to `value`:
/// the first entry whose key reads `k` has its payload replaced, its
/// stored key kept; absent that, the new pair stands appended.
pub open spec fn property_inserted(
    pre: Seq<(String, Property)>, post: Seq<(String, Property)>, k: Seq<char>, value: Property,
) -> bool {
    if exists|j: int| 0 <= j < pre.len() && (#[trigger] pre[j].0@) == k {
        exists|j: int| {
            &&& 0 <= j < pre.len()
            &&& (#[trigger] pre[j].0@) == k
            &&& forall|i: int| 0 <= i < j ==> pre[i].0@ != k
            &&& post == pre.update(j, (pre[j].0, value))
        }
    } else {
        &&& post.len() == pre.len() + 1
        &&& post.take(pre.len() as int) == pre
        &&& post.last().0@ == k
        &&& post.last().1 == value
    }
}

/// Inserts a property into a bag: the first entry with the same key has
/// its payload replaced, its stored key kept; a new key is appended.
pub fn insert_property(props: &mut Vec<(String, Property)>, key: String, value: Property)
    ensures
        property_inserted(old(props)@, final(props)@, key@, value),
{
    let mut j: usize = 0;
    while j < props.len()
        invariant
            0 <= j <= props@.len(),
            props@ == old(props)@,
            forall|k: int| 0 <= k < j ==> (#[trigger] props@[k].0@) != key@,
        decreases props@.len() - j,
    {
        if props[j].0 == key {
            let ghost pre = props@;
            let ghost jj = j as int;
            let slot = &mut props[j];
            slot.1 = value;
            proof {
                assert(props@ =~= pre.update(jj, (pre[jj].0, props@[jj].1)));
            }
            return;
        }
        j = j + 1;
    }
    let ghost pre = props@;
    props.push((key, value));
    proof {
        assert(props@.take(pre.len() as int) =~= pre);
    }
}

/// Which characters a byte sequence decodes to as UTF-8, or nothing for
/// invalid UTF-8; the outcome depends on the bytes alone.
pub uninterp spec fn utf8_of(bytes: Seq<u8>) -> Option<Seq<char>>;

/// Relies on String::from_utf8: the bytes decode to a string exactly when
/// they are valid UTF-8, and the decoded characters depend on the bytes
/// alone.
#[verifier::external_body]
fn decode_utf8(bytes: &Vec<u8>) -> (r: Option<String>)
    ensures
        (match r {
            Some(s) => utf8_of(bytes@) == Some(s@),
            None => utf8_of(bytes@) is None,
        }),
{
    String::from_utf8(bytes.clone()).ok()
}

/// Inserts a property under a raw key crossing the engine boundary: the
/// key is validated as UTF-8 first, and an invalid key leaves the bag
/// unchanged and reports rejection.
pub fn insert_property_checked(
    props: &mut Vec<(String, Property)>, key_bytes: &Vec<u8>, value: Property,
) -> (r: bool)
    ensures
        (match utf8_of(key_bytes@) {
            None => *final(props) == *old(props) && !r,
            Some(k) => r && property_inserted(old(props)@, final(props)@, k, value),
        }),
{
    match decode_utf8(key_bytes) {
        Some(key) => {
            insert_property(props, key, value);
            true
        }
        None => false,
    }
}

/// The machine side of a state machine: its description, from which
/// instances are made.
#[derive(Debug)]
pub struct MachineDesc {
    pub name: String,
    pub inputs: Vec<Input>,
}

/// The descriptions agree in name and inputs.
pub open spec fn machine_matches(a: MachineDesc, b: MachineDesc) -> bool {
    &&& a.name@ == b.name@
    &&& a.inputs@.len() == b.inputs@.len()
    &&& forall|i: int|
        0 <= i < a.inputs@.len() ==> input_matches(#[trigger] a.inputs@[i], b.inputs@[i])
}

/// Copies a machine description.
pub fn clone_machine(a: &MachineDesc) -> (r: MachineDesc)
    ensures
        machine_matches(r, *a),
{
    MachineDesc { name: a.name.clone(), inputs: clone_inputs(&a.inputs) }
}

/// A state machine instance: its inputs and the queue of events fired
/// since the last advance.
#[derive(Debug)]
pub struct StateMachine {
    pub name: String,
    pub inputs: Vec<Input>,
    pub events: Vec<Event>,
}

/// The reported queue mirrors the machine's: as many events, each
/// agreeing with the queued one.
pub open spec fn events_snapshot_ok(sm: StateMachine, r: Seq<Event>) -> bool {
    &&& r.len() == sm.events@.len()
    &&& forall|i: int| 0 <= i < r.len() ==> event_matches(#[trigger] r[i], sm.events@[i])
}

impl StateMachine {
    /// A fresh instance of the described machine, with its inputs at
    /// their authored values and no event fired yet.
    pub fn from_desc(desc: &MachineDesc) -> (r: StateMachine)
        ensures
            r.name@ == desc.name@,
            r.inputs@.len() == desc.inputs@.len(),
            forall|i: int|
                0 <= i < r.inputs@.len() ==> input_matches(#[trigger] r.inputs@[i], desc.inputs@[i]),
            r.events@.len() == 0,
    {
        StateMachine {
            name: desc.name.clone(),
            inputs: clone_inputs(&desc.inputs),
            events: Vec::new(),
        }
    }

    /// The machine's inputs.
    pub fn inputs(&self) -> (r: &Vec<Input>)
        ensures
            r == &self.inputs,
    {
        &self.inputs
    }

    /// Reports the events fired since the last advance. The read is
    /// non-destructive: the queue itself is untouched, so repeated calls
    /// report the same events until the next advance.
    pub fn events(&self) -> (r: Vec<Event>)
        ensures
            events_snapshot_ok(*self, r@),
    {
        let mut out: Vec<Event> = Vec::new();
        let mut i: usize = 0;
        while i < self.events.len()
            invariant
                0 <= i <= self.events@.len(),
                out@.len() == i,
                forall|j: int|
                    0 <= j < i ==> event_matches(#[trigger] out@[j], self.events@[j]),
            decreases self.events@.len() - i,
        {
            out.push(clone_event(&self.events[i]));
            i = i + 1;
        }
        out
    }

    /// Queues one fired event; the engine reports them during an advance.
    pub fn push_event(&mut self, event: Event)
        ensures
            final(self).events@ == old(self).events@.push(event),
            final(self).inputs == old(self).inputs,
            final(self).name == old(self).name,
    {
        self.events.push(event);
    }

    /// Advances the machine by the elapsed time: the event queue drains,
    /// ready for the events of this advance; inputs are the caller's to
    /// change. A machine always reports that it keeps going.
    pub fn advance_and_apply(&mut self, elapsed_us: u64) -> (r: bool)
        ensures
            final(self).events@.len() == 0,
            final(self).inputs == old(self).inputs,
            final(self).name == old(self).name,
            r,
    {
        self.events.truncate(0);
        proof {
            assert(self.events@ =~= Seq::<Event>::empty());
        }
        true
    }

    /// Finds the first boolean input with the given name, as a snapshot.
    pub fn get_bool(&self, name: &String) -> (r: Option<Bool>)
        ensures
            (match r {
                Some(b) => exists|j: int| {
                    &&& 0 <= j < self.inputs@.len()
                    &&& (#[trigger] self.inputs@[j]) matches Input::Bool(x)
                        && x.name@ == name@ && b.name@ == x.name@ && b.value == x.value
                },
                None => forall|j: int|
                    0 <= j < self.inputs@.len() ==> !((#[trigger] self.inputs@[j])
                        matches Input::Bool(x) && x.name@ == name@),
            }),
    {
        let mut j: usize = 0;
        while j < self.inputs.len()
            invariant
                0 <= j <= self.inputs@.len(),
                forall|k: int|
                    0 <= k < j ==> !((#[trigger] self.inputs@[k]) matches Input::Bool(x)
                        && x.name@ == name@),
            decreases self.inputs@.len() - j,
        {
            match &self.inputs[j] {
                Input::Bool(x) => {
                    if x.name == *name {
                        return Some(Bool { name: x.name.clone(), value: x.value });
                    }
                }
                _ => {}
            }
            j = j + 1;
        }
        None
    }

    /// Finds the first numeric input with the given name, as a snapshot.
    pub fn get_number(&self, name: &String) -> (r: Option<Number>)
        ensures
            (match r {
                Some(b) => exists|j: int| {
                    &&& 0 <= j < self.inputs@.len()
                    &&& (#[trigger] self.inputs@[j]) matches Input::Number(x)
                        && x.name@ == name@ && b.name@ == x.name@ && b.value == x.value
                },
                None => forall|j: int|
                    0 <= j < self.inputs@.len() ==> !((#[trigger] self.inputs@[j])
                        matches Input::Number(x) && x.name@ == name@),
            }),
    {
        let mut j: usize = 0;
        while j < self.inputs.len()
            invariant
                0 <= j <= self.inputs@.len(),
                forall|k: int|
                    0 <= k < j ==> !((#[trigger] self.inputs@[k]) matches Input::Number(x)
                        && x.name@ == name@),
            decreases self.inputs@.len() - j,
        {
            match &self.inputs[j] {
                Input::Number(x) => {
                    if x.name == *name {
                        return Some(Number { name: x.name.clone(), value: x.value });
                    }
                }
                _ => {}
            }
            j = j + 1;
        }
        None
    }

    /// Finds the first trigger input with the given name, as a snapshot.
    pub fn get_trigger(&self, name: &String) -> (r: Option<Trigger>)
        ensures
            (match r {
                Some(b) => exists|j: int| {
                    &&& 0 <= j < self.inputs@.len()
                    &&& (#[trigger] self.inputs@[j]) matches Input::Trigger(x)
                        && x.name@ == name@ && b.name@ == x.name@ && b.fired == x.fired
                },
                None => forall|j: int|
                    0 <= j < self.inputs@.len() ==> !((#[trigger] self.inputs@[j])
                        matches Input::Trigger(x) && x.name@ == name@),
            }),
    {
        let mut j: usize = 0;
        while j < self.inputs.len()
            invariant
                0 <= j <= self.inputs@.len(),
                forall|k: int|
                    0 <= k < j ==> !((#[trigger] self.inputs@[k]) matches Input::Trigger(x)
                        && x.name@ == name@),
            decreases self.inputs@.len() - j,
        {
            match &self.inputs[j] {
                Input::Trigger(x) => {
                    if x.name == *name {
                        return Some(Trigger { name: x.name.clone(), fired: x.fired });
                    }
                }
                _ => {}
            }
            j = j + 1;
        }
        None
    }
}

/// Reading the event queue is non-destructive: any two snapshots taken
/// from the same machine state report the same events, event for event.
pub proof fn lemma_events_non_destructive(sm: StateMachine, e1: Seq<Event>, e2: Seq<Event>)
    requires
        events_snapshot_ok(sm, e1),
        events_snapshot_ok(sm, e2),
    ensures
        e1.len() == e2.len(),
        forall|i: int| 0 <= i < e1.len() ==> event_matches(#[trigger] e1[i], e2[i]),
{
    assert forall|i: int| 0 <= i < e1.len() implies event_matches(#[trigger] e1[i], e2[i]) by {
        assert(event_matches(e1[i], sm.events@[i]));
        assert(event_matches(e2[i], sm.events@[i]));
    }
}

} // verus!
