use rive_rs::state_machine::{
    insert_property, insert_property_checked, Bool, Event, Input, MachineDesc, Number, Property,
    StateMachine, Trigger,
};

fn sample_machine() -> StateMachine {
    StateMachine::from_desc(&MachineDesc {
        name: "controls".to_string(),
        inputs: vec![
            Input::Bool(Bool::new("hovered".to_string(), false)),
            Input::Number(Number::new("rating".to_string(), 3)),
            Input::Trigger(Trigger::new("pressed".to_string())),
            Input::Number(Number::new("rating".to_string(), 9)),
        ],
    })
}

fn sample_event(name: &str) -> Event {
    Event { name: name.to_string(), delay_us: 250, properties: Vec::new() }
}

#[test]
fn instantiation_copies_inputs_and_starts_with_no_events() {
    let machine = sample_machine();
    assert_eq!(machine.name, "controls");
    assert_eq!(machine.inputs.len(), 4);
    assert!(machine.events.is_empty());
}

#[test]
fn inputs_are_found_by_name_and_tag() {
    let machine = sample_machine();
    let hovered = machine.get_bool(&"hovered".to_string()).unwrap();
    assert_eq!(hovered.name(), "hovered");
    assert!(!hovered.get());
    // The first matching input wins.
    let rating = machine.get_number(&"rating".to_string()).unwrap();
    assert_eq!(rating.get(), 3);
    assert!(machine.get_trigger(&"pressed".to_string()).is_some());
    // A name of the wrong tag is absence, not an error.
    assert!(machine.get_bool(&"rating".to_string()).is_none());
    assert!(machine.get_number(&"missing".to_string()).is_none());
}

#[test]
fn input_snapshots_mutate_locally() {
    let machine = sample_machine();
    let mut hovered = machine.get_bool(&"hovered".to_string()).unwrap();
    hovered.set(true);
    assert!(hovered.get());
    let mut pressed = machine.get_trigger(&"pressed".to_string()).unwrap();
    pressed.fire();
    assert!(pressed.fired);
}

#[test]
fn events_read_non_destructively_until_the_next_advance() {
    let mut machine = sample_machine();
    machine.push_event(sample_event("first"));
    machine.push_event(sample_event("second"));
    let once = machine.events();
    let twice = machine.events();
    assert_eq!(once.len(), 2);
    assert_eq!(twice.len(), 2);
    for (a, b) in once.iter().zip(twice.iter()) {
        assert_eq!(a.name, b.name);
        assert_eq!(a.delay_us, b.delay_us);
    }
    assert!(machine.advance_and_apply(16));
    assert!(machine.events().is_empty());
}

#[test]
fn insert_property_appends_new_keys_in_order() {
    let mut props: Vec<(String, Property)> = Vec::new();
    insert_property(&mut props, "a".to_string(), Property::Bool(true));
    insert_property(&mut props, "b".to_string(), Property::Number(5));
    assert_eq!(props.len(), 2);
    assert_eq!(props[0].0, "a");
    assert_eq!(props[1].0, "b");
    assert!(matches!(props[1].1, Property::Number(5)));
}

#[test]
fn insert_property_replaces_the_first_matching_key() {
    let mut props: Vec<(String, Property)> = Vec::new();
    insert_property(&mut props, "a".to_string(), Property::Bool(true));
    insert_property(&mut props, "b".to_string(), Property::String("x".to_string()));
    insert_property(&mut props, "a".to_string(), Property::Number(7));
    assert_eq!(props.len(), 2);
    assert_eq!(props[0].0, "a");
    assert!(matches!(props[0].1, Property::Number(7)));
    assert!(matches!(&props[1].1, Property::String(s) if s == "x"));
}

#[test]
fn checked_insert_rejects_invalid_utf8_keys() {
    let mut props: Vec<(String, Property)> = Vec::new();
    assert!(insert_property_checked(&mut props, &vec![107, 101, 121], Property::Bool(true)));
    assert_eq!(props.len(), 1);
    assert_eq!(props[0].0, "key");
    // 0xff alone is never valid UTF-8: the bag is left unchanged.
    assert!(!insert_property_checked(&mut props, &vec![0xff], Property::Number(1)));
    assert_eq!(props.len(), 1);
}
