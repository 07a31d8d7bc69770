use rive_rs::artboard::{Artboard, Component, TextValueRun, TEXT_VALUE_RUN_TYPE_ID};
use rive_rs::file::File;
use rive_rs::instantiate::{resolve_handle, Handle, Instantiate};
use rive_rs::linear_animation::{AnimationDesc, LinearAnimation, Loop};
use rive_rs::scene::{Scene, SceneKind};
use rive_rs::state_machine::{MachineDesc, StateMachine};

fn names(list: &[&str]) -> Vec<String> {
    list.iter().map(|s| s.to_string()).collect()
}

fn sample_artboard(with_machine: bool) -> Artboard {
    let machines = if with_machine {
        vec![MachineDesc { name: "controls".to_string(), inputs: Vec::new() }]
    } else {
        Vec::new()
    };
    Artboard {
        name: "main".to_string(),
        width: 640,
        height: 480,
        animations: vec![
            AnimationDesc { name: "intro".to_string(), duration_us: 500, loop_mode: Loop::OneShot },
            AnimationDesc { name: "idle".to_string(), duration_us: 900, loop_mode: Loop::Loop },
        ],
        machines,
    }
}

fn sample_file() -> File {
    let mut file = File::new(&vec![0x52, 0x49, 0x56, 0x45, 7, 0]).unwrap();
    file.artboards.push(sample_artboard(true));
    file.artboards.push(Artboard {
        name: "second".to_string(),
        width: 10,
        height: 10,
        animations: Vec::new(),
        machines: Vec::new(),
    });
    file
}

#[test]
fn handles_resolve_by_default_index_and_name() {
    let list = names(&["a", "b", "b"]);
    assert_eq!(resolve_handle(&Handle::Default, &list), Some(0));
    assert_eq!(resolve_handle(&Handle::Index(2), &list), Some(2));
    assert_eq!(resolve_handle(&Handle::Index(3), &list), None);
    assert_eq!(resolve_handle(&Handle::Name("b".to_string()), &list), Some(1));
    assert_eq!(resolve_handle(&Handle::Name("c".to_string()), &list), None);
    assert_eq!(resolve_handle(&Handle::Default, &Vec::new()), None);
}

#[test]
fn artboards_instantiate_by_selector() {
    let file = sample_file();
    let first = Artboard::instantiate(&file, Handle::Default).unwrap();
    assert_eq!(first.name, "main");
    assert_eq!((first.width, first.height), (640, 480));
    assert_eq!(first.animations.len(), 2);
    let second = Artboard::instantiate(&file, Handle::Name("second".to_string())).unwrap();
    assert_eq!(second.name, "second");
    assert!(Artboard::instantiate(&file, Handle::Index(9)).is_none());
    assert!(Artboard::instantiate(&file, Handle::Name("missing".to_string())).is_none());
}

#[test]
fn animations_instantiate_fresh() {
    let artboard = sample_artboard(false);
    let la = LinearAnimation::instantiate(&artboard, Handle::Name("idle".to_string())).unwrap();
    assert_eq!(la.name, "idle");
    assert_eq!(la.duration_us, 900);
    assert_eq!(la.loop_mode, Loop::Loop);
    assert_eq!(la.time(), 0);
    assert!(LinearAnimation::instantiate(&artboard, Handle::Index(5)).is_none());
}

#[test]
fn machines_instantiate_fresh() {
    let artboard = sample_artboard(true);
    let sm = StateMachine::instantiate(&artboard, Handle::Default).unwrap();
    assert_eq!(sm.name, "controls");
    assert!(sm.events.is_empty());
    let bare = sample_artboard(false);
    assert!(StateMachine::instantiate(&bare, Handle::Default).is_none());
}

#[test]
fn scenes_prefer_a_state_machine_and_fall_back_to_an_animation() {
    let with_machine = sample_artboard(true);
    let scene = Scene::instantiate(&with_machine, Handle::Default).unwrap();
    assert!(matches!(scene.kind, SceneKind::StateMachine(_)));
    assert_eq!((scene.artboard_width, scene.artboard_height), (640, 480));

    let without_machine = sample_artboard(false);
    let fallback = Scene::instantiate(&without_machine, Handle::Default).unwrap();
    match fallback.kind {
        SceneKind::LinearAnimation(la) => assert_eq!(la.name, "intro"),
        _ => panic!("without machines the scene must fall back to an animation"),
    }

    let empty = Artboard {
        name: "empty".to_string(),
        width: 1,
        height: 1,
        animations: Vec::new(),
        machines: Vec::new(),
    };
    assert!(Scene::instantiate(&empty, Handle::Default).is_none());
}

#[test]
fn text_runs_come_only_from_their_component_type() {
    let text = Component {
        name: "title".to_string(),
        type_id: TEXT_VALUE_RUN_TYPE_ID,
        text: "hello".to_string(),
    };
    let mut run = TextValueRun::try_from_component(&text).unwrap();
    assert_eq!(run.get_text(), "hello");
    run.set_text("goodbye");
    assert_eq!(run.get_text(), "goodbye");

    let other = Component { name: "shape".to_string(), type_id: 3, text: String::new() };
    assert!(TextValueRun::try_from_component(&other).is_none());
    assert_eq!(other.name(), "shape");
}
