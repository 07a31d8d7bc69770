use rive_rs::linear_animation::{AnimationDesc, Direction, LinearAnimation, Loop};
use rive_rs::renderer::Renderer;
use rive_rs::scene::{compute_view_transforms, pointer_to_artboard, Scene, SceneKind, Viewport};
use rive_rs::state_machine::StateMachine;

fn oneshot(duration_us: u64) -> LinearAnimation {
    LinearAnimation::from_desc(&AnimationDesc {
        name: "spin".to_string(),
        duration_us,
        loop_mode: Loop::OneShot,
    })
}

fn default_viewport() -> Viewport {
    let mut viewport = Viewport::default();
    viewport.resize(400, 300);
    viewport
}

#[test]
fn oneshot_advances_and_clamps() {
    let mut la = oneshot(1000);
    assert!(la.advance(400));
    assert_eq!(la.time(), 400);
    assert!(!la.did_loop());
    assert!(la.advance(400));
    assert_eq!(la.time(), 800);
    assert!(!la.advance(400));
    assert_eq!(la.time(), 1000);
    assert!(la.did_loop());
    assert!(la.is_done());
}

#[test]
fn finished_oneshot_with_nothing_elapsed_reports_done() {
    let mut la = oneshot(1000);
    la.set_time(1000);
    assert!(!la.advance(0));
    assert_eq!(la.time(), 1000);
    assert!(!la.did_loop());
    assert!(la.is_done());
}

#[test]
fn looping_wraps_exactly() {
    let mut la = LinearAnimation::from_desc(&AnimationDesc {
        name: "walk".to_string(),
        duration_us: 100,
        loop_mode: Loop::Loop,
    });
    assert!(la.advance(250));
    assert_eq!(la.time(), 50);
    assert!(la.did_loop());
    assert!(la.advance(30));
    assert_eq!(la.time(), 80);
    assert!(!la.did_loop());
}

#[test]
fn ping_pong_reflects_and_reverses() {
    let mut la = LinearAnimation::from_desc(&AnimationDesc {
        name: "bounce".to_string(),
        duration_us: 100,
        loop_mode: Loop::PingPong,
    });
    assert!(la.advance(130));
    assert_eq!(la.time(), 70);
    assert_eq!(la.direction(), Direction::Backwards);
    assert!(la.did_loop());
    assert!(la.advance(90));
    assert_eq!(la.time(), 20);
    assert_eq!(la.direction(), Direction::Forwards);
}

#[test]
fn backwards_oneshot_stops_at_zero() {
    let mut la = oneshot(1000);
    la.set_time(300);
    la.set_direction(Direction::Backwards);
    assert!(!la.advance(500));
    assert_eq!(la.time(), 0);
    assert!(la.did_loop());
    assert!(la.is_done());
}

#[test]
fn set_time_clamps_into_the_span() {
    let mut la = oneshot(1000);
    la.set_time(5000);
    assert_eq!(la.time(), 1000);
}

#[test]
fn finished_oneshot_scene_reports_no_redraw_and_leaves_renderer_alone() {
    let mut la = oneshot(1000);
    la.set_time(1000);
    let mut scene = Scene { artboard_width: 100, artboard_height: 100, kind: SceneKind::LinearAnimation(la) };
    let mut renderer = Renderer::default();
    let mut viewport = default_viewport();
    let redraw = scene.advance_and_maybe_draw(&mut renderer, 0, &mut viewport);
    assert!(!redraw);
    assert!(renderer.scene.ops.is_empty());
    assert_eq!(renderer.transforms.len(), 1);
    assert_eq!(renderer.scene.open, 0);
    // The viewport's inverse transform is still recomputed for the frame.
    assert_eq!(viewport.inverse_view_transform.den, 3);
}

#[test]
fn running_scene_draws_and_restores_the_renderer() {
    let mut scene = Scene {
        artboard_width: 100,
        artboard_height: 100,
        kind: SceneKind::LinearAnimation(oneshot(1000)),
    };
    let mut renderer = Renderer::default();
    let mut viewport = default_viewport();
    let redraw = scene.advance_and_maybe_draw(&mut renderer, 10, &mut viewport);
    assert!(redraw);
    assert_eq!(renderer.transforms.len(), 1);
    assert_eq!(renderer.clips.len(), 1);
    assert!(renderer.scene.ops.is_empty());
    match &scene.kind {
        SceneKind::LinearAnimation(la) => assert_eq!(la.time(), 10),
        _ => panic!("the scene must stay a linear animation"),
    }
}

#[test]
fn machine_scene_always_redraws() {
    let mut machine = StateMachine {
        name: "m".to_string(),
        inputs: Vec::new(),
        events: Vec::new(),
    };
    machine.push_event(rive_rs::state_machine::Event {
        name: "hit".to_string(),
        delay_us: 0,
        properties: Vec::new(),
    });
    let mut scene = Scene { artboard_width: 10, artboard_height: 10, kind: SceneKind::StateMachine(machine) };
    let mut renderer = Renderer::default();
    let mut viewport = default_viewport();
    assert!(scene.advance_and_maybe_draw(&mut renderer, 5, &mut viewport));
    match &scene.kind {
        SceneKind::StateMachine(sm) => assert!(sm.events.is_empty()),
        _ => panic!("the scene must stay a state machine"),
    }
}

#[test]
fn view_fit_scales_centers_and_inverts_exactly() {
    // A 100x100 artboard in a 400x300 viewport: scale 3, centered.
    let (vt, ivt) = compute_view_transforms(100, 100, 400, 300);
    assert_eq!((vt.a, vt.d), (3, 3));
    assert_eq!((vt.e, vt.f), (50, 0));
    assert_eq!(ivt.den, 3);
    assert_eq!((ivt.e, ivt.f), (-50, 0));

    let mut viewport = Viewport::default();
    viewport.resize(400, 300);
    viewport.inverse_view_transform = ivt;
    // A pointer at the viewport center maps to the artboard center,
    // as an exact rational point.
    let (x_num, y_num, den) = pointer_to_artboard(&viewport, 200, 150);
    assert_eq!((x_num, y_num, den), (150, 150, 3));
    assert_eq!((x_num / den, y_num / den), (50, 50));
}
