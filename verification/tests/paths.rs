use rive_rs::geom::{Affine, Point};
use rive_rs::path::{Commands, FillRule, Path, PathCommand, Verb};

fn pt(x: i64, y: i64) -> Point {
    Point { x, y }
}

fn open_square_commands() -> Vec<PathCommand> {
    vec![
        PathCommand::MoveTo(pt(0, 0)),
        PathCommand::LineTo(pt(10, 0)),
        PathCommand::LineTo(pt(10, 10)),
        PathCommand::LineTo(pt(0, 10)),
    ]
}

#[test]
fn building_without_close_leaves_final_subpath_open() {
    let mut commands = Commands::new(open_square_commands());
    let path = Path::new(&mut commands, FillRule::NonZero);
    assert_eq!(path.elements.len(), 4);
    assert!(!matches!(path.elements.last(), Some(PathCommand::Close)));
}

#[test]
fn rebuilding_from_the_same_commands_is_identical() {
    let mut c1 = Commands::new(open_square_commands());
    let p1 = Path::new(&mut c1, FillRule::EvenOdd);
    let mut c2 = Commands::new(open_square_commands());
    let p2 = Path::new(&mut c2, FillRule::EvenOdd);
    assert_eq!(p1.elements, p2.elements);
    assert_eq!(p1.fill, p2.fill);
}

#[test]
fn new_replays_every_command_and_sets_fill_rule() {
    let cmds = vec![
        PathCommand::MoveTo(pt(1, 2)),
        PathCommand::CubicTo(pt(3, 4), pt(5, 6), pt(7, 8)),
        PathCommand::Close,
    ];
    let mut commands = Commands::new(cmds.clone());
    let path = Path::new(&mut commands, FillRule::EvenOdd);
    assert_eq!(path.elements, cmds);
    assert_eq!(path.fill, FillRule::EvenOdd);
    assert_eq!(commands.len(), 0);
}

#[test]
fn commands_yield_in_order() {
    let mut commands = Commands::new(vec![
        PathCommand::MoveTo(pt(1, 1)),
        PathCommand::Close,
    ]);
    assert_eq!(commands.len(), 2);
    assert!(matches!(commands.next(), Some(PathCommand::MoveTo(p)) if p == pt(1, 1)));
    assert!(matches!(commands.next(), Some(PathCommand::Close)));
    assert!(commands.next().is_none());
}

#[test]
fn verbs_match_commands() {
    assert_eq!(PathCommand::MoveTo(pt(0, 0)).verb(), Verb::Move);
    assert_eq!(PathCommand::LineTo(pt(0, 0)).verb(), Verb::Line);
    assert_eq!(PathCommand::CubicTo(pt(0, 0), pt(1, 1), pt(2, 2)).verb(), Verb::Cubic);
    assert_eq!(PathCommand::Close.verb(), Verb::Close);
}

#[test]
fn reset_empties_geometry_and_keeps_fill() {
    let mut commands = Commands::new(open_square_commands());
    let mut path = Path::new(&mut commands, FillRule::EvenOdd);
    path.reset();
    assert!(path.elements.is_empty());
    assert_eq!(path.fill, FillRule::EvenOdd);
}

#[test]
fn extend_appends_transformed_copy() {
    let mut commands = Commands::new(vec![
        PathCommand::MoveTo(pt(1, 0)),
        PathCommand::LineTo(pt(2, 0)),
    ]);
    let source = Path::new(&mut commands, FillRule::NonZero);
    let mut target = Path::default();
    target.move_to(pt(0, 0));
    let double = Affine { a: 2, b: 0, c: 0, d: 2, e: 5, f: 7 };
    target.extend(&source, &double);
    assert_eq!(
        target.elements,
        vec![
            PathCommand::MoveTo(pt(0, 0)),
            PathCommand::MoveTo(pt(7, 7)),
            PathCommand::LineTo(pt(9, 7)),
        ],
    );
}
