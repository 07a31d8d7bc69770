use rive_rs::buffer::{Buffer, BufferFlags, BufferType};
use rive_rs::geom::Point;
use rive_rs::paint::{BlendMode, Brush, Color, Paint, PaintStyle, RenderStyle, StrokeCap, StrokeJoin};
use rive_rs::path::{Commands, FillRule, Path, PathCommand};
use rive_rs::raster::Image;
use rive_rs::renderer::{LayerKind, LayerShape, Renderer, SceneOp, OPACITY_ONE};

fn pt(x: i64, y: i64) -> Point {
    Point { x, y }
}

fn triangle_path() -> Path {
    let mut commands = Commands::new(vec![
        PathCommand::MoveTo(pt(0, 0)),
        PathCommand::LineTo(pt(10, 0)),
        PathCommand::LineTo(pt(0, 10)),
        PathCommand::Close,
    ]);
    Path::new(&mut commands, FillRule::NonZero)
}

fn tiny_image() -> Image {
    Image { width: 2, height: 1, data: vec![0u8; 8] }
}

#[test]
fn push_then_pop_restores_the_session() {
    let mut renderer = Renderer::default();
    renderer.transform(&rive_rs::geom::Affine { a: 2, b: 0, c: 0, d: 2, e: 3, f: 4 });
    let depth_before = renderer.transforms.len();
    let top_before = renderer.transforms[depth_before - 1];
    let ops_before = renderer.scene.ops.len();
    renderer.state_push();
    renderer.state_pop();
    assert_eq!(renderer.transforms.len(), depth_before);
    assert_eq!(renderer.transforms[depth_before - 1], top_before);
    assert_eq!(renderer.scene.ops.len(), ops_before);
    assert_eq!(renderer.scene.open, 0);
}

#[test]
fn pop_on_the_last_entry_refloors_the_stacks() {
    let mut renderer = Renderer::default();
    renderer.state_pop();
    assert_eq!(renderer.transforms.len(), 1);
    assert_eq!(renderer.clips.len(), 1);
    assert_eq!(renderer.transforms[0], rive_rs::geom::Affine { a: 1, b: 0, c: 0, d: 1, e: 0, f: 0 });
    assert!(!renderer.clips[0]);
}

#[test]
fn second_clip_at_same_depth_replaces_the_first() {
    let mut renderer = Renderer::default();
    let p = triangle_path();
    let mut q_commands = Commands::new(vec![PathCommand::MoveTo(pt(5, 5)), PathCommand::Close]);
    let q = Path::new(&mut q_commands, FillRule::EvenOdd);
    renderer.set_clip(&p);
    assert_eq!(renderer.scene.open, 1);
    renderer.set_clip(&q);
    // Exactly one clip layer stays open, and it is the second path's.
    assert_eq!(renderer.scene.open, 1);
    assert!(renderer.clips[0]);
    match renderer.scene.ops.last().unwrap() {
        SceneOp::PushLayer { kind, opacity, shape, .. } => {
            assert_eq!(*kind, LayerKind::Clip);
            assert_eq!(*opacity, OPACITY_ONE);
            match shape {
                LayerShape::Geometry { elements, fill } => {
                    assert_eq!(*elements, q.elements);
                    assert_eq!(*fill, FillRule::EvenOdd);
                }
                _ => panic!("clip layer must carry the clip geometry"),
            }
        }
        _ => panic!("the last operation must open the new clip layer"),
    }
    assert!(matches!(
        renderer.scene.ops[renderer.scene.ops.len() - 2],
        SceneOp::PopLayer,
    ));
}

#[test]
fn popping_a_clipped_level_closes_its_layer() {
    let mut renderer = Renderer::default();
    renderer.state_push();
    renderer.set_clip(&triangle_path());
    assert_eq!(renderer.scene.open, 1);
    renderer.state_pop();
    assert_eq!(renderer.scene.open, 0);
    assert!(matches!(renderer.scene.ops.last().unwrap(), SceneOp::PopLayer));
}

#[test]
fn draw_path_with_default_blend_records_the_fill_alone() {
    let mut renderer = Renderer::default();
    let paint = Paint::default();
    renderer.draw_path(&triangle_path(), &paint);
    assert_eq!(renderer.scene.ops.len(), 1);
    match &renderer.scene.ops[0] {
        SceneOp::FillPath { elements, fill, brush, .. } => {
            assert_eq!(elements.len(), 4);
            assert_eq!(*fill, FillRule::NonZero);
            assert!(matches!(brush, Brush::Solid(c) if *c == Color { b: 0, g: 0, r: 0, a: 0 }));
        }
        _ => panic!("a filling paint must record a path fill"),
    }
}

#[test]
fn draw_path_with_other_blend_wraps_the_draw_in_a_layer() {
    let mut renderer = Renderer::default();
    let mut paint = Paint::default();
    paint.set_blend_mode(BlendMode::Multiply);
    renderer.draw_path(&triangle_path(), &paint);
    assert_eq!(renderer.scene.ops.len(), 3);
    assert!(matches!(
        &renderer.scene.ops[0],
        SceneOp::PushLayer { kind: LayerKind::Blend(BlendMode::Multiply), .. },
    ));
    assert!(matches!(&renderer.scene.ops[1], SceneOp::FillPath { .. }));
    assert!(matches!(&renderer.scene.ops[2], SceneOp::PopLayer));
    assert_eq!(renderer.scene.open, 0);
}

#[test]
fn stroking_paint_records_a_stroke() {
    let mut renderer = Renderer::default();
    let mut paint = Paint::default();
    paint.set_style(PaintStyle::Stroke);
    paint.set_thickness(7);
    paint.set_join(StrokeJoin::Bevel);
    paint.set_cap(StrokeCap::Square);
    renderer.draw_path(&triangle_path(), &paint);
    match &renderer.scene.ops[0] {
        SceneOp::StrokePath { stroke, .. } => {
            assert_eq!(stroke.thickness, 7);
            assert_eq!(stroke.join, StrokeJoin::Bevel);
            assert_eq!(stroke.cap, StrokeCap::Square);
        }
        _ => panic!("a stroking paint must record a path stroke"),
    }
    assert!(matches!(paint.style, RenderStyle::Stroke(_)));
}

#[test]
fn draw_image_skips_the_layer_only_at_default_blend_and_full_opacity() {
    let mut renderer = Renderer::default();
    renderer.draw_image(&tiny_image(), BlendMode::SrcOver, OPACITY_ONE);
    assert_eq!(renderer.scene.ops.len(), 1);
    match &renderer.scene.ops[0] {
        SceneOp::DrawImage { width, height, transform, .. } => {
            assert_eq!((*width, *height), (2, 1));
            // Centered on the origin: translated by minus half the size,
            // exactly, over denominator two.
            assert_eq!(transform.den, 2);
            assert_eq!(transform.e, -2);
            assert_eq!(transform.f, -1);
        }
        _ => panic!("an image draw must be recorded"),
    }

    let mut translucent = Renderer::default();
    translucent.draw_image(&tiny_image(), BlendMode::SrcOver, OPACITY_ONE / 2);
    assert_eq!(translucent.scene.ops.len(), 3);
    assert!(matches!(
        &translucent.scene.ops[0],
        SceneOp::PushLayer { shape: LayerShape::Rect { width: 2, height: 1 }, .. },
    ));
    assert!(matches!(&translucent.scene.ops[2], SceneOp::PopLayer));
}

#[test]
fn draw_image_mesh_records_one_fill_per_index_triple() {
    let mut renderer = Renderer::default();
    let vertices = vec![pt(0, 0), pt(100, 0), pt(0, 100), pt(100, 100)];
    let uvs = vec![pt(0, 0), pt(1, 0), pt(0, 1), pt(1, 1)];
    // Two triangles plus one dangling index, which is ignored.
    let indices = Buffer {
        data: vec![0, 0, 1, 0, 2, 0, 1, 0, 3, 0, 2, 0, 9, 9],
    };
    let image = tiny_image();
    renderer.draw_image_mesh(&image, &vertices, &uvs, &indices, BlendMode::SrcOver, OPACITY_ONE);
    assert_eq!(renderer.scene.ops.len(), 2);
    match &renderer.scene.ops[0] {
        SceneOp::FillImageTriangle { p0, p1, p2, transform, brush_transform, .. } => {
            assert_eq!((*p0, *p1, *p2), (pt(0, 0), pt(100, 0), pt(0, 100)));
            // The triangle transform is the 103/100 nudge from the
            // centroid, exactly.
            assert_eq!(transform.den, 100);
            assert_eq!(transform.a, 103);
            assert_eq!(transform.e, -(0 + 100 + 0));
            assert_eq!(transform.f, -(0 + 0 + 100));
            // The brush transform maps each scaled texture corner onto
            // its vertex.
            let (u0, v0) = (0i128, 0i128);
            assert_eq!(
                brush_transform.a * u0 + brush_transform.c * v0 + brush_transform.e,
                brush_transform.den * 0,
            );
        }
        _ => panic!("a mesh triangle fill must be recorded"),
    }

    let mut blended = Renderer::default();
    blended.draw_image_mesh(&image, &vertices, &uvs, &indices, BlendMode::Screen, OPACITY_ONE);
    assert_eq!(blended.scene.ops.len(), 6);
    assert!(matches!(
        &blended.scene.ops[0],
        SceneOp::PushLayer { kind: LayerKind::Blend(BlendMode::Screen), .. },
    ));
}

#[test]
fn buffers_are_zeroed_and_decode_little_endian() {
    let flags = BufferFlags { bits: 0 };
    let mut buffer = Buffer::new(BufferType::Index, flags, 4);
    assert_eq!(buffer.data, vec![0u8; 4]);
    {
        let bytes = buffer.map();
        bytes[0] = 0x34;
        bytes[1] = 0x12;
        bytes[2] = 0xff;
        bytes[3] = 0x00;
    }
    buffer.unmap();
    assert_eq!(buffer.as_u16s(), vec![0x1234, 0x00ff]);
    // A trailing odd byte is ignored.
    buffer.map().push(7);
    assert_eq!(buffer.as_u16s(), vec![0x1234, 0x00ff]);
}
