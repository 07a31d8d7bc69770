use rive_rs::geom::{
    compose, simplex_affine_mapping, Affine, Point, RationalAffine, COEFF_LIMIT,
};

fn pt(x: i64, y: i64) -> Point {
    Point { x, y }
}

fn maps_exactly(m: &RationalAffine, src: Point, dst: Point) {
    assert!(m.den != 0);
    assert_eq!(m.a * src.x as i128 + m.c * src.y as i128 + m.e, m.den * dst.x as i128);
    assert_eq!(m.b * src.x as i128 + m.d * src.y as i128 + m.f, m.den * dst.y as i128);
}

#[test]
fn simplex_mapping_carries_each_vertex() {
    let a = pt(0, 0);
    let b = pt(10, 0);
    let c = pt(0, 10);
    let d = pt(5, 5);
    let e = pt(25, 5);
    let f = pt(5, 45);
    let m = simplex_affine_mapping(a, b, c, d, e, f);
    maps_exactly(&m, a, d);
    maps_exactly(&m, b, e);
    maps_exactly(&m, c, f);
}

#[test]
fn simplex_mapping_translation_only() {
    let a = pt(1, 1);
    let b = pt(4, 1);
    let c = pt(1, 5);
    let m = simplex_affine_mapping(a, b, c, pt(11, 21), pt(14, 21), pt(11, 25));
    maps_exactly(&m, a, pt(11, 21));
    maps_exactly(&m, b, pt(14, 21));
    maps_exactly(&m, c, pt(11, 25));
    // A pure translation: the linear part is the identity times the
    // determinant.
    assert_eq!(m.a, m.den);
    assert_eq!(m.d, m.den);
    assert_eq!(m.b, 0);
    assert_eq!(m.c, 0);
}

#[test]
fn simplex_mapping_collinear_source_is_degenerate() {
    let m = simplex_affine_mapping(pt(0, 0), pt(1, 1), pt(2, 2), pt(0, 0), pt(1, 0), pt(2, 0));
    assert_eq!(m.den, 0);
}

#[test]
fn compose_is_exact_matrix_product() {
    let s = Affine { a: 2, b: 0, c: 0, d: 3, e: 10, f: 20 };
    let t = Affine { a: 1, b: 4, c: 5, d: 1, e: 7, f: 8 };
    let r = compose(&s, &t);
    assert_eq!(r, Affine { a: 2, b: 12, c: 10, d: 3, e: 24, f: 44 });
}

#[test]
fn compose_saturates_at_the_stack_limit() {
    let s = Affine { a: COEFF_LIMIT, b: 0, c: 0, d: COEFF_LIMIT, e: 0, f: 0 };
    let t = Affine { a: i64::MAX, b: 0, c: 0, d: i64::MIN, e: 0, f: 0 };
    let r = compose(&s, &t);
    assert_eq!(r.a, COEFF_LIMIT);
    assert_eq!(r.d, -COEFF_LIMIT);
}

#[test]
fn apply_maps_points() {
    let t = Affine { a: 2, b: 0, c: 0, d: 2, e: 100, f: -100 };
    let p = t.apply(Point { x: 3, y: 4 });
    assert_eq!(p, Point { x: 106, y: -92 });
}
