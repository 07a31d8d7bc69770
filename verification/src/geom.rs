//! Exact integer geometry: points, affine transforms, and the rational
//! transforms derived from them.
//!
//! An affine transform is the column-major six-coefficient encoding
//! `[a, b, c, d, e, f]` representing `x' = a*x + c*y + e` and
//! `y' = b*x + d*y + f`. Coefficients of transforms held on the renderer's
//! state stack are kept within `COEFF_LIMIT` so that every composition can
//! be computed exactly in 128-bit arithmetic; a composition whose exact
//! result falls outside that range saturates at the limit.

use vstd::prelude::*;

verus! {

/// Largest magnitude a stack transform coefficient may take.
pub const COEFF_LIMIT: i64 = 0x8000_0000;

/// Largest magnitude admitted for a coordinate handed to the triangle
/// mapping solver; keeps all of its products within 128 bits.
pub const COORD_LIMIT: i64 = 0x8000_0000;

/// Largest magnitude a rational transform numerator or denominator may
/// take when composed under a stack transform.
pub const RAT_LIMIT: i128 = 0x4_0000_0000_0000_0000;

/// A point with exact integer coordinates.
#[derive(Clone, Copy, Debug, PartialEq, Eq, Structural)]
pub struct Point {
    pub x: i64,
    pub y: i64,
}

/// A 2x3 affine transform with exact integer coefficients.
#[derive(Clone, Copy, Debug, PartialEq, Eq, Structural)]
pub struct Affine {
    pub a: i64,
    pub b: i64,
    pub c: i64,
    pub d: i64,
    pub e: i64,
    pub f: i64,
}

/// An affine transform scaled by a common denominator: the transform it
/// stands for is `num / den` coefficient-wise. A zero denominator records a
/// degenerate mapping (collinear source points); it is carried through to
/// the scene unchanged, never divided by.
#[derive(Clone, Copy, Debug, PartialEq, Eq, Structural)]
pub struct RationalAffine {
    pub a: i128,
    pub b: i128,
    pub c: i128,
    pub d: i128,
    pub e: i128,
    pub f: i128,
    pub den: i128,
}

/// Clamps an exact value into `[-COEFF_LIMIT, COEFF_LIMIT]`.
pub open spec fn clamp_coeff(v: int) -> int {
    if v > COEFF_LIMIT as int {
        COEFF_LIMIT as int
    } else if v < -(COEFF_LIMIT as int) {
        -(COEFF_LIMIT as int)
    } else {
        v
    }
}

/// All six coefficients lie within the stack limit.
pub open spec fn bounded(t: Affine) -> bool {
    &&& -(COEFF_LIMIT as int) <= t.a <= COEFF_LIMIT as int
    &&& -(COEFF_LIMIT as int) <= t.b <= COEFF_LIMIT as int
    &&& -(COEFF_LIMIT as int) <= t.c <= COEFF_LIMIT as int
    &&& -(COEFF_LIMIT as int) <= t.d <= COEFF_LIMIT as int
    &&& -(COEFF_LIMIT as int) <= t.e <= COEFF_LIMIT as int
    &&& -(COEFF_LIMIT as int) <= t.f <= COEFF_LIMIT as int
}

/// The identity transform.
pub open spec fn identity_spec() -> Affine {
    Affine { a: 1, b: 0, c: 0, d: 1, e: 0, f: 0 }
}

impl Affine {
    /// Returns the identity transform.
    pub fn identity() -> (r: Affine)
        ensures
            r == identity_spec(),
            bounded(r),
    {
        Affine { a: 1, b: 0, c: 0, d: 1, e: 0, f: 0 }
    }
}

/// Exact composition `s` after `t` (`s * t` in matrix form), coefficient
/// `a` of the result.
pub open spec fn comp_a(s: Affine, t: Affine) -> int {
    s.a * t.a + s.c * t.b
}

pub open spec fn comp_b(s: Affine, t: Affine) -> int {
    s.b * t.a + s.d * t.b
}

pub open spec fn comp_c(s: Affine, t: Affine) -> int {
    s.a * t.c + s.c * t.d
}

pub open spec fn comp_d(s: Affine, t: Affine) -> int {
    s.b * t.c + s.d * t.d
}

pub open spec fn comp_e(s: Affine, t: Affine) -> int {
    s.a * t.e + s.c * t.f + s.e
}

pub open spec fn comp_f(s: Affine, t: Affine) -> int {
    s.b * t.e + s.d * t.f + s.f
}

/// Composition with each exact coefficient clamped into the stack limit.
pub open spec fn compose_clamped(s: Affine, t: Affine) -> Affine {
    Affine {
        a: clamp_coeff(comp_a(s, t)) as i64,
        b: clamp_coeff(comp_b(s, t)) as i64,
        c: clamp_coeff(comp_c(s, t)) as i64,
        d: clamp_coeff(comp_d(s, t)) as i64,
        e: clamp_coeff(comp_e(s, t)) as i64,
        f: clamp_coeff(comp_f(s, t)) as i64,
    }
}

pub proof fn lemma_mul_bound(a: int, b: int, bound_a: int, bound_b: int)
    by (nonlinear_arith)
    requires
        -bound_a <= a <= bound_a,
        -bound_b <= b <= bound_b,
        0 <= bound_a,
        0 <= bound_b,
    ensures
        -(bound_a * bound_b) <= a * b <= bound_a * bound_b,
{
}

/// Clamps an exact 128-bit value into the stack coefficient range.
fn clamp_exec(v: i128) -> (r: i64)
    ensures
        r as int == clamp_coeff(v as int),
{
    if v > COEFF_LIMIT as i128 {
        COEFF_LIMIT
    } else if v < -(COEFF_LIMIT as i128) {
        -COEFF_LIMIT
    } else {
        v as i64
    }
}

/// Composes a bounded stack transform with an arbitrary transform,
/// clamping each coefficient of the exact product into the stack limit.
pub fn compose(s: &Affine, t: &Affine) -> (r: Affine)
    requires
        bounded(*s),
    ensures
        r == compose_clamped(*s, *t),
        bounded(r),
{
    proof {
        lemma_mul_bound(s.a as int, t.a as int, COEFF_LIMIT as int, i64::MAX as int + 1);
        lemma_mul_bound(s.c as int, t.b as int, COEFF_LIMIT as int, i64::MAX as int + 1);
        lemma_mul_bound(s.b as int, t.a as int, COEFF_LIMIT as int, i64::MAX as int + 1);
        lemma_mul_bound(s.d as int, t.b as int, COEFF_LIMIT as int, i64::MAX as int + 1);
        lemma_mul_bound(s.a as int, t.c as int, COEFF_LIMIT as int, i64::MAX as int + 1);
        lemma_mul_bound(s.c as int, t.d as int, COEFF_LIMIT as int, i64::MAX as int + 1);
        lemma_mul_bound(s.b as int, t.c as int, COEFF_LIMIT as int, i64::MAX as int + 1);
        lemma_mul_bound(s.d as int, t.d as int, COEFF_LIMIT as int, i64::MAX as int + 1);
        lemma_mul_bound(s.a as int, t.e as int, COEFF_LIMIT as int, i64::MAX as int + 1);
        lemma_mul_bound(s.c as int, t.f as int, COEFF_LIMIT as int, i64::MAX as int + 1);
        lemma_mul_bound(s.b as int, t.e as int, COEFF_LIMIT as int, i64::MAX as int + 1);
        lemma_mul_bound(s.d as int, t.f as int, COEFF_LIMIT as int, i64::MAX as int + 1);
    }
    let a = clamp_exec((s.a as i128) * (t.a as i128) + (s.c as i128) * (t.b as i128));
    let b = clamp_exec((s.b as i128) * (t.a as i128) + (s.d as i128) * (t.b as i128));
    let c = clamp_exec((s.a as i128) * (t.c as i128) + (s.c as i128) * (t.d as i128));
    let d = clamp_exec((s.b as i128) * (t.c as i128) + (s.d as i128) * (t.d as i128));
    let e = clamp_exec(
        (s.a as i128) * (t.e as i128) + (s.c as i128) * (t.f as i128) + (s.e as i128),
    );
    let f = clamp_exec(
        (s.b as i128) * (t.e as i128) + (s.d as i128) * (t.f as i128) + (s.f as i128),
    );
    Affine { a, b, c, d, e, f }
}

/// Clamps an exact value into the representable `i64` range.
pub open spec fn sat_i64(v: int) -> int {
    if v > i64::MAX as int {
        i64::MAX as int
    } else if v < i64::MIN as int {
        i64::MIN as int
    } else {
        v
    }
}

/// Exact x-coordinate of `t` applied to `p`.
pub open spec fn apply_x(t: Affine, p: Point) -> int {
    t.a * p.x + t.c * p.y + t.e
}

/// Exact y-coordinate of `t` applied to `p`.
pub open spec fn apply_y(t: Affine, p: Point) -> int {
    t.b * p.x + t.d * p.y + t.f
}

impl Affine {
    /// Applies a bounded transform to a point, saturating each exact
    /// coordinate into the `i64` range.
    pub fn apply(&self, p: Point) -> (r: Point)
        requires
            bounded(*self),
        ensures
            r.x as int == sat_i64(apply_x(*self, p)),
            r.y as int == sat_i64(apply_y(*self, p)),
    {
        proof {
            lemma_mul_bound(self.a as int, p.x as int, COEFF_LIMIT as int, i64::MAX as int + 1);
            lemma_mul_bound(self.c as int, p.y as int, COEFF_LIMIT as int, i64::MAX as int + 1);
            lemma_mul_bound(self.b as int, p.x as int, COEFF_LIMIT as int, i64::MAX as int + 1);
            lemma_mul_bound(self.d as int, p.y as int, COEFF_LIMIT as int, i64::MAX as int + 1);
        }
        let x = (self.a as i128) * (p.x as i128) + (self.c as i128) * (p.y as i128)
            + (self.e as i128);
        let y = (self.b as i128) * (p.x as i128) + (self.d as i128) * (p.y as i128)
            + (self.f as i128);
        Point { x: sat_exec(x), y: sat_exec(y) }
    }
}

/// Clamps an exact 128-bit value into the `i64` range.
fn sat_exec(v: i128) -> (r: i64)
    ensures
        r as int == sat_i64(v as int),
{
    if v > i64::MAX as i128 {
        i64::MAX
    } else if v < i64::MIN as i128 {
        i64::MIN
    } else {
        v as i64
    }
}

/// The numerators of a rational transform lie within the range admitted
/// for composition under a stack transform.
pub open spec fn rational_bounded(t: RationalAffine) -> bool {
    &&& -RAT_LIMIT <= t.a <= RAT_LIMIT
    &&& -RAT_LIMIT <= t.b <= RAT_LIMIT
    &&& -RAT_LIMIT <= t.c <= RAT_LIMIT
    &&& -RAT_LIMIT <= t.d <= RAT_LIMIT
    &&& -RAT_LIMIT <= t.e <= RAT_LIMIT
    &&& -RAT_LIMIT <= t.f <= RAT_LIMIT
    &&& -RAT_LIMIT <= t.den <= RAT_LIMIT
}

impl RationalAffine {
    /// The given transform, unscaled.
    pub fn from_affine(t: &Affine) -> (r: RationalAffine)
        ensures
            r.a == t.a && r.b == t.b && r.c == t.c && r.d == t.d && r.e == t.e && r.f == t.f,
            r.den == 1,
    {
        RationalAffine {
            a: t.a as i128,
            b: t.b as i128,
            c: t.c as i128,
            d: t.d as i128,
            e: t.e as i128,
            f: t.f as i128,
            den: 1,
        }
    }
}

/// Composes a bounded stack transform `s` with a rational transform
/// `t` (`s` after `t`), exactly: the result keeps `t`'s denominator.
pub fn compose_rational(s: &Affine, t: &RationalAffine) -> (r: RationalAffine)
    requires
        bounded(*s),
        rational_bounded(*t),
    ensures
        r.a == s.a * t.a + s.c * t.b,
        r.b == s.b * t.a + s.d * t.b,
        r.c == s.a * t.c + s.c * t.d,
        r.d == s.b * t.c + s.d * t.d,
        r.e == s.a * t.e + s.c * t.f + s.e * t.den,
        r.f == s.b * t.e + s.d * t.f + s.f * t.den,
        r.den == t.den,
{
    proof {
        lemma_mul_bound(s.a as int, t.a as int, COEFF_LIMIT as int, RAT_LIMIT as int);
        lemma_mul_bound(s.c as int, t.b as int, COEFF_LIMIT as int, RAT_LIMIT as int);
        lemma_mul_bound(s.b as int, t.a as int, COEFF_LIMIT as int, RAT_LIMIT as int);
        lemma_mul_bound(s.d as int, t.b as int, COEFF_LIMIT as int, RAT_LIMIT as int);
        lemma_mul_bound(s.a as int, t.c as int, COEFF_LIMIT as int, RAT_LIMIT as int);
        lemma_mul_bound(s.c as int, t.d as int, COEFF_LIMIT as int, RAT_LIMIT as int);
        lemma_mul_bound(s.b as int, t.c as int, COEFF_LIMIT as int, RAT_LIMIT as int);
        lemma_mul_bound(s.d as int, t.d as int, COEFF_LIMIT as int, RAT_LIMIT as int);
        lemma_mul_bound(s.a as int, t.e as int, COEFF_LIMIT as int, RAT_LIMIT as int);
        lemma_mul_bound(s.c as int, t.f as int, COEFF_LIMIT as int, RAT_LIMIT as int);
        lemma_mul_bound(s.b as int, t.e as int, COEFF_LIMIT as int, RAT_LIMIT as int);
        lemma_mul_bound(s.d as int, t.f as int, COEFF_LIMIT as int, RAT_LIMIT as int);
        lemma_mul_bound(s.e as int, t.den as int, COEFF_LIMIT as int, RAT_LIMIT as int);
        lemma_mul_bound(s.f as int, t.den as int, COEFF_LIMIT as int, RAT_LIMIT as int);
    }
    RationalAffine {
        a: (s.a as i128) * t.a + (s.c as i128) * t.b,
        b: (s.b as i128) * t.a + (s.d as i128) * t.b,
        c: (s.a as i128) * t.c + (s.c as i128) * t.d,
        d: (s.b as i128) * t.c + (s.d as i128) * t.d,
        e: (s.a as i128) * t.e + (s.c as i128) * t.f + (s.e as i128) * t.den,
        f: (s.b as i128) * t.e + (s.d as i128) * t.f + (s.f as i128) * t.den,
        den: t.den,
    }
}

/// Both coordinates lie within the solver's admitted range.
pub open spec fn coord_bounded(p: Point) -> bool {
    &&& -(COORD_LIMIT as int) <= p.x <= COORD_LIMIT as int
    &&& -(COORD_LIMIT as int) <= p.y <= COORD_LIMIT as int
}

/// Determinant of the triangle `a`, `b`, `c`; zero exactly when the three
/// points are collinear.
pub open spec fn det_spec(a: Point, b: Point, c: Point) -> int {
    a.x * b.y + b.x * c.y + c.x * a.y - a.x * c.y - b.x * a.y - c.x * b.y
}

/// First-column numerator of the affine map taking `a`, `b`, `c` to the
/// values `d`, `e`, `f` (one destination coordinate at a time).
pub open spec fn sam_p(a: Point, b: Point, c: Point, d: int, e: int, f: int) -> int {
    d * (b.y - c.y) - e * (a.y - c.y) + f * (a.y - b.y)
}

/// Second-column numerator of the same map.
pub open spec fn sam_q(a: Point, b: Point, c: Point, d: int, e: int, f: int) -> int {
    e * (a.x - c.x) - d * (b.x - c.x) - f * (a.x - b.x)
}

/// Translation numerator of the same map.
pub open spec fn sam_t(a: Point, b: Point, c: Point, d: int, e: int, f: int) -> int {
    d * (b.x * c.y - b.y * c.x) - e * (a.x * c.y - a.y * c.x) + f * (a.x * b.y - a.y * b.x)
}

proof fn lemma_distribute3(u: int, v: int, w: int, s: int)
    by (nonlinear_arith)
    ensures
        (u - v + w) * s == u * s - v * s + w * s,
        (u - v - w) * s == u * s - v * s - w * s,
{
}

pub proof fn lemma_mul_mono(k: int, a: int, b: int)
    by (nonlinear_arith)
    requires
        0 <= k,
        a <= b,
    ensures
        k * a <= k * b,
{
}

pub proof fn lemma_div_mul_le(a: int, b: int)
    requires
        a > 0,
        b >= 0,
    ensures
        a * (b / a) <= b,
{
    vstd::arithmetic::div_mod::lemma_fundamental_div_mod(b, a);
    vstd::arithmetic::div_mod::lemma_mod_bound(b, a);
}

pub proof fn lemma_mul_neg(k: int, u: int)
    by (nonlinear_arith)
    ensures
        k * (-u) == -(k * u),
        u * k == k * u,
{
}

proof fn lemma_mul_assoc(k: int, u: int, s: int)
    by (nonlinear_arith)
    ensures
        (k * u) * s == k * (u * s),
{
}

proof fn lemma_mul_distributes_k(k: int, u: int, v: int, w: int)
    by (nonlinear_arith)
    ensures
        k * (u - v + w) == k * u - k * v + k * w,
        k * (u - v - w) == k * u - k * v - k * w,
{
}

proof fn lemma_sam_regroup(
    p1: int, p2: int, p3: int, q1: int, q2: int, q3: int, t1: int, t2: int, t3: int,
    d: int, e: int, f: int, sx: int, sy: int,
)
    ensures
        (d * p1 - e * p2 + f * p3) * sx + (e * q1 - d * q2 - f * q3) * sy
            + (d * t1 - e * t2 + f * t3)
            == d * (p1 * sx - q2 * sy + t1) + e * (q1 * sy - p2 * sx - t2)
                + f * (p3 * sx - q3 * sy + t3),
{
    lemma_distribute3(d * p1, e * p2, f * p3, sx);
    lemma_distribute3(e * q1, d * q2, f * q3, sy);
    lemma_mul_assoc(d, p1, sx);
    lemma_mul_assoc(e, p2, sx);
    lemma_mul_assoc(f, p3, sx);
    lemma_mul_assoc(e, q1, sy);
    lemma_mul_assoc(d, q2, sy);
    lemma_mul_assoc(f, q3, sy);
    lemma_mul_distributes_k(d, p1 * sx, q2 * sy, t1);
    lemma_mul_distributes_k(e, q1 * sy, p2 * sx, t2);
    lemma_mul_distributes_k(f, p3 * sx, q3 * sy, t3);
}

proof fn lemma_sam_row(
    ax: int, ay: int, bx: int, by: int, cx: int, cy: int, d: int, e: int, f: int,
    sx: int, sy: int, kd: int, ke: int, kf: int,
)
    requires
        (by - cy) * sx - (bx - cx) * sy + (bx * cy - by * cx) == kd,
        (ax - cx) * sy - (ay - cy) * sx - (ax * cy - ay * cx) == ke,
        (ay - by) * sx - (ax - bx) * sy + (ax * by - ay * bx) == kf,
    ensures
        (d * (by - cy) - e * (ay - cy) + f * (ay - by)) * sx
            + (e * (ax - cx) - d * (bx - cx) - f * (ax - bx)) * sy
            + (d * (bx * cy - by * cx) - e * (ax * cy - ay * cx) + f * (ax * by - ay * bx))
            == d * kd + e * ke + f * kf,
{
    let p1 = by - cy;
    let p2 = ay - cy;
    let p3 = ay - by;
    let q1 = ax - cx;
    let q2 = bx - cx;
    let q3 = ax - bx;
    let t1 = bx * cy - by * cx;
    let t2 = ax * cy - ay * cx;
    let t3 = ax * by - ay * bx;
    lemma_sam_regroup(p1, p2, p3, q1, q2, q3, t1, t2, t3, d, e, f, sx, sy);
    assert(p1 * sx - q2 * sy + t1 == kd);
    assert(q1 * sy - p2 * sx - t2 == ke);
    assert(p3 * sx - q3 * sy + t3 == kf);
}

proof fn lemma_coeffs_at_a(ax: int, ay: int, bx: int, by: int, cx: int, cy: int)
    by (nonlinear_arith)
    ensures
        (by - cy) * ax - (bx - cx) * ay + (bx * cy - by * cx)
            == ax * by + bx * cy + cx * ay - ax * cy - bx * ay - cx * by,
        (ax - cx) * ay - (ay - cy) * ax - (ax * cy - ay * cx) == 0,
        (ay - by) * ax - (ax - bx) * ay + (ax * by - ay * bx) == 0,
{
}

proof fn lemma_coeffs_at_b(ax: int, ay: int, bx: int, by: int, cx: int, cy: int)
    by (nonlinear_arith)
    ensures
        (by - cy) * bx - (bx - cx) * by + (bx * cy - by * cx) == 0,
        (ax - cx) * by - (ay - cy) * bx - (ax * cy - ay * cx)
            == ax * by + bx * cy + cx * ay - ax * cy - bx * ay - cx * by,
        (ay - by) * bx - (ax - bx) * by + (ax * by - ay * bx) == 0,
{
}

proof fn lemma_coeffs_at_c(ax: int, ay: int, bx: int, by: int, cx: int, cy: int)
    by (nonlinear_arith)
    ensures
        (by - cy) * cx - (bx - cx) * cy + (bx * cy - by * cx) == 0,
        (ax - cx) * cy - (ay - cy) * cx - (ax * cy - ay * cx) == 0,
        (ay - by) * cx - (ax - bx) * cy + (ax * by - ay * bx)
            == ax * by + bx * cy + cx * ay - ax * cy - bx * ay - cx * by,
{
}

/// The affine correspondence solver is exact: the rational transform it
/// yields maps each source point of the triangle onto its destination.
/// Formally, for every source triangle `a`, `b`, `c` and destinations `d`,
/// `e`, `f`, the numerators and determinant satisfy
/// `p * src.x + q * src.y + t == det * dst` in each coordinate, so whenever
/// the source points are not collinear (`det != 0`) the mapping
/// `(p * x + q * y + t) / det` carries `a` to `d`, `b` to `e` and `c` to `f`
/// exactly.
pub proof fn lemma_simplex_maps_vertices(a: Point, b: Point, c: Point, d: Point, e: Point, f: Point)
    ensures
        sam_p(a, b, c, d.x as int, e.x as int, f.x as int) * a.x
            + sam_q(a, b, c, d.x as int, e.x as int, f.x as int) * a.y
            + sam_t(a, b, c, d.x as int, e.x as int, f.x as int) == det_spec(a, b, c) * d.x,
        sam_p(a, b, c, d.y as int, e.y as int, f.y as int) * a.x
            + sam_q(a, b, c, d.y as int, e.y as int, f.y as int) * a.y
            + sam_t(a, b, c, d.y as int, e.y as int, f.y as int) == det_spec(a, b, c) * d.y,
        sam_p(a, b, c, d.x as int, e.x as int, f.x as int) * b.x
            + sam_q(a, b, c, d.x as int, e.x as int, f.x as int) * b.y
            + sam_t(a, b, c, d.x as int, e.x as int, f.x as int) == det_spec(a, b, c) * e.x,
        sam_p(a, b, c, d.y as int, e.y as int, f.y as int) * b.x
            + sam_q(a, b, c, d.y as int, e.y as int, f.y as int) * b.y
            + sam_t(a, b, c, d.y as int, e.y as int, f.y as int) == det_spec(a, b, c) * e.y,
        sam_p(a, b, c, d.x as int, e.x as int, f.x as int) * c.x
            + sam_q(a, b, c, d.x as int, e.x as int, f.x as int) * c.y
            + sam_t(a, b, c, d.x as int, e.x as int, f.x as int) == det_spec(a, b, c) * f.x,
        sam_p(a, b, c, d.y as int, e.y as int, f.y as int) * c.x
            + sam_q(a, b, c, d.y as int, e.y as int, f.y as int) * c.y
            + sam_t(a, b, c, d.y as int, e.y as int, f.y as int) == det_spec(a, b, c) * f.y,
{
    let ax = a.x as int;
    let ay = a.y as int;
    let bx = b.x as int;
    let by = b.y as int;
    let cx = c.x as int;
    let cy = c.y as int;
    let det = ax * by + bx * cy + cx * ay - ax * cy - bx * ay - cx * by;
    lemma_coeffs_at_a(ax, ay, bx, by, cx, cy);
    lemma_coeffs_at_b(ax, ay, bx, by, cx, cy);
    lemma_coeffs_at_c(ax, ay, bx, by, cx, cy);
    let dx = d.x as int;
    let dy = d.y as int;
    let ex = e.x as int;
    let ey = e.y as int;
    let fx = f.x as int;
    let fy = f.y as int;
    lemma_sam_row(ax, ay, bx, by, cx, cy, dx, ex, fx, ax, ay, det, 0, 0);
    lemma_sam_row(ax, ay, bx, by, cx, cy, dy, ey, fy, ax, ay, det, 0, 0);
    lemma_sam_row(ax, ay, bx, by, cx, cy, dx, ex, fx, bx, by, 0, det, 0);
    lemma_sam_row(ax, ay, bx, by, cx, cy, dy, ey, fy, bx, by, 0, det, 0);
    lemma_sam_row(ax, ay, bx, by, cx, cy, dx, ex, fx, cx, cy, 0, 0, det);
    lemma_sam_row(ax, ay, bx, by, cx, cy, dy, ey, fy, cx, cy, 0, 0, det);
    assert(dx * det + ex * 0 + fx * 0 == det * dx) by (nonlinear_arith);
    assert(dy * det + ey * 0 + fy * 0 == det * dy) by (nonlinear_arith);
    assert(dx * 0 + ex * det + fx * 0 == det * ex) by (nonlinear_arith);
    assert(dy * 0 + ey * det + fy * 0 == det * ey) by (nonlinear_arith);
    assert(dx * 0 + ex * 0 + fx * det == det * fx) by (nonlinear_arith);
    assert(dy * 0 + ey * 0 + fy * det == det * fy) by (nonlinear_arith);
}

/// Finds the affine transform that maps the triangle `a`, `b`, `c` onto the
/// triangle `d`, `e`, `f`, as an exact rational transform whose denominator
/// is the source triangle's determinant. Collinear source points yield a
/// zero denominator: the degenerate mapping is recorded, not guarded.
pub fn simplex_affine_mapping(
    a: Point, b: Point, c: Point, d: Point, e: Point, f: Point,
) -> (r: RationalAffine)
    requires
        coord_bounded(a),
        coord_bounded(b),
        coord_bounded(c),
        coord_bounded(d),
        coord_bounded(e),
        coord_bounded(f),
    ensures
        r.a == sam_p(a, b, c, d.x as int, e.x as int, f.x as int),
        r.b == sam_p(a, b, c, d.y as int, e.y as int, f.y as int),
        r.c == sam_q(a, b, c, d.x as int, e.x as int, f.x as int),
        r.d == sam_q(a, b, c, d.y as int, e.y as int, f.y as int),
        r.e == sam_t(a, b, c, d.x as int, e.x as int, f.x as int),
        r.f == sam_t(a, b, c, d.y as int, e.y as int, f.y as int),
        r.den == det_spec(a, b, c),
{
    let ax = a.x as i128;
    let ay = a.y as i128;
    let bx = b.x as i128;
    let by = b.y as i128;
    let cx = c.x as i128;
    let cy = c.y as i128;
    proof {
        lemma_mul_bound(a.x as int, b.y as int, COORD_LIMIT as int, COORD_LIMIT as int);
        lemma_mul_bound(b.x as int, c.y as int, COORD_LIMIT as int, COORD_LIMIT as int);
        lemma_mul_bound(c.x as int, a.y as int, COORD_LIMIT as int, COORD_LIMIT as int);
        lemma_mul_bound(a.x as int, c.y as int, COORD_LIMIT as int, COORD_LIMIT as int);
        lemma_mul_bound(b.x as int, a.y as int, COORD_LIMIT as int, COORD_LIMIT as int);
        lemma_mul_bound(c.x as int, b.y as int, COORD_LIMIT as int, COORD_LIMIT as int);
    }
    let den = ax * by + bx * cy + cx * ay - ax * cy - bx * ay - cx * by;
    let ra = sam_col_p(a, b, c, d.x, e.x, f.x);
    let rb = sam_col_p(a, b, c, d.y, e.y, f.y);
    let rc = sam_col_q(a, b, c, d.x, e.x, f.x);
    let rd = sam_col_q(a, b, c, d.y, e.y, f.y);
    let re = sam_col_t(a, b, c, d.x, e.x, f.x);
    let rf = sam_col_t(a, b, c, d.y, e.y, f.y);
    RationalAffine { a: ra, b: rb, c: rc, d: rd, e: re, f: rf, den }
}

fn sam_col_p(a: Point, b: Point, c: Point, d: i64, e: i64, f: i64) -> (r: i128)
    requires
        coord_bounded(a),
        coord_bounded(b),
        coord_bounded(c),
        -(COORD_LIMIT as int) <= d <= COORD_LIMIT as int,
        -(COORD_LIMIT as int) <= e <= COORD_LIMIT as int,
        -(COORD_LIMIT as int) <= f <= COORD_LIMIT as int,
    ensures
        r == sam_p(a, b, c, d as int, e as int, f as int),
{
    proof {
        lemma_mul_bound(d as int, b.y - c.y, COORD_LIMIT as int, 2 * COORD_LIMIT as int);
        lemma_mul_bound(e as int, a.y - c.y, COORD_LIMIT as int, 2 * COORD_LIMIT as int);
        lemma_mul_bound(f as int, a.y - b.y, COORD_LIMIT as int, 2 * COORD_LIMIT as int);
    }
    (d as i128) * (b.y as i128 - c.y as i128) - (e as i128) * (a.y as i128 - c.y as i128)
        + (f as i128) * (a.y as i128 - b.y as i128)
}

fn sam_col_q(a: Point, b: Point, c: Point, d: i64, e: i64, f: i64) -> (r: i128)
    requires
        coord_bounded(a),
        coord_bounded(b),
        coord_bounded(c),
        -(COORD_LIMIT as int) <= d <= COORD_LIMIT as int,
        -(COORD_LIMIT as int) <= e <= COORD_LIMIT as int,
        -(COORD_LIMIT as int) <= f <= COORD_LIMIT as int,
    ensures
        r == sam_q(a, b, c, d as int, e as int, f as int),
{
    proof {
        lemma_mul_bound(e as int, a.x - c.x, COORD_LIMIT as int, 2 * COORD_LIMIT as int);
        lemma_mul_bound(d as int, b.x - c.x, COORD_LIMIT as int, 2 * COORD_LIMIT as int);
        lemma_mul_bound(f as int, a.x - b.x, COORD_LIMIT as int, 2 * COORD_LIMIT as int);
    }
    (e as i128) * (a.x as i128 - c.x as i128) - (d as i128) * (b.x as i128 - c.x as i128)
        - (f as i128) * (a.x as i128 - b.x as i128)
}

fn sam_col_t(a: Point, b: Point, c: Point, d: i64, e: i64, f: i64) -> (r: i128)
    requires
        coord_bounded(a),
        coord_bounded(b),
        coord_bounded(c),
        -(COORD_LIMIT as int) <= d <= COORD_LIMIT as int,
        -(COORD_LIMIT as int) <= e <= COORD_LIMIT as int,
        -(COORD_LIMIT as int) <= f <= COORD_LIMIT as int,
    ensures
        r == sam_t(a, b, c, d as int, e as int, f as int),
{
    proof {
        lemma_mul_bound(b.x as int, c.y as int, COORD_LIMIT as int, COORD_LIMIT as int);
        lemma_mul_bound(b.y as int, c.x as int, COORD_LIMIT as int, COORD_LIMIT as int);
        lemma_mul_bound(a.x as int, c.y as int, COORD_LIMIT as int, COORD_LIMIT as int);
        lemma_mul_bound(a.y as int, c.x as int, COORD_LIMIT as int, COORD_LIMIT as int);
        lemma_mul_bound(a.x as int, b.y as int, COORD_LIMIT as int, COORD_LIMIT as int);
        lemma_mul_bound(a.y as int, b.x as int, COORD_LIMIT as int, COORD_LIMIT as int);
        lemma_mul_bound(
            d as int,
            b.x * c.y - b.y * c.x,
            COORD_LIMIT as int,
            2 * (COORD_LIMIT as int) * (COORD_LIMIT as int),
        );
        lemma_mul_bound(
            e as int,
            a.x * c.y - a.y * c.x,
            COORD_LIMIT as int,
            2 * (COORD_LIMIT as int) * (COORD_LIMIT as int),
        );
        lemma_mul_bound(
            f as int,
            a.x * b.y - a.y * b.x,
            COORD_LIMIT as int,
            2 * (COORD_LIMIT as int) * (COORD_LIMIT as int),
        );
    }
    (d as i128) * ((b.x as i128) * (c.y as i128) - (b.y as i128) * (c.x as i128))
        - (e as i128) * ((a.x as i128) * (c.y as i128) - (a.y as i128) * (c.x as i128))
        + (f as i128) * ((a.x as i128) * (b.y as i128) - (a.y as i128) * (b.x as i128))
}

} // verus!
