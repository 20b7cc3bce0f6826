//! Robust geometric predicates with exact sign evaluation and symbolic
//! perturbation.
//!
//! Coordinates are exact dyadic values `m * 2^e` (see [`Coord`]); every finite
//! IEEE-754 double, after a uniform scaling by a fixed power of two that makes
//! all exponents nonnegative, is one such value, and such scaling never
//! changes the sign any predicate returns.  Each predicate computes the exact
//! sign of its determinant; the tie-breaking (`_SOS`) predicates additionally
//! resolve an exactly-zero determinant to a deterministic `+1` or `-1` by a
//! fixed symbolic-perturbation rule, so that every caller observing the same
//! degenerate configuration gets the same answer.

use vstd::prelude::*;

mod accum;
mod detexec;
mod detspec;
mod expansion;
mod dyadic;
mod laws;

pub use dyadic::{Coord, Point2, Point3};
pub use dyadic::{coord_val, coord_wf, point2_wf, point3_wf, COORD_EXP_MAX, COORD_MANT_MAX};
pub use detspec::{
    det2, det3, det4, orient2d_val, orient3d_val, lifted2d_val, lifted3d_val, sq2, sq3,
    incircle_val, insphere_val, sos_lifted2d, sos_lifted3d, lifted2d_result, lifted3d_result,
};

verus! {

use vstd::arithmetic::power2::{
    pow2,
    lemma_pow2_pos,
    lemma_pow2_adds,
    lemma_pow2_strictly_increases,
    lemma2_to64,
};
use vstd::arithmetic::mul::{
    lemma_mul_strictly_positive,
    lemma_mul_unary_negation,
    lemma_mul_inequality,
    lemma_mul_equality_converse,
    lemma_mul_is_commutative,
};
use crate::accum::{ACC_EXP_MAX, pow2_u64};
use crate::expansion::{
    exp_val,
    exp_wf,
    exp_mul,
    exp_neg,
    exp_append,
    exp_diff,
    exp_single,
    exp_sign,
    lemma_exp_wf_concat,
    lemma_exp_wf_weaken,
};
use crate::detexec::{det2_exp, det3_exp, det4_exp};

/// The sign of an integer: `1`, `0`, or `-1`.
pub open spec fn sign_i(v: int) -> int {
    if v > 0 {
        1int
    } else if v < 0 {
        -1int
    } else {
        0int
    }
}

/// The sign of a coordinate value is the sign of its mantissa.
proof fn lemma_coord_sign(c: Coord)
    ensures
        sign_i(coord_val(c)) == sign_i(c.m as int),
{
    lemma_pow2_pos(c.e as nat);
    if c.m > 0 {
        lemma_mul_strictly_positive(c.m as int, pow2(c.e as nat) as int);
    }
    if c.m < 0 {
        lemma_mul_strictly_positive(-(c.m as int), pow2(c.e as nat) as int);
        lemma_mul_unary_negation(c.m as int, pow2(c.e as nat) as int);
    }
}

/// Gets the sign of a coordinate value.
///
/// Returns `+1` if the value is positive, `0` if it is zero, and `-1` if it
/// is negative.
pub fn geo_sgn(x: Coord) -> (r: i16)
    ensures
        r as int == sign_i(coord_val(x)),
{
    proof {
        lemma_coord_sign(x);
    }
    if x.m > 0 {
        1
    } else if x.m < 0 {
        -1
    } else {
        0
    }
}

/// Exact value equality of two coordinates, independent of representation.
fn coord_eq(a: Coord, b: Coord) -> (r: bool)
    requires
        coord_wf(a),
        coord_wf(b),
    ensures
        r == (coord_val(a) == coord_val(b)),
{
    proof {
        lemma_coord_sign(a);
        lemma_coord_sign(b);
    }
    if a.m == 0 || b.m == 0 {
        return a.m == 0 && b.m == 0;
    }
    if (a.m > 0) != (b.m > 0) {
        return false;
    }
    // Same nonzero sign: compare mantissas at the common exponent.
    let (lo, hi) = if a.e <= b.e {
        (a, b)
    } else {
        (b, a)
    };
    let d: u32 = hi.e - lo.e;
    proof {
        // coord_val(hi) == coord_val(lo)  <==>  hi.m * 2^d == lo.m
        lemma_pow2_adds(d as nat, lo.e as nat);
        lemma_pow2_pos(lo.e as nat);
        lemma_pow2_pos(d as nat);
        let pl = pow2(lo.e as nat) as int;
        let pd = pow2(d as nat) as int;
        vstd::arithmetic::mul::lemma_mul_is_associative(hi.m as int, pd, pl);
        if coord_val(hi) == coord_val(lo) {
            lemma_mul_is_commutative(pl, (hi.m as int) * pd);
            lemma_mul_is_commutative(pl, lo.m as int);
            lemma_mul_equality_converse(pl, (hi.m as int) * pd, lo.m as int);
        }
    }
    if d >= 64 {
        proof {
            let pd = pow2(d as nat) as int;
            if d > 64 {
                lemma_pow2_strictly_increases(64, d as nat);
            }
            lemma2_to64();
            if hi.m > 0 {
                lemma_mul_inequality(1, hi.m as int, pd);
                lemma_mul_is_commutative(hi.m as int, pd);
            } else {
                lemma_mul_inequality(1, -(hi.m as int), pd);
                lemma_mul_unary_negation(hi.m as int, pd);
                lemma_mul_is_commutative(-(hi.m as int), pd);
            }
        }
        return false;
    }
    let f = pow2_u64(d);
    proof {
        lemma2_to64();
        vstd::arithmetic::power2::lemma2_to64_rest();
        if (d as nat) < 63 {
            lemma_pow2_strictly_increases(d as nat, 63);
        }
        assert(-0x8000_0000_0000_0000_0000_0000_0000_0000 <= (hi.m as int) * (f as int)
            < 0x8000_0000_0000_0000_0000_0000_0000_0000) by (nonlinear_arith)
            requires
                -COORD_MANT_MAX <= hi.m <= COORD_MANT_MAX,
                0 <= f <= 0x8000_0000_0000_0000,
        ;
    }
    let prod: i128 = (hi.m as i128) * (f as i128);
    prod == lo.m as i128
}

/// Tests whether two planar points are identical: exact equality of the
/// coordinate values, with no tolerance.
pub fn points_are_identical_2d(p1: &Point2, p2: &Point2) -> (r: bool)
    requires
        point2_wf(*p1),
        point2_wf(*p2),
    ensures
        r == (coord_val(p1.x) == coord_val(p2.x) && coord_val(p1.y) == coord_val(p2.y)),
{
    coord_eq(p1.x, p2.x) && coord_eq(p1.y, p2.y)
}

/// Tests whether two spatial points are identical: exact equality of the
/// coordinate values, with no tolerance.
pub fn points_are_identical_3d(p1: &Point3, p2: &Point3) -> (r: bool)
    requires
        point3_wf(*p1),
        point3_wf(*p2),
    ensures
        r == (coord_val(p1.x) == coord_val(p2.x) && coord_val(p1.y) == coord_val(p2.y)
            && coord_val(p1.z) == coord_val(p2.z)),
{
    coord_eq(p1.x, p2.x) && coord_eq(p1.y, p2.y) && coord_eq(p1.z, p2.z)
}

/// Computes the orientation predicate in 2d: the exact sign of the signed
/// area of the triangle `a`, `b`, `c`.
///
/// Returns `+1` if the triangle is oriented counter-clockwise, `0` if it is
/// flat, and `-1` if it is oriented clockwise.
pub fn orient_2d(a: &Point2, b: &Point2, c: &Point2) -> (r: i16)
    requires
        point2_wf(*a),
        point2_wf(*b),
        point2_wf(*c),
    ensures
        r as int == sign_i(orient2d_val(*a, *b, *c)),
{
    let e11 = exp_diff(b.x, a.x);
    let e12 = exp_diff(b.y, a.y);
    let e21 = exp_diff(c.x, a.x);
    let e22 = exp_diff(c.y, a.y);
    let d = det2_exp(&e11, &e12, &e21, &e22, Ghost(COORD_EXP_MAX as int));
    proof {
        lemma_exp_wf_weaken(d@, 2 * (COORD_EXP_MAX as int) + 62, ACC_EXP_MAX as int);
    }
    exp_sign(&d)
}

/// Computes the orientation predicate in 3d: the exact sign of the signed
/// volume of the tetrahedron `a`, `b`, `c`, `d`.
///
/// Returns `+1` if the tetrahedron is oriented positively, `0` if it is
/// flat, and `-1` if it is oriented negatively.
pub fn orient_3d(a: &Point3, b: &Point3, c: &Point3, d: &Point3) -> (r: i16)
    requires
        point3_wf(*a),
        point3_wf(*b),
        point3_wf(*c),
        point3_wf(*d),
    ensures
        r as int == sign_i(orient3d_val(*a, *b, *c, *d)),
{
    let e11 = exp_diff(b.x, a.x);
    let e12 = exp_diff(b.y, a.y);
    let e13 = exp_diff(b.z, a.z);
    let e21 = exp_diff(c.x, a.x);
    let e22 = exp_diff(c.y, a.y);
    let e23 = exp_diff(c.z, a.z);
    let e31 = exp_diff(d.x, a.x);
    let e32 = exp_diff(d.y, a.y);
    let e33 = exp_diff(d.z, a.z);
    let ghost e0: int = COORD_EXP_MAX as int;
    let dd = det3_exp(
        &e11,
        &e12,
        &e13,
        &e21,
        &e22,
        &e23,
        &e31,
        &e32,
        &e33,
        Ghost(e0),
        Ghost(e0),
        Ghost(2),
    );
    proof {
        lemma_exp_wf_weaken(dd@, 3 * e0 + 124, ACC_EXP_MAX as int);
    }
    exp_sign(&dd)
}

/// The lifted height difference `h_i - h_p` as an expansion.
fn height_diff(hi: &Vec<Coord>, hp: &Vec<Coord>, Ghost(ech): Ghost<int>) -> (r: Vec<Coord>)
    requires
        exp_wf(hi@, ech),
        exp_wf(hp@, ech),
    ensures
        exp_val(r@) == exp_val(hi@) - exp_val(hp@),
        exp_wf(r@, ech),
        r@.len() == hi@.len() + hp@.len(),
{
    let n = exp_neg(hp, Ghost(ech));
    let mut out: Vec<Coord> = Vec::new();
    let ghost s0 = out@;
    exp_append(&mut out, hi);
    let ghost s1 = out@;
    exp_append(&mut out, &n);
    proof {
        assert(s0 + hi@ =~= hi@);
        lemma_exp_wf_concat(s1, n@, ech);
    }
    out
}

/// The exact sign of the planar lifted determinant, with the heights given
/// as expansions.
fn lifted2d_sign(
    a: &Point2,
    b: &Point2,
    c: &Point2,
    p: &Point2,
    ha: &Vec<Coord>,
    hb: &Vec<Coord>,
    hc: &Vec<Coord>,
    hp: &Vec<Coord>,
    Ghost(ech): Ghost<int>,
    Ghost(lh): Ghost<int>,
) -> (r: i16)
    requires
        point2_wf(*a),
        point2_wf(*b),
        point2_wf(*c),
        point2_wf(*p),
        exp_wf(ha@, ech),
        exp_wf(hb@, ech),
        exp_wf(hc@, ech),
        exp_wf(hp@, ech),
        ha@.len() <= lh,
        hb@.len() <= lh,
        hc@.len() <= lh,
        hp@.len() <= lh,
        0 <= ech <= 8300,
        1 <= lh <= 8,
    ensures
        r as int == sign_i(
            lifted2d_val(*a, *b, *c, *p, exp_val(ha@), exp_val(hb@), exp_val(hc@), exp_val(hp@)),
        ),
{
    let r11 = exp_diff(a.x, p.x);
    let r12 = exp_diff(a.y, p.y);
    let r21 = exp_diff(b.x, p.x);
    let r22 = exp_diff(b.y, p.y);
    let r31 = exp_diff(c.x, p.x);
    let r32 = exp_diff(c.y, p.y);
    let h1 = height_diff(ha, hp, Ghost(ech));
    let h2 = height_diff(hb, hp, Ghost(ech));
    let h3 = height_diff(hc, hp, Ghost(ech));
    let ghost e0: int = COORD_EXP_MAX as int;
    let dd = det3_exp(
        &r11,
        &r12,
        &h1,
        &r21,
        &r22,
        &h2,
        &r31,
        &r32,
        &h3,
        Ghost(e0),
        Ghost(ech),
        Ghost(2 * lh),
    );
    proof {
        lemma_exp_wf_weaken(dd@, 2 * e0 + ech + 124, ACC_EXP_MAX as int);
    }
    exp_sign(&dd)
}

/// The symbolic-perturbation tie-break of the planar lifted predicates; see
/// [`sos_lifted2d`].
fn sos2d(a: &Point2, b: &Point2, c: &Point2, p: &Point2) -> (r: i16)
    requires
        point2_wf(*a),
        point2_wf(*b),
        point2_wf(*c),
        point2_wf(*p),
    ensures
        r as int == sos_lifted2d(*a, *b, *c, *p),
{
    let s1 = orient_2d(p, b, c);
    if s1 != 0 {
        return s1;
    }
    let s2 = orient_2d(p, a, c);
    if s2 != 0 {
        return -s2;
    }
    let s3 = orient_2d(p, a, b);
    if s3 != 0 {
        return s3;
    }
    let s4 = orient_2d(a, b, c);
    if s4 != 0 {
        return -s4;
    }
    1
}

/// Computes the 3d orientation test with lifted points, i.e. the regularity
/// test for 2d.
///
/// Given the three lifted points `a'`, `b'`, `c'` and the lifted query point
/// `p'`, returns `+1` if `p'` lies below the plane through `a'`, `b'`, `c'`,
/// `-1` if it lies above, and the symbolic-perturbation tie-break if it lies
/// exactly on the plane, so that zero is never returned.
///
/// The heights are supplied by the caller; with `h_i = x_i^2 + y_i^2` this is
/// the in-circle test.
#[allow(non_snake_case)]
pub fn orient_2dlifted_SOS(
    a: &Point2,
    b: &Point2,
    c: &Point2,
    p: &Point2,
    h_a: Coord,
    h_b: Coord,
    h_c: Coord,
    h_d: Coord,
) -> (r: i16)
    requires
        point2_wf(*a),
        point2_wf(*b),
        point2_wf(*c),
        point2_wf(*p),
        coord_wf(h_a),
        coord_wf(h_b),
        coord_wf(h_c),
        coord_wf(h_d),
    ensures
        r as int == lifted2d_result(
            *a,
            *b,
            *c,
            *p,
            coord_val(h_a),
            coord_val(h_b),
            coord_val(h_c),
            coord_val(h_d),
        ),
{
    let ea = exp_single(h_a);
    let eb = exp_single(h_b);
    let ec = exp_single(h_c);
    let ep = exp_single(h_d);
    let s = lifted2d_sign(a, b, c, p, &ea, &eb, &ec, &ep, Ghost(COORD_EXP_MAX as int), Ghost(1));
    if s != 0 {
        s
    } else {
        sos2d(a, b, c, p)
    }
}

/// The squared norm of a planar point as an expansion.
fn sq2_exp(p: &Point2) -> (r: Vec<Coord>)
    requires
        point2_wf(*p),
    ensures
        exp_val(r@) == sq2(*p),
        exp_wf(r@, 2 * (COORD_EXP_MAX as int) + 62),
        r@.len() == 4,
{
    let ghost e0: int = COORD_EXP_MAX as int;
    let sx = exp_single(p.x);
    let sy = exp_single(p.y);
    let xx = exp_mul(&sx, &sx, Ghost(e0), Ghost(e0));
    let yy = exp_mul(&sy, &sy, Ghost(e0), Ghost(e0));
    let mut out = xx;
    let ghost s1 = out@;
    exp_append(&mut out, &yy);
    proof {
        lemma_exp_wf_concat(s1, yy@, 2 * e0 + 62);
    }
    out
}

/// Tests whether a point is in the circum-circle of a triangle.
///
/// Returns `+1` if `p` is inside the circum-circle of the counter-clockwise
/// triangle `a`, `b`, `c`, `-1` if it is outside, and the
/// symbolic-perturbation tie-break if it is exactly on the circle, so that
/// zero is never returned.  If the triangle is oriented clockwise the result
/// is inversed.
#[allow(non_snake_case)]
pub fn in_circle_2d_SOS(a: &Point2, b: &Point2, c: &Point2, p: &Point2) -> (r: i16)
    requires
        point2_wf(*a),
        point2_wf(*b),
        point2_wf(*c),
        point2_wf(*p),
    ensures
        r as int == (if incircle_val(*a, *b, *c, *p) == 0 {
            sos_lifted2d(*a, *b, *c, *p)
        } else {
            sign_i(incircle_val(*a, *b, *c, *p))
        }),
{
    let ea = sq2_exp(a);
    let eb = sq2_exp(b);
    let ec = sq2_exp(c);
    let ep = sq2_exp(p);
    let s = lifted2d_sign(
        a,
        b,
        c,
        p,
        &ea,
        &eb,
        &ec,
        &ep,
        Ghost(2 * (COORD_EXP_MAX as int) + 62),
        Ghost(4),
    );
    if s != 0 {
        s
    } else {
        sos2d(a, b, c, p)
    }
}

/// The exact sign of the spatial lifted determinant, with the heights given
/// as expansions.
fn lifted3d_sign(
    a: &Point3,
    b: &Point3,
    c: &Point3,
    d: &Point3,
    p: &Point3,
    ha: &Vec<Coord>,
    hb: &Vec<Coord>,
    hc: &Vec<Coord>,
    hd: &Vec<Coord>,
    hp: &Vec<Coord>,
    Ghost(ech): Ghost<int>,
    Ghost(lh): Ghost<int>,
) -> (r: i16)
    requires
        point3_wf(*a),
        point3_wf(*b),
        point3_wf(*c),
        point3_wf(*d),
        point3_wf(*p),
        exp_wf(ha@, ech),
        exp_wf(hb@, ech),
        exp_wf(hc@, ech),
        exp_wf(hd@, ech),
        exp_wf(hp@, ech),
        ha@.len() <= lh,
        hb@.len() <= lh,
        hc@.len() <= lh,
        hd@.len() <= lh,
        hp@.len() <= lh,
        0 <= ech <= 8300,
        1 <= lh <= 8,
    ensures
        r as int == sign_i(
            lifted3d_val(
                *a,
                *b,
                *c,
                *d,
                *p,
                exp_val(ha@),
                exp_val(hb@),
                exp_val(hc@),
                exp_val(hd@),
                exp_val(hp@),
            ),
        ),
{
    let r11 = exp_diff(a.x, p.x);
    let r12 = exp_diff(a.y, p.y);
    let r13 = exp_diff(a.z, p.z);
    let r21 = exp_diff(b.x, p.x);
    let r22 = exp_diff(b.y, p.y);
    let r23 = exp_diff(b.z, p.z);
    let r31 = exp_diff(c.x, p.x);
    let r32 = exp_diff(c.y, p.y);
    let r33 = exp_diff(c.z, p.z);
    let r41 = exp_diff(d.x, p.x);
    let r42 = exp_diff(d.y, p.y);
    let r43 = exp_diff(d.z, p.z);
    let h1 = height_diff(ha, hp, Ghost(ech));
    let h2 = height_diff(hb, hp, Ghost(ech));
    let h3 = height_diff(hc, hp, Ghost(ech));
    let h4 = height_diff(hd, hp, Ghost(ech));
    let ghost e0: int = COORD_EXP_MAX as int;
    let dd = det4_exp(
        &r11,
        &r12,
        &r13,
        &h1,
        &r21,
        &r22,
        &r23,
        &h2,
        &r31,
        &r32,
        &r33,
        &h3,
        &r41,
        &r42,
        &r43,
        &h4,
        Ghost(e0),
        Ghost(ech),
        Ghost(2 * lh),
    );
    proof {
        lemma_exp_wf_weaken(dd@, 3 * e0 + ech + 186, ACC_EXP_MAX as int);
    }
    exp_sign(&dd)
}

/// The symbolic-perturbation tie-break of the spatial lifted predicates; see
/// [`sos_lifted3d`].
fn sos3d(a: &Point3, b: &Point3, c: &Point3, d: &Point3, p: &Point3) -> (r: i16)
    requires
        point3_wf(*a),
        point3_wf(*b),
        point3_wf(*c),
        point3_wf(*d),
        point3_wf(*p),
    ensures
        r as int == sos_lifted3d(*a, *b, *c, *d, *p),
{
    let s1 = orient_3d(p, b, c, d);
    if s1 != 0 {
        return s1;
    }
    let s2 = orient_3d(p, a, c, d);
    if s2 != 0 {
        return -s2;
    }
    let s3 = orient_3d(p, a, b, d);
    if s3 != 0 {
        return s3;
    }
    let s4 = orient_3d(p, a, b, c);
    if s4 != 0 {
        return -s4;
    }
    let s5 = orient_3d(a, b, c, d);
    if s5 != 0 {
        return -s5;
    }
    1
}

/// Computes the 4d orientation test with lifted points, i.e. the regularity
/// test for 3d.
///
/// Given the four lifted points `a'`, `b'`, `c'`, `d'` and the lifted query
/// point `p'`, returns `+1` if `p'` lies below the hyperplane through the
/// four lifted points, `-1` if it lies above, and the symbolic-perturbation
/// tie-break if it lies exactly on the hyperplane, so that zero is never
/// returned.
///
/// The heights are supplied by the caller; with
/// `h_i = x_i^2 + y_i^2 + z_i^2` this is the in-sphere test.
#[allow(non_snake_case)]
pub fn orient_3dlifted_SOS(
    a: &Point3,
    b: &Point3,
    c: &Point3,
    d: &Point3,
    p: &Point3,
    h_a: Coord,
    h_b: Coord,
    h_c: Coord,
    h_d: Coord,
    h_p: Coord,
) -> (r: i16)
    requires
        point3_wf(*a),
        point3_wf(*b),
        point3_wf(*c),
        point3_wf(*d),
        point3_wf(*p),
        coord_wf(h_a),
        coord_wf(h_b),
        coord_wf(h_c),
        coord_wf(h_d),
        coord_wf(h_p),
    ensures
        r as int == lifted3d_result(
            *a,
            *b,
            *c,
            *d,
            *p,
            coord_val(h_a),
            coord_val(h_b),
            coord_val(h_c),
            coord_val(h_d),
            coord_val(h_p),
        ),
{
    let ea = exp_single(h_a);
    let eb = exp_single(h_b);
    let ec = exp_single(h_c);
    let ed = exp_single(h_d);
    let ep = exp_single(h_p);
    let s = lifted3d_sign(
        a,
        b,
        c,
        d,
        p,
        &ea,
        &eb,
        &ec,
        &ed,
        &ep,
        Ghost(COORD_EXP_MAX as int),
        Ghost(1),
    );
    if s != 0 {
        -s
    } else {
        sos3d(a, b, c, d, p)
    }
}

/// The squared norm of a spatial point as an expansion.
fn sq3_exp(p: &Point3) -> (r: Vec<Coord>)
    requires
        point3_wf(*p),
    ensures
        exp_val(r@) == sq3(*p),
        exp_wf(r@, 2 * (COORD_EXP_MAX as int) + 62),
        r@.len() == 6,
{
    let ghost e0: int = COORD_EXP_MAX as int;
    let sx = exp_single(p.x);
    let sy = exp_single(p.y);
    let sz = exp_single(p.z);
    let xx = exp_mul(&sx, &sx, Ghost(e0), Ghost(e0));
    let yy = exp_mul(&sy, &sy, Ghost(e0), Ghost(e0));
    let zz = exp_mul(&sz, &sz, Ghost(e0), Ghost(e0));
    let mut out = xx;
    let ghost s1 = out@;
    exp_append(&mut out, &yy);
    let ghost s2 = out@;
    exp_append(&mut out, &zz);
    proof {
        lemma_exp_wf_concat(s1, yy@, 2 * e0 + 62);
        lemma_exp_wf_concat(s2, zz@, 2 * e0 + 62);
    }
    out
}

/// Tests whether a point is in the circum-sphere of a tetrahedron.
///
/// Returns `+1` if `p` is inside the circum-sphere of the positively
/// oriented tetrahedron `a`, `b`, `c`, `d`, `-1` if it is outside, and the
/// symbolic-perturbation tie-break if it is exactly on the sphere, so that
/// zero is never returned.  If the tetrahedron is oriented negatively the
/// result is inversed.
#[allow(non_snake_case)]
pub fn in_sphere_3d_SOS(a: &Point3, b: &Point3, c: &Point3, d: &Point3, p: &Point3) -> (r: i16)
    requires
        point3_wf(*a),
        point3_wf(*b),
        point3_wf(*c),
        point3_wf(*d),
        point3_wf(*p),
    ensures
        r as int == (if insphere_val(*a, *b, *c, *d, *p) == 0 {
            sos_lifted3d(*a, *b, *c, *d, *p)
        } else {
            -sign_i(insphere_val(*a, *b, *c, *d, *p))
        }),
{
    let ea = sq3_exp(a);
    let eb = sq3_exp(b);
    let ec = sq3_exp(c);
    let ed = sq3_exp(d);
    let ep = sq3_exp(p);
    let s = lifted3d_sign(
        a,
        b,
        c,
        d,
        p,
        &ea,
        &eb,
        &ec,
        &ed,
        &ep,
        Ghost(2 * (COORD_EXP_MAX as int) + 62),
        Ghost(6),
    );
    if s != 0 {
        -s
    } else {
        sos3d(a, b, c, d, p)
    }
}

} // verus!
