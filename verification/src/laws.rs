//! Laws of the predicate surface, proved once and for all.

use vstd::prelude::*;

verus! {

use crate::dyadic::{Point2, Point3};
use crate::detspec::{
    det2,
    det3,
    det4,
    orient2d_val,
    orient3d_val,
    lifted2d_result,
    lifted3d_result,
    sos_lifted2d,
    sos_lifted3d,
    lifted2d_val,
    lifted3d_val,
};
use crate::sign_i;

/// `x * y == -(x * z)` whenever `y == -z`.
proof fn lemma_mul_flip(x: int, y: int, z: int)
    requires
        y == -z,
    ensures
        x * y == -(x * z),
{
    vstd::arithmetic::mul::lemma_mul_unary_negation(z, x);
    vstd::arithmetic::mul::lemma_mul_is_commutative(x, z);
    vstd::arithmetic::mul::lemma_mul_is_commutative(x, y);
}

/// Exchanging the rows flips a `2x2` determinant.
proof fn lemma_det2_swap(a1: int, a2: int, b1: int, b2: int)
    ensures
        det2(b1, b2, a1, a2) == -det2(a1, a2, b1, b2),
{
    vstd::arithmetic::mul::lemma_mul_is_commutative(b1, a2);
    vstd::arithmetic::mul::lemma_mul_is_commutative(b2, a1);
}

/// Exchanging the first two rows flips a `3x3` determinant.
proof fn lemma_det3_swap12(
    a1: int,
    a2: int,
    a3: int,
    b1: int,
    b2: int,
    b3: int,
    c1: int,
    c2: int,
    c3: int,
)
    ensures
        det3(b1, b2, b3, a1, a2, a3, c1, c2, c3) == -det3(a1, a2, a3, b1, b2, b3, c1, c2, c3),
{
    lemma_det2_swap(a1, a2, b1, b2);
    lemma_mul_flip(c3, det2(b1, b2, a1, a2), det2(a1, a2, b1, b2));
}

/// Negating the first row vector and re-basing the other two at it flips a
/// `3x3` determinant of difference vectors.
proof fn lemma_det3_rebase(
    u1: int,
    u2: int,
    u3: int,
    v1: int,
    v2: int,
    v3: int,
    w1: int,
    w2: int,
    w3: int,
)
    ensures
        det3(-u1, -u2, -u3, v1 - u1, v2 - u2, v3 - u3, w1 - u1, w2 - u2, w3 - u3) == -det3(
            u1,
            u2,
            u3,
            v1,
            v2,
            v3,
            w1,
            w2,
            w3,
        ),
{
    let x = det2(v1, v2, w1, w2);
    let y = det2(u1, u2, w1, w2);
    let z = det2(u1, u2, v1, v2);
    let aa = det2(v1 - u1, v2 - u2, w1 - u1, w2 - u2);
    let bb = det2(-u1, -u2, w1 - u1, w2 - u2);
    let cc = det2(-u1, -u2, v1 - u1, v2 - u2);
    assert(aa == x + z - y) by (nonlinear_arith)
        requires
            x == det2(v1, v2, w1, w2),
            y == det2(u1, u2, w1, w2),
            z == det2(u1, u2, v1, v2),
            aa == det2(v1 - u1, v2 - u2, w1 - u1, w2 - u2),
    ;
    assert(bb == -y) by (nonlinear_arith)
        requires
            y == det2(u1, u2, w1, w2),
            bb == det2(-u1, -u2, w1 - u1, w2 - u2),
    ;
    assert(cc == -z) by (nonlinear_arith)
        requires
            z == det2(u1, u2, v1, v2),
            cc == det2(-u1, -u2, v1 - u1, v2 - u2),
    ;
    assert((-u3) * aa - (v3 - u3) * bb + (w3 - u3) * cc == -(u3 * x - v3 * y + w3 * z))
        by (nonlinear_arith)
        requires
            aa == x + z - y,
            bb == -y,
            cc == -z,
    ;
}

/// Exchanging the first two rows flips a `4x4` determinant.
proof fn lemma_det4_swap12(
    a1: int,
    a2: int,
    a3: int,
    a4: int,
    b1: int,
    b2: int,
    b3: int,
    b4: int,
    c1: int,
    c2: int,
    c3: int,
    c4: int,
    d1: int,
    d2: int,
    d3: int,
    d4: int,
)
    ensures
        det4(b1, b2, b3, b4, a1, a2, a3, a4, c1, c2, c3, c4, d1, d2, d3, d4) == -det4(
            a1,
            a2,
            a3,
            a4,
            b1,
            b2,
            b3,
            b4,
            c1,
            c2,
            c3,
            c4,
            d1,
            d2,
            d3,
            d4,
        ),
{
    lemma_det3_swap12(a1, a2, a3, b1, b2, b3, c1, c2, c3);
    lemma_det3_swap12(a1, a2, a3, b1, b2, b3, d1, d2, d3);
    lemma_mul_flip(
        d4,
        det3(b1, b2, b3, a1, a2, a3, c1, c2, c3),
        det3(a1, a2, a3, b1, b2, b3, c1, c2, c3),
    );
    lemma_mul_flip(
        c4,
        det3(b1, b2, b3, a1, a2, a3, d1, d2, d3),
        det3(a1, a2, a3, b1, b2, b3, d1, d2, d3),
    );
}

/// Orientation antisymmetry in the plane: exchanging two vertices flips the
/// sign of the orientation, for every input, the flat ones included.
pub proof fn lemma_orient2d_antisym(a: Point2, b: Point2, c: Point2)
    ensures
        orient2d_val(b, a, c) == -orient2d_val(a, b, c),
        sign_i(orient2d_val(b, a, c)) == -sign_i(orient2d_val(a, b, c)),
{
    assert(orient2d_val(b, a, c) == -orient2d_val(a, b, c)) by (nonlinear_arith);
}

/// Orientation antisymmetry in space: exchanging two vertices flips the sign
/// of the orientation, for every input, the flat ones included.
pub proof fn lemma_orient3d_antisym(a: Point3, b: Point3, c: Point3, d: Point3)
    ensures
        orient3d_val(b, a, c, d) == -orient3d_val(a, b, c, d),
        sign_i(orient3d_val(b, a, c, d)) == -sign_i(orient3d_val(a, b, c, d)),
{
    lemma_det3_rebase(
        crate::detspec::xv3(b) - crate::detspec::xv3(a),
        crate::detspec::yv3(b) - crate::detspec::yv3(a),
        crate::detspec::zv3(b) - crate::detspec::zv3(a),
        crate::detspec::xv3(c) - crate::detspec::xv3(a),
        crate::detspec::yv3(c) - crate::detspec::yv3(a),
        crate::detspec::zv3(c) - crate::detspec::zv3(a),
        crate::detspec::xv3(d) - crate::detspec::xv3(a),
        crate::detspec::yv3(d) - crate::detspec::yv3(a),
        crate::detspec::zv3(d) - crate::detspec::zv3(a),
    );
}

/// Row-swap antisymmetry of the planar lifted predicates: on non-degenerate
/// input (nonzero determinant), exchanging the first two vertices, heights
/// included, flips the answer.
pub proof fn lemma_lifted2d_antisym(
    a: Point2,
    b: Point2,
    c: Point2,
    p: Point2,
    ha: int,
    hb: int,
    hc: int,
    hp: int,
)
    requires
        lifted2d_val(a, b, c, p, ha, hb, hc, hp) != 0,
    ensures
        lifted2d_result(b, a, c, p, hb, ha, hc, hp) == -lifted2d_result(a, b, c, p, ha, hb, hc, hp),
{
    assert(lifted2d_val(b, a, c, p, hb, ha, hc, hp) == -lifted2d_val(a, b, c, p, ha, hb, hc, hp))
        by (nonlinear_arith);
}

/// Row-swap antisymmetry of the spatial lifted predicates: on non-degenerate
/// input (nonzero determinant), exchanging the first two vertices, heights
/// included, flips the answer.
pub proof fn lemma_lifted3d_antisym(
    a: Point3,
    b: Point3,
    c: Point3,
    d: Point3,
    p: Point3,
    ha: int,
    hb: int,
    hc: int,
    hd: int,
    hp: int,
)
    requires
        lifted3d_val(a, b, c, d, p, ha, hb, hc, hd, hp) != 0,
    ensures
        lifted3d_result(b, a, c, d, p, hb, ha, hc, hd, hp) == -lifted3d_result(
            a,
            b,
            c,
            d,
            p,
            ha,
            hb,
            hc,
            hd,
            hp,
        ),
{
    lemma_det4_swap12(
        crate::detspec::xv3(a) - crate::detspec::xv3(p),
        crate::detspec::yv3(a) - crate::detspec::yv3(p),
        crate::detspec::zv3(a) - crate::detspec::zv3(p),
        ha - hp,
        crate::detspec::xv3(b) - crate::detspec::xv3(p),
        crate::detspec::yv3(b) - crate::detspec::yv3(p),
        crate::detspec::zv3(b) - crate::detspec::zv3(p),
        hb - hp,
        crate::detspec::xv3(c) - crate::detspec::xv3(p),
        crate::detspec::yv3(c) - crate::detspec::yv3(p),
        crate::detspec::zv3(c) - crate::detspec::zv3(p),
        hc - hp,
        crate::detspec::xv3(d) - crate::detspec::xv3(p),
        crate::detspec::yv3(d) - crate::detspec::yv3(p),
        crate::detspec::zv3(d) - crate::detspec::zv3(p),
        hd - hp,
    );
}

/// The predicates depend on the coordinate values alone, never on the
/// mantissa/exponent representation that happens to carry them: two
/// representations of the same four values give the same tie-broken
/// in-circle answer, on degenerate configurations included.
pub proof fn lemma_incircle_value_determinism(
    a1: Point2,
    b1: Point2,
    c1: Point2,
    p1: Point2,
    a2: Point2,
    b2: Point2,
    c2: Point2,
    p2: Point2,
)
    requires
        crate::dyadic::coord_val(a1.x) == crate::dyadic::coord_val(a2.x),
        crate::dyadic::coord_val(a1.y) == crate::dyadic::coord_val(a2.y),
        crate::dyadic::coord_val(b1.x) == crate::dyadic::coord_val(b2.x),
        crate::dyadic::coord_val(b1.y) == crate::dyadic::coord_val(b2.y),
        crate::dyadic::coord_val(c1.x) == crate::dyadic::coord_val(c2.x),
        crate::dyadic::coord_val(c1.y) == crate::dyadic::coord_val(c2.y),
        crate::dyadic::coord_val(p1.x) == crate::dyadic::coord_val(p2.x),
        crate::dyadic::coord_val(p1.y) == crate::dyadic::coord_val(p2.y),
    ensures
        lifted2d_result(
            a1,
            b1,
            c1,
            p1,
            crate::detspec::sq2(a1),
            crate::detspec::sq2(b1),
            crate::detspec::sq2(c1),
            crate::detspec::sq2(p1),
        ) == lifted2d_result(
            a2,
            b2,
            c2,
            p2,
            crate::detspec::sq2(a2),
            crate::detspec::sq2(b2),
            crate::detspec::sq2(c2),
            crate::detspec::sq2(p2),
        ),
{
}

/// The perturbation rule never answers zero.
pub proof fn lemma_sos2d_never_zero(a: Point2, b: Point2, c: Point2, p: Point2)
    ensures
        sos_lifted2d(a, b, c, p) == 1 || sos_lifted2d(a, b, c, p) == -1,
{
}

/// The perturbation rule never answers zero.
pub proof fn lemma_sos3d_never_zero(a: Point3, b: Point3, c: Point3, d: Point3, p: Point3)
    ensures
        sos_lifted3d(a, b, c, d, p) == 1 || sos_lifted3d(a, b, c, d, p) == -1,
{
}

/// Every tie-broken predicate result is `+1` or `-1`: zero never surfaces.
pub proof fn lemma_lifted2d_result_nonzero(
    a: Point2,
    b: Point2,
    c: Point2,
    p: Point2,
    ha: int,
    hb: int,
    hc: int,
    hp: int,
)
    ensures
        lifted2d_result(a, b, c, p, ha, hb, hc, hp) == 1 || lifted2d_result(
            a,
            b,
            c,
            p,
            ha,
            hb,
            hc,
            hp,
        ) == -1,
{
}

/// Every tie-broken predicate result is `+1` or `-1`: zero never surfaces.
pub proof fn lemma_lifted3d_result_nonzero(
    a: Point3,
    b: Point3,
    c: Point3,
    d: Point3,
    p: Point3,
    ha: int,
    hb: int,
    hc: int,
    hd: int,
    hp: int,
)
    ensures
        lifted3d_result(a, b, c, d, p, ha, hb, hc, hd, hp) == 1 || lifted3d_result(
            a,
            b,
            c,
            d,
            p,
            ha,
            hb,
            hc,
            hd,
            hp,
        ) == -1,
{
}

} // verus!
