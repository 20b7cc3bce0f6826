//! Specification-level determinants and predicate values.
//!
//! Every public predicate's contract is stated over these functions, applied
//! to the exact integer values of the input coordinates.  The `2x2`, `3x3`
//! and `4x4` determinants are written by cofactor expansion along the last
//! column, the column that holds the lifted heights in the regularity tests.

use vstd::prelude::*;

verus! {

use crate::dyadic::{Coord, Point2, Point3, coord_val};
use crate::sign_i;

/// `det [[a, b], [c, d]]`.
pub open spec fn det2(a: int, b: int, c: int, d: int) -> int {
    a * d - b * c
}

/// `det [[a11, a12, a13], [a21, a22, a23], [a31, a32, a33]]`,
/// expanded along the third column.
pub open spec fn det3(
    a11: int,
    a12: int,
    a13: int,
    a21: int,
    a22: int,
    a23: int,
    a31: int,
    a32: int,
    a33: int,
) -> int {
    a13 * det2(a21, a22, a31, a32) - a23 * det2(a11, a12, a31, a32) + a33 * det2(
        a11,
        a12,
        a21,
        a22,
    )
}

/// The `4x4` determinant, expanded along the fourth column.
pub open spec fn det4(
    a11: int,
    a12: int,
    a13: int,
    a14: int,
    a21: int,
    a22: int,
    a23: int,
    a24: int,
    a31: int,
    a32: int,
    a33: int,
    a34: int,
    a41: int,
    a42: int,
    a43: int,
    a44: int,
) -> int {
    a24 * det3(a11, a12, a13, a31, a32, a33, a41, a42, a43) + a44 * det3(
        a11,
        a12,
        a13,
        a21,
        a22,
        a23,
        a31,
        a32,
        a33,
    ) - a14 * det3(a21, a22, a23, a31, a32, a33, a41, a42, a43) - a34 * det3(
        a11,
        a12,
        a13,
        a21,
        a22,
        a23,
        a41,
        a42,
        a43,
    )
}

pub open spec fn xv(p: Point2) -> int {
    coord_val(p.x)
}

pub open spec fn yv(p: Point2) -> int {
    coord_val(p.y)
}

pub open spec fn xv3(p: Point3) -> int {
    coord_val(p.x)
}

pub open spec fn yv3(p: Point3) -> int {
    coord_val(p.y)
}

pub open spec fn zv3(p: Point3) -> int {
    coord_val(p.z)
}

/// Twice the signed area of the triangle `a`, `b`, `c`: positive when the
/// triangle turns counter-clockwise.
pub open spec fn orient2d_val(a: Point2, b: Point2, c: Point2) -> int {
    det2(xv(b) - xv(a), yv(b) - yv(a), xv(c) - xv(a), yv(c) - yv(a))
}

/// Six times the signed volume of the tetrahedron `a`, `b`, `c`, `d`:
/// positive when the tetrahedron is positively oriented.
pub open spec fn orient3d_val(a: Point3, b: Point3, c: Point3, d: Point3) -> int {
    det3(
        xv3(b) - xv3(a),
        yv3(b) - yv3(a),
        zv3(b) - zv3(a),
        xv3(c) - xv3(a),
        yv3(c) - yv3(a),
        zv3(c) - zv3(a),
        xv3(d) - xv3(a),
        yv3(d) - yv3(a),
        zv3(d) - zv3(a),
    )
}

/// The lifted-orientation determinant for three weighted planar points and a
/// weighted query point: rows `(i - p, h_i - h_p)` for `i` in `a`, `b`, `c`.
/// Positive exactly when the lifted query point lies below the plane through
/// the three lifted points.
pub open spec fn lifted2d_val(
    a: Point2,
    b: Point2,
    c: Point2,
    p: Point2,
    ha: int,
    hb: int,
    hc: int,
    hp: int,
) -> int {
    det3(
        xv(a) - xv(p),
        yv(a) - yv(p),
        ha - hp,
        xv(b) - xv(p),
        yv(b) - yv(p),
        hb - hp,
        xv(c) - xv(p),
        yv(c) - yv(p),
        hc - hp,
    )
}

/// The lifted-orientation determinant for four weighted spatial points and a
/// weighted query point: rows `(i - p, h_i - h_p)`.  Negative exactly when
/// the lifted query point lies below the hyperplane through the four lifted
/// points.
pub open spec fn lifted3d_val(
    a: Point3,
    b: Point3,
    c: Point3,
    d: Point3,
    p: Point3,
    ha: int,
    hb: int,
    hc: int,
    hd: int,
    hp: int,
) -> int {
    det4(
        xv3(a) - xv3(p),
        yv3(a) - yv3(p),
        zv3(a) - zv3(p),
        ha - hp,
        xv3(b) - xv3(p),
        yv3(b) - yv3(p),
        zv3(b) - zv3(p),
        hb - hp,
        xv3(c) - xv3(p),
        yv3(c) - yv3(p),
        zv3(c) - zv3(p),
        hc - hp,
        xv3(d) - xv3(p),
        yv3(d) - yv3(p),
        zv3(d) - zv3(p),
        hd - hp,
    )
}

/// The squared distance of a planar point from the origin.
pub open spec fn sq2(p: Point2) -> int {
    xv(p) * xv(p) + yv(p) * yv(p)
}

/// The squared distance of a spatial point from the origin.
pub open spec fn sq3(p: Point3) -> int {
    xv3(p) * xv3(p) + yv3(p) * yv3(p) + zv3(p) * zv3(p)
}

/// The incircle determinant: the lifted determinant with the standard
/// paraboloid heights.  Positive exactly when `p` lies inside the circle
/// through `a`, `b`, `c` taken counter-clockwise.
pub open spec fn incircle_val(a: Point2, b: Point2, c: Point2, p: Point2) -> int {
    lifted2d_val(a, b, c, p, sq2(a), sq2(b), sq2(c), sq2(p))
}

/// The insphere determinant: the lifted determinant with the standard
/// paraboloid heights.  Negative exactly when `p` lies inside the sphere
/// through the positively oriented `a`, `b`, `c`, `d`.
pub open spec fn insphere_val(a: Point3, b: Point3, c: Point3, d: Point3, p: Point3) -> int {
    lifted3d_val(a, b, c, d, p, sq3(a), sq3(b), sq3(c), sq3(d), sq3(p))
}

/// The symbolic-perturbation rule of the planar lifted predicates.
///
/// Each lifted height is raised by its own infinitesimal, `a`'s infinitely
/// larger than `b`'s, and so on in the slot order `a`, `b`, `c`, query; the
/// value of the first perturbation term whose coefficient does not vanish
/// decides.  The coefficients are, in order, the four orientation minors
/// below; when all of them vanish (all four points collinear) the surviving
/// term is the determinant of the perturbation offsets themselves, which is
/// positive by construction.
pub open spec fn sos_lifted2d(a: Point2, b: Point2, c: Point2, p: Point2) -> int {
    if orient2d_val(p, b, c) != 0 {
        sign_i(orient2d_val(p, b, c))
    } else if orient2d_val(p, a, c) != 0 {
        -sign_i(orient2d_val(p, a, c))
    } else if orient2d_val(p, a, b) != 0 {
        sign_i(orient2d_val(p, a, b))
    } else if orient2d_val(a, b, c) != 0 {
        -sign_i(orient2d_val(a, b, c))
    } else {
        1int
    }
}

/// The symbolic-perturbation rule of the spatial lifted predicates, in the
/// slot order `a`, `b`, `c`, `d`, query; see [`sos_lifted2d`].
pub open spec fn sos_lifted3d(a: Point3, b: Point3, c: Point3, d: Point3, p: Point3) -> int {
    if orient3d_val(p, b, c, d) != 0 {
        sign_i(orient3d_val(p, b, c, d))
    } else if orient3d_val(p, a, c, d) != 0 {
        -sign_i(orient3d_val(p, a, c, d))
    } else if orient3d_val(p, a, b, d) != 0 {
        sign_i(orient3d_val(p, a, b, d))
    } else if orient3d_val(p, a, b, c) != 0 {
        -sign_i(orient3d_val(p, a, b, c))
    } else if orient3d_val(a, b, c, d) != 0 {
        -sign_i(orient3d_val(a, b, c, d))
    } else {
        1int
    }
}

/// The result of a planar lifted predicate: the exact determinant sign, or
/// the perturbation rule on an exact tie.
pub open spec fn lifted2d_result(
    a: Point2,
    b: Point2,
    c: Point2,
    p: Point2,
    ha: int,
    hb: int,
    hc: int,
    hp: int,
) -> int {
    if lifted2d_val(a, b, c, p, ha, hb, hc, hp) != 0 {
        sign_i(lifted2d_val(a, b, c, p, ha, hb, hc, hp))
    } else {
        sos_lifted2d(a, b, c, p)
    }
}

/// The result of a spatial lifted predicate: `+1` when the lifted query lies
/// below the hyperplane (negative determinant), or the perturbation rule on
/// an exact tie.
pub open spec fn lifted3d_result(
    a: Point3,
    b: Point3,
    c: Point3,
    d: Point3,
    p: Point3,
    ha: int,
    hb: int,
    hc: int,
    hd: int,
    hp: int,
) -> int {
    if lifted3d_val(a, b, c, d, p, ha, hb, hc, hd, hp) != 0 {
        -sign_i(lifted3d_val(a, b, c, d, p, ha, hb, hc, hd, hp))
    } else {
        sos_lifted3d(a, b, c, d, p)
    }
}

} // verus!
