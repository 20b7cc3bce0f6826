use robust_predicates::{
    geo_sgn, in_circle_2d_SOS, in_sphere_3d_SOS, orient_2d, orient_2dlifted_SOS, orient_3d,
    orient_3dlifted_SOS, points_are_identical_2d, points_are_identical_3d, Coord, Point2, Point3,
};

/// The uniform scaling exponent that makes every finite double's exponent
/// nonnegative.  Signs of all predicates are invariant under it.
const BIAS: i32 = 1200;

/// The exact dyadic value of a finite double, scaled by `2^BIAS`.
fn coord(x: f64) -> Coord {
    assert!(x.is_finite());
    if x == 0.0 {
        return Coord { m: 0, e: 0 };
    }
    let bits = x.to_bits();
    let sign: i64 = if bits >> 63 == 1 { -1 } else { 1 };
    let exp = ((bits >> 52) & 0x7ff) as i32;
    let frac = (bits & 0xf_ffff_ffff_ffff) as i64;
    let (m, e) = if exp == 0 {
        (frac, -1074 + BIAS)
    } else {
        (frac | (1i64 << 52), exp - 1075 + BIAS)
    };
    assert!(e >= 0);
    Coord {
        m: sign * m,
        e: e as u32,
    }
}

fn p2(x: f64, y: f64) -> Point2 {
    Point2 {
        x: coord(x),
        y: coord(y),
    }
}

fn p3(x: f64, y: f64, z: f64) -> Point3 {
    Point3 {
        x: coord(x),
        y: coord(y),
        z: coord(z),
    }
}

#[test]
fn sign_of_values() {
    assert_eq!(1, geo_sgn(coord(42.0)));
    assert_eq!(-1, geo_sgn(coord(-42.0)));
    assert_eq!(0, geo_sgn(coord(0.0)));
}

#[test]
fn identical_2d_exact() {
    let a = p2(1.5, 2.25);
    let b = p2(1.5, 2.25);
    assert!(points_are_identical_2d(&a, &b));
    let c = p2(1.5, 2.2500000000000004);
    assert!(!points_are_identical_2d(&a, &c));
}

#[test]
fn identical_2d_representation_independent() {
    // The same value written with two different mantissa/exponent splits.
    let a = Point2 {
        x: Coord { m: 3, e: 10 },
        y: Coord { m: 1, e: 0 },
    };
    let b = Point2 {
        x: Coord { m: 6, e: 9 },
        y: Coord { m: 2, e: 0 },
    };
    assert!(points_are_identical_2d(
        &a,
        &Point2 {
            x: Coord { m: 6, e: 9 },
            y: Coord { m: 1, e: 0 }
        }
    ));
    assert!(!points_are_identical_2d(&a, &b));
}

#[test]
fn identical_3d_exact() {
    let a = p3(4.0, 2.0, 0.42);
    let b = p3(4.0, 2.0, 0.42);
    assert!(points_are_identical_3d(&a, &b));
    let c = p3(4.0, 2.0, 0.43);
    assert!(!points_are_identical_3d(&a, &c));
}

#[test]
fn orient_2d_triangle() {
    let a = p2(0.0, 0.0);
    let b = p2(2.0, 0.0);
    let c = p2(1.0, 1.0);
    assert_eq!(1, orient_2d(&a, &b, &c));
    assert_eq!(-1, orient_2d(&b, &a, &c));
}

#[test]
fn orient_2d_collinear_is_zero() {
    let a = p2(0.0, 0.0);
    let b = p2(1.0, 1.0);
    let c = p2(3.0, 3.0);
    assert_eq!(0, orient_2d(&a, &b, &c));
}

#[test]
fn in_circle_2d_inside_and_outside() {
    let a = p2(0.0, 0.0);
    let b = p2(2.0, 0.0);
    let c = p2(1.0, 1.0);
    let p_in = p2(1.0, -0.4);
    let p_out = p2(1.0, -1.2);
    assert_eq!(1, in_circle_2d_SOS(&a, &b, &c, &p_in));
    assert_eq!(-1, in_circle_2d_SOS(&a, &b, &c, &p_out));
}

#[test]
fn in_circle_2d_cocircular_tie_break() {
    // Four points exactly on the unit circle: the determinant is exactly
    // zero and the perturbation rule answers, deterministically.
    let a = p2(1.0, 0.0);
    let b = p2(0.0, 1.0);
    let c = p2(-1.0, 0.0);
    let p = p2(0.0, -1.0);
    let r1 = in_circle_2d_SOS(&a, &b, &c, &p);
    let r2 = in_circle_2d_SOS(&a, &b, &c, &p);
    assert_eq!(r1, r2);
    assert_eq!(1, r1);
    // The same configuration written with different dyadic representations
    // of the same values gives the same answer.
    let a2 = Point2 {
        x: Coord { m: 1, e: 1200 },
        y: Coord { m: 0, e: 7 },
    };
    let pq = Point2 {
        x: Coord { m: 0, e: 0 },
        y: Coord { m: -2, e: 1199 },
    };
    assert!(points_are_identical_2d(&a, &a2));
    assert!(points_are_identical_2d(&p, &pq));
    assert_eq!(r1, in_circle_2d_SOS(&a2, &b, &c, &pq));
}

#[test]
fn orient_3d_tetrahedron() {
    let a = p3(0.0, 0.0, 0.0);
    let b = p3(2.0, 0.0, 0.0);
    let c = p3(0.0, 2.0, 0.0);
    let d = p3(0.75, 0.75, 1.0);
    assert_eq!(1, orient_3d(&a, &b, &c, &d));
    assert_eq!(-1, orient_3d(&b, &a, &c, &d));
}

#[test]
fn orient_3d_coplanar_is_zero() {
    let a = p3(0.0, 0.0, 0.0);
    let b = p3(1.0, 0.0, 0.0);
    let c = p3(0.0, 1.0, 0.0);
    let d = p3(3.0, 5.0, 0.0);
    assert_eq!(0, orient_3d(&a, &b, &c, &d));
}

#[test]
fn in_sphere_3d_inside_and_outside() {
    let a = p3(0.0, 0.0, 0.0);
    let b = p3(2.0, 0.0, 0.0);
    let c = p3(0.0, 2.0, 0.0);
    let d = p3(0.75, 0.75, 1.0);
    let p_in = p3(0.75, 0.75, 0.5);
    let p_out = p3(0.75, 0.75, 1.5);
    assert_eq!(1, in_sphere_3d_SOS(&a, &b, &c, &d, &p_in));
    assert_eq!(-1, in_sphere_3d_SOS(&a, &b, &c, &d, &p_out));
}

#[test]
fn orient_2dlifted_below_and_above() {
    let a = p2(0.0, 0.0);
    let b = p2(2.0, 0.0);
    let c = p2(0.0, 2.0);
    let h_a = coord(2.0);
    let h_b = coord(3.0);
    let h_c = coord(3.5);
    let p = p2(0.6, 0.6);
    let h_p_below = coord(0.6 * 0.6 + 0.6 * 0.6 + 1.28);
    let h_p_above = coord(0.6 * 0.6 + 0.6 * 0.6 + 2.78);
    assert_eq!(1, orient_2dlifted_SOS(&a, &b, &c, &p, h_a, h_b, h_c, h_p_below));
    assert_eq!(-1, orient_2dlifted_SOS(&a, &b, &c, &p, h_a, h_b, h_c, h_p_above));
}

#[test]
fn orient_3dlifted_below_and_above() {
    let a = p3(0.0, 0.0, 0.0);
    let b = p3(2.0, 0.0, 0.0);
    let c = p3(0.0, 2.0, 0.0);
    let d = p3(0.75, 0.75, 1.0);
    let h_a = coord(2.0);
    let h_b = coord(3.0);
    let h_c = coord(3.5);
    let h_d = coord(0.75 * 0.75 + 0.75 * 0.75 + 1.0 - 0.5);
    let p = p3(0.6, 0.6, 0.6);
    let h_p_below = coord(0.6 * 0.6 + 0.6 * 0.6 + 0.28);
    let h_p_above = coord(0.6 * 0.6 + 0.6 * 0.6 + 2.78);
    assert_eq!(
        1,
        orient_3dlifted_SOS(&a, &b, &c, &d, &p, h_a, h_b, h_c, h_d, h_p_below)
    );
    assert_eq!(
        -1,
        orient_3dlifted_SOS(&a, &b, &c, &d, &p, h_a, h_b, h_c, h_d, h_p_above)
    );
}

#[test]
fn determinism_repeated_calls() {
    let a = p2(0.125, 7.5);
    let b = p2(-3.25, 0.0078125);
    let c = p2(11.0, -2.5);
    let p = p2(0.3, 0.7);
    let first = in_circle_2d_SOS(&a, &b, &c, &p);
    for _ in 0..10 {
        assert_eq!(first, in_circle_2d_SOS(&a, &b, &c, &p));
    }
    let o = orient_2d(&a, &b, &c);
    for _ in 0..10 {
        assert_eq!(o, orient_2d(&a, &b, &c));
    }
}

#[test]
fn antisymmetry_concrete() {
    let a = p3(0.5, -1.25, 3.0);
    let b = p3(2.0, 0.125, -0.5);
    let c = p3(-1.0, 2.0, 0.25);
    let d = p3(0.0, 0.0, 7.0);
    assert_eq!(orient_3d(&a, &b, &c, &d), -orient_3d(&b, &a, &c, &d));
    let p_in = p3(0.1, 0.2, 0.3);
    let s = in_sphere_3d_SOS(&a, &b, &c, &d, &p_in);
    let t = in_sphere_3d_SOS(&b, &a, &c, &d, &p_in);
    assert_eq!(s, -t);
}

#[test]
fn geo_sgn_subnormal_and_tiny() {
    assert_eq!(1, geo_sgn(coord(5e-324)));
    assert_eq!(-1, geo_sgn(coord(-5e-324)));
    assert_eq!(1, geo_sgn(coord(f64::MAX)));
}

/// The fast double-precision orientation evaluation with a conservative
/// forward error bound: a certified sign, or `None` near the decision
/// boundary.
fn orient_2d_fast(a: [f64; 2], b: [f64; 2], c: [f64; 2]) -> Option<i16> {
    let eps = f64::EPSILON / 2.0;
    let detleft = (b[0] - a[0]) * (c[1] - a[1]);
    let detright = (b[1] - a[1]) * (c[0] - a[0]);
    let det = detleft - detright;
    let errbound = (3.0 + 16.0 * eps) * eps * (detleft.abs() + detright.abs());
    if det > errbound {
        Some(1)
    } else if det < -errbound {
        Some(-1)
    } else {
        None
    }
}

#[test]
fn fast_path_sign_agrees_with_exact_path() {
    let mut checked = 0;
    for i in 0..20 {
        for j in 0..20 {
            let x = -1.0 + (i as f64) * 0.11;
            let y = -1.0 + (j as f64) * 0.095;
            let a = [x, y];
            let b = [0.5, -0.25];
            let c = [-0.125, 0.75];
            if let Some(fast) = orient_2d_fast(a, b, c) {
                let exact = orient_2d(&p2(a[0], a[1]), &p2(b[0], b[1]), &p2(c[0], c[1]));
                assert_eq!(fast, exact);
                checked += 1;
            }
        }
    }
    assert!(checked > 300);
}
