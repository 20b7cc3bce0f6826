//! Exact dyadic coordinates: the value domain of every predicate.

use vstd::prelude::*;

verus! {

use vstd::arithmetic::power2::pow2;

/// Largest mantissa magnitude a coordinate may carry: `2^53`, the mantissa
/// range of an IEEE-754 double.
pub const COORD_MANT_MAX: i64 = 0x20_0000_0000_0000;

/// Largest exponent a coordinate may carry.  A finite double scaled by
/// `2^1200` has an exponent between `0` and `2171`, well below this bound.
pub const COORD_EXP_MAX: u32 = 4096;

/// An exact dyadic coordinate with value `m * 2^e`.
///
/// Every finite IEEE-754 double, multiplied by a fixed power of two large
/// enough to clear its negative exponent, is representable exactly.  All
/// predicates depend only on the value `m * 2^e`, never on the particular
/// `(m, e)` decomposition, and their signs are invariant under such uniform
/// scalings.
#[derive(Clone, Copy, Debug)]
pub struct Coord {
    /// Mantissa.
    pub m: i64,
    /// Binary exponent.
    pub e: u32,
}

/// The exact value of a coordinate, as an unbounded integer.
pub open spec fn coord_val(c: Coord) -> int {
    (c.m as int) * (pow2(c.e as nat) as int)
}

/// Well-formedness of a coordinate: mantissa and exponent in the range that
/// a (scaled) finite double occupies.
pub open spec fn coord_wf(c: Coord) -> bool {
    &&& -COORD_MANT_MAX <= c.m <= COORD_MANT_MAX
    &&& c.e <= COORD_EXP_MAX
}

/// A planar point: two exact dyadic coordinates.
#[derive(Clone, Copy, Debug)]
pub struct Point2 {
    pub x: Coord,
    pub y: Coord,
}

/// A spatial point: three exact dyadic coordinates.
#[derive(Clone, Copy, Debug)]
pub struct Point3 {
    pub x: Coord,
    pub y: Coord,
    pub z: Coord,
}

pub open spec fn point2_wf(p: Point2) -> bool {
    coord_wf(p.x) && coord_wf(p.y)
}

pub open spec fn point3_wf(p: Point3) -> bool {
    coord_wf(p.x) && coord_wf(p.y) && coord_wf(p.z)
}

} // verus!
