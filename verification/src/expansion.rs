//! Expansions: exact sums of dyadic terms.
//!
//! An expansion is a vector of [`Coord`] components whose mathematical value
//! is the sum of the components' values.  Addition is concatenation (exact by
//! construction), multiplication is the pairwise product of components (each
//! pair split exactly into two components of bounded mantissa), and the sign
//! of an expansion is decided exactly by the limb accumulator.

use vstd::prelude::*;

verus! {

use vstd::arithmetic::power2::{
    pow2,
    lemma_pow2_adds,
    lemma_pow2_pos,
    lemma_pow2_strictly_increases,
    lemma2_to64,
    lemma2_to64_rest,
};
use vstd::arithmetic::mul::{
    lemma_mul_is_distributive_add,
    lemma_mul_is_commutative,
    lemma_mul_inequality,
    lemma_mul_nonnegative,
};
use vstd::arithmetic::div_mod::lemma_fundamental_div_mod;
use crate::dyadic::{Coord, coord_val};
use crate::accum::{
    LIMBS,
    ACC_EXP_MAX,
    TERM_MAG,
    limbs_val,
    acc_new,
    acc_add_term,
    acc_cmp,
};
use crate::sign_i;

/// Largest mantissa magnitude of an expansion component: `2^62`.
pub const COMP_MAG: i64 = 0x4000_0000_0000_0000;

/// Largest number of components an expansion handed to [`exp_sign`] may have.
pub const EXP_LEN_MAX: usize = 65536;

/// The exact value of an expansion: the sum of its components' values.
pub open spec fn exp_val(s: Seq<Coord>) -> int
    decreases s.len(),
{
    if s.len() == 0 {
        0
    } else {
        exp_val(s.drop_last()) + coord_val(s.last())
    }
}

/// Well-formedness of an expansion: every component has mantissa magnitude at
/// most `2^62` and exponent at most `ecap`.
pub open spec fn exp_wf(s: Seq<Coord>, ecap: int) -> bool {
    forall|i: int|
        0 <= i < s.len() ==> -COMP_MAG <= (#[trigger] s[i]).m <= COMP_MAG && s[i].e <= ecap
}

/// Well-formedness carries over a concatenation.
pub proof fn lemma_exp_wf_concat(a: Seq<Coord>, b: Seq<Coord>, ec: int)
    requires
        exp_wf(a, ec),
        exp_wf(b, ec),
    ensures
        exp_wf(a + b, ec),
{
    assert forall|i: int| 0 <= i < (a + b).len() implies -COMP_MAG <= (#[trigger] (a + b)[i]).m
        <= COMP_MAG && (a + b)[i].e <= ec by {
        if i < a.len() {
            assert((a + b)[i] == a[i]);
        } else {
            assert((a + b)[i] == b[i - a.len()]);
        }
    }
}

/// Well-formedness is monotone in the exponent cap.
pub proof fn lemma_exp_wf_weaken(s: Seq<Coord>, e1: int, e2: int)
    requires
        exp_wf(s, e1),
        e1 <= e2,
    ensures
        exp_wf(s, e2),
{
}

proof fn lemma_exp_push(s: Seq<Coord>, d: Coord)
    ensures
        exp_val(s.push(d)) == exp_val(s) + coord_val(d),
{
    assert(s.push(d).drop_last() =~= s);
}

/// The value of a concatenation is the sum of the values.
proof fn lemma_exp_concat(a: Seq<Coord>, b: Seq<Coord>)
    ensures
        exp_val(a + b) == exp_val(a) + exp_val(b),
    decreases b.len(),
{
    if b.len() == 0 {
        assert(a + b =~= a);
    } else {
        lemma_exp_concat(a, b.drop_last());
        assert((a + b).drop_last() =~= a + b.drop_last());
        assert((a + b).last() == b.last());
    }
}

/// Appends every component of `src` to `dst`.
pub fn exp_append(dst: &mut Vec<Coord>, src: &Vec<Coord>)
    ensures
        final(dst)@ == old(dst)@ + src@,
        exp_val(final(dst)@) == exp_val(old(dst)@) + exp_val(src@),
{
    let mut i: usize = 0;
    while i < src.len()
        invariant
            i <= src@.len(),
            dst@ == old(dst)@ + src@.take(i as int),
        decreases src@.len() - i,
    {
        dst.push(src[i]);
        proof {
            assert(old(dst)@ + src@.take(i + 1) =~= (old(dst)@ + src@.take(i as int)).push(
                src@[i as int]));
        }
        i = i + 1;
    }
    proof {
        assert(src@.take(src@.len() as int) =~= src@);
        lemma_exp_concat(old(dst)@, src@);
    }
}

/// The negation of an expansion.
pub fn exp_neg(src: &Vec<Coord>, Ghost(ec): Ghost<int>) -> (r: Vec<Coord>)
    requires
        exp_wf(src@, ec),
    ensures
        exp_val(r@) == -exp_val(src@),
        exp_wf(r@, ec),
        r@.len() == src@.len(),
{
    let mut out: Vec<Coord> = Vec::new();
    let mut i: usize = 0;
    while i < src.len()
        invariant
            i <= src@.len(),
            exp_wf(src@, ec),
            exp_wf(out@, ec),
            out@.len() == i,
            exp_val(out@) == -exp_val(src@.take(i as int)),
        decreases src@.len() - i,
    {
        let c = src[i];
        let n = Coord { m: -c.m, e: c.e };
        proof {
            lemma_exp_push(out@, n);
            assert(src@.take(i + 1).drop_last() =~= src@.take(i as int));
            vstd::arithmetic::mul::lemma_mul_unary_negation(c.m as int, pow2(c.e as nat) as int);
        }
        out.push(n);
        i = i + 1;
    }
    proof {
        assert(src@.take(src@.len() as int) =~= src@);
    }
    out
}

/// The two-component expansion `x - y` of two coordinates.
pub fn exp_diff(x: Coord, y: Coord) -> (r: Vec<Coord>)
    requires
        crate::dyadic::coord_wf(x),
        crate::dyadic::coord_wf(y),
    ensures
        exp_val(r@) == coord_val(x) - coord_val(y),
        exp_wf(r@, crate::dyadic::COORD_EXP_MAX as int),
        r@.len() == 2,
{
    let mut out: Vec<Coord> = Vec::new();
    let n = Coord { m: -y.m, e: y.e };
    proof {
        lemma_exp_push(out@, x);
        lemma_exp_push(out@.push(x), n);
        vstd::arithmetic::mul::lemma_mul_unary_negation(y.m as int, pow2(y.e as nat) as int);
    }
    out.push(x);
    out.push(n);
    out
}

/// The one-component expansion holding a single coordinate.
pub fn exp_single(x: Coord) -> (r: Vec<Coord>)
    requires
        crate::dyadic::coord_wf(x),
    ensures
        exp_val(r@) == coord_val(x),
        exp_wf(r@, crate::dyadic::COORD_EXP_MAX as int),
        r@.len() == 1,
{
    let mut out: Vec<Coord> = Vec::new();
    proof {
        lemma_exp_push(out@, x);
    }
    out.push(x);
    out
}

/// Pushes the exact product of two components, split into two components of
/// mantissa magnitude at most `2^62`, onto `out`.
fn comp_mul_push(
    x: Coord,
    y: Coord,
    out: &mut Vec<Coord>,
    Ghost(ecx): Ghost<int>,
    Ghost(ecy): Ghost<int>,
    Ghost(eco): Ghost<int>,
)
    requires
        -COMP_MAG <= x.m <= COMP_MAG,
        -COMP_MAG <= y.m <= COMP_MAG,
        x.e <= ecx,
        y.e <= ecy,
        0 <= ecx,
        0 <= ecy,
        ecx + ecy + 62 <= eco,
        eco < 0x1_0000_0000,
        exp_wf(old(out)@, eco),
    ensures
        exp_val(final(out)@) == exp_val(old(out)@) + coord_val(x) * coord_val(y),
        exp_wf(final(out)@, eco),
        final(out)@.len() == old(out)@.len() + 2,
{
    proof {
        assert(-(COMP_MAG as int) * COMP_MAG <= (x.m as int) * (y.m as int) <= (COMP_MAG as int)
            * COMP_MAG) by (nonlinear_arith)
            requires
                -COMP_MAG <= x.m <= COMP_MAG,
                -COMP_MAG <= y.m <= COMP_MAG,
        ;
    }
    let px: i128 = (x.m as i128) * (y.m as i128);
    let neg: bool = px < 0;
    let ap: u128 = if neg {
        (-px) as u128
    } else {
        px as u128
    };
    let hi64: u64 = (ap / (TERM_MAG as u128)) as u64;
    let lo64: u64 = (ap % (TERM_MAG as u128)) as u64;
    proof {
        lemma_fundamental_div_mod(ap as int, TERM_MAG as int);
    }
    let mh: i64 = if neg {
        -(hi64 as i64)
    } else {
        hi64 as i64
    };
    let ml: i64 = if neg {
        -(lo64 as i64)
    } else {
        lo64 as i64
    };
    let eh: u32 = x.e + y.e + 62;
    let el: u32 = x.e + y.e;
    let h = Coord { m: mh, e: eh };
    let l = Coord { m: ml, e: el };
    proof {
        lemma2_to64_rest();
        let pex = pow2(x.e as nat) as int;
        let pey = pow2(y.e as nat) as int;
        let pp = pow2((x.e + y.e) as nat) as int;
        let p62 = pow2(62) as int;
        lemma_pow2_adds(x.e as nat, y.e as nat);
        lemma_pow2_adds(62, (x.e + y.e) as nat);
        assert((x.m as int) * (y.m as int) == (mh as int) * p62 + ml as int);
        assert(((x.m as int) * pex) * ((y.m as int) * pey) == ((x.m as int) * (y.m as int)) * (pex
            * pey)) by (nonlinear_arith);
        assert(((mh as int) * p62 + ml as int) * pp == (mh as int) * (p62 * pp) + (ml as int) * pp)
            by (nonlinear_arith);
        assert(coord_val(h) + coord_val(l) == coord_val(x) * coord_val(y));
        lemma_exp_push(old(out)@, h);
        lemma_exp_push(old(out)@.push(h), l);
    }
    out.push(h);
    out.push(l);
}

/// The exact product of two expansions: every pairwise component product,
/// each split into two bounded components.
pub fn exp_mul(
    a: &Vec<Coord>,
    b: &Vec<Coord>,
    Ghost(eca): Ghost<int>,
    Ghost(ecb): Ghost<int>,
) -> (r: Vec<Coord>)
    requires
        exp_wf(a@, eca),
        exp_wf(b@, ecb),
        0 <= eca,
        0 <= ecb,
        eca + ecb + 62 < 0x1_0000_0000,
    ensures
        exp_val(r@) == exp_val(a@) * exp_val(b@),
        exp_wf(r@, eca + ecb + 62),
        r@.len() == 2 * a@.len() * b@.len(),
{
    let ghost eco: int = eca + ecb + 62;
    let mut out: Vec<Coord> = Vec::new();
    let mut i: usize = 0;
    while i < a.len()
        invariant
            i <= a@.len(),
            exp_wf(a@, eca),
            exp_wf(b@, ecb),
            0 <= eca,
            0 <= ecb,
            eco == eca + ecb + 62,
            eco < 0x1_0000_0000,
            exp_wf(out@, eco),
            out@.len() == 2 * i * b@.len(),
            exp_val(out@) == exp_val(a@.take(i as int)) * exp_val(b@),
        decreases a@.len() - i,
    {
        let x = a[i];
        let mut j: usize = 0;
        while j < b.len()
            invariant
                i < a@.len(),
                j <= b@.len(),
                x == a@[i as int],
                exp_wf(a@, eca),
                exp_wf(b@, ecb),
                0 <= eca,
                0 <= ecb,
                eco == eca + ecb + 62,
                eco < 0x1_0000_0000,
                exp_wf(out@, eco),
                out@.len() == 2 * i * b@.len() + 2 * j,
                exp_val(out@) == exp_val(a@.take(i as int)) * exp_val(b@) + coord_val(x) * exp_val(
                    b@.take(j as int)),
            decreases b@.len() - j,
        {
            let y = b[j];
            comp_mul_push(x, y, &mut out, Ghost(eca), Ghost(ecb), Ghost(eco));
            proof {
                assert(b@.take(j + 1).drop_last() =~= b@.take(j as int));
                lemma_mul_is_distributive_add(coord_val(x), exp_val(b@.take(j as int)), coord_val(
                    b@[j as int]));
            }
            j = j + 1;
        }
        proof {
            assert(b@.take(b@.len() as int) =~= b@);
            assert(a@.take(i + 1).drop_last() =~= a@.take(i as int));
            assert(2 * (i + 1) * b@.len() == 2 * i * b@.len() + 2 * b@.len()) by (nonlinear_arith);
            // (sum_a + x) * val_b == sum_a * val_b + x * val_b
            lemma_mul_is_commutative(exp_val(a@.take(i + 1)), exp_val(b@));
            lemma_mul_is_distributive_add(exp_val(b@), exp_val(a@.take(i as int)), coord_val(x));
            lemma_mul_is_commutative(exp_val(b@), exp_val(a@.take(i as int)));
            lemma_mul_is_commutative(exp_val(b@), coord_val(x));
        }
        i = i + 1;
    }
    proof {
        assert(a@.take(a@.len() as int) =~= a@);
    }
    out
}

/// One dyadic term's magnitude is at most `2^62 * 2^e`.
proof fn lemma_term_bound(c: Coord, ec: int)
    requires
        -COMP_MAG <= c.m <= COMP_MAG,
        c.e <= ec,
        ec <= ACC_EXP_MAX,
    ensures
        0 <= abs_m(c) * pow2(c.e as nat) <= (TERM_MAG as int) * pow2(ACC_EXP_MAX as nat),
{
    lemma_pow2_pos(c.e as nat);
    lemma_pow2_pos(ACC_EXP_MAX as nat);
    lemma_mul_nonnegative(abs_m(c), pow2(c.e as nat) as int);
    if c.e < ACC_EXP_MAX {
        lemma_pow2_strictly_increases(c.e as nat, ACC_EXP_MAX as nat);
    }
    lemma_mul_inequality(abs_m(c), TERM_MAG as int, pow2(c.e as nat) as int);
    lemma_mul_inequality(pow2(c.e as nat) as int, pow2(ACC_EXP_MAX as nat) as int, TERM_MAG as int);
    lemma_mul_is_commutative(pow2(c.e as nat) as int, TERM_MAG as int);
    lemma_mul_is_commutative(pow2(ACC_EXP_MAX as nat) as int, TERM_MAG as int);
}

/// The absolute mantissa of a component, in the mathematical integers.
pub open spec fn abs_m(c: Coord) -> int {
    if c.m >= 0 {
        c.m as int
    } else {
        -(c.m as int)
    }
}

/// The capacity of the accumulator covers every expansion within the length
/// and exponent caps.
proof fn lemma_capacity()
    ensures
        (EXP_LEN_MAX as int) * ((TERM_MAG as int) * pow2(ACC_EXP_MAX as nat)) < pow2(
            (64 * LIMBS) as nat),
{
    lemma2_to64();
    lemma2_to64_rest();
    assert(EXP_LEN_MAX == pow2(16)) by {
        lemma2_to64();
    }
    lemma_pow2_adds(16, 62);
    lemma_pow2_adds(78, ACC_EXP_MAX as nat);
    lemma_pow2_strictly_increases((78 + ACC_EXP_MAX) as nat, (64 * LIMBS) as nat);
    vstd::arithmetic::mul::lemma_mul_is_associative(
        pow2(16) as int,
        pow2(62) as int,
        pow2(ACC_EXP_MAX as nat) as int,
    );
}

/// The exact sign of an expansion's value: `1`, `0`, or `-1`.
pub fn exp_sign(v: &Vec<Coord>) -> (r: i16)
    requires
        exp_wf(v@, ACC_EXP_MAX as int),
        v@.len() <= EXP_LEN_MAX,
    ensures
        r as int == sign_i(exp_val(v@)),
{
    let ghost k: int = (TERM_MAG as int) * pow2(ACC_EXP_MAX as nat);
    let mut pos = acc_new();
    let mut negv = acc_new();
    let mut i: usize = 0;
    proof {
        lemma_capacity();
        lemma_pow2_pos(ACC_EXP_MAX as nat);
    }
    while i < v.len()
        invariant
            i <= v@.len() <= EXP_LEN_MAX,
            exp_wf(v@, ACC_EXP_MAX as int),
            pos@.len() == LIMBS,
            negv@.len() == LIMBS,
            k == (TERM_MAG as int) * pow2(ACC_EXP_MAX as nat),
            0 < k,
            (EXP_LEN_MAX as int) * k < pow2((64 * LIMBS) as nat),
            limbs_val(pos@) as int + limbs_val(negv@) as int <= i * k,
            limbs_val(pos@) as int - limbs_val(negv@) as int == exp_val(v@.take(i as int)),
        decreases v@.len() - i,
    {
        let c = v[i];
        let mag: u64 = if c.m >= 0 {
            c.m as u64
        } else {
            (-c.m) as u64
        };
        proof {
            lemma_term_bound(c, ACC_EXP_MAX as int);
            assert((i + 1) * k <= (EXP_LEN_MAX as int) * k) by {
                lemma_mul_inequality(i + 1, EXP_LEN_MAX as int, k);
            }
            assert(i * k + k == (i + 1) * k) by {
                lemma_mul_is_distributive_add(k, i as int, 1);
                lemma_mul_is_commutative(k, i as int);
                lemma_mul_is_commutative(k, i + 1);
            }
            assert(v@.take(i + 1).drop_last() =~= v@.take(i as int));
        }
        if c.m >= 0 {
            acc_add_term(&mut pos, mag, c.e);
        } else {
            acc_add_term(&mut negv, mag, c.e);
            proof {
                vstd::arithmetic::mul::lemma_mul_unary_negation(c.m as int, pow2(c.e as nat) as int);
            }
        }
        i = i + 1;
    }
    proof {
        assert(v@.take(v@.len() as int) =~= v@);
    }
    acc_cmp(&pos, &negv)
}

} // verus!
