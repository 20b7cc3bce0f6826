//! Exact determinant evaluation over expansions.
//!
//! Each function builds, by cofactor expansion along the last column, an
//! expansion whose value equals the corresponding specification determinant
//! applied to the values of the entry expansions.

use vstd::prelude::*;

verus! {

use crate::dyadic::Coord;
use crate::expansion::{
    exp_val,
    exp_wf,
    exp_mul,
    exp_neg,
    exp_append,
    lemma_exp_wf_concat,
    lemma_exp_wf_weaken,
};
use crate::detspec::{det2, det3, det4};

/// The expansion of `det [[a, b], [c, d]]` for two-component entries.
pub fn det2_exp(
    a: &Vec<Coord>,
    b: &Vec<Coord>,
    c: &Vec<Coord>,
    d: &Vec<Coord>,
    Ghost(ec): Ghost<int>,
) -> (r: Vec<Coord>)
    requires
        exp_wf(a@, ec),
        exp_wf(b@, ec),
        exp_wf(c@, ec),
        exp_wf(d@, ec),
        a@.len() == 2 && b@.len() == 2 && c@.len() == 2 && d@.len() == 2,
        0 <= ec,
        2 * ec + 62 < 0x1_0000_0000,
    ensures
        exp_val(r@) == det2(exp_val(a@), exp_val(b@), exp_val(c@), exp_val(d@)),
        exp_wf(r@, 2 * ec + 62),
        r@.len() == 16,
{
    let t1 = exp_mul(a, d, Ghost(ec), Ghost(ec));
    let t2 = exp_mul(b, c, Ghost(ec), Ghost(ec));
    let n2 = exp_neg(&t2, Ghost(2 * ec + 62));
    let mut out = t1;
    let ghost t1s = out@;
    exp_append(&mut out, &n2);
    proof {
        lemma_exp_wf_concat(t1s, n2@, 2 * ec + 62);
    }
    out
}

/// The expansion of a `3x3` determinant.  The first two columns hold
/// two-component entries bounded by `ecc`; the third column's entries are
/// bounded by `ech` with at most `lh` components each.
pub fn det3_exp(
    r11: &Vec<Coord>,
    r12: &Vec<Coord>,
    r13: &Vec<Coord>,
    r21: &Vec<Coord>,
    r22: &Vec<Coord>,
    r23: &Vec<Coord>,
    r31: &Vec<Coord>,
    r32: &Vec<Coord>,
    r33: &Vec<Coord>,
    Ghost(ecc): Ghost<int>,
    Ghost(ech): Ghost<int>,
    Ghost(lh): Ghost<int>,
) -> (r: Vec<Coord>)
    requires
        exp_wf(r11@, ecc),
        exp_wf(r12@, ecc),
        exp_wf(r21@, ecc),
        exp_wf(r22@, ecc),
        exp_wf(r31@, ecc),
        exp_wf(r32@, ecc),
        exp_wf(r13@, ech),
        exp_wf(r23@, ech),
        exp_wf(r33@, ech),
        r11@.len() == 2 && r12@.len() == 2 && r21@.len() == 2 && r22@.len() == 2 && r31@.len() == 2
            && r32@.len() == 2,
        r13@.len() <= lh && r23@.len() <= lh && r33@.len() <= lh,
        0 <= ecc,
        0 <= ech,
        2 * ecc + ech + 124 < 0x1_0000_0000,
    ensures
        exp_val(r@) == det3(
            exp_val(r11@),
            exp_val(r12@),
            exp_val(r13@),
            exp_val(r21@),
            exp_val(r22@),
            exp_val(r23@),
            exp_val(r31@),
            exp_val(r32@),
            exp_val(r33@),
        ),
        exp_wf(r@, 2 * ecc + ech + 124),
        r@.len() <= 96 * lh,
{
    let ghost eo: int = 2 * ecc + ech + 124;
    let m1 = det2_exp(r21, r22, r31, r32, Ghost(ecc));
    let m2 = det2_exp(r11, r12, r31, r32, Ghost(ecc));
    let m3 = det2_exp(r11, r12, r21, r22, Ghost(ecc));
    let t1 = exp_mul(r13, &m1, Ghost(ech), Ghost(2 * ecc + 62));
    let t2 = exp_mul(r23, &m2, Ghost(ech), Ghost(2 * ecc + 62));
    let t3 = exp_mul(r33, &m3, Ghost(ech), Ghost(2 * ecc + 62));
    let n2 = exp_neg(&t2, Ghost(eo));
    let mut out = t1;
    let ghost s1 = out@;
    exp_append(&mut out, &n2);
    let ghost s2 = out@;
    exp_append(&mut out, &t3);
    proof {
        lemma_exp_wf_concat(s1, n2@, eo);
        lemma_exp_wf_concat(s2, t3@, eo);
    }
    out
}

/// The expansion of a `4x4` determinant.  The first three columns hold
/// two-component entries bounded by `ecc`; the fourth column's entries are
/// bounded by `ech` with at most `lh` components each.
pub fn det4_exp(
    r11: &Vec<Coord>,
    r12: &Vec<Coord>,
    r13: &Vec<Coord>,
    r14: &Vec<Coord>,
    r21: &Vec<Coord>,
    r22: &Vec<Coord>,
    r23: &Vec<Coord>,
    r24: &Vec<Coord>,
    r31: &Vec<Coord>,
    r32: &Vec<Coord>,
    r33: &Vec<Coord>,
    r34: &Vec<Coord>,
    r41: &Vec<Coord>,
    r42: &Vec<Coord>,
    r43: &Vec<Coord>,
    r44: &Vec<Coord>,
    Ghost(ecc): Ghost<int>,
    Ghost(ech): Ghost<int>,
    Ghost(lh): Ghost<int>,
) -> (r: Vec<Coord>)
    requires
        exp_wf(r11@, ecc) && exp_wf(r12@, ecc) && exp_wf(r13@, ecc),
        exp_wf(r21@, ecc) && exp_wf(r22@, ecc) && exp_wf(r23@, ecc),
        exp_wf(r31@, ecc) && exp_wf(r32@, ecc) && exp_wf(r33@, ecc),
        exp_wf(r41@, ecc) && exp_wf(r42@, ecc) && exp_wf(r43@, ecc),
        exp_wf(r14@, ech) && exp_wf(r24@, ech) && exp_wf(r34@, ech) && exp_wf(r44@, ech),
        r11@.len() == 2 && r12@.len() == 2 && r13@.len() == 2,
        r21@.len() == 2 && r22@.len() == 2 && r23@.len() == 2,
        r31@.len() == 2 && r32@.len() == 2 && r33@.len() == 2,
        r41@.len() == 2 && r42@.len() == 2 && r43@.len() == 2,
        r14@.len() <= lh && r24@.len() <= lh && r34@.len() <= lh && r44@.len() <= lh,
        0 <= ecc,
        0 <= ech,
        3 * ecc + ech + 186 < 0x1_0000_0000,
    ensures
        exp_val(r@) == det4(
            exp_val(r11@),
            exp_val(r12@),
            exp_val(r13@),
            exp_val(r14@),
            exp_val(r21@),
            exp_val(r22@),
            exp_val(r23@),
            exp_val(r24@),
            exp_val(r31@),
            exp_val(r32@),
            exp_val(r33@),
            exp_val(r34@),
            exp_val(r41@),
            exp_val(r42@),
            exp_val(r43@),
            exp_val(r44@),
        ),
        exp_wf(r@, 3 * ecc + ech + 186),
        r@.len() <= 1536 * lh,
{
    let ghost eo: int = 3 * ecc + ech + 186;
    let m1 = det3_exp(r21, r22, r23, r31, r32, r33, r41, r42, r43, Ghost(ecc), Ghost(ecc), Ghost(2));
    let m2 = det3_exp(r11, r12, r13, r31, r32, r33, r41, r42, r43, Ghost(ecc), Ghost(ecc), Ghost(2));
    let m3 = det3_exp(r11, r12, r13, r21, r22, r23, r41, r42, r43, Ghost(ecc), Ghost(ecc), Ghost(2));
    let m4 = det3_exp(r11, r12, r13, r21, r22, r23, r31, r32, r33, Ghost(ecc), Ghost(ecc), Ghost(2));
    let t1 = exp_mul(r14, &m1, Ghost(ech), Ghost(3 * ecc + 124));
    let t2 = exp_mul(r24, &m2, Ghost(ech), Ghost(3 * ecc + 124));
    let t3 = exp_mul(r34, &m3, Ghost(ech), Ghost(3 * ecc + 124));
    let t4 = exp_mul(r44, &m4, Ghost(ech), Ghost(3 * ecc + 124));
    let n1 = exp_neg(&t1, Ghost(eo));
    let n3 = exp_neg(&t3, Ghost(eo));
    let mut out = n1;
    let ghost s1 = out@;
    exp_append(&mut out, &t2);
    let ghost s2 = out@;
    exp_append(&mut out, &n3);
    let ghost s3 = out@;
    exp_append(&mut out, &t4);
    proof {
        lemma_exp_wf_weaken(t2@, ech + (3 * ecc + 124) + 62, eo);
        lemma_exp_wf_weaken(t4@, ech + (3 * ecc + 124) + 62, eo);
        lemma_exp_wf_concat(s1, t2@, eo);
        lemma_exp_wf_concat(s2, n3@, eo);
        lemma_exp_wf_concat(s3, t4@, eo);
        assert(t1@.len() <= 384 * lh) by (nonlinear_arith)
            requires
                t1@.len() == 2 * r14@.len() * m1@.len(),
                r14@.len() <= lh,
                m1@.len() <= 192,
        ;
        assert(t2@.len() <= 384 * lh) by (nonlinear_arith)
            requires
                t2@.len() == 2 * r24@.len() * m2@.len(),
                r24@.len() <= lh,
                m2@.len() <= 192,
        ;
        assert(t3@.len() <= 384 * lh) by (nonlinear_arith)
            requires
                t3@.len() == 2 * r34@.len() * m3@.len(),
                r34@.len() <= lh,
                m3@.len() <= 192,
        ;
        assert(t4@.len() <= 384 * lh) by (nonlinear_arith)
            requires
                t4@.len() == 2 * r44@.len() * m4@.len(),
                r44@.len() <= lh,
                m4@.len() <= 192,
        ;
    }
    out
}

} // verus!
