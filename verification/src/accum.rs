//! Fixed-width limb accumulator: the exact-summation back end of the
//! arithmetic kernel.
//!
//! A value is held as `LIMBS` little-endian base-`2^64` limbs.  Two such
//! magnitude accumulators (positive terms, negative terms) suffice to decide
//! the sign of any sum of dyadic terms whose exponents stay below
//! [`ACC_EXP_MAX`].

use vstd::prelude::*;

verus! {

use vstd::arithmetic::power2::{pow2, lemma_pow2_adds, lemma_pow2_pos, lemma2_to64};
use vstd::arithmetic::mul::{
    lemma_mul_is_distributive_add,
    lemma_mul_is_distributive_sub,
    lemma_mul_is_associative,
    lemma_mul_is_commutative,
    lemma_mul_inequality,
};
use vstd::arithmetic::div_mod::lemma_fundamental_div_mod;
use vstd::pervasive::VecAdditionalExecFns;

/// Number of limbs in an accumulator.
pub const LIMBS: usize = 380;

/// Largest dyadic exponent a term fed to the accumulator may carry.
pub const ACC_EXP_MAX: u32 = 24000;

/// Largest mantissa magnitude a term fed to the accumulator may carry: `2^62`.
pub const TERM_MAG: u64 = 0x4000_0000_0000_0000;

/// `2^64`, as a `u128` divisor.
pub const TWO64: u128 = 0x1_0000_0000_0000_0000;

/// The value of a little-endian sequence of base-`2^64` limbs.
pub open spec fn limbs_val(s: Seq<u64>) -> nat
    decreases s.len(),
{
    if s.len() == 0 {
        0
    } else {
        s[0] as nat + pow2(64) * limbs_val(s.subrange(1, s.len() as int))
    }
}

/// Replacing limb `i` by `v` changes the value by `(v - s[i]) * 2^(64*i)`.
proof fn lemma_limbs_update(s: Seq<u64>, i: int, v: u64)
    requires
        0 <= i < s.len(),
    ensures
        limbs_val(s.update(i, v)) as int == limbs_val(s) as int + (v as int - s[i] as int) * (
        pow2((64 * i) as nat) as int),
    decreases i,
{
    let t = s.update(i, v);
    let srest = s.subrange(1, s.len() as int);
    let trest = t.subrange(1, t.len() as int);
    if i == 0 {
        assert(trest =~= srest);
        lemma2_to64();
        assert((v as int - s[0] as int) * 1 == v as int - s[0] as int);
    } else {
        assert(trest =~= srest.update(i - 1, v));
        lemma_limbs_update(srest, i - 1, v);
        let d = v as int - s[i] as int;
        let p = pow2((64 * (i - 1)) as nat) as int;
        lemma_pow2_adds(64, (64 * (i - 1)) as nat);
        assert(64 * i == 64 + 64 * (i - 1));
        // pow2(64*i) == pow2(64) * p
        assert(limbs_val(t) as int == s[0] as int + pow2(64) * (limbs_val(srest) as int + d * p));
        lemma_mul_is_distributive_add(pow2(64) as int, limbs_val(srest) as int, d * p);
        lemma_mul_is_associative(pow2(64) as int, d, p);
        lemma_mul_is_commutative(pow2(64) as int, d);
        lemma_mul_is_associative(d, pow2(64) as int, p);
    }
}

/// The value of `len` limbs is below `2^(64*len)`.
proof fn lemma_limbs_bound(s: Seq<u64>)
    ensures
        limbs_val(s) < pow2((64 * s.len()) as nat),
    decreases s.len(),
{
    if s.len() == 0 {
        lemma2_to64();
    } else {
        let srest = s.subrange(1, s.len() as int);
        lemma_limbs_bound(srest);
        lemma_pow2_adds(64, (64 * (s.len() - 1)) as nat);
        assert(64 * s.len() == 64 + 64 * (s.len() - 1));
        let p = pow2((64 * (s.len() - 1)) as nat) as int;
        // limbs_val(srest) <= p - 1
        lemma_mul_inequality(limbs_val(srest) as int, p - 1, pow2(64) as int);
        lemma_mul_is_distributive_sub(pow2(64) as int, p, 1);
        lemma2_to64();
    }
}

/// Prefix of length `i+1` adds limb `i` at weight `2^(64*i)`.
proof fn lemma_limbs_take_succ(s: Seq<u64>, i: int)
    requires
        0 <= i < s.len(),
    ensures
        limbs_val(s.take(i + 1)) == limbs_val(s.take(i)) + (s[i] as nat) * pow2((64 * i) as nat),
    decreases i,
{
    let a = s.take(i + 1);
    let b = s.take(i);
    if i == 0 {
        assert(a =~= seq![s[0]]);
        assert(a.subrange(1, 1) =~= Seq::<u64>::empty());
        assert(b =~= Seq::<u64>::empty());
        lemma2_to64();
        assert(limbs_val(a) == s[0] as nat + pow2(64) * limbs_val(Seq::<u64>::empty()));
        vstd::arithmetic::mul::lemma_mul_basics(pow2(64) as int);
        vstd::arithmetic::mul::lemma_mul_basics(s[0] as int);
    } else {
        let srest = s.subrange(1, s.len() as int);
        assert(a.subrange(1, a.len() as int) =~= srest.take(i));
        assert(b.subrange(1, b.len() as int) =~= srest.take(i - 1));
        lemma_limbs_take_succ(srest, i - 1);
        assert(a[0] == s[0] && b[0] == s[0]);
        assert(srest[i - 1] == s[i]);
        let x0 = limbs_val(srest.take(i - 1)) as int;
        let wi = s[i] as int;
        let p1 = pow2((64 * (i - 1)) as nat) as int;
        let p64 = pow2(64) as int;
        assert(limbs_val(srest.take(i)) as int == x0 + wi * p1);
        assert(limbs_val(a) as int == s[0] as int + p64 * (x0 + wi * p1));
        assert(limbs_val(b) as int == s[0] as int + p64 * x0);
        lemma_pow2_adds(64, (64 * (i - 1)) as nat);
        assert(64 * i == 64 + 64 * (i - 1));
        assert(pow2((64 * i) as nat) as int == p64 * p1);
        assert(p64 * (x0 + wi * p1) == p64 * x0 + wi * (p64 * p1)) by {
            lemma_mul_is_distributive_add(p64, x0, wi * p1);
            lemma_mul_is_associative(p64, wi, p1);
            lemma_mul_is_commutative(p64, wi);
            lemma_mul_is_associative(wi, p64, p1);
        }
        assert(limbs_val(a) as int == limbs_val(b) as int + wi * (p64 * p1));
    }
}

/// A fresh accumulator: `LIMBS` zero limbs, value zero.
pub fn acc_new() -> (r: Vec<u64>)
    ensures
        r@.len() == LIMBS,
        limbs_val(r@) == 0,
{
    let mut v: Vec<u64> = Vec::new();
    let mut i: usize = 0;
    while i < LIMBS
        invariant
            i <= LIMBS,
            v@.len() == i,
            limbs_val(v@) == 0,
        decreases LIMBS - i,
    {
        let ghost oldv = v@;
        v.push(0u64);
        proof {
            lemma_limbs_zero_push(oldv);
        }
        i = i + 1;
    }
    v
}

/// Appending a zero limb keeps the value.
proof fn lemma_limbs_zero_push(s: Seq<u64>)
    ensures
        limbs_val(s.push(0u64)) == limbs_val(s),
    decreases s.len(),
{
    let t = s.push(0u64);
    if s.len() == 0 {
        assert(t.subrange(1, t.len() as int) =~= Seq::<u64>::empty());
        assert(limbs_val(t) == t[0] as nat + pow2(64) * limbs_val(Seq::<u64>::empty()));
        vstd::arithmetic::mul::lemma_mul_basics(pow2(64) as int);
        assert(t[0] == 0u64);
    } else {
        assert(t.subrange(1, t.len() as int) =~= s.subrange(1, s.len() as int).push(0u64));
        lemma_limbs_zero_push(s.subrange(1, s.len() as int));
        assert(t[0] == s[0]);
    }
}

/// Adds `x * 2^(64*idx)` into the accumulator, propagating carries.
fn acc_add_at(acc: &mut Vec<u64>, idx: usize, x: u64)
    requires
        old(acc)@.len() == LIMBS,
        idx < LIMBS,
        limbs_val(old(acc)@) + (x as nat) * pow2((64 * idx) as nat) < pow2((64 * LIMBS) as nat),
    ensures
        final(acc)@.len() == LIMBS,
        limbs_val(final(acc)@) == limbs_val(old(acc)@) + (x as nat) * pow2((64 * idx) as nat),
{
    let ghost target: nat = limbs_val(old(acc)@) + (x as nat) * pow2((64 * idx) as nat);
    let mut carry: u64 = x;
    let mut i: usize = idx;
    while carry != 0
        invariant
            acc@.len() == LIMBS,
            idx <= i <= LIMBS,
            limbs_val(acc@) + (carry as nat) * pow2((64 * i) as nat) == target,
            target < pow2((64 * LIMBS) as nat),
        decreases LIMBS - i,
    {
        proof {
            // If every limb were consumed a nonzero carry would exceed the bound.
            if i == LIMBS {
                lemma_mul_inequality(1, carry as int, pow2((64 * LIMBS) as nat) as int);
            }
        }
        assert(i < LIMBS);
        let limb = acc[i];
        let s: u128 = limb as u128 + carry as u128;
        let lo: u64 = (s % TWO64) as u64;
        let hi: u64 = (s / TWO64) as u64;
        let ghost oldacc = acc@;
        acc.set(i, lo);
        proof {
            lemma2_to64();
            lemma_fundamental_div_mod(s as int, TWO64 as int);
            lemma_limbs_update(oldacc, i as int, lo);
            lemma_pow2_adds((64 * i) as nat, 64);
            assert(64 * (i + 1) == 64 * i + 64);
            let p = pow2((64 * i) as nat) as int;
            let c = carry as int;
            let l = limb as int;
            // s == lo + 2^64 * hi;  new value change: (lo - l) * p;
            // remaining carry weight: hi * (p * 2^64)
            assert((lo as int - l) * p + (hi as int) * (p * pow2(64) as int) == c * p) by {
                lemma_mul_is_associative(hi as int, p, pow2(64) as int);
                lemma_mul_is_commutative(p, pow2(64) as int);
                lemma_mul_is_associative(hi as int, pow2(64) as int, p);
                lemma_mul_is_distributive_add(p, lo as int - l, (hi as int) * (pow2(64) as int));
                assert(lo as int - l + (hi as int) * (pow2(64) as int) == c);
                lemma_mul_is_commutative(p, c);
                lemma_mul_is_commutative(p, lo as int - l);
            }
            lemma_mul_is_commutative(pow2((64 * (i + 1)) as nat) as int, hi as int);
        }
        carry = hi;
        i = i + 1;
    }
}

/// Adds the dyadic term `mag * 2^e` into the accumulator.
pub fn acc_add_term(acc: &mut Vec<u64>, mag: u64, e: u32)
    requires
        old(acc)@.len() == LIMBS,
        mag <= TERM_MAG,
        e <= ACC_EXP_MAX,
        limbs_val(old(acc)@) + (mag as nat) * pow2(e as nat) < pow2((64 * LIMBS) as nat),
    ensures
        final(acc)@.len() == LIMBS,
        limbs_val(final(acc)@) == limbs_val(old(acc)@) + (mag as nat) * pow2(e as nat),
{
    let q: usize = (e / 64) as usize;
    let r: u32 = e % 64;
    let pr = pow2_u64(r);
    proof {
        lemma2_to64();
        vstd::arithmetic::power2::lemma2_to64_rest();
        if r < 63 {
            vstd::arithmetic::power2::lemma_pow2_strictly_increases(r as nat, 63);
        }
        // w == mag * 2^r, bounded by 2^62 * 2^63
        lemma_mul_inequality(mag as int, TERM_MAG as int, pr as int);
        lemma_mul_inequality(pr as int, pow2(63) as int, TERM_MAG as int);
        lemma_mul_is_commutative(pr as int, TERM_MAG as int);
    }
    let w: u128 = (mag as u128) * (pr as u128);
    let lo: u64 = (w % TWO64) as u64;
    let hi: u64 = (w / TWO64) as u64;
    proof {
        lemma_fundamental_div_mod(w as int, TWO64 as int);
        lemma_fundamental_div_mod(e as int, 64);
        // e == 64*q + r, so mag * 2^e == w * 2^(64*q)
        lemma_pow2_adds((64 * q) as nat, r as nat);
        lemma_mul_is_associative(mag as int, pow2((64 * q) as nat) as int, pow2(r as nat) as int);
        lemma_mul_is_commutative(pow2((64 * q) as nat) as int, pow2(r as nat) as int);
        lemma_mul_is_associative(mag as int, pow2(r as nat) as int, pow2((64 * q) as nat) as int);
        // w * 2^(64*q) == lo * 2^(64*q) + hi * 2^(64*(q+1))
        lemma_pow2_adds((64 * q) as nat, 64);
        assert(64 * (q + 1) == 64 * q + 64);
        let p = pow2((64 * q) as nat) as int;
        assert((w as int) * p == (lo as int) * p + (hi as int) * ((pow2(64) as int) * p)) by {
            lemma_mul_is_distributive_add(p, lo as int, (hi as int) * (pow2(64) as int));
            lemma_mul_is_associative(hi as int, pow2(64) as int, p);
            lemma_mul_is_commutative(p, lo as int);
            lemma_mul_is_commutative(p, (hi as int) * (pow2(64) as int));
            lemma_mul_is_commutative(p, w as int);
        }
        lemma_mul_is_commutative(pow2((64 * q) as nat) as int, pow2(64) as int);
        lemma_mul_is_commutative(pow2((64 * (q + 1)) as nat) as int, hi as int);
        lemma_mul_is_commutative(pow2((64 * q) as nat) as int, hi as int);
        // positivity for the intermediate requires of acc_add_at
        lemma_pow2_pos((64 * (q + 1)) as nat);
        vstd::arithmetic::mul::lemma_mul_nonnegative(hi as int, pow2((64 * (q + 1)) as nat) as int);
        vstd::arithmetic::mul::lemma_mul_nonnegative(lo as int, p);
    }
    acc_add_at(acc, q, lo);
    acc_add_at(acc, q + 1, hi);
}

/// `2^k` as a machine word, for `k <= 63`.
pub fn pow2_u64(k: u32) -> (r: u64)
    requires
        k <= 63,
    ensures
        r as nat == pow2(k as nat),
{
    let mut i: u32 = 0;
    let mut p: u64 = 1;
    proof {
        lemma2_to64();
    }
    while i < k
        invariant
            i <= k <= 63,
            p as nat == pow2(i as nat),
        decreases k - i,
    {
        proof {
            lemma_pow2_adds(i as nat, 1);
            lemma2_to64();
            vstd::arithmetic::power2::lemma2_to64_rest();
            vstd::arithmetic::power2::lemma_pow2_strictly_increases(i as nat, 63);
        }
        p = p * 2;
        i = i + 1;
    }
    p
}

/// Compares the values of two equally sized accumulators:
/// `1`, `0`, or `-1` as the first is greater, equal, or less.
pub fn acc_cmp(p: &Vec<u64>, n: &Vec<u64>) -> (r: i16)
    requires
        p@.len() == LIMBS,
        n@.len() == LIMBS,
    ensures
        r as int == crate::sign_i(limbs_val(p@) as int - limbs_val(n@) as int),
{
    let mut i: usize = LIMBS;
    proof {
        assert(p@.take(LIMBS as int) =~= p@);
        assert(n@.take(LIMBS as int) =~= n@);
    }
    while i > 0
        invariant
            i <= LIMBS,
            p@.len() == LIMBS,
            n@.len() == LIMBS,
            limbs_val(p@) as int - limbs_val(n@) as int == limbs_val(p@.take(i as int)) as int
                - limbs_val(n@.take(i as int)) as int,
        decreases i,
    {
        let j = i - 1;
        let a = p[j];
        let b = n[j];
        proof {
            lemma_limbs_take_succ(p@, j as int);
            lemma_limbs_take_succ(n@, j as int);
            lemma_limbs_bound(p@.take(j as int));
            lemma_limbs_bound(n@.take(j as int));
            assert(p@.take(j as int).len() == j && n@.take(j as int).len() == j);
            let w = pow2((64 * j) as nat) as int;
            lemma_pow2_pos((64 * j) as nat);
            if a != b {
                // the limb difference outweighs every lower limb
                if a > b {
                    lemma_mul_inequality(b as int + 1, a as int, w);
                    lemma_mul_is_distributive_add(w, b as int, 1);
                    lemma_mul_is_commutative(w, b as int + 1);
                    lemma_mul_is_commutative(w, b as int);
                } else {
                    lemma_mul_inequality(a as int + 1, b as int, w);
                    lemma_mul_is_distributive_add(w, a as int, 1);
                    lemma_mul_is_commutative(w, a as int + 1);
                    lemma_mul_is_commutative(w, a as int);
                }
            }
        }
        if a > b {
            return 1;
        }
        if a < b {
            return -1;
        }
        i = j;
    }
    proof {
        assert(p@.take(0) =~= Seq::<u64>::empty());
        assert(n@.take(0) =~= Seq::<u64>::empty());
    }
    0
}

} // verus!
