//! Exact integer forms of the triangle trigonometry.
//!
//! The triangle marker places its vertices at the angles -90, -210 and
//! -330 degrees on a circle of integer radius `s`, with ceiling rounding.
//! The cosines and sines of those angles are 0, -1, -(sqrt(3)/2) and 1/2,
//! so the only irrational quantity that ever has to be rounded is
//! `s * sqrt(3) / 2`. Its floor and ceiling are characterized purely over
//! the integers by squaring, and computed with an integer square root.

use vstd::prelude::*;

verus! {

/// `k` is the floor of `s * sqrt(3) / 2`: squaring both sides of
/// `2k <= s * sqrt(3) < 2(k + 1)` gives this integer characterization.
pub open spec fn is_sqrt3_half_floor(s: nat, k: nat) -> bool {
    4 * (k * k) <= 3 * (s * s) && 3 * (s * s) < 4 * ((k + 1) * (k + 1))
}

/// The floor of `s * sqrt(3) / 2`.
pub open spec fn sqrt3_half_floor(s: nat) -> nat {
    choose|k: nat| is_sqrt3_half_floor(s, k)
}

/// The ceiling of `s * sqrt(3) / 2`: the floor, plus one unless
/// `s * sqrt(3) / 2` is itself an integer, which squaring detects as
/// `4k^2 == 3s^2` (that happens only at `s == 0`).
pub open spec fn sqrt3_half_ceil(s: nat) -> nat {
    let f: nat = sqrt3_half_floor(s);
    if 4 * (f * f) == 3 * (s * s) {
        f
    } else {
        f + 1
    }
}

/// The ceiling of `s / 2`.
pub open spec fn half_ceil(s: nat) -> nat {
    (s + 1) / 2
}

proof fn lemma_square_le(a: nat, b: nat)
    by (nonlinear_arith)
    requires
        a <= b,
    ensures
        a * a <= b * b,
{
}

proof fn lemma_floor_exists_from(s: nat, k: nat)
    requires
        4 * (k * k) <= 3 * (s * s),
    ensures
        exists|j: nat| is_sqrt3_half_floor(s, j),
    decreases 3 * (s * s) - 4 * (k * k),
{
    if 3 * (s * s) < 4 * ((k + 1) * (k + 1)) {
        assert(is_sqrt3_half_floor(s, k));
    } else {
        assert(k * k < (k + 1) * (k + 1)) by (nonlinear_arith);
        lemma_floor_exists_from(s, k + 1);
    }
}

/// The chosen value really is the floor of `s * sqrt(3) / 2`.
pub proof fn lemma_sqrt3_half_floor_is(s: nat)
    ensures
        is_sqrt3_half_floor(s, sqrt3_half_floor(s)),
{
    lemma_floor_exists_from(s, 0);
    assert(is_sqrt3_half_floor(s, sqrt3_half_floor(s)));
}

/// Only one integer satisfies the floor characterization.
pub proof fn lemma_sqrt3_half_floor_unique(s: nat, k: nat)
    requires
        is_sqrt3_half_floor(s, k),
    ensures
        k == sqrt3_half_floor(s),
{
    lemma_sqrt3_half_floor_is(s);
    let j: nat = sqrt3_half_floor(s);
    if k < j {
        lemma_square_le(k + 1, j);
        assert(false);
    }
    if j < k {
        lemma_square_le(j + 1, k);
        assert(false);
    }
}

/// The ceiling is the least integer `c` with `2c >= s * sqrt(3)`, i.e.
/// with `4c^2 >= 3s^2`.
pub proof fn lemma_sqrt3_half_ceil_is(s: nat)
    ensures
        4 * (sqrt3_half_ceil(s) * sqrt3_half_ceil(s)) >= 3 * (s * s),
        sqrt3_half_ceil(s) > 0 ==> 4 * (((sqrt3_half_ceil(s) - 1) * (sqrt3_half_ceil(s) - 1)))
            < 3 * (s * s),
{
    lemma_sqrt3_half_floor_is(s);
    let f: nat = sqrt3_half_floor(s);
    if 4 * (f * f) == 3 * (s * s) {
        if f > 0 {
            assert((f - 1) * (f - 1) < f * f) by (nonlinear_arith)
                requires
                    f > 0,
            ;
        }
    }
}

/// The rounded values never exceed the radius itself (by more than one
/// for the ceiling): the geometry stays within one pixel of the circle.
pub proof fn lemma_sqrt3_half_le(s: nat)
    ensures
        sqrt3_half_floor(s) <= s,
        sqrt3_half_ceil(s) <= s + 1,
{
    lemma_sqrt3_half_floor_is(s);
    let f: nat = sqrt3_half_floor(s);
    if f > s {
        lemma_square_le(s + 1, f);
        assert(s * s < (s + 1) * (s + 1)) by (nonlinear_arith);
        assert(false);
    }
}

/// Integer square root: the greatest `r` with `r * r <= m`.
pub fn isqrt_u128(m: u128) -> (r: u128)
    ensures
        r * r <= m,
        m < (r + 1) * (r + 1),
{
    let mut lo: u128 = 0;
    let mut hi: u128 = 0x1_0000_0000_0000_0000;
    proof {
        assert(m < hi * hi) by (nonlinear_arith)
            requires
                hi == 0x1_0000_0000_0000_0000 && m <= u128::MAX,
        ;
    }
    while hi - lo > 1
        invariant
            lo < hi,
            hi <= 0x1_0000_0000_0000_0000,
            lo * lo <= m,
            m < hi * hi,
        decreases hi - lo,
    {
        let mid: u128 = lo + (hi - lo) / 2;
        proof {
            assert(mid * mid <= 0xffff_ffff_ffff_ffff * 0xffff_ffff_ffff_ffff)
                by (nonlinear_arith)
                requires
                    mid <= 0xffff_ffff_ffff_ffff,
            ;
        }
        if mid * mid <= m {
            lo = mid;
        } else {
            hi = mid;
        }
    }
    lo
}

/// Floor and ceiling of `size * sqrt(3) / 2`, as a pair, via the square
/// root of `3 * size^2`.
pub fn sqrt3_half_bounds(size: u32) -> (r: (u64, u64))
    ensures
        r.0 == sqrt3_half_floor(size as nat),
        r.1 == sqrt3_half_ceil(size as nat),
{
    proof {
        assert(3 * (size as int) * (size as int) < 0x4_0000_0000_0000_0000) by (nonlinear_arith)
            requires
                size < 0x1_0000_0000,
        ;
        assert(3 * (size as int) * (size as int) == 3 * ((size as int) * (size as int)))
            by (nonlinear_arith);
    }
    let m: u128 = 3 * (size as u128) * (size as u128);
    let q: u128 = isqrt_u128(m);
    let f: u128 = q / 2;
    proof {
        let si: int = size as int;
        let fi: int = f as int;
        let qi: int = q as int;
        let mi: int = m as int;
        if qi >= 0x2_0000_0000 {
            assert(qi * qi >= 0x2_0000_0000 * 0x2_0000_0000) by (nonlinear_arith)
                requires
                    qi >= 0x2_0000_0000,
            ;
            assert(false);
        }
        assert(2 * fi <= qi && qi <= 2 * fi + 1);
        assert(4 * (fi * fi) <= qi * qi) by (nonlinear_arith)
            requires
                0 <= 2 * fi <= qi,
        ;
        assert(mi < 4 * ((fi + 1) * (fi + 1))) by (nonlinear_arith)
            requires
                mi < (qi + 1) * (qi + 1) && 0 <= qi <= 2 * fi + 1,
        ;
        assert(is_sqrt3_half_floor(size as nat, f as nat));
        lemma_sqrt3_half_floor_unique(size as nat, f as nat);
        assert(4 * fi * fi == 4 * (fi * fi)) by (nonlinear_arith);
    }
    let c: u128 = if 4 * f * f == m {
        f
    } else {
        f + 1
    };
    (f as u64, c as u64)
}

} // verus!
