//! Plane geometry primitives: points in milliunits, interval clamping, an
//! integer square root, and fixed-point scaling of heading components.

use vstd::prelude::*;

verus! {

/// A point or direction in the arena plane, with coordinates in milliunits
/// (one thousandth of an arena unit).
#[derive(Clone, Copy, PartialEq, Eq, Structural, Debug)]
pub struct Vec2 {
    pub x: i64,
    pub y: i64,
}

/// `v` clamped into the closed interval `[lo, hi]`.
pub open spec fn clamp64(v: i64, lo: i64, hi: i64) -> i64 {
    if v < lo {
        lo
    } else if v > hi {
        hi
    } else {
        v
    }
}

/// Clamp `v` into `[lo, hi]`.
pub fn clamp_i64(v: i64, lo: i64, hi: i64) -> (r: i64)
    requires
        lo <= hi,
    ensures
        r == clamp64(v, lo, hi),
{
    if v < lo {
        lo
    } else if v > hi {
        hi
    } else {
        v
    }
}

/// The integer square root of `n`: the largest `r` with `r * r <= n`.
pub open spec fn sqrt_floor(n: nat) -> nat
    decreases n,
{
    if n == 0 {
        0
    } else {
        let r = sqrt_floor((n - 1) as nat);
        if (r + 1) * (r + 1) <= n {
            r + 1
        } else {
            r
        }
    }
}

/// `sqrt_floor(n)` is indeed the floor of the square root of `n`.
pub proof fn lemma_sqrt_floor_bounds(n: nat)
    ensures
        sqrt_floor(n) * sqrt_floor(n) <= n,
        n < (sqrt_floor(n) + 1) * (sqrt_floor(n) + 1),
    decreases n,
{
    if n == 0 {
        assert(sqrt_floor(0) == 0);
        assert(sqrt_floor(n) * sqrt_floor(n) <= n);
        assert(n < (sqrt_floor(n) + 1) * (sqrt_floor(n) + 1)) by (nonlinear_arith)
            requires
                n == 0,
                sqrt_floor(n) == 0,
        ;
    } else {
        lemma_sqrt_floor_bounds((n - 1) as nat);
        let r = sqrt_floor((n - 1) as nat);
        if (r + 1) * (r + 1) <= n {
            assert(sqrt_floor(n) == r + 1);
            assert((r + 1) * (r + 1) < (r + 2) * (r + 2)) by (nonlinear_arith);
            assert(n <= (r + 1) * (r + 1));
        } else {
            assert(sqrt_floor(n) == r);
        }
    }
}

/// Any `r` within the square root bounds for `n` equals `sqrt_floor(n)`.
pub proof fn lemma_sqrt_floor_unique(n: nat, r: nat)
    requires
        r * r <= n,
        n < (r + 1) * (r + 1),
    ensures
        r == sqrt_floor(n),
{
    lemma_sqrt_floor_bounds(n);
    let s = sqrt_floor(n);
    if r < s {
        assert((r + 1) * (r + 1) <= s * s) by (nonlinear_arith)
            requires
                r + 1 <= s,
        ;
    } else if s < r {
        assert((s + 1) * (s + 1) <= r * r) by (nonlinear_arith)
            requires
                s + 1 <= r,
        ;
    }
}

/// Compute the integer square root of `n` by bisection.
pub fn isqrt(n: u64) -> (r: u64)
    requires
        n < 0x4000_0000_0000_0000,
    ensures
        r == sqrt_floor(n as nat),
{
    let mut lo: u64 = 0;
    let mut hi: u64 = 0x8000_0000;
    proof {
        assert(0x8000_0000int * 0x8000_0000int == 0x4000_0000_0000_0000int) by (nonlinear_arith);
    }
    while lo + 1 < hi
        invariant
            lo < hi <= 0x8000_0000u64,
            (lo as int) * (lo as int) <= n as int,
            (n as int) < (hi as int) * (hi as int),
        decreases hi - lo,
    {
        let gap = hi - lo;
        assert(1 <= gap / 2 && gap / 2 < gap) by (nonlinear_arith)
            requires
                2 <= gap,
        ;
        let mid = lo + gap / 2;
        assert((mid as int) * (mid as int) <= 0x4000_0000_0000_0000int) by (nonlinear_arith)
            requires
                mid <= 0x8000_0000u64,
        ;
        if mid * mid <= n {
            lo = mid;
        } else {
            hi = mid;
        }
    }
    proof {
        assert(hi == lo + 1);
        lemma_sqrt_floor_unique(n as nat, lo as nat);
    }
    lo
}

/// A heading component `dir` (milli-scaled) times a step length `step`
/// (milliunits), brought back to milliunits by dividing out the milli scale;
/// negative headings are scaled on their magnitude so the result rounds
/// toward zero.
pub open spec fn scaled(dir: int, step: int) -> int {
    if dir >= 0 {
        (dir * step) / 1000
    } else {
        -(((-dir) * step) / 1000)
    }
}

/// Scale a heading component by a step length, in fixed-point arithmetic.
pub fn scale_dir(dir: i64, step: i64) -> (r: i64)
    requires
        -crate::DIR_LIMIT <= dir <= crate::DIR_LIMIT,
        0 <= step <= crate::STEP_LIMIT,
    ensures
        r == scaled(dir as int, step as int),
        -crate::COORD_LIMIT <= r <= crate::COORD_LIMIT,
{
    if dir >= 0 {
        let a = dir as u64;
        let b = step as u64;
        assert((a as int) * (b as int) <= 1_000_000_000_000_000int) by (nonlinear_arith)
            requires
                a <= 1_000_000u64,
                b <= 1_000_000_000u64,
        ;
        let p = a * b;
        let q = p / 1000;
        q as i64
    } else {
        let a = (-dir) as u64;
        let b = step as u64;
        assert((a as int) * (b as int) <= 1_000_000_000_000_000int) by (nonlinear_arith)
            requires
                a <= 1_000_000u64,
                b <= 1_000_000_000u64,
        ;
        let p = a * b;
        let q = p / 1000;
        -(q as i64)
    }
}

} // verus!
