//! Fixed-point arithmetic helpers.
//!
//! World-space quantities are stored as `i64` counts of `1 / SCALE`
//! world units (lengths in milliunits, speeds in milliunits per second).
//! This module holds the scalar helpers the rest of the crate builds on:
//! absolute value, clamped moves, a floor square root, and the scaled
//! product of two fixed-point values.

use vstd::prelude::*;

verus! {

/// Number of fixed-point subunits per world unit.
pub const SCALE: i64 = 1000;

/// Absolute value of a mathematical integer.
pub open spec fn abs_i(a: int) -> int {
    if a < 0 {
        -a
    } else {
        a
    }
}

/// Smaller of two mathematical integers.
pub open spec fn min_i(a: int, b: int) -> int {
    if a < b {
        a
    } else {
        b
    }
}

/// Larger of two mathematical integers.
pub open spec fn max_i(a: int, b: int) -> int {
    if a < b {
        b
    } else {
        a
    }
}

/// Floor of the square root of a nonnegative integer (0 below 1).
pub open spec fn isqrt_spec(n: int) -> int
    decreases n,
{
    if n < 1 {
        0
    } else {
        let r = isqrt_spec(n - 1);
        if (r + 1) * (r + 1) <= n {
            r + 1
        } else {
            r
        }
    }
}

/// The floor square root is characterised by `r * r <= n < (r + 1) * (r + 1)`.
pub proof fn lemma_isqrt_bounds(n: int)
    requires
        n >= 0,
    ensures
        0 <= isqrt_spec(n),
        isqrt_spec(n) * isqrt_spec(n) <= n,
        n < (isqrt_spec(n) + 1) * (isqrt_spec(n) + 1),
    decreases n,
{
    if n == 0 {
        assert(isqrt_spec(0) == 0);
    } else {
        lemma_isqrt_bounds(n - 1);
        let r = isqrt_spec(n - 1);
        if (r + 1) * (r + 1) <= n {
            assert((r + 2) * (r + 2) > n) by (nonlinear_arith)
                requires
                    n - 1 < (r + 1) * (r + 1),
                    r >= 0,
            ;
        }
    }
}

/// Any integer within the floor-square-root bounds for `n` is `isqrt_spec(n)`.
pub proof fn lemma_isqrt_unique(n: int, r: int)
    requires
        0 <= r,
        r * r <= n,
        n < (r + 1) * (r + 1),
    ensures
        r == isqrt_spec(n),
{
    lemma_isqrt_bounds(n);
    let s = isqrt_spec(n);
    if r < s {
        assert((r + 1) * (r + 1) <= s * s) by (nonlinear_arith)
            requires
                0 <= r,
                r + 1 <= s,
        ;
    }
    if s < r {
        assert((s + 1) * (s + 1) <= r * r) by (nonlinear_arith)
            requires
                0 <= s,
                s + 1 <= r,
        ;
    }
}

/// Floor square root of `n`.
pub fn isqrt64(n: u64) -> (r: u64)
    requires
        n <= 0x1000_0000_0000_0000,
    ensures
        r == isqrt_spec(n as int),
        r * r <= n < (r + 1) * (r + 1),
{
    let mut r: u64 = 0;
    loop
        invariant
            n <= 0x1000_0000_0000_0000,
            r * r <= n,
            r <= 0x4000_0000,
        decreases 0x4000_0000int - r,
    {
        let next = r + 1;
        proof {
            assert(next * next <= 0x1000_0000_8000_0001) by (nonlinear_arith)
                requires
                    0 <= next <= 0x4000_0001,
            ;
        }
        let sq = next * next;
        if sq > n {
            proof {
                lemma_isqrt_unique(n as int, r as int);
            }
            return r;
        }
        proof {
            assert(next <= 0x4000_0000) by (nonlinear_arith)
                requires
                    next * next <= 0x1000_0000_0000_0000,
                    next >= 1,
            ;
        }
        r = next;
    }
}

/// Product of two fixed-point values, rescaled to fixed point: the
/// magnitudes are multiplied, divided by `SCALE` rounding toward zero,
/// and the sign of the mathematical product is reapplied.
pub open spec fn fx_mul(a: int, b: int) -> int {
    if (a < 0) != (b < 0) {
        -((abs_i(a) * abs_i(b)) / (SCALE as int))
    } else {
        (abs_i(a) * abs_i(b)) / (SCALE as int)
    }
}

/// A zero factor gives a zero fixed-point product.
pub proof fn lemma_fx_mul_zero(a: int)
    ensures
        fx_mul(a, 0) == 0,
        fx_mul(0, a) == 0,
{
    assert(abs_i(a) * 0 == 0);
    assert(0 * abs_i(a) == 0);
}

/// A factor of magnitude at most `SCALE` cannot grow the other factor:
/// `|fx_mul(a, b)| <= |a|` whenever `|b| <= SCALE`.
pub proof fn lemma_fx_mul_bound(a: int, b: int, m: int)
    requires
        abs_i(a) <= m,
        abs_i(b) <= SCALE as int,
        0 <= m,
    ensures
        abs_i(fx_mul(a, b)) <= m,
{
    let p = abs_i(a) * abs_i(b);
    assert(0 <= p <= m * (SCALE as int)) by (nonlinear_arith)
        requires
            0 <= abs_i(a) <= m,
            0 <= abs_i(b) <= SCALE as int,
            p == abs_i(a) * abs_i(b),
    ;
    assert(p / (SCALE as int) <= (m * (SCALE as int)) / (SCALE as int)) by {
        vstd::arithmetic::div_mod::lemma_div_is_ordered(p, m * (SCALE as int), SCALE as int);
    }
    assert((m * (SCALE as int)) / (SCALE as int) == m) by {
        vstd::arithmetic::div_mod::lemma_div_multiples_vanish(m, SCALE as int);
    }
    assert(p / (SCALE as int) >= 0) by {
        vstd::arithmetic::div_mod::lemma_div_pos_is_pos(p, SCALE as int);
    }
}

/// Fixed-point product of two bounded values.
pub fn mul_fx(a: i64, b: i64) -> (r: i64)
    requires
        -4_000_000 <= a <= 4_000_000,
        -4_000_000 <= b <= 4_000_000,
    ensures
        r == fx_mul(a as int, b as int),
        -16_000_000_000 <= r <= 16_000_000_000,
{
    let neg = (a < 0) != (b < 0);
    let aa: u64 = if a < 0 {
        (-a) as u64
    } else {
        a as u64
    };
    let bb: u64 = if b < 0 {
        (-b) as u64
    } else {
        b as u64
    };
    proof {
        assert(aa * bb <= 16_000_000_000_000) by (nonlinear_arith)
            requires
                0 <= aa <= 4_000_000,
                0 <= bb <= 4_000_000,
        ;
    }
    let m: u64 = (aa * bb) / 1000;
    proof {
        vstd::arithmetic::div_mod::lemma_div_pos_is_pos((aa * bb) as int, 1000);
        vstd::arithmetic::div_mod::lemma_div_is_ordered((aa * bb) as int, 16_000_000_000_000, 1000);
    }
    if neg {
        -(m as i64)
    } else {
        m as i64
    }
}

/// One bounded step from `from` toward `to`: the result moves by at most
/// `step` and never overshoots the target.
pub open spec fn move_toward_spec(from: int, to: int, step: int) -> int {
    if from < to {
        min_i(from + step, to)
    } else {
        max_i(from - step, to)
    }
}

/// Moves `from` toward `to` by at most `step`.
pub fn move_toward(from: i64, to: i64, step: i64) -> (r: i64)
    requires
        -1_000_000_000 <= from <= 1_000_000_000,
        -1_000_000_000 <= to <= 1_000_000_000,
        0 <= step <= 1_000_000_000,
    ensures
        r == move_toward_spec(from as int, to as int, step as int),
        abs_i(r as int) <= max_i(abs_i(from as int), abs_i(to as int)),
{
    if from < to {
        if from + step < to {
            from + step
        } else {
            to
        }
    } else {
        if from - step > to {
            from - step
        } else {
            to
        }
    }
}

/// Clamps `a` into the closed interval `[lo, hi]`.
pub open spec fn clamp_spec(a: int, lo: int, hi: int) -> int {
    if a < lo {
        lo
    } else if a > hi {
        hi
    } else {
        a
    }
}

/// Clamps `a` into `[lo, hi]`.
pub fn clamp_i64(a: i64, lo: i64, hi: i64) -> (r: i64)
    requires
        lo <= hi,
    ensures
        r == clamp_spec(a as int, lo as int, hi as int),
        lo <= r <= hi,
{
    if a < lo {
        lo
    } else if a > hi {
        hi
    } else {
        a
    }
}

} // verus!
