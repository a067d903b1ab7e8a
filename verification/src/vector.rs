//! Fixed-point world-space vectors.
//!
//! A [`Vec3Fix`] stores a 3D vector as `i64` components in units of
//! `1 / SCALE`. The horizontal plane is spanned by `x` and `z`; `y`
//! points up. Horizontal directions are normalised to length `SCALE`
//! (one world unit) with a floor square root, so a "unit" direction has
//! squared length close to `SCALE * SCALE`, exactly characterised by
//! [`unit_xz`] and bounded by [`lemma_unit_xz_orthonormal`].

use vstd::prelude::*;
use crate::fixed::{abs_i, isqrt_spec, lemma_isqrt_bounds, isqrt64, SCALE};

verus! {

/// A 3D vector in fixed-point world units.
#[derive(Clone, Copy, Debug, PartialEq, Eq)]
pub struct Vec3Fix {
    pub x: i64,
    pub y: i64,
    pub z: i64,
}

impl Vec3Fix {
    /// The zero vector.
    pub fn zero() -> (r: Vec3Fix)
        ensures
            r.x == 0 && r.y == 0 && r.z == 0,
    {
        Vec3Fix { x: 0, y: 0, z: 0 }
    }

    /// Every component lies within `bound` in magnitude.
    pub open spec fn bounded(self, bound: int) -> bool {
        abs_i(self.x as int) <= bound && abs_i(self.y as int) <= bound && abs_i(
            self.z as int,
        ) <= bound
    }

    /// Squared length, in squared fixed-point subunits.
    pub open spec fn norm_sq(self) -> int {
        (self.x as int) * (self.x as int) + (self.y as int) * (self.y as int) + (self.z as int)
            * (self.z as int)
    }
}

/// Squared length of a planar `(x, z)` pair.
pub open spec fn norm_sq_xz(x: int, z: int) -> int {
    x * x + z * z
}

/// `c * SCALE / l` rounded toward zero, for a positive `l`: one
/// component of a vector rescaled to length `SCALE`.
pub open spec fn scale_to_unit(c: int, l: int) -> int {
    if c >= 0 {
        (c * (SCALE as int)) / l
    } else {
        -(((-c) * (SCALE as int)) / l)
    }
}

/// The horizontal direction of `(x, z)` rescaled to length `SCALE`,
/// with a floor square root and floor divisions.
pub open spec fn unit_xz(x: int, z: int) -> (int, int) {
    let l = isqrt_spec(norm_sq_xz(x, z));
    (scale_to_unit(x, l), scale_to_unit(z, l))
}

/// Rescales the planar vector `(x, z)` to length `SCALE` (one world
/// unit, up to fixed-point rounding). Returns `None` exactly on the
/// zero vector, the one input with no direction.
pub fn normalize_xz(x: i64, z: i64) -> (r: Option<(i64, i64)>)
    requires
        -2_000_000 <= x <= 2_000_000,
        -2_000_000 <= z <= 2_000_000,
    ensures
        r is None <==> x == 0 && z == 0,
        r matches Some(d) ==> d.0 == unit_xz(x as int, z as int).0 && d.1 == unit_xz(
            x as int,
            z as int,
        ).1,
        r matches Some(d) ==> abs_i(d.0 as int) <= SCALE as int && abs_i(d.1 as int)
            <= SCALE as int,
{
    let ux: u64 = if x < 0 {
        (-x) as u64
    } else {
        x as u64
    };
    let uz: u64 = if z < 0 {
        (-z) as u64
    } else {
        z as u64
    };
    proof {
        assert(ux * ux <= 4_000_000_000_000 && uz * uz <= 4_000_000_000_000) by (nonlinear_arith)
            requires
                0 <= ux <= 2_000_000,
                0 <= uz <= 2_000_000,
        ;
    }
    let n: u64 = ux * ux + uz * uz;
    if n == 0 {
        proof {
            assert(ux * ux >= 0 && uz * uz >= 0) by (nonlinear_arith);
            assert(ux != 0 ==> ux * ux > 0) by (nonlinear_arith);
            assert(uz != 0 ==> uz * uz > 0) by (nonlinear_arith);
        }
        return None;
    }
    let l: u64 = isqrt64(n);
    proof {
        assert(l * l <= n < (l + 1) * (l + 1));
        assert(l >= 1) by (nonlinear_arith)
            requires
                l * l <= n < (l + 1) * (l + 1),
                n >= 1,
                l >= 0,
        ;
        assert((x as int) * (x as int) == ux * ux && (z as int) * (z as int) == uz * uz)
            by (nonlinear_arith)
            requires
                ux == abs_i(x as int),
                uz == abs_i(z as int),
        ;
        lemma_isqrt_bounds(n as int);
        crate::fixed::lemma_isqrt_unique(n as int, l as int);
        // each scaled magnitude stays within SCALE of the length
        assert(ux <= l && uz <= l) by (nonlinear_arith)
            requires
                ux * ux <= n < (l + 1) * (l + 1),
                uz * uz <= n,
                ux >= 0,
                uz >= 0,
                l >= 0,
        ;
    }
    let p: u64 = (ux * 1000) / l;
    let q: u64 = (uz * 1000) / l;
    proof {
        assert(p <= 1000 && q <= 1000) by {
            vstd::arithmetic::div_mod::lemma_div_is_ordered(
                (ux * 1000) as int,
                (l * 1000) as int,
                l as int,
            );
            vstd::arithmetic::div_mod::lemma_div_is_ordered(
                (uz * 1000) as int,
                (l * 1000) as int,
                l as int,
            );
            vstd::arithmetic::mul::lemma_mul_is_commutative(l as int, 1000);
            vstd::arithmetic::div_mod::lemma_div_multiples_vanish(1000, l as int);
        }
    }
    let nx: i64 = if x < 0 {
        -(p as i64)
    } else {
        p as i64
    };
    let nz: i64 = if z < 0 {
        -(q as i64)
    } else {
        q as i64
    };
    Some((nx, nz))
}

/// Orthonormality of the derived horizontal basis, up to fixed-point
/// rounding: for any planar vector of squared length at least `10_000`
/// (length at least a tenth of a world unit), the rescaled forward
/// direction and its perpendicular `(-z, x)` are exactly orthogonal, of
/// exactly equal squared length, and that squared length differs from
/// `SCALE * SCALE` by less than half a percent of it.
pub proof fn lemma_unit_xz_orthonormal(x: int, z: int)
    requires
        norm_sq_xz(x, z) >= 10_000,
    ensures
        ({
            let f = unit_xz(x, z);
            let s = (-f.1, f.0);
            &&& f.0 * s.0 + f.1 * s.1 == 0
            &&& norm_sq_xz(s.0, s.1) == norm_sq_xz(f.0, f.1)
            &&& 995_998 < norm_sq_xz(f.0, f.1) <= 1_020_000
        }),
{
    let n = norm_sq_xz(x, z);
    let l = isqrt_spec(n);
    lemma_isqrt_bounds(n);
    let u = abs_i(x);
    let v = abs_i(z);
    assert(u * u == x * x && v * v == z * z) by (nonlinear_arith)
        requires
            u == abs_i(x),
            v == abs_i(z),
    ;
    assert(l >= 100) by (nonlinear_arith)
        requires
            n < (l + 1) * (l + 1),
            n >= 10_000,
            l >= 0,
    ;
    let p = (u * 1000) / l;
    let q = (v * 1000) / l;
    let f = unit_xz(x, z);
    assert(f.0 == scale_to_unit(x, l) && f.1 == scale_to_unit(z, l));
    assert(f.0 * f.0 == p * p && f.1 * f.1 == q * q) by (nonlinear_arith)
        requires
            f.0 == p || f.0 == -p,
            f.1 == q || f.1 == -q,
    ;
    // orthogonality and equal length of the perpendicular are exact
    let s = (-f.1, f.0);
    assert(f.0 * s.0 + f.1 * s.1 == 0) by (nonlinear_arith)
        requires
            s.0 == -f.1 && s.1 == f.0,
    ;
    assert(norm_sq_xz(s.0, s.1) == norm_sq_xz(f.0, f.1)) by (nonlinear_arith)
        requires
            s.0 == -f.1 && s.1 == f.0,
    ;
    // division facts for both components
    vstd::arithmetic::div_mod::lemma_fundamental_div_mod(u * 1000, l);
    vstd::arithmetic::div_mod::lemma_fundamental_div_mod(v * 1000, l);
    assert(0 <= (u * 1000) % l < l);
    assert(0 <= (v * 1000) % l < l);
    assert(l * p <= u * 1000 < (p + 1) * l) by (nonlinear_arith)
        requires
            u * 1000 == l * p + (u * 1000) % l,
            0 <= (u * 1000) % l < l,
    ;
    assert(l * q <= v * 1000 < (q + 1) * l) by (nonlinear_arith)
        requires
            v * 1000 == l * q + (v * 1000) % l,
            0 <= (v * 1000) % l < l,
    ;
    assert(u <= l && v <= l) by (nonlinear_arith)
        requires
            u * u <= n < (l + 1) * (l + 1),
            v * v <= n,
            u >= 0,
            v >= 0,
            l >= 0,
    ;
    assert(p <= 1000 && q <= 1000) by (nonlinear_arith)
        requires
            l * p <= u * 1000,
            l * q <= v * 1000,
            u <= l,
            v <= l,
            l >= 1,
            p >= 0,
            q >= 0,
    ;
    assert(p >= 0 && q >= 0) by {
        vstd::arithmetic::div_mod::lemma_div_pos_is_pos(u * 1000, l);
        vstd::arithmetic::div_mod::lemma_div_pos_is_pos(v * 1000, l);
    }
    // upper bound: (p^2 + q^2) l^2 <= 10^6 n <= 10^6 (l^2 + 2 l)
    assert((p * p + q * q) * (l * l) <= 1_000_000 * n) by (nonlinear_arith)
        requires
            0 <= l * p <= u * 1000,
            0 <= l * q <= v * 1000,
            n == u * u + v * v,
            p >= 0,
            q >= 0,
            u >= 0,
            v >= 0,
    ;
    assert(n <= l * l + 2 * l) by (nonlinear_arith)
        requires
            n < (l + 1) * (l + 1),
    ;
    assert(p * p + q * q <= 1_020_000) by (nonlinear_arith)
        requires
            (p * p + q * q) * (l * l) <= 1_000_000 * (l * l + 2 * l),
            l >= 100,
            p >= 0,
            q >= 0,
    ;
    // lower bound: 10^6 l^2 <= 10^6 n < ((p+1)^2 + (q+1)^2) l^2
    assert(1_000_000 * n < ((p + 1) * (p + 1) + (q + 1) * (q + 1)) * (l * l)) by (nonlinear_arith)
        requires
            0 <= u * 1000 < (p + 1) * l,
            0 <= v * 1000 < (q + 1) * l,
            n == u * u + v * v,
            l >= 1,
            p >= 0,
            q >= 0,
    ;
    assert(p * p + q * q > 995_998) by (nonlinear_arith)
        requires
            1_000_000 * n < ((p + 1) * (p + 1) + (q + 1) * (q + 1)) * (l * l),
            l * l <= n,
            0 <= p <= 1000,
            0 <= q <= 1000,
            l >= 1,
    ;
    assert(norm_sq_xz(f.0, f.1) == p * p + q * q);
}

} // verus!
