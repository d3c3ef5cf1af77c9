//! Fixed-point scalars and small vectors.
//!
//! A world unit is `SCALE` sub-units; every coordinate, size, angle
//! (millidegrees) and texture coordinate in the crate is an `i64` count of
//! sub-units. Division rounds toward zero, as Rust's `/` does, and the spec
//! functions here state that rounding exactly.

use vstd::prelude::*;
use vstd::arithmetic::div_mod::{
    lemma_div_is_ordered, lemma_div_multiples_vanish, lemma_div_nonincreasing,
    lemma_div_pos_is_pos,
};

verus! {

/// Fixed-point sub-units per world unit.
pub const SCALE: i64 = 1000;

/// Largest magnitude accepted for a scene coordinate or dimension, in
/// sub-units. Keeping inputs inside this range lets every intermediate
/// product in the crate fit an `i64`.
pub const COORD_LIMIT: i64 = 1_000_000_000;

/// Largest magnitude the primitive builders accept, in sub-units. Derived
/// quantities (a stair run's topmost step, a rebased wall center) stay
/// within this even when scene inputs use the whole `COORD_LIMIT` range.
pub const GEOM_LIMIT: i64 = 4_000_000_000_000;

pub open spec fn coord_in_range(c: i64) -> bool {
    -COORD_LIMIT <= c && c <= COORD_LIMIT
}

pub open spec fn geom_in_range(c: i64) -> bool {
    -GEOM_LIMIT <= c && c <= GEOM_LIMIT
}

/// Division truncated toward zero (the rounding of Rust's `/`),
/// defined for a positive divisor.
pub open spec fn div_trunc(a: int, b: int) -> int {
    if a >= 0 {
        a / b
    } else {
        -((-a) / b)
    }
}

/// Truncating division shrinks magnitude and keeps sign.
pub proof fn lemma_div_trunc_bounds(a: int, b: int)
    requires
        b > 0,
    ensures
        a >= 0 ==> 0 <= div_trunc(a, b) <= a,
        a < 0 ==> a <= div_trunc(a, b) <= 0,
{
    if a >= 0 {
        lemma_div_pos_is_pos(a, b);
        lemma_div_nonincreasing(a, b);
    } else {
        lemma_div_pos_is_pos(-a, b);
        lemma_div_nonincreasing(-a, b);
    }
}

/// A magnitude bound on the dividend carries through truncating division.
pub proof fn lemma_div_trunc_mono_bound(a: int, b: int, m: int)
    requires
        b > 0,
        0 <= m,
        -m <= a <= m,
    ensures
        -(m / b) <= div_trunc(a, b) <= m / b,
{
    lemma_div_pos_is_pos(m, b);
    if a >= 0 {
        lemma_div_pos_is_pos(a, b);
        lemma_div_is_ordered(a, m, b);
    } else {
        lemma_div_pos_is_pos(-a, b);
        lemma_div_is_ordered(-a, m, b);
    }
}

/// The product of bounded factors is bounded by the product of the bounds.
pub proof fn lemma_mul_bound(a: int, b: int, ma: int, mb: int)
    requires
        -ma <= a <= ma,
        -mb <= b <= mb,
        0 <= ma,
        0 <= mb,
    ensures
        -(ma * mb) <= a * b <= ma * mb,
{
    assert(-(ma * mb) <= a * b <= ma * mb) by (nonlinear_arith)
        requires
            -ma <= a <= ma,
            -mb <= b <= mb,
            0 <= ma,
            0 <= mb,
    ;
}

/// `a / b` rounded toward zero.
pub fn div_trunc_i64(a: i64, b: i64) -> (r: i64)
    requires
        b > 0,
        a > i64::MIN,
    ensures
        r == div_trunc(a as int, b as int),
        a >= 0 ==> 0 <= r <= a,
        a < 0 ==> a <= r <= 0,
{
    proof {
        lemma_div_trunc_bounds(a as int, b as int);
    }
    if a >= 0 {
        let q = (a as u64) / (b as u64);
        q as i64
    } else {
        let m = ((-a) as u64) / (b as u64);
        -(m as i64)
    }
}

/// Fixed-point product: `a · b / SCALE`, truncated toward zero.
pub open spec fn fx_mul(a: int, b: int) -> int {
    div_trunc(a * b, SCALE as int)
}

/// Fixed-point multiply; exact per `fx_mul`.
pub fn mul_fx(a: i64, b: i64) -> (r: i64)
    requires
        -i64::MAX <= a * b <= i64::MAX,
    ensures
        r == fx_mul(a as int, b as int),
        a * b >= 0 ==> 0 <= r <= a * b,
        a * b < 0 ==> a * b <= r <= 0,
{
    let p: i64 = a * b;
    div_trunc_i64(p, SCALE)
}

/// `a · b / c`, truncated toward zero.
pub fn mul_div(a: i64, b: i64, c: i64) -> (r: i64)
    requires
        c > 0,
        -i64::MAX <= a * b <= i64::MAX,
    ensures
        r == div_trunc(a * b, c as int),
        a * b >= 0 ==> 0 <= r <= a * b,
        a * b < 0 ==> a * b <= r <= 0,
{
    let p: i64 = a * b;
    div_trunc_i64(p, c)
}

/// Clamp to a closed interval.
pub open spec fn clamp_spec(x: int, lo: int, hi: int) -> int {
    if x < lo {
        lo
    } else if x > hi {
        hi
    } else {
        x
    }
}

pub fn clamp_i64(x: i64, lo: i64, hi: i64) -> (r: i64)
    requires
        lo <= hi,
    ensures
        r == clamp_spec(x as int, lo as int, hi as int),
{
    if x < lo {
        lo
    } else if x > hi {
        hi
    } else {
        x
    }
}

pub open spec fn is_floor_sqrt(n: int, r: int) -> bool {
    0 <= r && r * r <= n && n < (r + 1) * (r + 1)
}

/// The integer square root, rounded down.
pub closed spec fn floor_sqrt(n: int) -> int {
    choose|r: int| is_floor_sqrt(n, r)
}

/// The floor square root is the unique witness of `is_floor_sqrt`.
pub proof fn lemma_floor_sqrt(n: int, r: int)
    requires
        is_floor_sqrt(n, r),
    ensures
        floor_sqrt(n) == r,
{
    assert(exists|q: int| is_floor_sqrt(n, q)) by {
        assert(is_floor_sqrt(n, r));
    }
    let s = floor_sqrt(n);
    assert(is_floor_sqrt(n, s));
    if s < r {
        assert((s + 1) * (s + 1) <= r * r) by (nonlinear_arith)
            requires
                0 <= s,
                s < r,
        ;
        assert(false);
    }
    if r < s {
        assert((r + 1) * (r + 1) <= s * s) by (nonlinear_arith)
            requires
                0 <= r,
                r < s,
        ;
        assert(false);
    }
}

pub open spec fn abs_i(a: int) -> int {
    if a >= 0 {
        a
    } else {
        -a
    }
}

/// Halving an even number is exact, whatever its sign.
pub proof fn lemma_div_trunc_double(a: int)
    ensures
        div_trunc(2 * a, 2) == a,
{
    if a >= 0 {
        lemma_div_multiples_vanish(a, 2);
    } else {
        lemma_div_multiples_vanish(-a, 2);
    }
}

/// A perfect square's floor square root is its root.
pub proof fn lemma_floor_sqrt_square(a: int)
    requires
        a >= 0,
    ensures
        floor_sqrt(a * a) == a,
{
    assert(a * a < (a + 1) * (a + 1)) by (nonlinear_arith)
        requires
            a >= 0,
    ;
    assert(is_floor_sqrt(a * a, a));
    lemma_floor_sqrt(a * a, a);
}

/// The floor square root of a square is the root's magnitude.
pub proof fn lemma_floor_sqrt_abs(d: int)
    ensures
        floor_sqrt(d * d) == abs_i(d),
{
    if d >= 0 {
        lemma_floor_sqrt_square(d);
    } else {
        lemma_floor_sqrt_square(-d);
        assert(d * d == (-d) * (-d)) by (nonlinear_arith);
    }
}

/// A floor square root dominates the magnitude of anything whose square
/// the radicand covers.
pub proof fn lemma_sqrt_dominates(s: int, r: int, d: int)
    requires
        is_floor_sqrt(s, r),
        d * d <= s,
    ensures
        r >= abs_i(d),
{
    assert(r >= abs_i(d)) by (nonlinear_arith)
        requires
            0 <= r,
            s < (r + 1) * (r + 1),
            d * d <= s,
    ;
}

/// Rescaling a component by `SCALE` over a norm at least as large keeps it
/// within one fixed-point unit.
pub proof fn lemma_normalized_component(d: int, n: int)
    requires
        n >= 1,
        -n <= d <= n,
    ensures
        -SCALE <= div_trunc(d * (SCALE as int), n) <= SCALE,
{
    lemma_mul_bound(d, SCALE as int, n, SCALE as int);
    lemma_div_trunc_mono_bound(d * (SCALE as int), n, n * (SCALE as int));
    lemma_div_multiples_vanish(SCALE as int, n);
}

/// Integer square root by bisection.
pub fn isqrt_u64(n: u64) -> (r: u64)
    ensures
        is_floor_sqrt(n as int, r as int),
        r as int == floor_sqrt(n as int),
{
    let mut lo: u64 = 0;
    let mut hi: u64 = 4294967296;
    assert((hi as int) * (hi as int) > n as int) by (nonlinear_arith)
        requires
            hi == 4294967296u64,
            n <= u64::MAX,
    ;
    while lo + 1 < hi
        invariant
            lo < hi <= 4294967296,
            (lo as int) * (lo as int) <= n as int,
            (n as int) < (hi as int) * (hi as int),
        decreases hi - lo,
    {
        let mid = lo + (hi - lo) / 2;
        assert((mid as int) * (mid as int) <= 4294967295int * 4294967295int) by (nonlinear_arith)
            requires
                0 <= mid < 4294967296,
        ;
        let sq = mid * mid;
        if sq <= n {
            lo = mid;
        } else {
            hi = mid;
        }
    }
    proof {
        lemma_floor_sqrt(n as int, lo as int);
    }
    lo
}

/// A point or direction in world space, in fixed-point sub-units.
#[derive(Clone, Copy, PartialEq, Eq, Structural, Debug)]
pub struct Vec3Fx {
    pub x: i64,
    pub y: i64,
    pub z: i64,
}

/// A planar extent or texture coordinate, in fixed-point sub-units.
#[derive(Clone, Copy, PartialEq, Eq, Structural, Debug)]
pub struct Vec2Fx {
    pub x: i64,
    pub y: i64,
}

pub open spec fn vec3_in_range(v: Vec3Fx) -> bool {
    coord_in_range(v.x) && coord_in_range(v.y) && coord_in_range(v.z)
}

pub open spec fn vec2_in_range(v: Vec2Fx) -> bool {
    coord_in_range(v.x) && coord_in_range(v.y)
}

pub open spec fn vec3_in_geom_range(v: Vec3Fx) -> bool {
    geom_in_range(v.x) && geom_in_range(v.y) && geom_in_range(v.z)
}

pub open spec fn vec2_in_geom_range(v: Vec2Fx) -> bool {
    geom_in_range(v.x) && geom_in_range(v.y)
}

} // verus!
