//! Signed 64-bit fixed-point arithmetic with six decimal places.
//!
//! A raw value `v: i64` stands for the real number `v / 1_000_000`.
//! All operations round toward zero, exactly as Rust's integer division
//! does, so every executable result is pinned down by a spec function.

use vstd::prelude::*;

verus! {

/// One whole unit: raw fixed-point values carry six decimal places.
pub const FX_ONE: i64 = 1_000_000;

/// `FX_ONE * FX_ONE`, the squared norm of a unit vector in raw units.
pub const FX_ONE_SQ: i64 = 1_000_000_000_000;

/// Truncating (round-toward-zero) division; the divisor is positive.
/// This is the rounding Rust's `/` performs on signed integers.
pub open spec fn tdiv(a: int, b: int) -> int {
    if a >= 0 {
        a / b
    } else {
        -((-a) / b)
    }
}

/// Division rounding away from zero, for nonnegative operands.
pub open spec fn cdiv(a: int, b: int) -> int {
    (a + b - 1) / b
}

/// Mathematical value of a fixed-point product, before narrowing to `i64`.
pub open spec fn fx_mul_v(a: int, b: int) -> int {
    tdiv(a * b, FX_ONE as int)
}

/// Mathematical value of a fixed-point quotient, before narrowing to `i64`.
pub open spec fn fx_div_v(a: int, b: int) -> int {
    tdiv(a * (FX_ONE as int), b)
}

/// Clamping into a closed interval.
pub open spec fn clamp_v(v: int, lo: int, hi: int) -> int {
    if v < lo {
        lo
    } else if v > hi {
        hi
    } else {
        v
    }
}

/// `tdiv` never grows a magnitude: the quotient stays between the
/// dividend and zero.
pub proof fn lemma_tdiv_shrinks(a: int, b: int)
    requires
        b >= 1,
    ensures
        a >= 0 ==> 0 <= tdiv(a, b) <= a,
        a < 0 ==> a <= tdiv(a, b) <= 0,
{
    if a >= 0 {
        vstd::arithmetic::div_mod::lemma_div_pos_is_pos(a, b);
        vstd::arithmetic::div_mod::lemma_div_nonincreasing(a, b);
    } else {
        vstd::arithmetic::div_mod::lemma_div_pos_is_pos(-a, b);
        vstd::arithmetic::div_mod::lemma_div_nonincreasing(-a, b);
    }
}

/// `tdiv` is bounded by the quotient of a bound on the dividend.
pub proof fn lemma_tdiv_mono_abs(a: int, m: int, b: int)
    requires
        b >= 1,
        0 <= m,
        -m <= a <= m,
    ensures
        -tdiv(m, b) <= tdiv(a, b) <= tdiv(m, b),
        0 <= tdiv(m, b),
{
    vstd::arithmetic::div_mod::lemma_div_pos_is_pos(m, b);
    if a >= 0 {
        vstd::arithmetic::div_mod::lemma_div_is_ordered(a, m, b);
        vstd::arithmetic::div_mod::lemma_div_pos_is_pos(a, b);
    } else {
        vstd::arithmetic::div_mod::lemma_div_is_ordered(-a, m, b);
        vstd::arithmetic::div_mod::lemma_div_pos_is_pos(-a, b);
    }
}

/// Truncating division is the euclidean (floor) quotient, or one above
/// it for a negative dividend that the divisor does not divide.
pub proof fn lemma_tdiv_vs_floor(x: int, d: int)
    requires
        d >= 1,
    ensures
        x / d <= tdiv(x, d) <= x / d + 1,
{
    if x < 0 {
        let q = x / d;
        let r = x % d;
        let nq = (-x) / d;
        let nr = (-x) % d;
        vstd::arithmetic::div_mod::lemma_fundamental_div_mod(x, d);
        vstd::arithmetic::div_mod::lemma_mod_bound(x, d);
        vstd::arithmetic::div_mod::lemma_fundamental_div_mod(-x, d);
        vstd::arithmetic::div_mod::lemma_mod_bound(-x, d);
        assert(d * (q + nq) + (r + nr) == 0) by (nonlinear_arith)
            requires
                x == d * q + r,
                -x == d * nq + nr,
        ;
        assert(r + nr == 0 || r + nr == d) by (nonlinear_arith)
            requires
                d >= 1,
                d * (q + nq) + (r + nr) == 0,
                0 <= r < d,
                0 <= nr < d,
        ;
        if r + nr == 0 {
            assert(q + nq == 0) by (nonlinear_arith)
                requires
                    d >= 1,
                    d * (q + nq) == 0,
            ;
        } else {
            assert(q + nq == -1) by (nonlinear_arith)
                requires
                    d >= 1,
                    d * (q + nq) + d == 0,
            ;
        }
    }
}

/// The truncating quotient of a sum is within two of the sum of the
/// truncating quotients.
pub proof fn lemma_tdiv_add_close(a: int, b: int, d: int)
    requires
        d >= 1,
    ensures
        tdiv(a, d) + tdiv(b, d) - 2 <= tdiv(a + b, d) <= tdiv(a, d) + tdiv(b, d) + 2,
{
    lemma_tdiv_vs_floor(a, d);
    lemma_tdiv_vs_floor(b, d);
    lemma_tdiv_vs_floor(a + b, d);
    let qa = a / d;
    let ra = a % d;
    let qb = b / d;
    let rb = b % d;
    vstd::arithmetic::div_mod::lemma_fundamental_div_mod(a, d);
    vstd::arithmetic::div_mod::lemma_mod_bound(a, d);
    vstd::arithmetic::div_mod::lemma_fundamental_div_mod(b, d);
    vstd::arithmetic::div_mod::lemma_mod_bound(b, d);
    if ra + rb < d {
        assert(a + b == (qa + qb) * d + (ra + rb)) by (nonlinear_arith)
            requires
                a == d * qa + ra,
                b == d * qb + rb,
        ;
        vstd::arithmetic::div_mod::lemma_fundamental_div_mod_converse_div(
            a + b,
            d,
            qa + qb,
            ra + rb,
        );
    } else {
        assert(a + b == (qa + qb + 1) * d + (ra + rb - d)) by (nonlinear_arith)
            requires
                a == d * qa + ra,
                b == d * qb + rb,
        ;
        vstd::arithmetic::div_mod::lemma_fundamental_div_mod_converse_div(
            a + b,
            d,
            qa + qb + 1,
            ra + rb - d,
        );
    }
}

/// Bound on a truncating quotient from a dividend bound and a divisor
/// lower bound.
pub proof fn lemma_tdiv_abs_denom(a: int, m: int, b: int, bmin: int)
    requires
        1 <= bmin <= b,
        0 <= m,
        -m <= a <= m,
    ensures
        -tdiv(m, bmin) <= tdiv(a, b) <= tdiv(m, bmin),
        0 <= tdiv(m, bmin),
{
    lemma_tdiv_mono_abs(a, m, b);
    vstd::arithmetic::div_mod::lemma_div_is_ordered_by_denominator(m, bmin, b);
    vstd::arithmetic::div_mod::lemma_div_pos_is_pos(m, bmin);
}

/// Magnitude bound for a fixed-point product from bounds on its factors.
pub proof fn lemma_fx_mul_bound(a: int, b: int, m: int, n: int)
    requires
        0 <= m,
        0 <= n,
        -m <= a <= m,
        -n <= b <= n,
    ensures
        -tdiv(m * n, FX_ONE as int) <= fx_mul_v(a, b) <= tdiv(m * n, FX_ONE as int),
        0 <= tdiv(m * n, FX_ONE as int),
{
    assert(-(m * n) <= a * b <= m * n) by (nonlinear_arith)
        requires
            0 <= m,
            0 <= n,
            -m <= a <= m,
            -n <= b <= n,
    ;
    assert(0 <= m * n) by (nonlinear_arith)
        requires
            0 <= m,
            0 <= n,
    ;
    lemma_tdiv_mono_abs(a * b, m * n, FX_ONE as int);
}

/// Multiplying by a whole number of units and dividing the units back out
/// returns the original value: `fx_mul_v(a, FX_ONE) == a`.
pub proof fn lemma_fx_mul_one(a: int)
    ensures
        fx_mul_v(a, FX_ONE as int) == a,
        fx_mul_v(FX_ONE as int, a) == a,
{
    if a >= 0 {
        vstd::arithmetic::div_mod::lemma_div_multiples_vanish(a, FX_ONE as int);
    } else {
        vstd::arithmetic::div_mod::lemma_div_multiples_vanish(-a, FX_ONE as int);
        assert((-a) * (FX_ONE as int) == -(a * (FX_ONE as int))) by (nonlinear_arith);
    }
    assert(a * (FX_ONE as int) == (FX_ONE as int) * a) by (nonlinear_arith);
}

/// Fixed-point product, rounded toward zero.
pub fn fx_mul(a: i64, b: i64) -> (r: i64)
    requires
        -(i64::MAX as int) <= fx_mul_v(a as int, b as int) <= i64::MAX as int,
    ensures
        r as int == fx_mul_v(a as int, b as int),
{
    proof {
        assert(-0x4000_0000_0000_0000_0000_0000_0000_0000int <= (a as int) * (b as int)
            <= 0x4000_0000_0000_0000_0000_0000_0000_0000int) by (nonlinear_arith)
            requires
                -0x8000_0000_0000_0000int <= a as int <= 0x8000_0000_0000_0000int,
                -0x8000_0000_0000_0000int <= b as int <= 0x8000_0000_0000_0000int,
        ;
    }
    let p: i128 = (a as i128) * (b as i128);
    let q: i128 = p / (FX_ONE as i128);
    q as i64
}

/// Fixed-point quotient by a positive divisor, rounded toward zero.
pub fn fx_div(a: i64, b: i64) -> (r: i64)
    requires
        b >= 1,
        -(i64::MAX as int) <= fx_div_v(a as int, b as int) <= i64::MAX as int,
    ensures
        r as int == fx_div_v(a as int, b as int),
{
    let p: i128 = (a as i128) * (FX_ONE as i128);
    let q: i128 = p / (b as i128);
    q as i64
}

/// Narrow a wide intermediate value into a closed `i64` interval.
pub fn clamp_i128(v: i128, lo: i64, hi: i64) -> (r: i64)
    requires
        lo <= hi,
    ensures
        r as int == clamp_v(v as int, lo as int, hi as int),
{
    if v < lo as i128 {
        lo
    } else if v > hi as i128 {
        hi
    } else {
        v as i64
    }
}

/// The integer square root: the unique `n >= 0` with
/// `n * n <= s < (n + 1) * (n + 1)`.
pub open spec fn isqrt_v(s: int) -> int {
    choose|n: int| 0 <= n && #[trigger] (n * n) <= s && s < (n + 1) * (n + 1)
}

/// A witness pins `isqrt_v` down: any `n` with the square-root property
/// equals `isqrt_v(s)`.
pub proof fn lemma_isqrt_unique(s: int, n: int)
    requires
        0 <= n,
        n * n <= s,
        s < (n + 1) * (n + 1),
    ensures
        isqrt_v(s) == n,
{
    assert(exists|m: int| 0 <= m && #[trigger] (m * m) <= s && s < (m + 1) * (m + 1)) by {
        assert(0 <= n && n * n <= s && s < (n + 1) * (n + 1));
    }
    let m = isqrt_v(s);
    assert(0 <= m && m * m <= s && s < (m + 1) * (m + 1));
    assert(m == n) by (nonlinear_arith)
        requires
            0 <= n,
            n * n <= s,
            s < (n + 1) * (n + 1),
            0 <= m,
            m * m <= s,
            s < (m + 1) * (m + 1),
    ;
}

/// Integer square root by binary search.
pub fn isqrt(s: u128) -> (r: u128)
    ensures
        r as int == isqrt_v(s as int),
        (r as int) * (r as int) <= s as int,
        (s as int) < (r as int + 1) * (r as int + 1),
        r <= 0xffff_ffff_ffff_ffff,
{
    let mut lo: u128 = 0;
    let mut hi: u128 = 0xffff_ffff_ffff_ffff;
    proof {
        assert((hi as int + 1) * (hi as int + 1) > s as int) by (nonlinear_arith)
            requires
                hi == 0xffff_ffff_ffff_ffffu128,
                s as int <= u128::MAX as int,
        ;
    }
    while lo < hi
        invariant
            lo <= hi,
            hi <= 0xffff_ffff_ffff_ffff,
            (lo as int) * (lo as int) <= s as int,
            (s as int) < (hi as int + 1) * (hi as int + 1),
        decreases hi - lo,
    {
        let mid: u128 = lo + (hi - lo + 1) / 2;
        proof {
            assert((mid as int) * (mid as int) <= 0xffff_ffff_ffff_ffffu128 as int
                * 0xffff_ffff_ffff_ffffu128 as int) by (nonlinear_arith)
                requires
                    0 <= mid as int <= 0xffff_ffff_ffff_ffffu128 as int,
            ;
        }
        if mid * mid <= s {
            lo = mid;
        } else {
            hi = mid - 1;
        }
    }
    proof {
        lemma_isqrt_unique(s as int, lo as int);
    }
    lo
}

} // verus!
