//! Saturating fixed-point arithmetic: an `i64` holds a number scaled by
//! `2^32` (`FX_FRAC`). Multiplication and division truncate toward zero, and
//! every operation clamps its result into `[-FX_LIM, FX_LIM]`, so all
//! operations are total and exactly specified.

use vstd::prelude::*;

verus! {

/// The scale of a fixed-point value: a stored `i64` means `stored / FX_FRAC`.
pub const FX_FRAC: i64 = 0x1_0000_0000;

/// The fixed-point representation of one.
pub const FX_ONE: i64 = 0x1_0000_0000;

/// The fixed-point representation of one half.
pub const FX_HALF: i64 = 0x8000_0000;

/// The fixed-point representation of two.
pub const FX_TWO: i64 = 0x2_0000_0000;

/// Saturation bound: every fixed-point result is clamped into
/// `[-FX_LIM, FX_LIM]`.
pub const FX_LIM: i64 = 0x4000_0000_0000_0000;

/// The lower saturation bound.
pub const FX_LIM_NEG: i64 = -0x4000_0000_0000_0000;

/// The magnitude of a mathematical integer.
pub open spec fn fx_abs(v: int) -> int {
    if v >= 0 {
        v
    } else {
        -v
    }
}

/// Clamp a mathematical integer into `[-FX_LIM, FX_LIM]`.
pub open spec fn fx_sat(v: int) -> int {
    if v > FX_LIM as int {
        FX_LIM as int
    } else if v < -(FX_LIM as int) {
        -(FX_LIM as int)
    } else {
        v
    }
}

/// Division truncated toward zero (the remainder is discarded, the sign is
/// the sign of the exact quotient). Unspecified when `q == 0`.
pub open spec fn fx_div_trunc(p: int, q: int) -> int {
    if (p >= 0) == (q > 0) {
        fx_abs(p) / fx_abs(q)
    } else {
        -(fx_abs(p) / fx_abs(q))
    }
}

/// What fixed-point addition returns.
pub open spec fn fx_add_spec(a: int, b: int) -> int {
    fx_sat(a + b)
}

/// What fixed-point subtraction returns.
pub open spec fn fx_sub_spec(a: int, b: int) -> int {
    fx_sat(a - b)
}

/// What fixed-point negation returns.
pub open spec fn fx_neg_spec(a: int) -> int {
    fx_sat(-a)
}

/// What fixed-point multiplication returns: the product rescaled by
/// `FX_FRAC`, truncated toward zero, then clamped.
pub open spec fn fx_mul_spec(a: int, b: int) -> int {
    fx_sat(fx_div_trunc(a * b, FX_FRAC as int))
}

/// What fixed-point division returns: zero when the divisor is zero (callers
/// guard that case), otherwise the rescaled quotient truncated toward zero,
/// then clamped.
pub open spec fn fx_div_spec(a: int, b: int) -> int {
    if b == 0 {
        0
    } else {
        fx_sat(fx_div_trunc(a * (FX_FRAC as int), b))
    }
}

/// Floor square root of a nonnegative integer, as a recursive definition:
/// `fx_isqrt_spec(n)` is the largest `r` with `r * r <= n`.
pub open spec fn fx_isqrt_spec(n: int) -> int
    recommends
        n >= 0,
    decreases n,
{
    if n < 1 {
        0
    } else if n < 4 {
        1
    } else {
        let r = 2 * fx_isqrt_spec(n / 4);
        if (r + 1) * (r + 1) <= n {
            r + 1
        } else {
            r
        }
    }
}

/// What the fixed-point square root returns: zero for nonpositive input,
/// otherwise the floor square root of the value rescaled by `FX_FRAC`.
pub open spec fn fx_sqrt_spec(a: int) -> int {
    if a <= 0 {
        0
    } else {
        fx_isqrt_spec(a * (FX_FRAC as int))
    }
}

/// The floor square root squared never exceeds its argument, and the next
/// square is already above it.
pub proof fn lemma_isqrt_bounds(n: int)
    requires
        n >= 0,
    ensures
        0 <= fx_isqrt_spec(n),
        fx_isqrt_spec(n) * fx_isqrt_spec(n) <= n,
        n < (fx_isqrt_spec(n) + 1) * (fx_isqrt_spec(n) + 1),
    decreases n,
{
    if n < 1 {
        assert(fx_isqrt_spec(n) == 0);
        assert(n < (0 + 1) * (0 + 1)) by (nonlinear_arith)
            requires
                n < 1;
    } else if n < 4 {
        assert(fx_isqrt_spec(n) == 1);
        assert(n < (1 + 1) * (1 + 1)) by (nonlinear_arith)
            requires
                n < 4;
    } else {
        lemma_isqrt_bounds(n / 4);
        let s = fx_isqrt_spec(n / 4);
        let r = 2 * s;
        assert(s * s <= n / 4 && n / 4 < (s + 1) * (s + 1));
        assert(4 * (n / 4) <= n < 4 * (n / 4) + 4) by (nonlinear_arith);
        assert(r * r == 4 * (s * s)) by (nonlinear_arith)
            requires
                r == 2 * s;
        assert(r * r <= n) by (nonlinear_arith)
            requires
                r == 2 * s && s * s <= n / 4 && 4 * (n / 4) <= n;
        assert((r + 2) * (r + 2) == 4 * ((s + 1) * (s + 1))) by (nonlinear_arith)
            requires
                r == 2 * s;
        assert(n < (r + 2) * (r + 2)) by (nonlinear_arith)
            requires
                r == 2 * s && n / 4 < (s + 1) * (s + 1) && n < 4 * (n / 4) + 4;
        let q = fx_isqrt_spec(n);
        if (r + 1) * (r + 1) <= n {
            assert(q == r + 1);
            assert(n < (q + 1) * (q + 1));
        } else {
            assert(q == r);
            assert(n < (q + 1) * (q + 1));
        }
    }
}

/// Two integers that bracket `n` the way a floor square root does are equal.
pub proof fn lemma_isqrt_unique(n: int, r: int)
    requires
        n >= 0,
        r >= 0,
        r * r <= n,
        n < (r + 1) * (r + 1),
    ensures
        r == fx_isqrt_spec(n),
{
    lemma_isqrt_bounds(n);
    let s = fx_isqrt_spec(n);
    if r < s {
        assert((r + 1) * (r + 1) <= s * s) by (nonlinear_arith)
            requires
                0 <= r < s;
    }
    if s < r {
        assert((s + 1) * (s + 1) <= r * r) by (nonlinear_arith)
            requires
                0 <= s < r;
    }
}

/// The smaller of two fixed-point values.
pub open spec fn min2_spec(a: i64, b: i64) -> i64 {
    if a < b {
        a
    } else {
        b
    }
}

/// The larger of two fixed-point values.
pub open spec fn max2_spec(a: i64, b: i64) -> i64 {
    if a > b {
        a
    } else {
        b
    }
}

/// The smaller of two fixed-point values.
pub fn min2(a: i64, b: i64) -> (r: i64)
    ensures
        r == min2_spec(a, b),
{
    if a < b {
        a
    } else {
        b
    }
}

/// The larger of two fixed-point values.
pub fn max2(a: i64, b: i64) -> (r: i64)
    ensures
        r == max2_spec(a, b),
{
    if a > b {
        a
    } else {
        b
    }
}

/// Linear remapping of `x` from the segment `(x0, y0) .. (x1, y1)`:
/// `y0 + (x - x0) * (y1 - y0) / (x1 - x0)`, or `y0` for an empty segment.
pub open spec fn interpolate_lin_spec(x: int, x0: int, y0: int, x1: int, y1: int) -> int {
    if x1 == x0 {
        y0
    } else {
        fx_add_spec(
            y0,
            fx_div_spec(fx_mul_spec(fx_sub_spec(x, x0), fx_sub_spec(y1, y0)), fx_sub_spec(x1, x0)),
        )
    }
}

/// Linear remapping of `x` from the segment `(x0, y0) .. (x1, y1)`.
pub fn interpolate_lin(x: i64, x0: i64, y0: i64, x1: i64, y1: i64) -> (r: i64)
    ensures
        r as int == interpolate_lin_spec(x as int, x0 as int, y0 as int, x1 as int, y1 as int),
{
    if x1 == x0 {
        y0
    } else {
        fx_add(y0, fx_div(fx_mul(fx_sub(x, x0), fx_sub(y1, y0)), fx_sub(x1, x0)))
    }
}

/// The fixed-point square root is nonnegative and stays inside the
/// fixed-point range for arguments inside it.
pub proof fn lemma_fx_sqrt_range(a: int)
    ensures
        0 <= fx_sqrt_spec(a),
        a <= FX_LIM as int ==> fx_sqrt_spec(a) <= FX_LIM as int,
{
    if a <= 0 {
    } else {
        lemma_isqrt_bounds(a * (FX_FRAC as int));
        let r = fx_isqrt_spec(a * (FX_FRAC as int));
        if a <= FX_LIM as int {
            assert(r <= FX_LIM as int) by (nonlinear_arith)
                requires
                    r >= 0 && r * r <= a * (FX_FRAC as int) && a <= FX_LIM as int;
        }
    }
}

/// Clamp an `i128` into the fixed-point range.
fn fx_clamp_i128(v: i128) -> (r: i64)
    ensures
        r as int == fx_sat(v as int),
{
    if v > FX_LIM as i128 {
        FX_LIM
    } else if v < -(FX_LIM as i128) {
        -FX_LIM
    } else {
        v as i64
    }
}

/// Saturating fixed-point addition.
pub fn fx_add(a: i64, b: i64) -> (r: i64)
    ensures
        r as int == fx_add_spec(a as int, b as int),
{
    fx_clamp_i128(a as i128 + b as i128)
}

/// Saturating fixed-point subtraction.
pub fn fx_sub(a: i64, b: i64) -> (r: i64)
    ensures
        r as int == fx_sub_spec(a as int, b as int),
{
    fx_clamp_i128(a as i128 - b as i128)
}

/// Saturating fixed-point negation.
pub fn fx_neg(a: i64) -> (r: i64)
    ensures
        r as int == fx_neg_spec(a as int),
{
    fx_clamp_i128(-(a as i128))
}

/// The magnitude of an `i64` as a `u128`.
fn fx_mag(a: i64) -> (r: u128)
    ensures
        r as int == fx_abs(a as int),
{
    if a >= 0 {
        a as u128
    } else {
        (-(a as i128)) as u128
    }
}

/// Reassemble a sign and a magnitude into a clamped fixed-point value.
fn fx_from_sign_mag(neg: bool, m: u128) -> (r: i64)
    ensures
        r as int == fx_sat(if neg { -(m as int) } else { m as int }),
{
    if m > FX_LIM as u128 {
        if neg {
            -FX_LIM
        } else {
            FX_LIM
        }
    } else {
        if neg {
            -(m as i64)
        } else {
            m as i64
        }
    }
}

/// The magnitude of a product is the product of the magnitudes, and its sign
/// is negative exactly when the factors' signs differ (unless it is zero).
proof fn lemma_mul_sign_mag(a: int, b: int)
    ensures
        fx_abs(a * b) == fx_abs(a) * fx_abs(b),
        a * b == if (a < 0) != (b < 0) { -(fx_abs(a) * fx_abs(b)) } else { fx_abs(a) * fx_abs(b) },
{
    assert(fx_abs(a * b) == fx_abs(a) * fx_abs(b)) by (nonlinear_arith);
    assert(a * b == if (a < 0) != (b < 0) {
        -(fx_abs(a) * fx_abs(b))
    } else {
        fx_abs(a) * fx_abs(b)
    }) by (nonlinear_arith);
}

/// Saturating fixed-point multiplication.
pub fn fx_mul(a: i64, b: i64) -> (r: i64)
    ensures
        r as int == fx_mul_spec(a as int, b as int),
{
    let neg: bool = (a < 0) != (b < 0);
    let ma: u128 = fx_mag(a);
    let mb: u128 = fx_mag(b);
    proof {
        assert(ma * mb <= 0x8000_0000_0000_0000u128 * 0x8000_0000_0000_0000u128)
            by (nonlinear_arith)
            requires
                ma <= 0x8000_0000_0000_0000u128 && mb <= 0x8000_0000_0000_0000u128;
    }
    let p: u128 = ma * mb;
    let q: u128 = p / (FX_FRAC as u128);
    proof {
        lemma_mul_sign_mag(a as int, b as int);
        let ab = (a as int) * (b as int);
        assert(q as int == fx_abs(ab) / (FX_FRAC as int));
        if ab == 0 {
            assert(q == 0);
        }
        assert(fx_div_trunc(ab, FX_FRAC as int) == if neg && ab != 0 {
            -(q as int)
        } else {
            q as int
        });
        if ab == 0 {
            assert(fx_sat(if neg { -(q as int) } else { q as int }) == fx_mul_spec(
                a as int,
                b as int,
            ));
        }
    }
    fx_from_sign_mag(neg, q)
}

/// Saturating fixed-point division; returns zero for a zero divisor.
pub fn fx_div(a: i64, b: i64) -> (r: i64)
    ensures
        r as int == fx_div_spec(a as int, b as int),
{
    if b == 0 {
        return 0;
    }
    let neg: bool = (a < 0) != (b < 0);
    let ma: u128 = fx_mag(a);
    let mb: u128 = fx_mag(b);
    proof {
        assert(ma * (FX_FRAC as u128) <= 0x8000_0000_0000_0000u128 * 0x1_0000_0000u128)
            by (nonlinear_arith)
            requires
                ma <= 0x8000_0000_0000_0000u128;
    }
    let p: u128 = ma * (FX_FRAC as u128);
    let q: u128 = p / mb;
    proof {
        lemma_mul_sign_mag(a as int, FX_FRAC as int);
        let n = (a as int) * (FX_FRAC as int);
        assert(fx_abs(n) == ma as int * (FX_FRAC as int));
        assert(q as int == fx_abs(n) / fx_abs(b as int));
        assert(fx_div_trunc(n, b as int) == if (n >= 0) == (b > 0) {
            q as int
        } else {
            -(q as int)
        });
        if n == 0 {
            assert(q == 0);
        }
    }
    fx_from_sign_mag(neg, q)
}

/// Saturating fixed-point square root: zero for nonpositive input, otherwise
/// the floor square root of `a / FX_FRAC` in fixed point.
pub fn fx_sqrt(a: i64) -> (r: i64)
    ensures
        r as int == fx_sqrt_spec(a as int),
{
    if a <= 0 {
        return 0;
    }
    proof {
        assert((a as u128) * (FX_FRAC as u128) < 0x8000_0000_0000_0000u128 * 0x1_0000_0000u128)
            by (nonlinear_arith)
            requires
                (a as u128) < 0x8000_0000_0000_0000u128;
    }
    let n: u128 = (a as u128) * (FX_FRAC as u128);
    let mut lo: u128 = 0;
    let mut hi: u128 = 0x1_0000_0000_0000u128;
    proof {
        assert(hi * hi > n) by (nonlinear_arith)
            requires
                hi == 0x1_0000_0000_0000u128 && n < 0x8000_0000_0000_0000u128 * 0x1_0000_0000u128;
    }
    while lo + 1 < hi
        invariant
            lo < hi,
            hi <= 0x1_0000_0000_0000u128,
            (lo as int) * (lo as int) <= n as int,
            (n as int) < (hi as int) * (hi as int),
        decreases hi - lo,
    {
        let mid: u128 = lo + (hi - lo) / 2;
        proof {
            assert(mid * mid <= 0x1_0000_0000_0000u128 * 0x1_0000_0000_0000u128)
                by (nonlinear_arith)
                requires
                    mid <= 0x1_0000_0000_0000u128;
        }
        if mid * mid <= n {
            lo = mid;
        } else {
            hi = mid;
        }
    }
    proof {
        lemma_isqrt_unique(n as int, lo as int);
        assert((a as int) * (FX_FRAC as int) == n as int);
        assert(lo as int <= 0x1_0000_0000_0000int) by (nonlinear_arith)
            requires
                (lo as int) * (lo as int) <= n as int && (n as int) < 0x1_0000_0000_0000int
                    * 0x1_0000_0000_0000int && lo >= 0;
    }
    lo as i64
}

} // verus!
