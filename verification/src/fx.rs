//! Signed 64-bit fixed-point arithmetic with 16 fractional bits.
//!
//! Every operation is total: results that would overflow saturate to the
//! `i64` range, and division by zero yields zero. Each executable operation
//! is specified exactly by a spec-level counterpart, so higher layers can
//! state their behaviour precisely.

use vstd::prelude::*;
use vstd::arithmetic::div_mod::lemma_div_nonincreasing;

verus! {

/// A fixed-point number: the real value is `raw / 65536`.
pub type Fx = i64;

/// The fixed-point representation of 1.
pub const FX_ONE: i64 = 65536;

/// The fixed-point representation of 1/2.
pub const FX_HALF: i64 = 32768;

/// The fixed-point representation of 2.
pub const FX_TWO: i64 = 131072;

/// The fixed-point representation of 6.
pub const FX_SIX: i64 = 393216;

/// The fixed-point representation of pi, rounded to the nearest unit.
pub const FX_PI: i64 = 205887;

/// The fixed-point representation of 2*pi, rounded to the nearest unit.
pub const FX_TAU: i64 = 411775;

/// The fixed-point representation of pi/2, rounded to the nearest unit.
pub const FX_HALF_PI: i64 = 102944;

/// Clamp a mathematical integer into the `i64` range.
pub open spec fn sat64(x: int) -> int {
    if x < i64::MIN as int {
        i64::MIN as int
    } else if x > i64::MAX as int {
        i64::MAX as int
    } else {
        x
    }
}

/// Absolute value of a mathematical integer.
pub open spec fn abs_i(x: int) -> int {
    if x < 0 {
        -x
    } else {
        x
    }
}

/// Division truncating toward zero, with quotient zero for divisor zero.
pub open spec fn tdiv(a: int, b: int) -> int {
    if b == 0 {
        0
    } else if (a < 0) != (b < 0) {
        -(abs_i(a) / abs_i(b))
    } else {
        abs_i(a) / abs_i(b)
    }
}

/// Saturating fixed-point addition.
pub open spec fn fx_add_s(a: int, b: int) -> int {
    sat64(a + b)
}

/// Saturating fixed-point subtraction.
pub open spec fn fx_sub_s(a: int, b: int) -> int {
    sat64(a - b)
}

/// Saturating fixed-point negation.
pub open spec fn fx_neg_s(a: int) -> int {
    sat64(-a)
}

/// Saturating fixed-point multiplication: the exact product rescaled by
/// 65536, truncated toward zero.
pub open spec fn fx_mul_s(a: int, b: int) -> int {
    sat64(tdiv(a * b, 65536))
}

/// Saturating fixed-point division: zero for divisor zero, otherwise the
/// rescaled quotient truncated toward zero.
pub open spec fn fx_div_s(a: int, b: int) -> int {
    if b == 0 {
        0
    } else {
        sat64(tdiv(a * 65536, b))
    }
}

proof fn lemma_mul_bound(a: int, b: int, m: int)
    by (nonlinear_arith)
    requires
        -m <= a <= m,
        -m <= b <= m,
        0 <= m,
    ensures
        -(m * m) <= a * b <= m * m,
{
}

fn clamp128(x: i128) -> (r: i64)
    ensures
        r == sat64(x as int),
{
    if x > i64::MAX as i128 {
        i64::MAX
    } else if x < i64::MIN as i128 {
        i64::MIN
    } else {
        x as i64
    }
}

/// Saturating addition.
pub fn fx_add(a: Fx, b: Fx) -> (r: Fx)
    ensures
        r == fx_add_s(a as int, b as int),
{
    clamp128(a as i128 + b as i128)
}

/// Saturating subtraction.
pub fn fx_sub(a: Fx, b: Fx) -> (r: Fx)
    ensures
        r == fx_sub_s(a as int, b as int),
{
    clamp128(a as i128 - b as i128)
}

/// Saturating negation.
pub fn fx_neg(a: Fx) -> (r: Fx)
    ensures
        r == fx_neg_s(a as int),
{
    clamp128(-(a as i128))
}

/// Absolute value, saturating at `i64::MAX` for `i64::MIN`.
pub fn fx_abs(a: Fx) -> (r: Fx)
    ensures
        r == sat64(abs_i(a as int)),
{
    if a < 0 {
        clamp128(-(a as i128))
    } else {
        a
    }
}

/// Saturating fixed-point multiplication.
pub fn fx_mul(a: Fx, b: Fx) -> (r: Fx)
    ensures
        r == fx_mul_s(a as int, b as int),
{
    proof {
        lemma_mul_bound(a as int, b as int, 0x8000_0000_0000_0000);
    }
    let p: i128 = (a as i128) * (b as i128);
    let neg: bool = p < 0;
    let mag: u128 = if neg {
        (-p) as u128
    } else {
        p as u128
    };
    let q: u128 = mag / 65536;
    proof {
        lemma_div_nonincreasing(mag as int, 65536);
    }
    let rr: i128 = if neg {
        -(q as i128)
    } else {
        q as i128
    };
    clamp128(rr)
}

/// Saturating fixed-point division; zero when the divisor is zero.
pub fn fx_div(a: Fx, b: Fx) -> (r: Fx)
    ensures
        r == fx_div_s(a as int, b as int),
{
    if b == 0 {
        return 0;
    }
    let p: i128 = (a as i128) * 65536;
    let bb: i128 = b as i128;
    let pneg: bool = p < 0;
    let bneg: bool = bb < 0;
    let pm: u128 = if pneg {
        (-p) as u128
    } else {
        p as u128
    };
    let bm: u128 = if bneg {
        (-bb) as u128
    } else {
        bb as u128
    };
    let q: u128 = pm / bm;
    proof {
        lemma_div_nonincreasing(pm as int, bm as int);
    }
    let rr: i128 = if pneg != bneg {
        -(q as i128)
    } else {
        q as i128
    };
    clamp128(rr)
}

/// Convert a small integer to fixed point exactly.
pub fn fx_from(n: i32) -> (r: Fx)
    ensures
        r == n * 65536,
{
    (n as i64) * 65536
}

/// The smaller of two fixed-point numbers.
pub fn fx_min(a: Fx, b: Fx) -> (r: Fx)
    ensures
        r == if (a as int) <= (b as int) { a as int } else { b as int },
{
    if a <= b {
        a
    } else {
        b
    }
}

/// The larger of two fixed-point numbers.
pub fn fx_max(a: Fx, b: Fx) -> (r: Fx)
    ensures
        r == if (a as int) >= (b as int) { a as int } else { b as int },
{
    if a >= b {
        a
    } else {
        b
    }
}

/// Clamp `a` into `[lo, hi]`; for an inverted range the upper bound wins.
pub fn fx_clamp(a: Fx, lo: Fx, hi: Fx) -> (r: Fx)
    ensures
        r == if (a as int) > (hi as int) {
            hi as int
        } else if (a as int) < (lo as int) {
            lo as int
        } else {
            a as int
        },
{
    if a > hi {
        hi
    } else if a < lo {
        lo
    } else {
        a
    }
}

/// `r` is an integer square root of `n`.
pub open spec fn is_sqrt(r: int, n: int) -> bool {
    0 <= r && r * r <= n && n < (r + 1) * (r + 1)
}

/// The integer square root of a non-negative integer.
pub open spec fn sqrt_i(n: int) -> int {
    choose|r: int| is_sqrt(r, n)
}

pub proof fn lemma_sqrt_unique(r1: int, r2: int, n: int)
    by (nonlinear_arith)
    requires
        0 <= r1,
        r1 * r1 <= n,
        n < (r1 + 1) * (r1 + 1),
        0 <= r2,
        r2 * r2 <= n,
        n < (r2 + 1) * (r2 + 1),
    ensures
        r1 == r2,
{
}

/// The fixed-point square root: zero for non-positive inputs, otherwise the
/// integer square root of the input rescaled by 65536.
pub open spec fn fx_sqrt_s(a: int) -> int {
    if a <= 0 {
        0
    } else {
        sqrt_i(a * 65536)
    }
}

/// Fixed-point square root by binary search.
pub fn fx_sqrt(a: Fx) -> (r: Fx)
    ensures
        r == fx_sqrt_s(a as int),
        0 <= r,
        a > 0 ==> is_sqrt(r as int, a * 65536),
{
    if a <= 0 {
        return 0;
    }
    let n: u128 = (a as u128) * 65536;
    let mut lo: u64 = 0;
    let mut hi: u64 = 0x1_0000_0000_0000;
    proof {
        assert((n as int) < 0x1_0000_0000_0000 * 0x1_0000_0000_0000);
    }
    while lo + 1 < hi
        invariant
            (lo as int) * (lo as int) <= n as int,
            (n as int) < (hi as int) * (hi as int),
            lo < hi <= 0x1_0000_0000_0000,
        decreases hi - lo,
    {
        let mid: u64 = lo + (hi - lo) / 2;
        proof {
            lemma_mul_bound(mid as int, mid as int, 0x1_0000_0000_0000);
        }
        let sq: u128 = (mid as u128) * (mid as u128);
        if sq <= n {
            lo = mid;
        } else {
            hi = mid;
        }
    }
    proof {
        assert(is_sqrt(lo as int, n as int));
        assert(exists|r: int| is_sqrt(r, n as int));
        lemma_sqrt_unique(lo as int, sqrt_i(n as int), n as int);
    }
    lo as i64
}

/// The number of whole units a positive fixed-point value covers, rounded
/// up; zero for non-positive values.
pub open spec fn fx_ceil_units_s(a: int) -> int {
    if a <= 0 {
        0
    } else {
        (a + 65535) / 65536
    }
}

/// Rounds a fixed-point value up to a whole number of units.
pub fn fx_ceil_units(a: Fx) -> (r: i64)
    ensures
        r == fx_ceil_units_s(a as int),
        0 <= r,
{
    if a <= 0 {
        0
    } else {
        (((a as u64) + 65535) / 65536) as i64
    }
}

/// Reduce an angle to `[0, FX_TAU)`; equal to the Euclidean remainder of
/// the angle by `FX_TAU`.
pub open spec fn fx_reduce_s(a: int) -> int {
    if a >= 0 {
        a % 411775
    } else {
        let m = (-a) % 411775;
        if m == 0 {
            0
        } else {
            411775 - m
        }
    }
}

/// Degree-6 cosine polynomial on `[0, FX_HALF_PI]`:
/// `1 - x^2*(1/2 - x^2*(1/24 - x^2/720))` in fixed point.
pub open spec fn cos_poly_s(x: int) -> int {
    let x2 = fx_mul_s(x, x);
    fx_sub_s(65536, fx_mul_s(x2, fx_sub_s(32768, fx_mul_s(x2, fx_sub_s(2731, fx_mul_s(x2, 91))))))
}

/// Degree-7 sine polynomial on `[0, FX_HALF_PI]`:
/// `x*(1 - x^2*(1/6 - x^2*(1/120 - x^2/5040)))` in fixed point.
pub open spec fn sin_poly_s(x: int) -> int {
    let x2 = fx_mul_s(x, x);
    fx_mul_s(
        x,
        fx_sub_s(65536, fx_mul_s(x2, fx_sub_s(10923, fx_mul_s(x2, fx_sub_s(546, fx_mul_s(x2, 13)))))),
    )
}

/// Fixed-point cosine: quadrant reduction, then the polynomial.
pub open spec fn fx_cos_s(a: int) -> int {
    let r = fx_reduce_s(a);
    let x = if r <= 205887 {
        r
    } else {
        411775 - r
    };
    if x <= 102944 {
        cos_poly_s(x)
    } else {
        fx_neg_s(cos_poly_s(205887 - x))
    }
}

/// Fixed-point sine: quadrant reduction, then the polynomial.
pub open spec fn fx_sin_s(a: int) -> int {
    let r = fx_reduce_s(a);
    let x = if r <= 205887 {
        r
    } else {
        411775 - r
    };
    let s = if x <= 102944 {
        sin_poly_s(x)
    } else {
        sin_poly_s(205887 - x)
    };
    if r <= 205887 {
        s
    } else {
        fx_neg_s(s)
    }
}

fn fx_reduce(a: i64) -> (r: i64)
    ensures
        r == fx_reduce_s(a as int),
        0 <= r < 411775,
{
    if a >= 0 {
        ((a as u64) % 411775) as i64
    } else {
        let m: u64 = (((-(a as i128)) as u128) % 411775) as u64;
        if m == 0 {
            0
        } else {
            411775 - (m as i64)
        }
    }
}

fn cos_poly(x: i64) -> (r: i64)
    ensures
        r == cos_poly_s(x as int),
{
    let x2 = fx_mul(x, x);
    fx_sub(65536, fx_mul(x2, fx_sub(32768, fx_mul(x2, fx_sub(2731, fx_mul(x2, 91))))))
}

fn sin_poly(x: i64) -> (r: i64)
    ensures
        r == sin_poly_s(x as int),
{
    let x2 = fx_mul(x, x);
    fx_mul(x, fx_sub(65536, fx_mul(x2, fx_sub(10923, fx_mul(x2, fx_sub(546, fx_mul(x2, 13)))))))
}

/// Fixed-point cosine of an angle in fixed-point radians.
pub fn fx_cos(a: Fx) -> (r: Fx)
    ensures
        r == fx_cos_s(a as int),
{
    let red = fx_reduce(a);
    let x: i64 = if red <= FX_PI {
        red
    } else {
        FX_TAU - red
    };
    if x <= FX_HALF_PI {
        cos_poly(x)
    } else {
        fx_neg(cos_poly(FX_PI - x))
    }
}

/// Fixed-point sine of an angle in fixed-point radians.
pub fn fx_sin(a: Fx) -> (r: Fx)
    ensures
        r == fx_sin_s(a as int),
{
    let red = fx_reduce(a);
    let x: i64 = if red <= FX_PI {
        red
    } else {
        FX_TAU - red
    };
    let s = if x <= FX_HALF_PI {
        sin_poly(x)
    } else {
        sin_poly(FX_PI - x)
    };
    if red <= FX_PI {
        s
    } else {
        fx_neg(s)
    }
}

} // verus!
