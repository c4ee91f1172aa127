//! Fixed-point scalar arithmetic in micro-units.
//!
//! A scalar is an `i64` holding `SCALE` times its real value, so one
//! whole unit is `1_000_000`.  Every operation is total: results that
//! would not fit in an `i64` are clipped to the nearest representable
//! value, and that clipping is part of the stated meaning of each
//! operation.

use vstd::prelude::*;

verus! {

/// Number of fixed-point micro-units in one whole unit.
pub const SCALE: i64 = 1_000_000;

/// Clips a mathematical integer to the `i64` range.
pub open spec fn clip(v: int) -> int {
    if v > i64::MAX as int {
        i64::MAX as int
    } else if v < i64::MIN as int {
        i64::MIN as int
    } else {
        v
    }
}

/// Magnitude of a mathematical integer.
pub open spec fn abs_int(v: int) -> int {
    if v < 0 {
        -v
    } else {
        v
    }
}

/// Quotient of `a` by `b` rounded toward zero, the rounding rule of the
/// executable operations; `b` must not be zero to be meaningful.
pub open spec fn trunc_div(a: int, b: int) -> int {
    if (a < 0) != (b < 0) {
        -(abs_int(a) / abs_int(b))
    } else {
        abs_int(a) / abs_int(b)
    }
}

/// Fixed-point product: `a * b / SCALE`, rounded toward zero and clipped.
pub open spec fn fx_mul(a: int, b: int) -> int {
    clip(trunc_div(a * b, SCALE as int))
}

/// Truncated division agrees with dividing magnitudes and reattaching
/// the sign of the product.
proof fn lemma_trunc_div_product(a: int, b: int, d: int)
    requires
        d > 0,
    ensures
        trunc_div(a * b, d) == if (a < 0) != (b < 0) {
            -(abs_int(a) * abs_int(b) / d)
        } else {
            abs_int(a) * abs_int(b) / d
        },
{
    assert(abs_int(a * b) == abs_int(a) * abs_int(b)) by (nonlinear_arith);
    if a == 0 || b == 0 {
        assert(a * b == 0) by (nonlinear_arith)
            requires
                a == 0 || b == 0,
        ;
        assert(abs_int(a) * abs_int(b) == 0) by (nonlinear_arith)
            requires
                abs_int(a) == 0 || abs_int(b) == 0,
        ;
        assert(0int / d == 0) by (nonlinear_arith)
            requires
                d > 0,
        ;
    } else if (a < 0) != (b < 0) {
        assert(a * b < 0) by (nonlinear_arith)
            requires
                a != 0 && b != 0 && ((a < 0) != (b < 0)),
        ;
    } else {
        assert(a * b > 0) by (nonlinear_arith)
            requires
                a != 0 && b != 0 && ((a < 0) == (b < 0)),
        ;
    }
}

/// Clips an `i128` value into an `i64`.
pub fn clip64(v: i128) -> (r: i64)
    ensures
        r as int == clip(v as int),
{
    if v > i64::MAX as i128 {
        i64::MAX
    } else if v < i64::MIN as i128 {
        i64::MIN
    } else {
        v as i64
    }
}

/// Fixed-point multiplication of two micro-unit scalars.
pub fn mul_fx(a: i64, b: i64) -> (r: i64)
    ensures
        r as int == fx_mul(a as int, b as int),
{
    let neg: bool = (a < 0) != (b < 0);
    let ma: u128 = abs_u128(a);
    let mb: u128 = abs_u128(b);
    proof {
        assert(ma * mb <= 0x8000_0000_0000_0000u128 * 0x8000_0000_0000_0000u128) by (nonlinear_arith)
            requires
                ma <= 0x8000_0000_0000_0000u128 && mb <= 0x8000_0000_0000_0000u128,
        ;
    }
    let prod: u128 = ma * mb;
    let q: u128 = prod / (SCALE as u128);
    proof {
        lemma_trunc_div_product(a as int, b as int, SCALE as int);
    }
    signed_of(neg, q)
}

/// Magnitude of an `i64`, exact even for `i64::MIN`.
pub fn abs_u128(a: i64) -> (r: u128)
    ensures
        r as int == abs_int(a as int),
{
    if a < 0 {
        ((-(a as i128)) as u128)
    } else {
        a as u128
    }
}

/// Rebuilds a signed clipped value from a sign and a magnitude.
fn signed_of(neg: bool, mag: u128) -> (r: i64)
    ensures
        r as int == clip(if neg { -(mag as int) } else { mag as int }),
{
    if neg {
        if mag > (i64::MAX as u128) + 1 {
            i64::MIN
        } else {
            clip64(-(mag as i128))
        }
    } else {
        if mag > i64::MAX as u128 {
            i64::MAX
        } else {
            mag as i64
        }
    }
}

/// Clipped sum of two micro-unit scalars.
pub open spec fn fx_add(a: int, b: int) -> int {
    clip(a + b)
}

/// Clipped difference of two micro-unit scalars.
pub open spec fn fx_sub(a: int, b: int) -> int {
    clip(a - b)
}

/// Clipped negation of a micro-unit scalar.
pub open spec fn fx_neg(a: int) -> int {
    clip(-a)
}

pub fn add_fx(a: i64, b: i64) -> (r: i64)
    ensures
        r as int == fx_add(a as int, b as int),
{
    clip64(a as i128 + b as i128)
}

pub fn sub_fx(a: i64, b: i64) -> (r: i64)
    ensures
        r as int == fx_sub(a as int, b as int),
{
    clip64(a as i128 - b as i128)
}

pub fn neg_fx(a: i64) -> (r: i64)
    ensures
        r as int == fx_neg(a as int),
{
    clip64(-(a as i128))
}

/// Fixed-point quotient: `a * SCALE / b`, rounded toward zero and
/// clipped; by convention the quotient by zero is zero.
pub open spec fn fx_div(a: int, b: int) -> int {
    if b == 0 {
        0
    } else {
        clip(trunc_div(a * SCALE as int, b))
    }
}

/// Truncated division of a scaled value keeps the magnitude-quotient
/// form that the executable code computes.
proof fn lemma_trunc_div_scaled(a: int, s: int, b: int)
    requires
        s > 0,
        b != 0,
    ensures
        trunc_div(a * s, b) == if (a < 0) != (b < 0) {
            -(abs_int(a) * s / abs_int(b))
        } else {
            abs_int(a) * s / abs_int(b)
        },
{
    assert(abs_int(a * s) == abs_int(a) * s) by (nonlinear_arith)
        requires
            s > 0,
    ;
    if a == 0 {
        assert(a * s == 0) by (nonlinear_arith)
            requires
                a == 0,
        ;
        assert(0int / abs_int(b) == 0) by (nonlinear_arith)
            requires
                abs_int(b) > 0,
        ;
        assert(abs_int(a) * s == 0) by (nonlinear_arith)
            requires
                abs_int(a) == 0,
        ;
    } else if a < 0 {
        assert(a * s < 0) by (nonlinear_arith)
            requires
                a < 0 && s > 0,
        ;
    } else {
        assert(a * s > 0) by (nonlinear_arith)
            requires
                a > 0 && s > 0,
        ;
    }
}

/// Fixed-point division of two micro-unit scalars.
pub fn div_fx(a: i64, b: i64) -> (r: i64)
    ensures
        r as int == fx_div(a as int, b as int),
{
    if b == 0 {
        return 0;
    }
    let neg: bool = (a < 0) != (b < 0);
    let ma: u128 = abs_u128(a);
    let mb: u128 = abs_u128(b);
    proof {
        assert(ma * (SCALE as u128) <= 0x8000_0000_0000_0000u128 * 1_000_000u128) by (nonlinear_arith)
            requires
                ma <= 0x8000_0000_0000_0000u128,
        ;
    }
    let scaled: u128 = ma * (SCALE as u128);
    let q: u128 = scaled / mb;
    proof {
        lemma_trunc_div_scaled(a as int, SCALE as int, b as int);
    }
    signed_of(neg, q)
}

/// Truncated division by a positive plain integer (not itself in
/// micro-units), rounded toward zero.
pub fn div_int(a: i64, d: i64) -> (r: i64)
    requires
        d > 0,
    ensures
        r as int == trunc_div(a as int, d as int),
        abs_int(r as int) <= abs_int(a as int),
{
    let neg: bool = a < 0;
    let ma: u128 = abs_u128(a);
    let q: u128 = ma / (d as u128);
    proof {
        assert(ma / (d as u128) <= ma) by (nonlinear_arith)
            requires
                d as u128 >= 1,
        ;
    }
    let r = signed_of(neg, q);
    proof {
        if a >= 0 {
            assert(trunc_div(a as int, d as int) == abs_int(a as int) / (d as int));
        }
    }
    r
}

/// The non-negative square root of `n`, rounded down.
pub open spec fn sqrt_floor(n: int) -> int {
    choose|r: int| r >= 0 && #[trigger] (r * r) <= n && (r + 1) * (r + 1) > n
}

/// Every non-negative integer has a rounded-down square root, and it
/// is what `sqrt_floor` denotes.
pub proof fn lemma_sqrt_floor(n: int)
    requires
        n >= 0,
    ensures
        sqrt_floor(n) >= 0,
        sqrt_floor(n) * sqrt_floor(n) <= n,
        (sqrt_floor(n) + 1) * (sqrt_floor(n) + 1) > n,
    decreases n,
{
    if n == 0 {
        assert(0 >= 0 && 0 * 0 <= 0 && (0 + 1) * (0 + 1) > 0) by (nonlinear_arith);
    } else {
        lemma_sqrt_floor(n - 1);
        let p = sqrt_floor(n - 1);
        if (p + 1) * (p + 1) <= n {
            // then n == (p + 1) * (p + 1), and p + 1 is the root
            let r = p + 1;
            assert((r + 1) * (r + 1) > r * r) by (nonlinear_arith)
                requires
                    r >= 0,
            ;
            assert(r >= 0 && r * r <= n && (r + 1) * (r + 1) > n);
        } else {
            assert(p >= 0 && p * p <= n && (p + 1) * (p + 1) > n);
        }
    }
}

/// Rounding a root down and the uniqueness of that root: two values
/// that both bracket `n` are equal.
pub proof fn lemma_sqrt_unique(n: int, r: int)
    requires
        n >= 0,
        r >= 0,
        r * r <= n,
        (r + 1) * (r + 1) > n,
    ensures
        r == sqrt_floor(n),
{
    lemma_sqrt_floor(n);
    let s = sqrt_floor(n);
    if r < s {
        assert((r + 1) * (r + 1) <= s * s) by (nonlinear_arith)
            requires
                0 <= r && r < s,
        ;
    } else if s < r {
        assert((s + 1) * (s + 1) <= r * r) by (nonlinear_arith)
            requires
                0 <= s && s < r,
        ;
    }
}

/// Integer square root, rounded down.
pub fn isqrt(n: u128) -> (r: u128)
    ensures
        r as int == sqrt_floor(n as int),
{
    if n == 0 {
        proof {
            lemma_sqrt_unique(0, 0);
        }
        return 0;
    }
    let mut lo: u128 = 0;
    let mut hi: u128 = 0xFFFF_FFFF_FFFF_FFFFu128;
    if hi * hi <= n {
        // n is so large that the largest 64-bit value is its root
        proof {
            assert((0xFFFF_FFFF_FFFF_FFFFu128 + 1) * (0xFFFF_FFFF_FFFF_FFFFu128 + 1)
                > 0xFFFF_FFFF_FFFF_FFFF_FFFF_FFFF_FFFF_FFFFu128) by (nonlinear_arith);
            lemma_sqrt_unique(n as int, hi as int);
        }
        return hi;
    }
    while lo + 1 < hi
        invariant
            lo < hi,
            lo as int * lo as int <= n as int,
            hi as int * hi as int > n as int,
            hi <= 0xFFFF_FFFF_FFFF_FFFFu128,
        decreases hi - lo,
    {
        let mid: u128 = lo + (hi - lo) / 2;
        proof {
            assert(mid * mid <= 0xFFFF_FFFF_FFFF_FFFFu128 * 0xFFFF_FFFF_FFFF_FFFFu128) by (nonlinear_arith)
                requires
                    mid <= 0xFFFF_FFFF_FFFF_FFFFu128,
            ;
        }
        if mid * mid <= n {
            lo = mid;
        } else {
            hi = mid;
        }
    }
    proof {
        lemma_sqrt_unique(n as int, lo as int);
    }
    lo
}

/// One full turn in micro-radians, rounded down.
pub const TAU: i64 = 6_283_185;

/// Half a turn in micro-radians, rounded down.
pub const HALF_TAU: i64 = 3_141_592;

/// An angle folded into `(HALF_TAU - TAU, HALF_TAU]`, one turn wide.
pub open spec fn angle_norm(x: int) -> int {
    let m = x % (TAU as int);
    if m > HALF_TAU as int {
        m - TAU as int
    } else {
        m
    }
}

/// Folds an angle in micro-radians into a window one turn wide around
/// zero, so that the series below are evaluated near their center.
pub fn reduce_angle(x: i64) -> (r: i64)
    ensures
        r as int == angle_norm(x as int),
        (HALF_TAU as int) - (TAU as int) < r as int <= HALF_TAU as int,
{
    let mx: u128 = abs_u128(x);
    let q0: u128 = mx / (TAU as u128);
    let m0: u128 = mx % (TAU as u128);
    proof {
        vstd::arithmetic::div_mod::lemma_fundamental_div_mod(mx as int, TAU as int);
        vstd::arithmetic::div_mod::lemma_mod_bound(mx as int, TAU as int);
    }
    let m: u64 = if x >= 0 {
        proof {
            vstd::arithmetic::div_mod::lemma_fundamental_div_mod_converse(
                x as int, TAU as int, q0 as int, m0 as int);
        }
        m0 as u64
    } else if m0 == 0 {
        proof {
            assert(x as int == -(q0 as int) * (TAU as int) + 0) by (nonlinear_arith)
                requires
                    x as int == -((q0 as int) * (TAU as int) + m0 as int) && m0 == 0,
            ;
            vstd::arithmetic::div_mod::lemma_fundamental_div_mod_converse(
                x as int, TAU as int, -(q0 as int), 0int);
        }
        0u64
    } else {
        proof {
            assert(x as int == (-(q0 as int) - 1) * (TAU as int) + ((TAU as u128 - m0) as int))
                by (nonlinear_arith)
                requires
                    x as int == -((q0 as int) * (TAU as int) + m0 as int)
                        && 0 < (m0 as int) && (m0 as int) < (TAU as int),
            ;
            vstd::arithmetic::div_mod::lemma_fundamental_div_mod_converse(
                x as int, TAU as int, -(q0 as int) - 1, (TAU as u128 - m0) as int);
        }
        (TAU as u128 - m0) as u64
    };
    if m > HALF_TAU as u64 {
        (m as i64) - TAU
    } else {
        m as i64
    }
}

/// Truncated power series for the sine of `y` micro-radians, for `y`
/// already folded near zero; terms through the fifteenth power.
pub open spec fn sin_poly(y: int) -> int {
    let y2 = fx_mul(y, y);
    let t7 = fx_sub(SCALE as int, trunc_div(y2, 210));
    let t6 = fx_sub(SCALE as int, trunc_div(fx_mul(y2, t7), 156));
    let t5 = fx_sub(SCALE as int, trunc_div(fx_mul(y2, t6), 110));
    let t4 = fx_sub(SCALE as int, trunc_div(fx_mul(y2, t5), 72));
    let t3 = fx_sub(SCALE as int, trunc_div(fx_mul(y2, t4), 42));
    let t2 = fx_sub(SCALE as int, trunc_div(fx_mul(y2, t3), 20));
    let t1 = fx_sub(SCALE as int, trunc_div(fx_mul(y2, t2), 6));
    fx_mul(y, t1)
}

/// Truncated power series for the cosine of `y` micro-radians, for `y`
/// already folded near zero; terms through the sixteenth power.
pub open spec fn cos_poly(y: int) -> int {
    let y2 = fx_mul(y, y);
    let t8 = fx_sub(SCALE as int, trunc_div(y2, 240));
    let t7 = fx_sub(SCALE as int, trunc_div(fx_mul(y2, t8), 182));
    let t6 = fx_sub(SCALE as int, trunc_div(fx_mul(y2, t7), 132));
    let t5 = fx_sub(SCALE as int, trunc_div(fx_mul(y2, t6), 90));
    let t4 = fx_sub(SCALE as int, trunc_div(fx_mul(y2, t5), 56));
    let t3 = fx_sub(SCALE as int, trunc_div(fx_mul(y2, t4), 30));
    let t2 = fx_sub(SCALE as int, trunc_div(fx_mul(y2, t3), 12));
    fx_sub(SCALE as int, trunc_div(fx_mul(y2, t2), 2))
}

/// The sine of an angle in micro-radians: the folded angle fed to the
/// truncated series.
pub open spec fn fx_sin(x: int) -> int {
    sin_poly(angle_norm(x))
}

/// The cosine of an angle in micro-radians.
pub open spec fn fx_cos(x: int) -> int {
    cos_poly(angle_norm(x))
}

/// The tangent of an angle in micro-radians; zero where the cosine
/// estimate vanishes, by the quotient-by-zero convention.
pub open spec fn fx_tan(x: int) -> int {
    fx_div(fx_sin(x), fx_cos(x))
}

/// Sine and cosine of an angle in micro-radians.
pub fn sincos(x: i64) -> (r: (i64, i64))
    ensures
        r.0 as int == fx_sin(x as int),
        r.1 as int == fx_cos(x as int),
{
    let y = reduce_angle(x);
    let y2 = mul_fx(y, y);
    let s7 = sub_fx(SCALE, div_int(y2, 210));
    let s6 = sub_fx(SCALE, div_int(mul_fx(y2, s7), 156));
    let s5 = sub_fx(SCALE, div_int(mul_fx(y2, s6), 110));
    let s4 = sub_fx(SCALE, div_int(mul_fx(y2, s5), 72));
    let s3 = sub_fx(SCALE, div_int(mul_fx(y2, s4), 42));
    let s2 = sub_fx(SCALE, div_int(mul_fx(y2, s3), 20));
    let s1 = sub_fx(SCALE, div_int(mul_fx(y2, s2), 6));
    let s = mul_fx(y, s1);
    let c8 = sub_fx(SCALE, div_int(y2, 240));
    let c7 = sub_fx(SCALE, div_int(mul_fx(y2, c8), 182));
    let c6 = sub_fx(SCALE, div_int(mul_fx(y2, c7), 132));
    let c5 = sub_fx(SCALE, div_int(mul_fx(y2, c6), 90));
    let c4 = sub_fx(SCALE, div_int(mul_fx(y2, c5), 56));
    let c3 = sub_fx(SCALE, div_int(mul_fx(y2, c4), 30));
    let c2 = sub_fx(SCALE, div_int(mul_fx(y2, c3), 12));
    let c = sub_fx(SCALE, div_int(mul_fx(y2, c2), 2));
    (s, c)
}

/// Tangent of an angle in micro-radians.
pub fn tan(x: i64) -> (r: i64)
    ensures
        r as int == fx_tan(x as int),
{
    let (s, c) = sincos(x);
    div_fx(s, c)
}

} // verus!
