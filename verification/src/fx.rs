//! Fixed-point scalar arithmetic.
//!
//! A scalar is an `i64` holding its value scaled by 2^16 (`FX_ONE` is 1.0).
//! Well-formed scalars stay within [-FX_LIM, FX_LIM] (about +/-32768.0), so
//! every product of two well-formed scalars fits in an `i64`. Operations
//! saturate to that range instead of overflowing: a numeric extreme degrades
//! to the nearest representable value rather than faulting.

use vstd::prelude::*;

verus! {

/// Number of fixed-point units per 1.0.
pub const FX_SCALE: i64 = 65536;
/// The scalar 1.0.
pub const FX_ONE: i64 = 65536;
/// The scalar 0.5.
pub const FX_HALF: i64 = 32768;
/// Magnitude bound for well-formed scalars (2^31 units, i.e. 32768.0).
pub const FX_LIM: i64 = 0x8000_0000;

/// A scalar is well formed when its magnitude is at most `FX_LIM`.
pub open spec fn fx_wf(a: i64) -> bool {
    -FX_LIM <= a <= FX_LIM
}

/// Saturation to the well-formed range.
pub open spec fn sat(v: int) -> int {
    if v > FX_LIM {
        FX_LIM as int
    } else if v < -FX_LIM {
        -FX_LIM as int
    } else {
        v
    }
}

/// Truncating (round-toward-zero) division, defined for a positive divisor.
pub open spec fn tdiv(a: int, b: int) -> int {
    if a >= 0 {
        a / b
    } else {
        -((-a) / b)
    }
}

/// Value of `a + b` under saturation.
pub open spec fn fx_add_s(a: int, b: int) -> int {
    sat(a + b)
}

/// Value of `a - b` under saturation.
pub open spec fn fx_sub_s(a: int, b: int) -> int {
    sat(a - b)
}

/// Value of the fixed-point product `a * b / 2^16` under saturation.
pub open spec fn fx_mul_s(a: int, b: int) -> int {
    sat(tdiv(a * b, FX_SCALE as int))
}

/// Magnitude of a scalar.
pub open spec fn fx_abs_s(a: int) -> int {
    if a >= 0 {
        a
    } else {
        -a
    }
}

/// Value of the fixed-point quotient `a / b` under saturation (b != 0).
pub open spec fn fx_div_s(a: int, b: int) -> int {
    if (a >= 0) == (b >= 0) {
        sat(fx_abs_s(a) * FX_SCALE / fx_abs_s(b))
    } else {
        sat(-(fx_abs_s(a) * FX_SCALE / fx_abs_s(b)))
    }
}

/// Clamp `v` into the saturation range.
pub fn fx_sat(v: i64) -> (r: i64)
    requires
        i64::MIN < v,
    ensures
        r == sat(v as int),
        fx_wf(r),
{
    if v > FX_LIM {
        FX_LIM
    } else if v < -FX_LIM {
        -FX_LIM
    } else {
        v
    }
}

/// Saturating fixed-point addition.
pub fn fx_add(a: i64, b: i64) -> (r: i64)
    requires
        fx_wf(a),
        fx_wf(b),
    ensures
        r == fx_add_s(a as int, b as int),
        fx_wf(r),
{
    fx_sat(a + b)
}

/// Saturating fixed-point subtraction.
pub fn fx_sub(a: i64, b: i64) -> (r: i64)
    requires
        fx_wf(a),
        fx_wf(b),
    ensures
        r == fx_sub_s(a as int, b as int),
        fx_wf(r),
{
    fx_sat(a - b)
}

/// Saturating fixed-point multiplication.
pub fn fx_mul(a: i64, b: i64) -> (r: i64)
    requires
        fx_wf(a),
        fx_wf(b),
    ensures
        r == fx_mul_s(a as int, b as int),
        fx_wf(r),
{
    proof {
        lemma_mul_bound(a as int, b as int);
    }
    let p: i64 = a * b;
    let q: i64 = p / FX_SCALE;
    fx_sat(q)
}

/// Saturating fixed-point division; the divisor must be nonzero.
pub fn fx_div(a: i64, b: i64) -> (r: i64)
    requires
        fx_wf(a),
        fx_wf(b),
        b != 0,
    ensures
        r == fx_div_s(a as int, b as int),
        fx_wf(r),
{
    let na: i64 = if a >= 0 { a } else { -a };
    let nb: i64 = if b >= 0 { b } else { -b };
    let q: i64 = (na * FX_SCALE) / nb;
    proof {
        vstd::arithmetic::div_mod::lemma_div_nonincreasing(na * FX_SCALE, nb as int);
        vstd::arithmetic::div_mod::lemma_div_pos_is_pos(na * FX_SCALE, nb as int);
    }
    if (a >= 0) == (b >= 0) {
        fx_sat(q)
    } else {
        fx_sat(-q)
    }
}

/// Magnitude of a scalar.
pub fn fx_abs(a: i64) -> (r: i64)
    requires
        fx_wf(a),
    ensures
        r == fx_abs_s(a as int),
        fx_wf(r),
{
    if a >= 0 {
        a
    } else {
        -a
    }
}

/// Negation of a scalar.
pub fn fx_neg(a: i64) -> (r: i64)
    requires
        fx_wf(a),
    ensures
        r == -a,
        fx_wf(r),
{
    -a
}

/// The smaller of two scalars.
pub fn fx_min(a: i64, b: i64) -> (r: i64)
    ensures
        r == if a <= b { a as int } else { b as int },
{
    if a <= b {
        a
    } else {
        b
    }
}

/// The larger of two scalars.
pub fn fx_max(a: i64, b: i64) -> (r: i64)
    ensures
        r == if a >= b { a as int } else { b as int },
{
    if a >= b {
        a
    } else {
        b
    }
}

/// Value of `v` clamped into [lo, hi].
pub open spec fn fx_clamp_s(v: int, lo: int, hi: int) -> int {
    if v < lo {
        lo
    } else if v > hi {
        hi
    } else {
        v
    }
}

/// Clamp a scalar into [lo, hi] (lo <= hi).
pub fn fx_clamp(v: i64, lo: i64, hi: i64) -> (r: i64)
    requires
        lo <= hi,
    ensures
        r == fx_clamp_s(v as int, lo as int, hi as int),
        lo <= r <= hi,
{
    if v < lo {
        lo
    } else if v > hi {
        hi
    } else {
        v
    }
}

/// Euclidean remainder by a positive modulus: the result is in [0, m).
pub fn fx_emod(a: i64, m: i64) -> (r: i64)
    requires
        0 < m,
        -0x7000_0000_0000_0000 <= a <= 0x7000_0000_0000_0000,
    ensures
        r == a as int % m as int,
        0 <= r < m,
{
    let t: i64 = a % m;
    if t < 0 {
        proof {
            lemma_emod_negative(a as int, m as int);
        }
        t + m
    } else {
        proof {
            if a < 0 {
                lemma_emod_negative(a as int, m as int);
            }
        }
        t
    }
}

/// Relates truncating remainder to the Euclidean remainder for a negative
/// dividend and positive modulus.
proof fn lemma_emod_negative(a: int, m: int)
    requires
        a < 0,
        m > 0,
    ensures
        (-((-a) % m)) == 0 ==> a % m == 0,
        (-((-a) % m)) < 0 ==> a % m == m - ((-a) % m),
{
    let u = (-a) % m;
    let k = (-a) / m;
    vstd::arithmetic::div_mod::lemma_fundamental_div_mod(-a, m);
    vstd::arithmetic::div_mod::lemma_mod_bound(-a, m);
    assert(m * (-k) == -(m * k) && m * (-k - 1) == -(m * k) - m) by (nonlinear_arith);
    assert(a == m * (-k) + (-u));
    if u == 0 {
        vstd::arithmetic::div_mod::lemma_mod_multiples_vanish(-k, 0, m);
    } else {
        assert(a == m * (-k - 1) + (m - u));
        vstd::arithmetic::div_mod::lemma_mod_multiples_vanish(-k - 1, m - u, m);
        vstd::arithmetic::div_mod::lemma_small_mod((m - u) as nat, m as nat);
    }
}

/// The fractional part of a scalar: `a` minus its floor, in [0, 1).
pub open spec fn fx_fract_s(a: int) -> int {
    a % (FX_SCALE as int)
}

/// Fractional part (always in [0, 1), also for negative scalars).
pub fn fx_fract(a: i64) -> (r: i64)
    requires
        fx_wf(a),
    ensures
        r == fx_fract_s(a as int),
        0 <= r < FX_SCALE,
        fx_wf(r),
{
    fx_emod(a, FX_SCALE)
}

/// The floor of a scalar: the largest whole multiple of 1.0 at most `a`.
pub open spec fn fx_floor_s(a: int) -> int {
    a - fx_fract_s(a)
}

/// Floor to a whole number of units.
pub fn fx_floor(a: i64) -> (r: i64)
    requires
        fx_wf(a),
    ensures
        r == fx_floor_s(a as int),
        fx_wf(r),
{
    let f: i64 = fx_fract(a);
    proof {
        vstd::arithmetic::div_mod::lemma_fundamental_div_mod(a as int, FX_SCALE as int);
        vstd::arithmetic::div_mod::lemma_div_is_ordered(-FX_LIM as int, a as int, FX_SCALE as int);
        vstd::arithmetic::div_mod::lemma_div_is_ordered(a as int, FX_LIM as int, FX_SCALE as int);
        assert((-FX_LIM as int) / (FX_SCALE as int) == -32768 && FX_LIM as int / FX_SCALE as int == 32768);
        assert(FX_SCALE * (a as int / FX_SCALE as int) >= FX_SCALE * (-32768)
            && FX_SCALE * (a as int / FX_SCALE as int) <= FX_SCALE * 32768) by (nonlinear_arith)
            requires
                -32768 <= a as int / FX_SCALE as int <= 32768,
                FX_SCALE == 65536,
        ;
    }
    a - f
}

/// The integer square root: the largest r with r * r <= n.
pub open spec fn isqrt_s(n: int) -> int
    decreases n,
{
    if n <= 0 {
        0
    } else {
        let p = isqrt_s(n - 1);
        if (p + 1) * (p + 1) <= n {
            p + 1
        } else {
            p
        }
    }
}

/// `isqrt_s(n)` brackets n between consecutive squares.
pub proof fn lemma_isqrt_s(n: int)
    requires
        n >= 0,
    ensures
        isqrt_s(n) >= 0,
        isqrt_s(n) * isqrt_s(n) <= n,
        n < (isqrt_s(n) + 1) * (isqrt_s(n) + 1),
    decreases n,
{
    if n == 0 {
    } else {
        lemma_isqrt_s(n - 1);
        let p = isqrt_s(n - 1);
        if (p + 1) * (p + 1) <= n {
            assert((p + 1 + 1) * (p + 1 + 1) > n) by (nonlinear_arith)
                requires
                    p >= 0,
                    n - 1 < (p + 1) * (p + 1),
            ;
        }
    }
}

/// Only one nonnegative root brackets n between consecutive squares.
pub proof fn lemma_isqrt_unique(n: int, r: int)
    requires
        n >= 0,
        r >= 0,
        r * r <= n,
        n < (r + 1) * (r + 1),
    ensures
        r == isqrt_s(n),
{
    lemma_isqrt_s(n);
    let q = isqrt_s(n);
    assert(r == q) by (nonlinear_arith)
        requires
            r >= 0,
            q >= 0,
            r * r <= n,
            n < (r + 1) * (r + 1),
            q * q <= n,
            n < (q + 1) * (q + 1),
    ;
}

/// Exact integer square root by bisection.
pub fn isqrt(n: i128) -> (r: i64)
    requires
        0 <= n < 0x1_0000_0000_0000_0000,
    ensures
        r == isqrt_s(n as int),
{
    let mut lo: i128 = 0;
    let mut hi: i128 = 0x1_0000_0000;
    proof {
        assert(n < hi * hi) by (nonlinear_arith)
            requires
                n < 0x1_0000_0000_0000_0000,
                hi == 0x1_0000_0000,
        ;
    }
    while lo + 1 < hi
        invariant
            0 <= lo < hi <= 0x1_0000_0000,
            lo * lo <= n,
            n < hi * hi,
        decreases hi - lo,
    {
        let mid: i128 = (lo + hi) / 2;
        assert(lo < mid < hi);
        assert(0 <= mid * mid <= 0x1_0000_0000_0000_0000) by (nonlinear_arith)
            requires
                0 <= mid <= 0x1_0000_0000,
        ;
        if mid * mid <= n {
            lo = mid;
        } else {
            hi = mid;
        }
    }
    proof {
        lemma_isqrt_unique(n as int, lo as int);
    }
    lo as i64
}

/// Square root of a scalar, exact in fixed-point units.
pub open spec fn fx_sqrt_s(a: int) -> int {
    isqrt_s(a * FX_SCALE)
}

/// Square root of a nonnegative scalar.
pub fn fx_sqrt(a: i64) -> (r: i64)
    requires
        0 <= a <= FX_LIM,
    ensures
        r == fx_sqrt_s(a as int),
        0 <= r <= FX_LIM,
        fx_wf(r),
{
    proof {
        assert(0 <= a * FX_SCALE < 0x1_0000_0000_0000_0000) by (nonlinear_arith)
            requires
                0 <= a <= 0x8000_0000,
                FX_SCALE == 65536,
        ;
    }
    let r: i64 = isqrt((a as i128) * (FX_SCALE as i128));
    proof {
        lemma_isqrt_s(a * FX_SCALE);
        assert(isqrt_s(a * FX_SCALE) <= 0x8000_0000) by (nonlinear_arith)
            requires
                isqrt_s(a * FX_SCALE) * isqrt_s(a * FX_SCALE) <= a * FX_SCALE,
                isqrt_s(a * FX_SCALE) >= 0,
                a <= 0x8000_0000,
        ;
    }
    r
}

/// x raised to the power n/2, for x within [0, 1]: the n-fold fixed-point
/// product of the square root of x.
pub open spec fn fx_pow_half_s(x: int, n: int) -> int
    decreases n,
{
    if n <= 0 {
        FX_ONE as int
    } else {
        fx_mul_s(fx_pow_half_s(x, n - 1), fx_sqrt_s(x))
    }
}

/// Power with a half-integer exponent, for a base within [0, 1].
/// Fractional exponents elsewhere round to the nearest half.
pub fn fx_pow_half(x: i64, n: u32) -> (r: i64)
    requires
        0 <= x <= FX_ONE,
    ensures
        r == fx_pow_half_s(x as int, n as int),
        0 <= r <= FX_ONE,
    decreases n,
{
    proof {
        lemma_isqrt_s(x * FX_SCALE);
        assert(isqrt_s(x * FX_SCALE) <= FX_SCALE) by (nonlinear_arith)
            requires
                isqrt_s(x * FX_SCALE) >= 0,
                isqrt_s(x * FX_SCALE) * isqrt_s(x * FX_SCALE) <= x * FX_SCALE,
                0 <= x <= FX_SCALE,
        ;
    }
    let s: i64 = fx_sqrt(x);
    let mut acc: i64 = FX_ONE;
    let mut i: u32 = 0;
    while i < n
        invariant
            0 <= i <= n,
            acc == fx_pow_half_s(x as int, i as int),
            0 <= acc <= FX_ONE,
            s == fx_sqrt_s(x as int),
            0 <= s <= FX_ONE,
            0 <= x <= FX_ONE,
        decreases n - i,
    {
        let next: i64 = fx_mul(acc, s);
        proof {
            lemma_mul_unit_interval(acc as int, s as int);
        }
        acc = next;
        i = i + 1;
    }
    acc
}

/// The fixed-point product of two scalars within [0, 1] stays within [0, 1].
pub proof fn lemma_mul_unit_interval(a: int, b: int)
    requires
        0 <= a <= FX_ONE,
        0 <= b <= FX_ONE,
    ensures
        0 <= fx_mul_s(a, b) <= FX_ONE,
        a == FX_ONE ==> fx_mul_s(a, b) == b,
        b == FX_ONE ==> fx_mul_s(a, b) == a,
{
    assert(0 <= a * b <= FX_SCALE * FX_SCALE) by (nonlinear_arith)
        requires
            0 <= a <= FX_SCALE,
            0 <= b <= FX_SCALE,
    ;
    vstd::arithmetic::div_mod::lemma_div_pos_is_pos(a * b, FX_SCALE as int);
    vstd::arithmetic::div_mod::lemma_div_is_ordered(a * b, FX_SCALE * FX_SCALE, FX_SCALE as int);
    vstd::arithmetic::div_mod::lemma_div_multiples_vanish(FX_SCALE as int, FX_SCALE as int);
    if a == FX_ONE {
        vstd::arithmetic::div_mod::lemma_div_multiples_vanish(b, FX_SCALE as int);
        assert(a * b == FX_SCALE * b) by (nonlinear_arith)
            requires
                a == FX_SCALE,
        ;
    }
    if b == FX_ONE {
        vstd::arithmetic::div_mod::lemma_div_multiples_vanish(a, FX_SCALE as int);
        assert(a * b == FX_SCALE * a) by (nonlinear_arith)
            requires
                b == FX_SCALE,
        ;
    }
}

/// Circle constants in fixed-point units: half turn and full turn.
pub const FX_PI: i64 = 205887;
/// A full turn; exactly twice `FX_PI`.
pub const FX_TAU: i64 = 411774;
/// A quarter turn.
pub const FX_HALF_PI: i64 = 102944;

/// Rational sine approximation on [0, FX_PI]: 16x(pi-x) / (5 pi^2 - 4x(pi-x)),
/// scaled to fixed-point units. Exact peak 1.0 at the half-way point.
pub open spec fn half_sin_s(x: int) -> int {
    let e = x * (FX_PI - x);
    (16 * e * FX_SCALE) / (5 * FX_PI * FX_PI - 4 * e)
}

/// Sine of an angle given in fixed-point radians.
pub open spec fn fx_sin_s(a: int) -> int {
    let t = a % (FX_TAU as int);
    if t < FX_PI {
        half_sin_s(t)
    } else {
        -half_sin_s(t - FX_PI)
    }
}

/// Cosine, defined as sine advanced by a quarter turn.
pub open spec fn fx_cos_s(a: int) -> int {
    fx_sin_s(a + FX_HALF_PI)
}

/// Sine on the first half turn; the result is within [0, 1].
fn half_sin(x: i64) -> (r: i64)
    requires
        0 <= x <= FX_PI,
    ensures
        r == half_sin_s(x as int),
        0 <= r <= FX_ONE,
{
    proof {
        assert(0 <= x * (FX_PI - x) <= FX_PI * FX_PI) by (nonlinear_arith)
            requires
                0 <= x <= FX_PI,
        ;
    }
    let e: i64 = x * (FX_PI - x);
    let num: i64 = 16 * e * FX_SCALE;
    let den: i64 = 5 * FX_PI * FX_PI - 4 * e;
    proof {
        assert(den >= FX_PI * FX_PI && den > 0);
        assert(16 * e <= den) by (nonlinear_arith)
            requires
                e == x * (FX_PI - x),
                den == 5 * FX_PI * FX_PI - 4 * e,
                0 <= x <= FX_PI,
        ;
        assert(num <= den * FX_SCALE) by (nonlinear_arith)
            requires
                num == 16 * e * FX_SCALE,
                16 * e <= den,
                FX_SCALE > 0,
        ;
        vstd::arithmetic::div_mod::lemma_div_pos_is_pos(num as int, den as int);
        vstd::arithmetic::div_mod::lemma_div_is_ordered(num as int, den * FX_SCALE, den as int);
        vstd::arithmetic::div_mod::lemma_div_multiples_vanish(FX_SCALE as int, den as int);
    }
    num / den
}

/// Sine of an angle in fixed-point radians; the result is within [-1, 1].
pub fn fx_sin(a: i64) -> (r: i64)
    requires
        -0x6100_0000_0000_0000 <= a <= 0x6100_0000_0000_0000,
    ensures
        r == fx_sin_s(a as int),
        -FX_ONE <= r <= FX_ONE,
        fx_wf(r),
{
    let t: i64 = fx_emod(a, FX_TAU);
    if t < FX_PI {
        half_sin(t)
    } else {
        let s: i64 = half_sin(t - FX_PI);
        -s
    }
}

/// Cosine of an angle in fixed-point radians; the result is within [-1, 1].
pub fn fx_cos(a: i64) -> (r: i64)
    requires
        -0x6000_0000_0000_0000 <= a <= 0x6000_0000_0000_0000,
    ensures
        r == fx_cos_s(a as int),
        -FX_ONE <= r <= FX_ONE,
        fx_wf(r),
{
    fx_sin(a + FX_HALF_PI)
}

/// Multiplying a well-formed scalar by 1.0 is exact, and by 0 gives 0.
pub proof fn lemma_fx_mul_unit(x: int)
    requires
        -FX_LIM <= x <= FX_LIM,
    ensures
        fx_mul_s(x, FX_ONE as int) == x,
        fx_mul_s(FX_ONE as int, x) == x,
        fx_mul_s(x, 0) == 0,
        fx_mul_s(0, x) == 0,
{
    assert(x * FX_ONE == FX_ONE * x && x * 0 == 0 && 0 * x == 0) by (nonlinear_arith);
    if x >= 0 {
        vstd::arithmetic::div_mod::lemma_div_multiples_vanish(x, FX_SCALE as int);
        assert(FX_SCALE * x == x * FX_SCALE) by (nonlinear_arith);
    } else {
        vstd::arithmetic::div_mod::lemma_div_multiples_vanish(-x, FX_SCALE as int);
        assert(FX_SCALE * (-x) == -(x * FX_SCALE)) by (nonlinear_arith);
    }
    assert(tdiv(0, FX_SCALE as int) == 0) by {
        vstd::arithmetic::div_mod::lemma_div_multiples_vanish(0, FX_SCALE as int);
        assert(FX_SCALE * 0 == 0) by (nonlinear_arith);
    }
}

/// Adding zero and saturating keeps a well-formed scalar unchanged.
pub proof fn lemma_fx_add_zero(x: int)
    requires
        -FX_LIM <= x <= FX_LIM,
    ensures
        fx_add_s(x, 0) == x,
        fx_add_s(0, x) == x,
{
}

/// The product of two well-formed scalars fits comfortably in an `i64`.
pub proof fn lemma_mul_bound(a: int, b: int)
    requires
        -FX_LIM <= a <= FX_LIM,
        -FX_LIM <= b <= FX_LIM,
    ensures
        -0x4000_0000_0000_0000 <= a * b <= 0x4000_0000_0000_0000,
{
    vstd::arithmetic::mul::lemma_mul_upper_bound(fx_abs_s(a), FX_LIM as int, fx_abs_s(b), FX_LIM as int);
    assert(fx_abs_s(a) * fx_abs_s(b) <= 0x4000_0000_0000_0000) by (nonlinear_arith)
        requires
            0 <= fx_abs_s(a) <= 0x8000_0000,
            0 <= fx_abs_s(b) <= 0x8000_0000,
    ;
    assert(a * b == fx_abs_s(a) * fx_abs_s(b) || a * b == -(fx_abs_s(a) * fx_abs_s(b))) by (nonlinear_arith);
}

} // verus!
