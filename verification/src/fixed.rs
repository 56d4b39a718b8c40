//! Signed Q32.32 fixed-point arithmetic.
//!
//! A value `v: i64` stands for the real number `v / 2^32`. Every operation
//! truncates toward zero and saturates its magnitude at [`FX_MAX`], so all
//! operations are total. Each executable function is pinned to a spec-level
//! mirror over `int`, which makes every computation in the crate a proven
//! function of its inputs.
use vstd::prelude::*;

verus! {

/// Number of fixed-point counts per unit: 2^32.
pub const FX_ONE: i64 = 0x1_0000_0000;

/// Largest magnitude a fixed-point value may take (2^56, about 1.6e7 units).
pub const FX_MAX: i64 = 0x100_0000_0000_0000;

/// ln 2 in fixed point.
pub const FX_LN2: i64 = 2977044472;

/// Pi in fixed point.
pub const FX_PI: i64 = 13493037705;

/// 2*pi in fixed point (rounded from the real value, not doubled from FX_PI).
pub const FX_TWO_PI: i64 = 26986075409;

/// Pi/2 in fixed point.
pub const FX_HALF_PI: i64 = 6746518852;

/// A fixed-point value in range: its magnitude stays at or below [`FX_MAX`].
pub open spec fn fx_ok(v: i64) -> bool {
    -FX_MAX <= v <= FX_MAX
}

/// Magnitude of an integer.
pub open spec fn s_abs(a: int) -> int {
    if a < 0 {
        -a
    } else {
        a
    }
}

/// Saturate a non-negative magnitude at [`FX_MAX`].
pub open spec fn s_cap(m: int) -> int {
    if m > FX_MAX as int {
        FX_MAX as int
    } else {
        m
    }
}

/// Apply a sign to a non-negative magnitude.
pub open spec fn s_signed(neg: bool, m: int) -> int {
    if neg {
        -m
    } else {
        m
    }
}

/// Product of two fixed-point values, truncated toward zero and saturated.
pub open spec fn spec_fx_mul(a: int, b: int) -> int {
    s_signed((a < 0) != (b < 0), s_cap(s_abs(a) * s_abs(b) / 0x1_0000_0000))
}

/// Quotient of two fixed-point values; division by zero saturates.
pub open spec fn spec_fx_div(a: int, b: int) -> int {
    if b == 0 {
        if a > 0 {
            FX_MAX as int
        } else if a < 0 {
            -(FX_MAX as int)
        } else {
            0
        }
    } else {
        s_signed((a < 0) != (b < 0), s_cap(s_abs(a) * 0x1_0000_0000 / s_abs(b)))
    }
}

/// Product of a fixed-point value and a plain integer factor.
pub open spec fn spec_fx_muli(a: int, k: int) -> int {
    s_signed((a < 0) != (k < 0), s_cap(s_abs(a) * s_abs(k)))
}

/// Quotient of a fixed-point value by a positive integer divisor.
pub open spec fn spec_fx_divi(a: int, k: int) -> int {
    s_signed(a < 0, s_abs(a) / k)
}

/// Saturating sum of two fixed-point values.
pub open spec fn spec_fx_add(a: int, b: int) -> int {
    if a + b > FX_MAX as int {
        FX_MAX as int
    } else if a + b < -(FX_MAX as int) {
        -(FX_MAX as int)
    } else {
        a + b
    }
}

/// Saturating difference of two fixed-point values.
pub open spec fn spec_fx_sub(a: int, b: int) -> int {
    spec_fx_add(a, -b)
}

/// Executable magnitude of an in-range fixed-point value.
pub fn fx_mag(a: i64) -> (r: u64)
    requires
        fx_ok(a),
    ensures
        r == s_abs(a as int),
{
    if a < 0 {
        (-a) as u64
    } else {
        a as u64
    }
}

/// Fixed-point multiplication.
pub fn fx_mul(a: i64, b: i64) -> (r: i64)
    requires
        fx_ok(a),
        fx_ok(b),
    ensures
        fx_ok(r),
        r == spec_fx_mul(a as int, b as int),
{
    let neg: bool = (a < 0) != (b < 0);
    let ma: u64 = fx_mag(a);
    let mb: u64 = fx_mag(b);
    proof {
        assert((ma as int) * (mb as int) <= (FX_MAX as int) * (FX_MAX as int))
            by (nonlinear_arith)
            requires
                0 <= ma <= FX_MAX as int,
                0 <= mb <= FX_MAX as int,
        ;
    }
    let p: u128 = (ma as u128) * (mb as u128);
    let q: u128 = p / 0x1_0000_0000u128;
    let qc: i64 = if q > (FX_MAX as u128) {
        FX_MAX
    } else {
        q as i64
    };
    if neg {
        -qc
    } else {
        qc
    }
}

/// Fixed-point division.
pub fn fx_div(a: i64, b: i64) -> (r: i64)
    requires
        fx_ok(a),
        fx_ok(b),
    ensures
        fx_ok(r),
        r == spec_fx_div(a as int, b as int),
{
    if b == 0 {
        if a > 0 {
            FX_MAX
        } else if a < 0 {
            -FX_MAX
        } else {
            0
        }
    } else {
        let neg: bool = (a < 0) != (b < 0);
        let ma: u64 = fx_mag(a);
        let mb: u64 = fx_mag(b);
        let p: u128 = (ma as u128) * 0x1_0000_0000u128;
        let q: u128 = p / (mb as u128);
        let qc: i64 = if q > (FX_MAX as u128) {
            FX_MAX
        } else {
            q as i64
        };
        if neg {
            -qc
        } else {
            qc
        }
    }
}

/// Fixed-point value times an integer factor.
pub fn fx_muli(a: i64, k: i64) -> (r: i64)
    requires
        fx_ok(a),
        -100_000_000 <= k <= 100_000_000,
    ensures
        fx_ok(r),
        r == spec_fx_muli(a as int, k as int),
{
    let neg: bool = (a < 0) != (k < 0);
    let ma: u64 = fx_mag(a);
    let mk: u64 = if k < 0 {
        (-k) as u64
    } else {
        k as u64
    };
    proof {
        assert((ma as int) * (mk as int) <= (FX_MAX as int) * 100_000_000)
            by (nonlinear_arith)
            requires
                0 <= ma <= FX_MAX as int,
                0 <= mk <= 100_000_000,
        ;
    }
    let p: u128 = (ma as u128) * (mk as u128);
    let qc: i64 = if p > (FX_MAX as u128) {
        FX_MAX
    } else {
        p as i64
    };
    if neg {
        -qc
    } else {
        qc
    }
}

/// Fixed-point value divided by a positive integer divisor.
pub fn fx_divi(a: i64, k: i64) -> (r: i64)
    requires
        fx_ok(a),
        1 <= k <= 100_000_000,
    ensures
        fx_ok(r),
        r == spec_fx_divi(a as int, k as int),
{
    let neg: bool = a < 0;
    let ma: u64 = fx_mag(a);
    let q: u64 = ma / (k as u64);
    proof {
        assert(ma / (k as u64) <= ma) by (nonlinear_arith)
            requires
                k >= 1,
        ;
    }
    let qi: i64 = q as i64;
    if neg {
        -qi
    } else {
        qi
    }
}

/// Saturating fixed-point addition.
pub fn fx_add(a: i64, b: i64) -> (r: i64)
    requires
        fx_ok(a),
        fx_ok(b),
    ensures
        fx_ok(r),
        r == spec_fx_add(a as int, b as int),
{
    let s: i64 = a + b;
    if s > FX_MAX {
        FX_MAX
    } else if s < -FX_MAX {
        -FX_MAX
    } else {
        s
    }
}

/// Saturating fixed-point subtraction.
pub fn fx_sub(a: i64, b: i64) -> (r: i64)
    requires
        fx_ok(a),
        fx_ok(b),
    ensures
        fx_ok(r),
        r == spec_fx_sub(a as int, b as int),
{
    let s: i64 = a - b;
    if s > FX_MAX {
        FX_MAX
    } else if s < -FX_MAX {
        -FX_MAX
    } else {
        s
    }
}

/// Narrowing phase of the integer square root: lower the probe bit until it
/// is at or below the radicand.
pub open spec fn isqrt_shrink(n: int, bit: int) -> int
    decreases bit,
{
    if bit > n && bit >= 1 {
        isqrt_shrink(n, bit / 4)
    } else {
        bit
    }
}

/// Digit-by-digit integer square root, two bits per step.
pub open spec fn isqrt_steps(n: int, r: int, bit: int) -> int
    decreases bit,
{
    if bit < 1 {
        r
    } else if n >= r + bit {
        isqrt_steps(n - r - bit, r / 2 + bit, bit / 4)
    } else {
        isqrt_steps(n, r / 2, bit / 4)
    }
}

/// Integer square root of a value below 2^90.
pub open spec fn spec_isqrt(n: int) -> int {
    isqrt_steps(n, 0, isqrt_shrink(n, 0x10000000000000000000000))
}

/// Fixed-point square root: truncated root of non-negative values, zero on
/// negative input.
pub open spec fn spec_fx_sqrt(a: int) -> int {
    if a <= 0 {
        0
    } else {
        s_cap(spec_isqrt(a * 0x1_0000_0000))
    }
}

fn isqrt_exec(n0: u128) -> (r: u128)
    requires
        n0 <= 0x10000000000000000000000,
    ensures
        r == spec_isqrt(n0 as int),
{
    let mut n: u128 = n0;
    let mut bit: u128 = 0x10000000000000000000000u128;
    while bit > n
        invariant
            bit <= 0x10000000000000000000000,
            n == n0,
            isqrt_shrink(n0 as int, bit as int) == isqrt_shrink(
                n0 as int,
                0x10000000000000000000000,
            ),
        decreases bit,
    {
        bit = bit / 4;
    }
    let mut r: u128 = 0;
    while bit >= 1
        invariant
            n <= n0,
            r <= 0x40000000000000000000000,
            bit <= 0x10000000000000000000000,
            isqrt_steps(n as int, r as int, bit as int) == spec_isqrt(n0 as int),
        decreases bit,
    {
        if n >= r + bit {
            n = n - r - bit;
            r = r / 2 + bit;
        } else {
            r = r / 2;
        }
        bit = bit / 4;
    }
    r
}

/// Fixed-point square root.
pub fn fx_sqrt(a: i64) -> (r: i64)
    requires
        fx_ok(a),
    ensures
        fx_ok(r),
        r == spec_fx_sqrt(a as int),
{
    if a <= 0 {
        0
    } else {
        let n: u128 = (a as u128) * 0x1_0000_0000u128;
        let s: u128 = isqrt_exec(n);
        if s > (FX_MAX as u128) {
            FX_MAX
        } else {
            s as i64
        }
    }
}

/// Normalize a mantissa downward: halve until it is below twice [`FX_ONE`],
/// counting binary exponent steps.
pub open spec fn ln_shift_down(m: int, k: int) -> (int, int)
    decreases m,
{
    if m >= 2 * (FX_ONE as int) {
        ln_shift_down(m / 2, k + 1)
    } else {
        (m, k)
    }
}

/// Normalize a mantissa upward: double until it reaches [`FX_ONE`], counting
/// binary exponent steps.
pub open spec fn ln_shift_up(m: int, k: int) -> (int, int)
    decreases 2 * (FX_ONE as int) - m,
{
    if 1 <= m < FX_ONE as int && k > -60 {
        ln_shift_up(2 * m, k - 1)
    } else {
        (m, k)
    }
}

/// Partial sums of the artanh series for the logarithm: after `i` steps the
/// pair holds (accumulator, current odd power of z).
pub open spec fn ln_series(z: int, z2: int, i: nat) -> (int, int)
    decreases i,
{
    if i == 0 {
        (0, z)
    } else {
        let prev = ln_series(z, z2, (i - 1) as nat);
        (spec_fx_add(prev.0, spec_fx_divi(prev.1, 2 * (i as int) - 1)), spec_fx_mul(prev.1, z2))
    }
}

/// Fixed-point natural logarithm of a positive value; zero otherwise.
pub open spec fn spec_fx_ln(a: int) -> int {
    if a <= 0 {
        0
    } else {
        let down = ln_shift_down(a, 0);
        let up = ln_shift_up(down.0, down.1);
        let m = up.0;
        let k = up.1;
        let z = spec_fx_div(m - FX_ONE as int, m + FX_ONE as int);
        let sum = ln_series(z, spec_fx_mul(z, z), 14).0;
        spec_fx_add(spec_fx_muli(FX_LN2 as int, k), spec_fx_muli(sum, 2))
    }
}

/// Fixed-point natural logarithm.
pub fn fx_ln(a: i64) -> (r: i64)
    requires
        fx_ok(a),
    ensures
        fx_ok(r),
        r == spec_fx_ln(a as int),
{
    if a <= 0 {
        return 0;
    }
    let mut m: u64 = a as u64;
    let mut k: i64 = 0;
    proof {
        vstd::arithmetic::power2::lemma2_to64();
        assert((m as int) * vstd::arithmetic::power2::pow2(0) == m as int);
    }
    while m >= 2 * (FX_ONE as u64)
        invariant
            1 <= m <= FX_MAX as u64,
            0 <= k <= 60,
            (m as int) * vstd::arithmetic::power2::pow2(k as nat) <= FX_MAX as int,
            ln_shift_down(m as int, k as int) == ln_shift_down(a as int, 0),
        decreases m,
    {
        proof {
            vstd::arithmetic::power2::lemma_pow2_unfold((k + 1) as nat);
            vstd::arithmetic::power2::lemma_pow2_pos(k as nat);
            assert(((m as int) / 2) * (2 * vstd::arithmetic::power2::pow2(k as nat)) <= (m as int)
                * vstd::arithmetic::power2::pow2(k as nat)) by (nonlinear_arith)
                requires
                    m >= 1,
                    vstd::arithmetic::power2::pow2(k as nat) >= 1,
            ;
            if k + 1 > 60 {
                vstd::arithmetic::power2::lemma2_to64_rest();
                vstd::arithmetic::power2::lemma_pow2_strictly_increases(57, (k + 1) as nat);
                assert(((m as int) / 2) * vstd::arithmetic::power2::pow2((k + 1) as nat) > FX_MAX
                    as int) by (nonlinear_arith)
                    requires
                        (m as int) / 2 >= 1,
                        vstd::arithmetic::power2::pow2((k + 1) as nat) > 0x200000000000000,
                ;
            }
        }
        m = m / 2;
        k = k + 1;
    }
    while m < FX_ONE as u64 && k > -60
        invariant
            1 <= m < 2 * (FX_ONE as u64),
            -60 <= k <= 60,
            ln_shift_up(m as int, k as int) == ln_shift_up(
                ln_shift_down(a as int, 0).0,
                ln_shift_down(a as int, 0).1,
            ),
        decreases 2 * (FX_ONE as int) - m,
    {
        m = m * 2;
        k = k - 1;
    }
    let mi: i64 = m as i64;
    let z: i64 = fx_div(mi - FX_ONE, mi + FX_ONE);
    let z2: i64 = fx_mul(z, z);
    let mut acc: i64 = 0;
    let mut term: i64 = z;
    let mut i: i64 = 0;
    while i < 14
        invariant
            0 <= i <= 14,
            fx_ok(acc),
            fx_ok(term),
            fx_ok(z),
            fx_ok(z2),
            z2 == spec_fx_mul(z as int, z as int),
            (acc as int, term as int) == ln_series(z as int, z2 as int, i as nat),
        decreases 14 - i,
    {
        acc = fx_add(acc, fx_divi(term, 2 * i + 1));
        term = fx_mul(term, z2);
        i = i + 1;
    }
    fx_add(fx_muli(FX_LN2, k), fx_muli(acc, 2))
}

/// Partial sums of the Taylor series of exp: after `i` steps the pair holds
/// (accumulator, current term r^i / i!).
pub open spec fn exp_series(r: int, i: nat) -> (int, int)
    decreases i,
{
    if i == 0 {
        (FX_ONE as int, FX_ONE as int)
    } else {
        let prev = exp_series(r, (i - 1) as nat);
        let term = spec_fx_divi(spec_fx_mul(prev.1, r), i as int);
        (spec_fx_add(prev.0, term), term)
    }
}

/// Multiply a non-negative magnitude by 2^k, saturating.
pub open spec fn shift_up_cap(m: int, k: int) -> int
    decreases k,
{
    if k >= 1 {
        shift_up_cap(s_cap(2 * m), k - 1)
    } else {
        m
    }
}

/// Divide a non-negative magnitude by 2^k.
pub open spec fn shift_down(m: int, k: int) -> int
    decreases k,
{
    if k >= 1 {
        shift_down(m / 2, k - 1)
    } else {
        m
    }
}

/// Fixed-point exponential, saturating for large arguments.
pub open spec fn spec_fx_exp(a: int) -> int {
    if a > 18 * (FX_ONE as int) {
        FX_MAX as int
    } else if a < -17 * (FX_ONE as int) {
        0
    } else {
        let half = FX_LN2 as int / 2;
        let k0 = if a >= 0 {
            (a + half) / (FX_LN2 as int)
        } else {
            -((-a + half) / (FX_LN2 as int))
        };
        let k = if k0 > 27 {
            27
        } else if k0 < -27 {
            -27
        } else {
            k0
        };
        let r = spec_fx_sub(a, spec_fx_muli(FX_LN2 as int, k));
        let acc = exp_series(r, 19).0;
        let m = if acc <= 0 {
            0
        } else {
            acc
        };
        if k >= 0 {
            shift_up_cap(m, k)
        } else {
            shift_down(m, -k)
        }
    }
}

/// Fixed-point exponential.
pub fn fx_exp(a: i64) -> (r: i64)
    requires
        fx_ok(a),
    ensures
        fx_ok(r),
        r == spec_fx_exp(a as int),
{
    if a > 18 * FX_ONE {
        return FX_MAX;
    }
    if a < -17 * FX_ONE {
        return 0;
    }
    let half: u64 = (FX_LN2 as u64) / 2;
    let k0: i64 = if a >= 0 {
        (((a as u64) + half) / (FX_LN2 as u64)) as i64
    } else {
        -(((((-a) as u64) + half) / (FX_LN2 as u64)) as i64)
    };
    let k: i64 = if k0 > 27 {
        27
    } else if k0 < -27 {
        -27
    } else {
        k0
    };
    let r: i64 = fx_sub(a, fx_muli(FX_LN2, k));
    let mut acc: i64 = FX_ONE;
    let mut term: i64 = FX_ONE;
    let mut i: i64 = 1;
    while i <= 19
        invariant
            1 <= i <= 20,
            fx_ok(acc),
            fx_ok(term),
            fx_ok(r),
            r == spec_fx_sub(a as int, spec_fx_muli(FX_LN2 as int, k as int)),
            (acc as int, term as int) == exp_series(r as int, (i - 1) as nat),
        decreases 20 - i,
    {
        term = fx_divi(fx_mul(term, r), i);
        acc = fx_add(acc, term);
        i = i + 1;
    }
    let m: i64 = if acc <= 0 {
        0
    } else {
        acc
    };
    let mut mm: i64 = m;
    if k >= 0 {
        let mut j: i64 = k;
        while j >= 1
            invariant
                0 <= j <= 27,
                0 <= mm <= FX_MAX,
                shift_up_cap(mm as int, j as int) == shift_up_cap(m as int, k as int),
            decreases j,
        {
            let d: i64 = 2 * mm;
            mm = if d > FX_MAX {
                FX_MAX
            } else {
                d
            };
            j = j - 1;
        }
        mm
    } else {
        let mut mu: u64 = mm as u64;
        let mut j: i64 = -k;
        while j >= 1
            invariant
                0 <= j <= 27,
                mu <= FX_MAX as u64,
                shift_down(mu as int, j as int) == shift_down(m as int, -(k as int)),
            decreases j,
        {
            mu = mu / 2;
            j = j - 1;
        }
        mu as i64
    }
}

/// Fixed-point power for a non-negative base: exp(b * ln a), zero when the
/// base is zero or negative.
pub open spec fn spec_fx_pow(a: int, b: int) -> int {
    if a <= 0 {
        0
    } else {
        spec_fx_exp(spec_fx_mul(b, spec_fx_ln(a)))
    }
}

/// Fixed-point power for a non-negative base.
pub fn fx_pow(a: i64, b: i64) -> (r: i64)
    requires
        fx_ok(a),
        fx_ok(b),
    ensures
        fx_ok(r),
        r == spec_fx_pow(a as int, b as int),
{
    if a <= 0 {
        0
    } else {
        fx_exp(fx_mul(b, fx_ln(a)))
    }
}

/// Reduce an angle in radians into [-pi, pi].
pub open spec fn spec_reduce_angle(x: int) -> int {
    let m = s_abs(x) % (FX_TWO_PI as int);
    let r = if x >= 0 {
        m
    } else {
        -m
    };
    if r > FX_PI as int {
        r - FX_TWO_PI as int
    } else if r < -(FX_PI as int) {
        r + FX_TWO_PI as int
    } else {
        r
    }
}

fn reduce_angle(x: i64) -> (r: i64)
    requires
        fx_ok(x),
    ensures
        fx_ok(r),
        r == spec_reduce_angle(x as int),
        -(FX_PI as int) <= r <= FX_PI as int,
{
    let m: u64 = fx_mag(x) % (FX_TWO_PI as u64);
    let s: i64 = if x >= 0 {
        m as i64
    } else {
        -(m as i64)
    };
    if s > FX_PI {
        s - FX_TWO_PI
    } else if s < -FX_PI {
        s + FX_TWO_PI
    } else {
        s
    }
}

/// Fixed-point sine.
pub open spec fn spec_fx_sin(x: int) -> int {
    let r = spec_reduce_angle(x);
    let r2 = spec_fx_mul(r, r);
    sin_pair(r2, r, 12).0
}

/// State of the sine series after `i` rounds: (accumulator, last term).
pub open spec fn sin_pair(r2: int, r: int, i: nat) -> (int, int)
    decreases i,
{
    if i == 0 {
        (r, r)
    } else {
        let prev = sin_pair(r2, r, (i - 1) as nat);
        let term = -spec_fx_divi(spec_fx_mul(prev.1, r2), (2 * (i as int)) * (2 * (i as int) + 1));
        (spec_fx_add(prev.0, term), term)
    }
}

/// Fixed-point sine.
pub fn fx_sin(x: i64) -> (res: i64)
    requires
        fx_ok(x),
    ensures
        fx_ok(res),
        res == spec_fx_sin(x as int),
{
    let r: i64 = reduce_angle(x);
    let r2: i64 = fx_mul(r, r);
    let mut acc: i64 = r;
    let mut term: i64 = r;
    let mut i: i64 = 1;
    while i <= 12
        invariant
            1 <= i <= 13,
            fx_ok(acc),
            fx_ok(term),
            fx_ok(r),
            fx_ok(r2),
            r == spec_reduce_angle(x as int),
            r2 == spec_fx_mul(r as int, r as int),
            (acc as int, term as int) == sin_pair(r2 as int, r as int, (i - 1) as nat),
        decreases 13 - i,
    {
        proof {
            assert(1 <= (2 * (i as int)) * (2 * (i as int) + 1) <= 100_000_000)
                by (nonlinear_arith)
                requires
                    1 <= i <= 12,
            ;
        }
        term = -fx_divi(fx_mul(term, r2), (2 * i) * (2 * i + 1));
        acc = fx_add(acc, term);
        i = i + 1;
    }
    acc
}

/// State of the cosine series after `i` rounds: (accumulator, last term).
pub open spec fn cos_pair(r2: int, i: nat) -> (int, int)
    decreases i,
{
    if i == 0 {
        (FX_ONE as int, FX_ONE as int)
    } else {
        let prev = cos_pair(r2, (i - 1) as nat);
        let term = -spec_fx_divi(spec_fx_mul(prev.1, r2), (2 * (i as int) - 1) * (2 * (i as int)));
        (spec_fx_add(prev.0, term), term)
    }
}

/// Fixed-point cosine.
pub open spec fn spec_fx_cos(x: int) -> int {
    let r = spec_reduce_angle(x);
    let r2 = spec_fx_mul(r, r);
    cos_pair(r2, 12).0
}

/// Fixed-point cosine.
pub fn fx_cos(x: i64) -> (res: i64)
    requires
        fx_ok(x),
    ensures
        fx_ok(res),
        res == spec_fx_cos(x as int),
{
    let r: i64 = reduce_angle(x);
    let r2: i64 = fx_mul(r, r);
    let mut acc: i64 = FX_ONE;
    let mut term: i64 = FX_ONE;
    let mut i: i64 = 1;
    while i <= 12
        invariant
            1 <= i <= 13,
            fx_ok(acc),
            fx_ok(term),
            fx_ok(r2),
            r2 == spec_fx_mul(
                spec_reduce_angle(x as int),
                spec_reduce_angle(x as int),
            ),
            (acc as int, term as int) == cos_pair(r2 as int, (i - 1) as nat),
        decreases 13 - i,
    {
        proof {
            assert(1 <= (2 * (i as int) - 1) * (2 * (i as int)) <= 100_000_000)
                by (nonlinear_arith)
                requires
                    1 <= i <= 12,
            ;
        }
        term = -fx_divi(fx_mul(term, r2), (2 * i - 1) * (2 * i));
        acc = fx_add(acc, term);
        i = i + 1;
    }
    acc
}

/// State of the arctangent series after `i` rounds over odd powers with
/// alternating signs: (accumulator, current odd power).
pub open spec fn atan_pair(t: int, t2: int, i: nat) -> (int, int)
    decreases i,
{
    if i == 0 {
        (0, t)
    } else {
        let prev = atan_pair(t, t2, (i - 1) as nat);
        let d = spec_fx_divi(prev.1, 2 * (i as int) - 1);
        let acc = if (i as int - 1) % 2 == 0 {
            spec_fx_add(prev.0, d)
        } else {
            spec_fx_add(prev.0, -d)
        };
        (acc, spec_fx_mul(prev.1, t2))
    }
}

/// Arctangent by Taylor series, for small non-negative arguments.
pub open spec fn spec_atan_taylor(t: int) -> int {
    atan_pair(t, spec_fx_mul(t, t), 7).0
}

fn atan_taylor(t: i64) -> (r: i64)
    requires
        fx_ok(t),
    ensures
        fx_ok(r),
        r == spec_atan_taylor(t as int),
{
    let t2: i64 = fx_mul(t, t);
    let mut acc: i64 = 0;
    let mut term: i64 = t;
    let mut plus: bool = true;
    let mut i: i64 = 1;
    while i <= 7
        invariant
            1 <= i <= 8,
            fx_ok(acc),
            fx_ok(term),
            fx_ok(t),
            fx_ok(t2),
            plus == ((i - 1) % 2 == 0),
            t2 == spec_fx_mul(t as int, t as int),
            (acc as int, term as int) == atan_pair(t as int, t2 as int, (i - 1) as nat),
        decreases 8 - i,
    {
        let d: i64 = fx_divi(term, 2 * i - 1);
        if plus {
            acc = fx_add(acc, d);
        } else {
            acc = fx_add(acc, -d);
        }
        term = fx_mul(term, t2);
        plus = !plus;
        i = i + 1;
    }
    acc
}

/// One half-angle reduction of the arctangent argument.
pub open spec fn atan_reduce(t: int) -> int {
    spec_fx_div(t, spec_fx_add(FX_ONE as int, spec_fx_sqrt(spec_fx_add(FX_ONE as int, spec_fx_mul(t, t)))))
}

/// Arctangent of an argument in [0, 1]: three half-angle reductions, then the
/// Taylor series, then the angle scaled back up by 8.
pub open spec fn spec_atan01(t: int) -> int {
    spec_fx_muli(spec_atan_taylor(atan_reduce(atan_reduce(atan_reduce(t)))), 8)
}

fn atan01(t: i64) -> (r: i64)
    requires
        fx_ok(t),
    ensures
        fx_ok(r),
        r == spec_atan01(t as int),
{
    let t1: i64 = fx_div(t, fx_add(FX_ONE, fx_sqrt(fx_add(FX_ONE, fx_mul(t, t)))));
    let t2: i64 = fx_div(t1, fx_add(FX_ONE, fx_sqrt(fx_add(FX_ONE, fx_mul(t1, t1)))));
    let t3: i64 = fx_div(t2, fx_add(FX_ONE, fx_sqrt(fx_add(FX_ONE, fx_mul(t2, t2)))));
    fx_muli(atan_taylor(t3), 8)
}

/// Fixed-point two-argument arctangent, in radians in (-pi, pi]; zero when
/// both arguments are zero.
pub open spec fn spec_fx_atan2(y: int, x: int) -> int {
    if y == 0 && x == 0 {
        0
    } else {
        let my = s_abs(y);
        let mx = s_abs(x);
        let base = if my <= mx {
            spec_atan01(spec_fx_div(my, mx))
        } else {
            spec_fx_sub(FX_HALF_PI as int, spec_atan01(spec_fx_div(mx, my)))
        };
        let flipped = if x < 0 {
            spec_fx_sub(FX_PI as int, base)
        } else {
            base
        };
        if y < 0 {
            -flipped
        } else {
            flipped
        }
    }
}

/// Fixed-point two-argument arctangent.
pub fn fx_atan2(y: i64, x: i64) -> (r: i64)
    requires
        fx_ok(y),
        fx_ok(x),
    ensures
        fx_ok(r),
        r == spec_fx_atan2(y as int, x as int),
{
    if y == 0 && x == 0 {
        return 0;
    }
    let my: i64 = fx_mag(y) as i64;
    let mx: i64 = fx_mag(x) as i64;
    let base: i64 = if my <= mx {
        atan01(fx_div(my, mx))
    } else {
        fx_sub(FX_HALF_PI, atan01(fx_div(mx, my)))
    };
    let flipped: i64 = if x < 0 {
        fx_sub(FX_PI, base)
    } else {
        base
    };
    if y < 0 {
        -flipped
    } else {
        flipped
    }
}

/// The product of two non-negative fixed-point values is non-negative.
pub proof fn lemma_fx_mul_nonneg(a: int, b: int)
    requires
        a >= 0,
        b >= 0,
    ensures
        spec_fx_mul(a, b) >= 0,
{
    broadcast use vstd::arithmetic::div_mod::group_div_basics;

    assert(a * b >= 0) by (nonlinear_arith)
        requires
            a >= 0,
            b >= 0,
    ;
}

proof fn lemma_isqrt_shrink_nonneg(n: int, bit: int)
    requires
        bit >= 0,
    ensures
        isqrt_shrink(n, bit) >= 0,
    decreases bit,
{
    broadcast use vstd::arithmetic::div_mod::group_div_basics;

    if bit > n && bit >= 1 {
        lemma_isqrt_shrink_nonneg(n, bit / 4);
    }
}

proof fn lemma_isqrt_steps_nonneg(n: int, r: int, bit: int)
    requires
        r >= 0,
        bit >= 0,
    ensures
        isqrt_steps(n, r, bit) >= 0,
    decreases bit,
{
    broadcast use vstd::arithmetic::div_mod::group_div_basics;

    if bit >= 1 {
        if n >= r + bit {
            lemma_isqrt_steps_nonneg(n - r - bit, r / 2 + bit, bit / 4);
        } else {
            lemma_isqrt_steps_nonneg(n, r / 2, bit / 4);
        }
    }
}

/// A fixed-point square root is never negative.
pub proof fn lemma_fx_sqrt_nonneg(a: int)
    ensures
        spec_fx_sqrt(a) >= 0,
{
    if a > 0 {
        lemma_isqrt_shrink_nonneg(a * 0x1_0000_0000, 0x10000000000000000000000);
        lemma_isqrt_steps_nonneg(
            a * 0x1_0000_0000,
            0,
            isqrt_shrink(a * 0x1_0000_0000, 0x10000000000000000000000),
        );
    }
}

proof fn lemma_shift_up_cap_nonneg(m: int, k: int)
    requires
        m >= 0,
    ensures
        shift_up_cap(m, k) >= 0,
    decreases k,
{
    if k >= 1 {
        assert(2 * m >= 0);
        lemma_shift_up_cap_nonneg(s_cap(2 * m), k - 1);
    }
}

proof fn lemma_shift_down_nonneg(m: int, k: int)
    requires
        m >= 0,
    ensures
        shift_down(m, k) >= 0,
    decreases k,
{
    broadcast use vstd::arithmetic::div_mod::group_div_basics;

    if k >= 1 {
        lemma_shift_down_nonneg(m / 2, k - 1);
    }
}

/// A fixed-point exponential is never negative.
pub proof fn lemma_fx_exp_nonneg(a: int)
    ensures
        spec_fx_exp(a) >= 0,
{
    if !(a > 18 * (FX_ONE as int)) && !(a < -17 * (FX_ONE as int)) {
        let half = FX_LN2 as int / 2;
        let k0 = if a >= 0 {
            (a + half) / (FX_LN2 as int)
        } else {
            -((-a + half) / (FX_LN2 as int))
        };
        let k = if k0 > 27 {
            27
        } else if k0 < -27 {
            -27
        } else {
            k0
        };
        let r = spec_fx_sub(a, spec_fx_muli(FX_LN2 as int, k));
        let acc = exp_series(r, 19).0;
        let m = if acc <= 0 {
            0
        } else {
            acc
        };
        if k >= 0 {
            lemma_shift_up_cap_nonneg(m, k);
        } else {
            lemma_shift_down_nonneg(m, -k);
        }
    }
}

/// A fixed-point power is never negative.
pub proof fn lemma_fx_pow_nonneg(a: int, b: int)
    ensures
        spec_fx_pow(a, b) >= 0,
{
    if a > 0 {
        lemma_fx_exp_nonneg(spec_fx_mul(b, spec_fx_ln(a)));
    }
}

} // verus!
