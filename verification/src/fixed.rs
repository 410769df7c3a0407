//! Fixed-point scalars: an `i64` counts millionths of a unit ([`SCALE`]).
//!
//! Every operation is total. Results are saturated into the symmetric range
//! `[-i64::MAX, i64::MAX]`, and division by zero yields a signed saturation
//! value, so no input can make an operation fail — mirroring the policy that
//! degenerate geometry produces large-but-finite sentinels rather than
//! errors. Each executable operation is proved equal to its spec-level
//! mirror (`spec_add`, `spec_mul`, ...), so contracts elsewhere in the crate
//! pin results down exactly.

use vstd::prelude::*;

verus! {

/// Number of fixed-point ticks in one unit (1.0).
pub const SCALE: i64 = 1_000_000;

/// One half (0.5) in fixed point.
pub const HALF: i64 = 500_000;

/// Two (2.0) in fixed point.
pub const TWO: i64 = 2_000_000;

/// Four (4.0) in fixed point.
pub const FOUR: i64 = 4_000_000;

/// Eight (8.0) in fixed point.
pub const EIGHT: i64 = 8_000_000;

/// Degeneracy threshold (1e-4): lengths below this are treated as zero.
pub const EPS: i64 = 100;

/// The large finite sentinel standing in for "infinity".
pub const INF: i64 = i64::MAX;

/// The negative counterpart of [`INF`].
pub const NEG_INF: i64 = -i64::MAX;

/// Saturation of a mathematical integer into the symmetric `i64` range.
pub open spec fn sat_int(x: int) -> int {
    if x > i64::MAX as int {
        i64::MAX as int
    } else if x < -(i64::MAX as int) {
        -(i64::MAX as int)
    } else {
        x
    }
}

/// Saturation, landed back in `i64`.
pub open spec fn sat(x: int) -> i64 {
    sat_int(x) as i64
}

/// Truncated (round-toward-zero) integer division, total in both arguments.
pub open spec fn trunc_div(x: int, d: int) -> int {
    if d == 0 {
        0
    } else if x == 0 {
        0
    } else if x > 0 && d > 0 {
        x / d
    } else if x < 0 && d < 0 {
        (x * -1) / (d * -1)
    } else if x < 0 {
        ((x * -1) / d) * -1
    } else {
        (x / (d * -1)) * -1
    }
}

/// Fixed-point addition.
pub open spec fn spec_add(a: i64, b: i64) -> i64 {
    sat(a + b)
}

/// Fixed-point subtraction.
pub open spec fn spec_sub(a: i64, b: i64) -> i64 {
    sat(a - b)
}

/// Fixed-point negation.
pub open spec fn spec_neg(a: i64) -> i64 {
    sat(-a)
}

/// Fixed-point absolute value.
pub open spec fn spec_abs(a: i64) -> i64 {
    if a < 0 {
        sat(-a)
    } else {
        a
    }
}

/// The smaller of two scalars.
pub open spec fn spec_min(a: i64, b: i64) -> i64 {
    if a < b {
        a
    } else {
        b
    }
}

/// The larger of two scalars.
pub open spec fn spec_max(a: i64, b: i64) -> i64 {
    if a > b {
        a
    } else {
        b
    }
}

/// Fixed-point multiplication: the exact product, rescaled with truncation.
pub open spec fn spec_mul(a: i64, b: i64) -> i64 {
    sat(trunc_div(a * b, SCALE as int))
}

/// Fixed-point division. A zero divisor saturates with the dividend's sign
/// (the "large finite sentinel" policy); zero over zero is zero.
pub open spec fn spec_div(a: i64, b: i64) -> i64 {
    if b == 0 {
        if a > 0 {
            INF
        } else if a < 0 {
            NEG_INF
        } else {
            0
        }
    } else {
        sat(trunc_div(a * SCALE, b as int))
    }
}

/// Integer square root (floor of the real square root) of a nonnegative
/// integer; zero on nonpositive input.
pub open spec fn spec_isqrt(n: int) -> int
    decreases n,
{
    if n <= 0 {
        0
    } else {
        let r = 2 * spec_isqrt(n / 4);
        if (r + 1) * (r + 1) <= n {
            r + 1
        } else {
            r
        }
    }
}

/// Fixed-point square root: floor of the real square root of `a / SCALE`,
/// rescaled. Nonpositive inputs give zero.
pub open spec fn spec_sqrt(a: i64) -> i64 {
    if a <= 0 {
        0
    } else {
        spec_isqrt(a * SCALE) as i64
    }
}

/// Fixed-point integer power: `n`-fold product of `b`, starting from one.
pub open spec fn spec_pow(b: i64, n: nat) -> i64
    decreases n,
{
    if n == 0 {
        SCALE
    } else {
        spec_mul(spec_pow(b, (n - 1) as nat), b)
    }
}

/// A whole number of units, as a fixed-point scalar.
pub open spec fn spec_from_i32(v: i32) -> i64 {
    sat(v * SCALE)
}

/// The product of two `i64` values stays strictly inside the `i128` range.
proof fn lemma_mul_i64_fits_i128(a: int, b: int)
    by (nonlinear_arith)
    requires
        i64::MIN <= a <= i64::MAX,
        i64::MIN <= b <= i64::MAX,
    ensures
        i128::MIN < a * b < i128::MAX,
{
}

/// Truncated division never grows a value's magnitude.
proof fn lemma_trunc_div_bounds(x: int, d: int)
    requires
        d != 0,
    ensures
        trunc_div(x, d) <= (if x >= 0 { x } else { -x }),
        -(if x >= 0 { x } else { -x }) <= trunc_div(x, d),
{
    let xm = if x >= 0 { x } else { -x };
    let dm = if d >= 0 { d } else { -d };
    if x != 0 {
        vstd::arithmetic::div_mod::lemma_div_pos_is_pos(xm, dm);
        vstd::arithmetic::div_mod::lemma_div_nonincreasing(xm, dm);
    }
}

/// Saturate a wide intermediate back into the symmetric `i64` range.
fn sat_i128(x: i128) -> (r: i64)
    ensures
        r == sat(x as int),
{
    if x > i64::MAX as i128 {
        i64::MAX
    } else if x < -(i64::MAX as i128) {
        -i64::MAX
    } else {
        x as i64
    }
}

/// Fixed-point addition.
pub fn fx_add(a: i64, b: i64) -> (r: i64)
    ensures
        r == spec_add(a, b),
{
    sat_i128(a as i128 + b as i128)
}

/// Fixed-point subtraction.
pub fn fx_sub(a: i64, b: i64) -> (r: i64)
    ensures
        r == spec_sub(a, b),
{
    sat_i128(a as i128 - b as i128)
}

/// Fixed-point negation.
pub fn fx_neg(a: i64) -> (r: i64)
    ensures
        r == spec_neg(a),
{
    sat_i128(-(a as i128))
}

/// Fixed-point absolute value.
pub fn fx_abs(a: i64) -> (r: i64)
    ensures
        r == spec_abs(a),
{
    if a < 0 {
        sat_i128(-(a as i128))
    } else {
        a
    }
}

/// The smaller of two scalars.
pub fn fx_min(a: i64, b: i64) -> (r: i64)
    ensures
        r == spec_min(a, b),
{
    if a < b {
        a
    } else {
        b
    }
}

/// The larger of two scalars.
pub fn fx_max(a: i64, b: i64) -> (r: i64)
    ensures
        r == spec_max(a, b),
{
    if a > b {
        a
    } else {
        b
    }
}

/// Fixed-point multiplication.
pub fn fx_mul(a: i64, b: i64) -> (r: i64)
    ensures
        r == spec_mul(a, b),
{
    proof {
        lemma_mul_i64_fits_i128(a as int, b as int);
    }
    let p: i128 = (a as i128) * (b as i128);
    proof {
        lemma_trunc_div_bounds(p as int, SCALE as int);
    }
    let q: i128 = p.checked_div(SCALE as i128).unwrap();
    assert(q == trunc_div(a * b, SCALE as int));
    sat_i128(q)
}

/// Fixed-point division with the sentinel policy for a zero divisor.
pub fn fx_div(a: i64, b: i64) -> (r: i64)
    ensures
        r == spec_div(a, b),
{
    if b == 0 {
        if a > 0 {
            INF
        } else if a < 0 {
            NEG_INF
        } else {
            0
        }
    } else {
        proof {
            lemma_mul_i64_fits_i128(a as int, SCALE as int);
        }
        let p: i128 = (a as i128) * (SCALE as i128);
        proof {
            lemma_trunc_div_bounds(p as int, b as int);
        }
        let q: i128 = p.checked_div(b as i128).unwrap();
        assert(q == trunc_div(a * SCALE, b as int));
        sat_i128(q)
    }
}

/// The recursive integer square root really is the floor square root.
pub proof fn lemma_isqrt_bounds(n: int)
    requires
        n >= 0,
    ensures
        0 <= spec_isqrt(n),
        spec_isqrt(n) * spec_isqrt(n) <= n,
        n < (spec_isqrt(n) + 1) * (spec_isqrt(n) + 1),
    decreases n,
{
    if n == 0 {
    } else {
        let m = n / 4;
        lemma_isqrt_bounds(m);
        let q = spec_isqrt(m);
        let r = 2 * q;
        vstd::arithmetic::div_mod::lemma_fundamental_div_mod(n, 4);
        assert(0 <= n % 4 < 4) by (nonlinear_arith)
            requires
                n >= 0,
        ;
        assert(r * r == 4 * (q * q)) by (nonlinear_arith)
            requires
                r == 2 * q,
        ;
        assert((r + 2) * (r + 2) == 4 * ((q + 1) * (q + 1))) by (nonlinear_arith)
            requires
                r == 2 * q,
        ;
        assert(4 * (q * q) <= 4 * m);
        assert(4 * m <= n);
        assert(r * r <= n);
        assert(4 * (m + 1) <= 4 * ((q + 1) * (q + 1)));
        assert(n < 4 * (m + 1));
        assert(n < (r + 2) * (r + 2));
        if (r + 1) * (r + 1) <= n {
            assert(spec_isqrt(n) == r + 1);
        } else {
            assert(spec_isqrt(n) == r);
        }
    }
}

/// Any integer bracketed as a floor square root equals `spec_isqrt`.
pub proof fn lemma_isqrt_unique(n: int, r: int)
    requires
        n >= 0,
        r >= 0,
        r * r <= n,
        n < (r + 1) * (r + 1),
    ensures
        r == spec_isqrt(n),
{
    lemma_isqrt_bounds(n);
    let s = spec_isqrt(n);
    if r < s {
        assert((r + 1) * (r + 1) <= s * s) by (nonlinear_arith)
            requires
                0 <= r + 1 <= s,
        ;
    }
    if s < r {
        assert((s + 1) * (s + 1) <= r * r) by (nonlinear_arith)
            requires
                0 <= s + 1 <= r,
        ;
    }
}

/// Rescaling an exact multiple is lossless: `trunc_div(c * m, m) == c`.
pub proof fn lemma_trunc_div_exact(c: int, m: int)
    requires
        m > 0,
    ensures
        trunc_div(c * m, m) == c,
{
    if c == 0 {
        assert(c * m == 0) by (nonlinear_arith)
            requires
                c == 0,
        ;
    } else if c > 0 {
        assert(c * m > 0) by (nonlinear_arith)
            requires
                c > 0 && m > 0,
        ;
        vstd::arithmetic::div_mod::lemma_div_by_multiple(c, m);
    } else {
        assert(c * m < 0) by (nonlinear_arith)
            requires
                c < 0 && m > 0,
        ;
        assert((c * m) * -1 == (-c) * m) by (nonlinear_arith);
        vstd::arithmetic::div_mod::lemma_div_by_multiple(-c, m);
        assert(trunc_div(c * m, m) == (((c * m) * -1) / m) * -1);
    }
}

/// Averaging four copies of a scalar is exact: summing from zero and
/// dividing by four gives the scalar back, provided it is far enough from
/// saturation.
pub proof fn lemma_quarter_div_exact(c: i64)
    requires
        -(i64::MAX / 4) <= c <= i64::MAX / 4,
    ensures
        spec_div(spec_add(spec_add(spec_add(spec_add(0, c), c), c), c), FOUR) == c,
{
    let s = spec_add(spec_add(spec_add(spec_add(0, c), c), c), c);
    assert(s == 4 * c);
    assert((4 * c) * (SCALE as int) == c * (FOUR as int));
    lemma_trunc_div_exact(c as int, FOUR as int);
}

/// Floor square root of a wide nonnegative integer, by bisection.
fn isqrt_u128(n: u128) -> (r: u64)
    requires
        n < 0x1000000000000000000000u128,  // 2^84
    ensures
        r == spec_isqrt(n as int),
{
    if n == 0 {
        proof {
            lemma_isqrt_unique(0, 0);
        }
        return 0;
    }
    let mut lo: u128 = 0;
    let mut hi: u128 = 0x40000000000u128;  // 2^42
    assert(n < hi * hi) by (nonlinear_arith)
        requires
            hi == 0x40000000000u128,
            n < 0x1000000000000000000000u128,
    ;
    while lo + 1 < hi
        invariant
            lo < hi,
            hi <= 0x40000000000u128,
            lo * lo <= n,
            n < hi * hi,
        decreases hi - lo,
    {
        let mid: u128 = lo + (hi - lo) / 2;
        assert(lo < mid < hi);
        assert(mid * mid < 0x10000000000000000000000u128) by (nonlinear_arith)
            requires
                mid <= 0x40000000000u128,
        ;
        if mid * mid <= n {
            lo = mid;
        } else {
            hi = mid;
        }
    }
    assert(hi == lo + 1);
    proof {
        lemma_isqrt_unique(n as int, lo as int);
    }
    assert(lo < 0x40000000000u128);
    lo as u64
}

/// Fixed-point square root.
pub fn fx_sqrt(a: i64) -> (r: i64)
    ensures
        r == spec_sqrt(a),
{
    if a <= 0 {
        return 0;
    }
    assert((a as u128) * 1000000u128 < 0x1000000000000000000000u128) by (nonlinear_arith)
        requires
            0 < a as u128 <= 0x7fffffffffffffffu128,
    ;
    let n: u128 = (a as u128) * 1000000u128;
    assert(n == a * SCALE);
    let root = isqrt_u128(n);
    proof {
        lemma_isqrt_bounds(n as int);
        assert(spec_isqrt(n as int) < 0x40000000000) by {
            if spec_isqrt(n as int) >= 0x40000000000 {
                assert(spec_isqrt(n as int) * spec_isqrt(n as int)
                    >= 0x40000000000 * 0x40000000000) by (nonlinear_arith)
                    requires
                        spec_isqrt(n as int) >= 0x40000000000,
                ;
            }
        }
    }
    root as i64
}

/// Fixed-point power with a whole-number exponent.
pub fn fx_pow(b: i64, n: u32) -> (r: i64)
    ensures
        r == spec_pow(b, n as nat),
{
    let mut acc: i64 = SCALE;
    let mut i: u32 = 0;
    while i < n
        invariant
            i <= n,
            acc == spec_pow(b, i as nat),
        decreases n - i,
    {
        acc = fx_mul(acc, b);
        i = i + 1;
    }
    acc
}

/// A whole number of units, as a fixed-point scalar.
pub fn fx_from_i32(v: i32) -> (r: i64)
    ensures
        r == spec_from_i32(v),
{
    proof {
        lemma_mul_i64_fits_i128(v as int, SCALE as int);
    }
    sat_i128((v as i128) * (SCALE as i128))
}

} // verus!
