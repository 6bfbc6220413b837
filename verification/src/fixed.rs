//! Fixed-point integer arithmetic shared by the quantity types and the
//! psychrometric formulas.
//!
//! All quantities store canonical magnitudes as signed 64-bit integers, and
//! every conversion scales by an integer factor and divides truncating toward
//! zero, exactly like a float-to-integer cast would.  The helpers here do that
//! arithmetic in 128 bits with exact contracts, so the quantity types can
//! state their behaviour as one `tdiv` expression each.

use vstd::arithmetic::div_mod::{lemma_div_denominator, lemma_div_is_ordered_by_denominator};
use vstd::arithmetic::power2::{lemma2_to64, lemma2_to64_rest, lemma_pow2_pos,
    lemma_pow2_strictly_increases, pow2};
use vstd::prelude::*;

verus! {

/// Magnitude of `a`.
pub open spec fn abs1(a: int) -> int {
    if a < 0 {
        -a
    } else {
        a
    }
}

/// Division truncating toward zero — the rounding Rust's integer `/` and
/// float-to-integer casts use — as opposed to the Euclidean `/` of spec
/// arithmetic.  Unspecified when `b == 0`.
pub open spec fn tdiv(a: int, b: int) -> int {
    if (a < 0) == (b < 0) {
        abs1(a) / abs1(b)
    } else {
        -(abs1(a) / abs1(b))
    }
}

/// `v` clamped into `[lo, hi]`.
pub open spec fn clamp(v: int, lo: int, hi: int) -> int {
    if v < lo {
        lo
    } else if v > hi {
        hi
    } else {
        v
    }
}

/// Truncating division on `i128`, with its exact value as the contract.
pub(crate) fn tdiv_i128(a: i128, b: i128) -> (r: i128)
    requires
        b != 0,
        a != i128::MIN,
        b != i128::MIN,
    ensures
        r == tdiv(a as int, b as int),
        abs1(r as int) == abs1(a as int) / abs1(b as int),
        abs1(r as int) <= abs1(a as int),
        abs1(r as int) * abs1(b as int) <= abs1(a as int),
        b > 0 ==> abs1(r as int) * b <= abs1(a as int),
{
    let aa: i128 = if a < 0 {
        -a
    } else {
        a
    };
    let bb: i128 = if b < 0 {
        -b
    } else {
        b
    };
    let q: i128 = aa / bb;
    proof {
        lemma_div_is_ordered_by_denominator(aa as int, 1, bb as int);
        vstd::arithmetic::div_mod::lemma_fundamental_div_mod(aa as int, bb as int);
        assert((aa as int / bb as int) * (bb as int) <= aa) by (nonlinear_arith)
            requires
                aa == (bb as int) * (aa as int / bb as int) + (aa as int) % (bb as int),
                (aa as int) % (bb as int) >= 0,
                bb > 0,
                aa >= 0,
        ;
    }
    if (a < 0) != (b < 0) {
        -q
    } else {
        q
    }
}

/// Fixed-point ratios (dimensionless numbers scaled by 1e9) that leave the
/// representable band are clamped to it; one ratio unit is 1e-9.
pub const RATIO_LIMIT_NANO: i64 = 1_000_000_000_000_000;

/// A whole count of units in canonical sub-units: `n * scale`, exact.
pub(crate) fn scale_units(n: i64, scale: i64) -> (r: i64)
    requires
        -1_000_000 <= n <= 1_000_000,
        1_000 <= scale <= 200_000_000,
    ensures
        r == n * scale,
        -200_000_000_000_000 <= r <= 200_000_000_000_000,
{
    assert(-200_000_000_000_000 <= (n as int) * (scale as int) <= 200_000_000_000_000)
        by (nonlinear_arith)
        requires
            -1_000_000 <= n <= 1_000_000,
            1_000 <= scale <= 200_000_000,
    ;
    ((n as i128) * (scale as i128)) as i64
}

/// Canonical magnitude from a count of micro-units:
/// `tdiv(micros * scale, 1e6) + offset`.
pub(crate) fn micros_to_canonical(micros: i64, scale: i64, offset: i64) -> (r: i64)
    requires
        -1_000_000_000_000 <= micros <= 1_000_000_000_000,
        1_000 <= scale <= 200_000_000,
        -300_000_000 <= offset <= 300_000_000,
    ensures
        r == tdiv(micros * scale, 1_000_000int) + offset as int,
{
    assert(-200_000_000_000_000_000_000 <= (micros as int) * (scale as int)
        <= 200_000_000_000_000_000_000) by (nonlinear_arith)
        requires
            -1_000_000_000_000 <= micros <= 1_000_000_000_000,
            1_000 <= scale <= 200_000_000,
    ;
    let p: i128 = (micros as i128) * (scale as i128);
    let q: i128 = tdiv_i128(p, 1_000_000);
    (q + (offset as i128)) as i64
}

/// Count of micro-units from a canonical magnitude:
/// `tdiv((canonical - offset) * 1e6, scale)`.
pub(crate) fn canonical_to_micros(canonical: i64, scale: i64, offset: i64) -> (r: i64)
    requires
        -8_000_000_000_000_000 <= canonical <= 8_000_000_000_000_000,
        1_000 <= scale <= 200_000_000,
        -300_000_000 <= offset <= 300_000_000,
    ensures
        r == tdiv((canonical - offset) * 1_000_000, scale as int),
{
    let d: i128 = (canonical as i128) - (offset as i128);
    let p: i128 = d * 1_000_000;
    let q: i128 = tdiv_i128(p, scale as i128);
    proof {
        assert(abs1(q as int) * 1_000 <= abs1(q as int) * (scale as int)) by (nonlinear_arith)
            requires
                abs1(q as int) >= 0,
                1_000 <= scale,
        ;
    }
    q as i64
}

/// Affine scaling toward the unit's zero point:
/// `offset + tdiv(factor * (canonical - offset), 1e9)`, the factor being a
/// dimensionless ratio in 1e-9 steps.  Linear dimensions pass `offset == 0`,
/// which reduces this to plain scaling of the canonical magnitude.
pub(crate) fn affine_mul(canonical: i64, offset: i64, factor_nano: i64) -> (r: i64)
    requires
        -1_000_000_000_000_000 <= canonical <= 1_000_000_000_000_000,
        -300_000_000 <= offset <= 300_000_000,
        -1_000_000_000_000 <= factor_nano <= 1_000_000_000_000,
    ensures
        r == offset + tdiv(factor_nano * (canonical - offset), 1_000_000_000int),
{
    let d: i128 = (canonical as i128) - (offset as i128);
    assert(-2_000_000_000_000_000_000_000_000_000 <= (factor_nano as int) * (d as int)
        <= 2_000_000_000_000_000_000_000_000_000) by (nonlinear_arith)
        requires
            -1_000_300_000_000_000 <= d <= 1_000_300_000_000_000,
            -1_000_000_000_000 <= factor_nano <= 1_000_000_000_000,
    ;
    let p: i128 = (factor_nano as i128) * d;
    let q: i128 = tdiv_i128(p, 1_000_000_000);
    ((offset as i128) + q) as i64
}

/// Affine division, the dual of `affine_mul`:
/// `offset + tdiv((canonical - offset) * 1e9, divisor)`.
pub(crate) fn affine_div(canonical: i64, offset: i64, divisor_nano: i64) -> (r: i64)
    requires
        divisor_nano != 0,
        -300_000_000 <= offset <= 300_000_000,
        abs1(canonical - offset) <= abs1(divisor_nano as int) * 4_000_000,
    ensures
        r == offset + tdiv((canonical - offset) * 1_000_000_000, divisor_nano as int),
{
    let d: i128 = (canonical as i128) - (offset as i128);
    let p: i128 = d * 1_000_000_000;
    let q: i128 = tdiv_i128(p, divisor_nano as i128);
    proof {
        let ad = abs1(divisor_nano as int);
        assert(abs1(p as int) == abs1(d as int) * 1_000_000_000);
        assert(abs1(p as int) <= ad * 4_000_000_000_000_000) by (nonlinear_arith)
            requires
                abs1(d as int) <= ad * 4_000_000,
                abs1(p as int) == abs1(d as int) * 1_000_000_000,
                ad >= 0,
        ;
        assert(abs1(q as int) <= 4_000_000_000_000_000) by (nonlinear_arith)
            requires
                abs1(q as int) == abs1(p as int) / ad,
                abs1(p as int) <= ad * 4_000_000_000_000_000,
                ad >= 1,
        ;
    }
    ((offset as i128) + q) as i64
}

/// Ratio of two canonical magnitudes in 1e-9 steps, clamped into the
/// representable band: `clamp(tdiv(c1 * 1e9, c2), -LIMIT, LIMIT)`.
pub(crate) fn ratio_of(c1: i64, c2: i64) -> (r: i64)
    requires
        c2 != 0,
    ensures
        r == clamp(
            tdiv(c1 * 1_000_000_000, c2 as int),
            -RATIO_LIMIT_NANO as int,
            RATIO_LIMIT_NANO as int,
        ),
{
    let p: i128 = (c1 as i128) * 1_000_000_000;
    let q: i128 = tdiv_i128(p, c2 as i128);
    if q < -(RATIO_LIMIT_NANO as i128) {
        -RATIO_LIMIT_NANO
    } else if q > RATIO_LIMIT_NANO as i128 {
        RATIO_LIMIT_NANO
    } else {
        q as i64
    }
}

/// Round-trip error of the scaling in `micros_to_canonical` followed by the
/// one in `canonical_to_micros`, for non-negative counts: the reading is
/// never above the original, and the shortfall, weighed by the scale, stays
/// under one canonical sub-unit plus one micro-unit.
proof fn lemma_floor_round_trip(m: int, s: int)
    requires
        0 <= m,
        1 <= s,
    ensures
        0 <= m - ((m * s / 1_000_000) * 1_000_000) / s,
        (m - ((m * s / 1_000_000) * 1_000_000) / s) * s < 1_000_000 + s,
{
    assert(m * s >= 0) by (nonlinear_arith)
        requires
            m >= 0,
            s >= 1,
    ;
    let x = m * s;
    vstd::arithmetic::div_mod::lemma_fundamental_div_mod(x, 1_000_000);
    let c = x / 1_000_000;
    let rx = x % 1_000_000;
    assert(c * 1_000_000 == x - rx);
    vstd::arithmetic::div_mod::lemma_fundamental_div_mod(c * 1_000_000, s);
    vstd::arithmetic::div_mod::lemma_mod_division_less_than_divisor(c * 1_000_000, s);
    let m2 = (c * 1_000_000) / s;
    let r2 = (c * 1_000_000) % s;
    assert(s * (m - m2) == rx + r2) by (nonlinear_arith)
        requires
            x == m * s,
            c * 1_000_000 == x - rx,
            c * 1_000_000 == s * m2 + r2,
    ;
    assert(0 <= rx + r2 < 1_000_000 + s);
    assert(m - m2 >= 0) by (nonlinear_arith)
        requires
            s >= 1,
            s * (m - m2) >= 0,
    ;
    assert((m - m2) * s < 1_000_000 + s) by (nonlinear_arith)
        requires
            s * (m - m2) == rx + r2,
            rx + r2 < 1_000_000 + s,
    ;
}

/// Round-trip law of the fixed-point boundary scalings: turning `m`
/// micro-units of a unit into a canonical magnitude and reading it back
/// loses, weighed by the unit's scale, less than one canonical sub-unit
/// plus one micro-unit.
pub proof fn lemma_micros_round_trip(m: int, s: int)
    requires
        1_000 <= s <= 200_000_000,
        -1_000_000_000_000 <= m <= 1_000_000_000_000,
    ensures
        abs1(tdiv(tdiv(m * s, 1_000_000int) * 1_000_000, s) - m) * s < 1_000_000 + s,
{
    if m >= 0 {
        assert(m * s >= 0) by (nonlinear_arith)
            requires
                m >= 0,
                s >= 1,
        ;
        let c = tdiv(m * s, 1_000_000int);
        assert(c == m * s / 1_000_000);
        assert(c >= 0) by {
            vstd::arithmetic::div_mod::lemma_div_pos_is_pos(m * s, 1_000_000);
        }
        lemma_floor_round_trip(m, s);
        let m2 = tdiv(c * 1_000_000, s);
        assert(m2 == (m * s / 1_000_000) * 1_000_000 / s);
        assert(abs1(m2 - m) == m - m2);
    } else {
        let mm = -m;
        assert(mm * s >= 0 && m * s == -(mm * s)) by (nonlinear_arith)
            requires
                m < 0,
                mm == -m,
                s >= 1,
        ;
        let cp = tdiv(mm * s, 1_000_000int);
        assert(cp == mm * s / 1_000_000);
        assert(cp >= 0) by {
            vstd::arithmetic::div_mod::lemma_div_pos_is_pos(mm * s, 1_000_000);
        }
        let c = tdiv(m * s, 1_000_000int);
        assert(c == -cp);
        lemma_floor_round_trip(mm, s);
        let m2p = tdiv(cp * 1_000_000, s);
        assert(m2p == (mm * s / 1_000_000) * 1_000_000 / s);
        assert(m2p >= 0) by {
            vstd::arithmetic::div_mod::lemma_div_pos_is_pos(cp * 1_000_000, s);
        }
        let m2 = tdiv(c * 1_000_000, s);
        assert(m2 == -m2p);
        assert(abs1(m2 - m) == mm - m2p);
        assert((mm - m2p) * s < 1_000_000 + s);
    }
}

/// Natural logarithm of 2 in 1e-9 steps, rounded to nearest.
pub const LN2_NANO: i64 = 693_147_181;

/// Power-of-two exponent chosen by the logarithm's range reduction.
pub open spec fn spec_ln_reduce_k(x: int) -> int {
    if x < 256_000_000_000 {
        7
    } else {
        8
    }
}

/// Reduced mantissa of the logarithm's range reduction, in `[1e9, 2e9)` for
/// `x` in `[1.28e11, 5.12e11)`.
pub open spec fn spec_ln_reduce_m(x: int) -> int {
    if x < 256_000_000_000 {
        x / 128
    } else {
        x / 256
    }
}

/// The argument of the logarithm's inverse-hyperbolic-tangent series:
/// `(m - 1) / (m + 1)` in 1e-9 steps.
pub open spec fn spec_ln_u(m: int) -> int {
    (m - 1_000_000_000) * 1_000_000_000 / (m + 1_000_000_000)
}

/// Truncated series `u + u^3/3 + u^5/5 + ... + u^13/13`, each power in 1e-9
/// steps with truncating division.
pub open spec fn spec_ln_series(u: int) -> int {
    let u2 = u * u / 1_000_000_000;
    let p3 = u * u2 / 1_000_000_000;
    let p5 = p3 * u2 / 1_000_000_000;
    let p7 = p5 * u2 / 1_000_000_000;
    let p9 = p7 * u2 / 1_000_000_000;
    let p11 = p9 * u2 / 1_000_000_000;
    let p13 = p11 * u2 / 1_000_000_000;
    u + p3 / 3 + p5 / 5 + p7 / 7 + p9 / 9 + p11 / 11 + p13 / 13
}

/// Fixed-point natural logarithm in 1e-9 steps: `ln(m * 2^k)` as
/// `2 * artanh((m-1)/(m+1)) + k * ln 2`.
pub open spec fn spec_ln_nano(x: int) -> int {
    2 * spec_ln_series(spec_ln_u(spec_ln_reduce_m(x))) + spec_ln_reduce_k(x) * LN2_NANO
}

/// Fixed-point natural logarithm of `x` in 1e-9 steps, for `x` between
/// `128` and `512` (that is, between 1.28e11 and 5.12e11 in 1e-9 steps).
pub(crate) fn fixed_ln(x: i128) -> (r: i128)
    requires
        128_000_000_000 <= x < 512_000_000_000,
    ensures
        r == spec_ln_nano(x as int),
        4_852_030_267 <= r <= 6_650_000_000,
{
    let k: i128 = if x < 256_000_000_000 {
        7
    } else {
        8
    };
    let m: i128 = if x < 256_000_000_000 {
        x / 128
    } else {
        x / 256
    };
    assert(1_000_000_000 <= m < 2_000_000_000);
    let num: i128 = m - 1_000_000_000;
    let den: i128 = m + 1_000_000_000;
    let u: i128 = (num * 1_000_000_000) / den;
    proof {
        lemma_div_is_ordered_by_denominator(
            (num * 1_000_000_000) as int,
            2_000_000_000,
            den as int,
        );
    }
    assert(0 <= u < 500_000_000);
    assert(0 <= u * u <= 250_000_000_000_000_000) by (nonlinear_arith)
        requires
            0 <= u < 500_000_000,
    ;
    let u2: i128 = u * u / 1_000_000_000;
    assert(0 <= u * u2 <= 125_000_000_000_000_000) by (nonlinear_arith)
        requires
            0 <= u < 500_000_000,
            0 <= u2 <= 250_000_000,
    ;
    let p3: i128 = u * u2 / 1_000_000_000;
    assert(0 <= p3 * u2 <= 31_250_000_000_000_000) by (nonlinear_arith)
        requires
            0 <= p3 <= 125_000_000,
            0 <= u2 <= 250_000_000,
    ;
    let p5: i128 = p3 * u2 / 1_000_000_000;
    assert(0 <= p5 * u2 <= 7_812_500_000_000_000) by (nonlinear_arith)
        requires
            0 <= p5 <= 31_250_000,
            0 <= u2 <= 250_000_000,
    ;
    let p7: i128 = p5 * u2 / 1_000_000_000;
    assert(0 <= p7 * u2 <= 1_953_125_000_000_000) by (nonlinear_arith)
        requires
            0 <= p7 <= 7_812_500,
            0 <= u2 <= 250_000_000,
    ;
    let p9: i128 = p7 * u2 / 1_000_000_000;
    assert(0 <= p9 * u2 <= 488_281_250_000_000) by (nonlinear_arith)
        requires
            0 <= p9 <= 1_953_125,
            0 <= u2 <= 250_000_000,
    ;
    let p11: i128 = p9 * u2 / 1_000_000_000;
    assert(0 <= p11 * u2 <= 122_070_500_000_000) by (nonlinear_arith)
        requires
            0 <= p11 <= 488_282,
            0 <= u2 <= 250_000_000,
    ;
    let p13: i128 = p11 * u2 / 1_000_000_000;
    let s: i128 = u + p3 / 3 + p5 / 5 + p7 / 7 + p9 / 9 + p11 / 11 + p13 / 13;
    2 * s + k * LN2_NANO as i128
}

/// Power-of-two exponent chosen by the exponential's range reduction:
/// the floor of `y / ln 2`.
pub open spec fn spec_exp_k(y: int) -> int {
    if y >= 0 {
        y / (LN2_NANO as int)
    } else {
        -((-y + LN2_NANO - 1) / (LN2_NANO as int))
    }
}

/// Truncated series `1 + r + r^2/2! + ... + r^13/13!`, each term in 1e-9
/// steps with truncating division.
pub open spec fn spec_exp_series(r: int) -> int {
    let t1 = r;
    let t2 = t1 * r / 1_000_000_000 / 2;
    let t3 = t2 * r / 1_000_000_000 / 3;
    let t4 = t3 * r / 1_000_000_000 / 4;
    let t5 = t4 * r / 1_000_000_000 / 5;
    let t6 = t5 * r / 1_000_000_000 / 6;
    let t7 = t6 * r / 1_000_000_000 / 7;
    let t8 = t7 * r / 1_000_000_000 / 8;
    let t9 = t8 * r / 1_000_000_000 / 9;
    let t10 = t9 * r / 1_000_000_000 / 10;
    let t11 = t10 * r / 1_000_000_000 / 11;
    let t12 = t11 * r / 1_000_000_000 / 12;
    let t13 = t12 * r / 1_000_000_000 / 13;
    1_000_000_000 + t1 + t2 + t3 + t4 + t5 + t6 + t7 + t8 + t9 + t10 + t11 + t12 + t13
}

/// Fixed-point exponential in 1e-9 steps: `exp(r) * 2^k` with
/// `r = y - k * ln 2` in `[0, ln 2)`.
pub open spec fn spec_exp_nano(y: int) -> int {
    let k = spec_exp_k(y);
    let e = spec_exp_series(y - k * LN2_NANO);
    if k >= 0 {
        e * pow2(k as nat)
    } else {
        e / (pow2((-k) as nat) as int)
    }
}

/// Truncated Taylor series of `exp(r0)` in 1e-9 steps, for `r0` in
/// `[0, ln 2)`.
pub(crate) fn exp_series(r0: i128) -> (e: i128)
    requires
        0 <= r0 < LN2_NANO,
    ensures
        e == spec_exp_series(r0 as int),
        1_000_000_000 <= e <= 10_100_000_000,
{
    let t1: i128 = r0;
    assert(0 <= t1 * r0 <= 490_000_000_000_000_000) by (nonlinear_arith)
        requires
            0 <= t1 < 700_000_000,
            0 <= r0 < 700_000_000,
    ;
    let t2: i128 = t1 * r0 / 1_000_000_000 / 2;
    assert(0 <= t2 * r0 <= 490_000_000_000_000_000) by (nonlinear_arith)
        requires
            0 <= t2 < 700_000_000,
            0 <= r0 < 700_000_000,
    ;
    let t3: i128 = t2 * r0 / 1_000_000_000 / 3;
    assert(0 <= t3 * r0 <= 490_000_000_000_000_000) by (nonlinear_arith)
        requires
            0 <= t3 < 700_000_000,
            0 <= r0 < 700_000_000,
    ;
    let t4: i128 = t3 * r0 / 1_000_000_000 / 4;
    assert(0 <= t4 * r0 <= 490_000_000_000_000_000) by (nonlinear_arith)
        requires
            0 <= t4 < 700_000_000,
            0 <= r0 < 700_000_000,
    ;
    let t5: i128 = t4 * r0 / 1_000_000_000 / 5;
    assert(0 <= t5 * r0 <= 490_000_000_000_000_000) by (nonlinear_arith)
        requires
            0 <= t5 < 700_000_000,
            0 <= r0 < 700_000_000,
    ;
    let t6: i128 = t5 * r0 / 1_000_000_000 / 6;
    assert(0 <= t6 * r0 <= 490_000_000_000_000_000) by (nonlinear_arith)
        requires
            0 <= t6 < 700_000_000,
            0 <= r0 < 700_000_000,
    ;
    let t7: i128 = t6 * r0 / 1_000_000_000 / 7;
    assert(0 <= t7 * r0 <= 490_000_000_000_000_000) by (nonlinear_arith)
        requires
            0 <= t7 < 700_000_000,
            0 <= r0 < 700_000_000,
    ;
    let t8: i128 = t7 * r0 / 1_000_000_000 / 8;
    assert(0 <= t8 * r0 <= 490_000_000_000_000_000) by (nonlinear_arith)
        requires
            0 <= t8 < 700_000_000,
            0 <= r0 < 700_000_000,
    ;
    let t9: i128 = t8 * r0 / 1_000_000_000 / 9;
    assert(0 <= t9 * r0 <= 490_000_000_000_000_000) by (nonlinear_arith)
        requires
            0 <= t9 < 700_000_000,
            0 <= r0 < 700_000_000,
    ;
    let t10: i128 = t9 * r0 / 1_000_000_000 / 10;
    assert(0 <= t10 * r0 <= 490_000_000_000_000_000) by (nonlinear_arith)
        requires
            0 <= t10 < 700_000_000,
            0 <= r0 < 700_000_000,
    ;
    let t11: i128 = t10 * r0 / 1_000_000_000 / 11;
    assert(0 <= t11 * r0 <= 490_000_000_000_000_000) by (nonlinear_arith)
        requires
            0 <= t11 < 700_000_000,
            0 <= r0 < 700_000_000,
    ;
    let t12: i128 = t11 * r0 / 1_000_000_000 / 12;
    assert(0 <= t12 * r0 <= 490_000_000_000_000_000) by (nonlinear_arith)
        requires
            0 <= t12 < 700_000_000,
            0 <= r0 < 700_000_000,
    ;
    let t13: i128 = t12 * r0 / 1_000_000_000 / 13;
    1_000_000_000 + t1 + t2 + t3 + t4 + t5 + t6 + t7 + t8 + t9 + t10 + t11 + t12 + t13
}

/// Fixed-point exponential of `y` in 1e-9 steps, for `y` between `-13` and
/// `30` (that is, between -1.3e10 and 3e10 in 1e-9 steps).
pub(crate) fn fixed_exp(y: i128) -> (r: i128)
    requires
        -13_000_000_000 <= y <= 30_000_000_000,
    ensures
        r == spec_exp_nano(y as int),
        1 <= r <= 110_000_000_000_000_000_000_000,
{
    let k: i128 = if y >= 0 {
        y / (LN2_NANO as i128)
    } else {
        -((-y + (LN2_NANO as i128) - 1) / (LN2_NANO as i128))
    };
    assert(-19 <= k <= 43);
    let r0: i128 = y - k * (LN2_NANO as i128);
    assert(0 <= r0 < LN2_NANO);
    let e: i128 = exp_series(r0);
    let ghost e0 = e as int;
    let mut out: i128 = e;
    if k >= 0 {
        let mut i: i128 = 0;
        proof {
            lemma2_to64();
            assert(pow2(0nat) == 1);
            assert(e0 * pow2(0nat) == e0) by (nonlinear_arith)
                requires
                    pow2(0nat) == 1,
            ;
        }
        while i < k
            invariant
                0 <= i <= k <= 43,
                1_000_000_000 <= e0 <= 10_100_000_000,
                out == e0 * pow2(i as nat),
                out <= 88_844_539_524_300_800_000_000,
            decreases k - i,
        {
            proof {
                lemma_pow2_pos(i as nat);
                lemma2_to64();
                lemma2_to64_rest();
                assert(pow2((i + 1) as nat) == 2 * pow2(i as nat)) by {
                    vstd::arithmetic::power2::lemma_pow2_unfold((i + 1) as nat);
                }
                if i + 1 < 43 {
                    lemma_pow2_strictly_increases((i + 1) as nat, 43nat);
                }
                assert(pow2((i + 1) as nat) <= pow2(43));
                assert(e0 * pow2((i + 1) as nat) <= e0 * pow2(43)) by (nonlinear_arith)
                    requires
                        e0 >= 0,
                        pow2((i + 1) as nat) <= pow2(43),
                ;
                assert(e0 * pow2(43) <= 10_100_000_000 * 8_796_093_022_208) by (nonlinear_arith)
                    requires
                        0 <= e0 <= 10_100_000_000,
                        pow2(43) == 8_796_093_022_208,
                ;
                assert(out * 2 == e0 * pow2((i + 1) as nat)) by (nonlinear_arith)
                    requires
                        out == e0 * pow2(i as nat),
                        pow2((i + 1) as nat) == 2 * pow2(i as nat),
                ;
            }
            out = out * 2;
            i = i + 1;
        }
        proof {
            lemma_pow2_pos(k as nat);
            assert(out >= e0) by (nonlinear_arith)
                requires
                    out == e0 * pow2(k as nat),
                    e0 >= 0,
                    pow2(k as nat) >= 1,
            ;
        }
    } else {
        let mut i: i128 = 0;
        let j: i128 = -k;
        proof {
            lemma2_to64();
            assert(pow2(0nat) == 1);
            assert(e0 / (pow2(0nat) as int) == e0);
        }
        while i < j
            invariant
                0 <= i <= j <= 19,
                1_000_000_000 <= e0 <= 10_100_000_000,
                out == e0 / (pow2(i as nat) as int),
                0 <= out <= e0,
            decreases j - i,
        {
            proof {
                lemma_pow2_pos(i as nat);
                assert(pow2((i + 1) as nat) == pow2(i as nat) * 2) by {
                    vstd::arithmetic::power2::lemma_pow2_unfold((i + 1) as nat);
                }
                lemma_div_denominator(e0, pow2(i as nat) as int, 2);
            }
            out = out / 2;
            i = i + 1;
        }
        proof {
            lemma2_to64();
            assert(pow2(19) == 524288);
            lemma_pow2_pos(j as nat);
            if (j as nat) < 19 {
                lemma_pow2_strictly_increases(j as nat, 19);
            }
            lemma_div_is_ordered_by_denominator(e0, pow2(j as nat) as int, 524288);
        }
        assert(out >= 1907);
    }
    out
}

} // verus!
