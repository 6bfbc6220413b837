//! Psychrometric formulas over the quantity types: saturation vapor
//! pressure, moist-air enthalpy, and the vapor-pressure, humidity-ratio and
//! relative-humidity conversions, after the correlations of the ASHRAE
//! Handbook - Fundamentals (2017) ch. 1.
//!
//! Every formula is a stateless pure function of its typed inputs and
//! evaluates in fixed-point integer arithmetic.  Dimensionless numbers
//! (relative humidity, humidity ratio, scalar factors) travel as integers
//! in 1e-9 steps.

use vstd::arithmetic::div_mod::lemma_div_is_ordered_by_denominator;
use vstd::prelude::*;

use crate::fixed::{clamp, fixed_exp, fixed_ln, spec_exp_nano, spec_ln_nano, tdiv, tdiv_i128,
    RATIO_LIMIT_NANO};
use crate::quantities::{Pressure, SpecificEnthalpy, Temperature};
use crate::units::{PressureUnit, SpecificEnthalpyUnit, TemperatureUnit};

verus! {

/// All types of errors possible within the psychrometry crate.
#[derive(Debug, Clone, Copy, PartialEq, Eq, Structural)]
pub enum PsychroLibErr {
    /// When one of the values in param is not valid.
    Value,
    /// When one of the values in params is not within acceptable limits.
    Range,
    /// When the solution doesn't converge for given conditions.
    Convergence,
}

/// Triple point of water, in micro-kelvin: the branch point of the
/// saturation-pressure correlation.
pub const TRIPLE_POINT_WATER_MICRO_KELVIN: i64 = 273_160_000;

/// Lower end of the correlations' validity window (-100 C), in micro-kelvin.
pub const TEMP_RANGE_MIN_MICRO_KELVIN: i64 = 173_150_000;

/// Upper end of the correlations' validity window (200 C), in micro-kelvin.
pub const TEMP_RANGE_MAX_MICRO_KELVIN: i64 = 473_150_000;

/// Minimum humidity ratio, in 1e-9 steps (1e-7): humidity-ratio results are
/// floored here so downstream formulas cannot divide by zero or go negative.
pub const MIN_HUM_RATIO_NANO: i64 = 100;

/// Ratio of the molecular masses of water and dry air, in 1e-9 steps.
pub const WATER_AIR_MASS_RATIO_NANO: i64 = 621_945_000;

/// Whether a dry-bulb temperature lies in the validity window of the
/// saturation-pressure correlation.
pub open spec fn temp_in_range(t_uk: int) -> bool {
    173_150_000 <= t_uk <= 473_150_000
}

/// `ln` of the saturation vapor pressure over water (in pascal), in 1e-9
/// steps, for a dry-bulb temperature in micro-kelvin: a polynomial in the
/// temperature plus a multiple of its logarithm, with one coefficient set
/// below the triple point (over ice) and another above (over liquid water).
pub open spec fn spec_ln_pws_nano(t: int) -> int {
    let lnt = spec_ln_nano(t * 1000);
    if t <= 273_160_000 {
        -(5_674_535_900_000_000_000int / t) + 6_392_524_700 - t * 9_677_843 / 1_000_000 + t * t
            * 62_215_701 / 100_000_000_000_000_000 + t * t * t * 20_747_825
            / 10_000_000_000_000_000_000_000_000 - (t * t * t * t / 1_000_000) * 9_484_024
            / 10_000_000_000_000_000_000_000_000_000 + lnt * 41_635_019 / 10_000_000
    } else {
        -(5_800_220_600_000_000_000int / t) + 1_391_499_300 - t * 48_640_239 / 1_000_000 + t * t
            * 41_764_768 / 1_000_000_000_000_000 - t * t * t * 14_452_093
            / 1_000_000_000_000_000_000_000_000 + lnt * 65_459_673 / 10_000_000
    }
}

/// Saturation vapor pressure in canonical milli-pascal: the exponential of
/// `spec_ln_pws_nano`, floored at one milli-pascal so the result is never
/// zero inside the validity window.
pub open spec fn spec_sat_vap_pres_mpa(t: int) -> int {
    let p = spec_exp_nano(spec_ln_pws_nano(t)) / 1_000_000;
    if p < 1 {
        1
    } else {
        p
    }
}

/// Saturation vapor pressure in canonical milli-pascal, for a dry-bulb
/// temperature in micro-kelvin inside the validity window.
pub(crate) fn sat_vap_pres_canonical(t_uk: i64) -> (r: i64)
    requires
        temp_in_range(t_uk as int),
    ensures
        r == spec_sat_vap_pres_mpa(t_uk as int),
        1 <= r <= 110_000_000_000_000_000,
{
    let t: i128 = t_uk as i128;
    let lnt: i128 = fixed_ln(t * 1000);
    assert(29_980_922_500_000_000 <= t * t <= 223_870_922_500_000_000) by (nonlinear_arith)
        requires
            173_150_000 <= t <= 473_150_000,
    ;
    let tt: i128 = t * t;
    assert(5_000_000_000_000_000_000_000_000 <= tt * t <= 106_000_000_000_000_000_000_000_000)
        by (nonlinear_arith)
        requires
            173_150_000 <= t <= 473_150_000,
            29_980_922_500_000_000 <= tt <= 223_870_922_500_000_000,
    ;
    let ttt: i128 = tt * t;
    assert(0 <= ttt * t <= 50_200_000_000_000_000_000_000_000_000_000_000) by (nonlinear_arith)
        requires
            173_150_000 <= t <= 473_150_000,
            0 <= ttt <= 106_000_000_000_000_000_000_000_000,
    ;
    let t4: i128 = ttt * t;
    let lnp: i128;
    if t_uk <= TRIPLE_POINT_WATER_MICRO_KELVIN {
        proof {
            lemma_div_is_ordered_by_denominator(5_674_535_900_000_000_000, 173_150_000, t as int);
            lemma_div_is_ordered_by_denominator(
                5_674_535_900_000_000_000,
                t as int,
                273_160_000,
            );
        }
        let a: i128 = 5_674_535_900_000_000_000 / t;
        assert(20_000_000_000 <= a <= 33_000_000_000);
        let c: i128 = t * 9_677_843 / 1_000_000;
        assert(1_600_000_000 <= c <= 2_700_000_000);
        let d: i128 = tt * 62_215_701 / 100_000_000_000_000_000;
        assert(0 <= d <= 140_000_000);
        let e: i128 = ttt * 20_747_825 / 10_000_000_000_000_000_000_000_000;
        assert(0 <= e <= 220_000_000);
        let f: i128 = (t4 / 1_000_000) * 9_484_024 / 10_000_000_000_000_000_000_000_000_000;
        assert(0 <= f <= 48_000_000);
        let g: i128 = lnt * 41_635_019 / 10_000_000;
        assert(20_000_000_000 <= g <= 27_700_000_000);
        lnp = -a + 6_392_524_700 - c + d + e - f + g;
    } else {
        proof {
            lemma_div_is_ordered_by_denominator(5_800_220_600_000_000_000, 273_160_000, t as int);
            lemma_div_is_ordered_by_denominator(
                5_800_220_600_000_000_000,
                t as int,
                473_150_000,
            );
        }
        let a: i128 = 5_800_220_600_000_000_000 / t;
        assert(12_000_000_000 <= a <= 21_300_000_000);
        let c: i128 = t * 48_640_239 / 1_000_000;
        assert(13_000_000_000 <= c <= 23_100_000_000);
        let d: i128 = tt * 41_764_768 / 1_000_000_000_000_000;
        assert(1_200_000_000 <= d <= 9_400_000_000);
        let e: i128 = ttt * 14_452_093 / 1_000_000_000_000_000_000_000_000;
        assert(0 <= e <= 1_540_000_000);
        let f: i128 = lnt * 65_459_673 / 10_000_000;
        assert(31_000_000_000 <= f <= 43_600_000_000);
        lnp = -a + 1_391_499_300 - c + d - e + f;
    }
    assert(-13_000_000_000 <= lnp <= 30_000_000_000);
    let p: i128 = fixed_exp(lnp) / 1_000_000;
    if p < 1 {
        1
    } else {
        p as i64
    }
}

/// Return saturation vapor pressure given dry-bulb temperature.
/// Reference: ASHRAE Handbook - Fundamentals (2017) ch. 1 eqn. 5 & 6.
/// The two correlations are split at the triple point of water rather than
/// the freezing point, which removes the discontinuity between them.
/// Dry-bulb temperatures outside the documented -100 C to 200 C validity
/// window are rejected with a range error.
pub fn get_sat_vap_pres<T: TemperatureUnit, P: PressureUnit>(tdry_bulb: Temperature<T>) -> (r:
    Result<Pressure<P>, PsychroLibErr>)
    ensures
        r is Ok <==> temp_in_range(tdry_bulb.canonical()),
        r is Ok ==> r->Ok_0.canonical() == spec_sat_vap_pres_mpa(tdry_bulb.canonical()),
        r is Err ==> r->Err_0 == PsychroLibErr::Range,
{
    let t_uk = tdry_bulb.to_canonical();
    if t_uk < TEMP_RANGE_MIN_MICRO_KELVIN || t_uk > TEMP_RANGE_MAX_MICRO_KELVIN {
        return Err(PsychroLibErr::Range);
    }
    Ok(Pressure::from_canonical(sat_vap_pres_canonical(t_uk)))
}

/// Moist-air enthalpy in canonical milli-joule per kilogram, for a dry-bulb
/// temperature in micro-kelvin and a humidity ratio in 1e-9 steps:
/// `h = (1.006 t + w (2501 + 1.86 t)) * 1000` J/kg with `t` in Celsius.
pub open spec fn spec_moist_air_enthalpy_mj(t_uk: int, w_nano: int) -> int {
    let tc = t_uk - 273_150_000;
    tdiv(1006 * tc, 1000) + tdiv(w_nano * (2_501_000_000 + tdiv(186 * tc, 100)), 1_000_000_000)
}

/// Return moist air enthalpy given dry-bulb temperature and humidity ratio.
/// Reference: ASHRAE Handbook - Fundamentals (2017) ch. 1 eqn. 30.
/// A humidity ratio that is zero or negative is rejected with a value error.
pub fn get_moist_air_enthalpy_from_hum_ratio<T: TemperatureUnit, SPE: SpecificEnthalpyUnit>(
    tdry_bulb: Temperature<T>,
    hum_ratio_nano: i64,
) -> (r: Result<SpecificEnthalpy<SPE>, PsychroLibErr>)
    requires
        -2_000_000_000_000 <= tdry_bulb.canonical() <= 2_000_000_000_000,
        hum_ratio_nano <= 1_000_000_000_000_000,
    ensures
        r is Ok <==> hum_ratio_nano > 0,
        r is Ok ==> r->Ok_0.canonical() == spec_moist_air_enthalpy_mj(
            tdry_bulb.canonical(),
            hum_ratio_nano as int,
        ),
        r is Err ==> r->Err_0 == PsychroLibErr::Value,
{
    if hum_ratio_nano <= 0 {
        return Err(PsychroLibErr::Value);
    }
    let t_uk = tdry_bulb.to_canonical();
    let tc: i128 = (t_uk as i128) - 273_150_000;
    let dry: i128 = tdiv_i128(1006 * tc, 1000);
    assert(-2_300_000_000_000 <= dry <= 2_300_000_000_000);
    let half: i128 = tdiv_i128(186 * tc, 100);
    assert(-4_300_000_000_000 <= half <= 4_300_000_000_000);
    let inner: i128 = 2_501_000_000 + half;
    assert(-4_400_000_000_000_000_000_000_000_000 <= (hum_ratio_nano as int) * (inner as int)
        <= 4_400_000_000_000_000_000_000_000_000) by (nonlinear_arith)
        requires
            0 < hum_ratio_nano <= 1_000_000_000_000_000,
            -4_400_000_000_000 <= inner <= 4_400_000_000_000,
    ;
    let wet: i128 = tdiv_i128((hum_ratio_nano as i128) * inner, 1_000_000_000);
    Ok(SpecificEnthalpy::from_canonical((dry + wet) as i64))
}

/// Water-vapor partial pressure in canonical milli-pascal, from a humidity
/// ratio in 1e-9 steps and an ambient pressure in canonical milli-pascal:
/// `p_v = w / (0.621945 + w) * p_ambient`.
pub open spec fn spec_vap_pres_from_hum_ratio(w_nano: int, pa: int) -> int {
    tdiv(pa * w_nano, WATER_AIR_MASS_RATIO_NANO + w_nano)
}

/// Return vapor pressure given humidity ratio and ambient pressure.
/// Reference: ASHRAE Handbook - Fundamentals (2017) ch. 1 eqn 20 solved for
/// pw.  A humidity ratio that is zero or negative is rejected with a value
/// error.
pub fn get_vap_pres_from_hum_ratio<PA: PressureUnit, PV: PressureUnit>(
    hum_ratio_nano: i64,
    pres_ambient: Pressure<PA>,
) -> (r: Result<Pressure<PV>, PsychroLibErr>)
    requires
        hum_ratio_nano <= 1_000_000_000_000_000,
        -4_000_000_000_000_000_000 <= pres_ambient.canonical() <= 4_000_000_000_000_000_000,
    ensures
        r is Ok <==> hum_ratio_nano > 0,
        r is Ok ==> r->Ok_0.canonical() == spec_vap_pres_from_hum_ratio(
            hum_ratio_nano as int,
            pres_ambient.canonical(),
        ),
        r is Err ==> r->Err_0 == PsychroLibErr::Value,
{
    if hum_ratio_nano <= 0 {
        return Err(PsychroLibErr::Value);
    }
    let pa: i128 = pres_ambient.to_canonical() as i128;
    let w: i128 = hum_ratio_nano as i128;
    let den: i128 = (WATER_AIR_MASS_RATIO_NANO as i128) + w;
    assert(-4_000_000_000_000_000_000_000_000_000_000_000 <= pa * w
        <= 4_000_000_000_000_000_000_000_000_000_000_000) by (nonlinear_arith)
        requires
            -4_000_000_000_000_000_000 <= pa <= 4_000_000_000_000_000_000,
            0 < w <= 1_000_000_000_000_000,
    ;
    let q: i128 = tdiv_i128(pa * w, den);
    proof {
        let aq = crate::fixed::abs1(q as int);
        let ap = crate::fixed::abs1(pa as int);
        assert(crate::fixed::abs1((pa * w) as int) == ap * w) by (nonlinear_arith)
            requires
                w > 0,
                ap == crate::fixed::abs1(pa as int),
        ;
        assert(ap * w <= ap * (den as int)) by (nonlinear_arith)
            requires
                0 <= ap,
                0 < w <= den,
        ;
        vstd::arithmetic::div_mod::lemma_div_is_ordered(
            ap * w,
            ap * (den as int),
            den as int,
        );
        vstd::arithmetic::div_mod::lemma_div_by_multiple(ap, den as int);
        assert(aq <= ap);
    }
    Ok(Pressure::from_canonical(q as i64))
}

/// Return partial pressure of water vapor as a function of relative
/// humidity and temperature.
/// Reference: ASHRAE Handbook - Fundamentals (2017) ch. 1 eqn 12, 22.
/// A relative humidity outside `[0, 1]` is rejected with a range error, as
/// is a dry-bulb temperature outside the correlation's validity window.
pub fn get_vap_pres_from_rel_hum<T: TemperatureUnit, PV: PressureUnit>(
    tdry_bulb: Temperature<T>,
    rel_hum_nano: i64,
) -> (r: Result<Pressure<PV>, PsychroLibErr>)
    ensures
        r is Ok <==> (0 <= rel_hum_nano <= 1_000_000_000 && temp_in_range(tdry_bulb.canonical())),
        r is Ok ==> r->Ok_0.canonical() == tdiv(
            rel_hum_nano * spec_sat_vap_pres_mpa(tdry_bulb.canonical()),
            1_000_000_000int,
        ),
        r is Err ==> r->Err_0 == PsychroLibErr::Range,
{
    if rel_hum_nano < 0 || rel_hum_nano > 1_000_000_000 {
        return Err(PsychroLibErr::Range);
    }
    let t_uk = tdry_bulb.to_canonical();
    if t_uk < TEMP_RANGE_MIN_MICRO_KELVIN || t_uk > TEMP_RANGE_MAX_MICRO_KELVIN {
        return Err(PsychroLibErr::Range);
    }
    let psat: i64 = sat_vap_pres_canonical(t_uk);
    assert(0 <= (rel_hum_nano as int) * (psat as int) <= 110_000_000_000_000_000_000_000_000)
        by (nonlinear_arith)
        requires
            0 <= rel_hum_nano <= 1_000_000_000,
            0 <= psat <= 110_000_000_000_000_000,
    ;
    let q: i128 = tdiv_i128((rel_hum_nano as i128) * (psat as i128), 1_000_000_000);
    Ok(Pressure::from_canonical(q as i64))
}

/// Return relative humidity given dry-bulb temperature and vapor pressure,
/// as a ratio in 1e-9 steps.
/// Reference: ASHRAE Handbook - Fundamentals (2017) ch. 1 eqn 12, 22.
/// A vapor pressure that is zero or negative is rejected with a value
/// error; a dry-bulb temperature outside the correlation's validity window
/// with a range error.
pub fn get_rel_hum_from_vap_pres<T: TemperatureUnit, PV: PressureUnit>(
    tdry_bulb: Temperature<T>,
    vap_pres: Pressure<PV>,
) -> (r: Result<i64, PsychroLibErr>)
    ensures
        r is Ok <==> (vap_pres.canonical() > 0 && temp_in_range(tdry_bulb.canonical())),
        r is Ok ==> r->Ok_0 == clamp(
            tdiv(
                vap_pres.canonical() * 1_000_000_000,
                spec_sat_vap_pres_mpa(tdry_bulb.canonical()),
            ),
            -RATIO_LIMIT_NANO as int,
            RATIO_LIMIT_NANO as int,
        ),
        vap_pres.canonical() <= 0 ==> r == Result::<i64, PsychroLibErr>::Err(PsychroLibErr::Value),
        vap_pres.canonical() > 0 && !temp_in_range(tdry_bulb.canonical()) ==> r == Result::<
            i64,
            PsychroLibErr,
        >::Err(PsychroLibErr::Range),
{
    let pv = vap_pres.to_canonical();
    if pv <= 0 {
        return Err(PsychroLibErr::Value);
    }
    let t_uk = tdry_bulb.to_canonical();
    if t_uk < TEMP_RANGE_MIN_MICRO_KELVIN || t_uk > TEMP_RANGE_MAX_MICRO_KELVIN {
        return Err(PsychroLibErr::Range);
    }
    let psat: i64 = sat_vap_pres_canonical(t_uk);
    Ok(crate::fixed::ratio_of(pv, psat))
}

/// Humidity ratio in 1e-9 steps from a vapor pressure and an ambient
/// pressure in canonical milli-pascal: `w = 0.621945 p_v / (p_ambient -
/// p_v)`, floored at the minimum humidity ratio (also whenever the
/// denominator is not positive) and capped at the fixed-point band.
pub open spec fn spec_hum_ratio_from_vap_pres(pv: int, pa: int) -> int {
    if pa - pv <= 0 {
        MIN_HUM_RATIO_NANO as int
    } else {
        clamp(
            tdiv(WATER_AIR_MASS_RATIO_NANO * pv, pa - pv),
            MIN_HUM_RATIO_NANO as int,
            RATIO_LIMIT_NANO as int,
        )
    }
}

/// Return humidity ratio given water vapor pressure and ambient pressure,
/// as a ratio in 1e-9 steps.
/// Reference: ASHRAE Handbook - Fundamentals (2017) ch. 1 eqn 20.
/// A vapor pressure that is zero or negative is rejected with a value
/// error; results are floored at the minimum humidity ratio.
pub fn get_hum_ratio_from_vap_pres<PV: PressureUnit, P: PressureUnit>(
    vap_pres: Pressure<PV>,
    pres_ambient: Pressure<P>,
) -> (r: Result<i64, PsychroLibErr>)
    ensures
        r is Ok <==> vap_pres.canonical() > 0,
        r is Ok ==> r->Ok_0 == spec_hum_ratio_from_vap_pres(
            vap_pres.canonical(),
            pres_ambient.canonical(),
        ),
        r is Err ==> r->Err_0 == PsychroLibErr::Value,
{
    let pv = vap_pres.to_canonical();
    if pv <= 0 {
        return Err(PsychroLibErr::Value);
    }
    let den: i128 = (pres_ambient.to_canonical() as i128) - (pv as i128);
    if den <= 0 {
        return Ok(MIN_HUM_RATIO_NANO);
    }
    assert(0 <= (WATER_AIR_MASS_RATIO_NANO as int) * (pv as int)
        <= 6_000_000_000_000_000_000_000_000_000) by (nonlinear_arith)
        requires
            0 < pv <= 9_223_372_036_854_775_807,
            WATER_AIR_MASS_RATIO_NANO == 621_945_000,
    ;
    let q: i128 = tdiv_i128((WATER_AIR_MASS_RATIO_NANO as i128) * (pv as i128), den);
    let w: i64 = if q < MIN_HUM_RATIO_NANO as i128 {
        MIN_HUM_RATIO_NANO
    } else if q > RATIO_LIMIT_NANO as i128 {
        RATIO_LIMIT_NANO
    } else {
        q as i64
    };
    Ok(w)
}

/// Return humidity ratio given dry-bulb temperature, relative humidity, and
/// ambient pressure, as a ratio in 1e-9 steps: the vapor pressure at that
/// relative humidity, fed through the humidity-ratio conversion, either
/// stage's error passed on unchanged.
/// Reference: ASHRAE Handbook - Fundamentals (2017) ch. 1.
pub fn get_hum_ratio_from_rel_hum<T: TemperatureUnit, P: PressureUnit>(
    tdry_bulb: Temperature<T>,
    rel_hum_nano: i64,
    pres_ambient: Pressure<P>,
) -> (r: Result<i64, PsychroLibErr>)
    ensures
        ({
            let pv = tdiv(
                rel_hum_nano * spec_sat_vap_pres_mpa(tdry_bulb.canonical()),
                1_000_000_000int,
            );
            &&& (r is Ok <==> (0 <= rel_hum_nano <= 1_000_000_000 && temp_in_range(
                tdry_bulb.canonical(),
            ) && pv > 0))
            &&& (r is Ok ==> r->Ok_0 == spec_hum_ratio_from_vap_pres(
                pv,
                pres_ambient.canonical(),
            ))
            &&& (!(0 <= rel_hum_nano <= 1_000_000_000 && temp_in_range(tdry_bulb.canonical()))
                ==> r == Result::<i64, PsychroLibErr>::Err(PsychroLibErr::Range))
            &&& ((0 <= rel_hum_nano <= 1_000_000_000 && temp_in_range(tdry_bulb.canonical()) && pv
                <= 0) ==> r == Result::<i64, PsychroLibErr>::Err(PsychroLibErr::Value))
        }),
{
    let vap_pres: Pressure<P> = match get_vap_pres_from_rel_hum(tdry_bulb, rel_hum_nano) {
        Ok(p) => p,
        Err(e) => {
            return Err(e);
        },
    };
    get_hum_ratio_from_vap_pres(vap_pres, pres_ambient)
}

/// Return moist air enthalpy given dry-bulb temperature, relative humidity,
/// and ambient pressure: the humidity ratio at that relative humidity, fed
/// through the enthalpy formula, either stage's error passed on unchanged.
/// Reference: ASHRAE Handbook - Fundamentals (2017) ch. 1 eqn. 30.
pub fn get_moist_air_enthalpy_from_rel_hum<
    T: TemperatureUnit,
    S: SpecificEnthalpyUnit,
    P: PressureUnit,
>(
    tdry_bulb: Temperature<T>,
    rel_hum_nano: i64,
    pres_ambient: Pressure<P>,
) -> (r: Result<SpecificEnthalpy<S>, PsychroLibErr>)
    ensures
        ({
            let pv = tdiv(
                rel_hum_nano * spec_sat_vap_pres_mpa(tdry_bulb.canonical()),
                1_000_000_000int,
            );
            let w = spec_hum_ratio_from_vap_pres(pv, pres_ambient.canonical());
            &&& (r is Ok <==> (0 <= rel_hum_nano <= 1_000_000_000 && temp_in_range(
                tdry_bulb.canonical(),
            ) && pv > 0))
            &&& (r is Ok ==> r->Ok_0.canonical() == spec_moist_air_enthalpy_mj(
                tdry_bulb.canonical(),
                w,
            ))
            &&& (!(0 <= rel_hum_nano <= 1_000_000_000 && temp_in_range(tdry_bulb.canonical()))
                ==> r == Result::<SpecificEnthalpy<S>, PsychroLibErr>::Err(PsychroLibErr::Range))
            &&& ((0 <= rel_hum_nano <= 1_000_000_000 && temp_in_range(tdry_bulb.canonical()) && pv
                <= 0) ==> r == Result::<SpecificEnthalpy<S>, PsychroLibErr>::Err(
                PsychroLibErr::Value,
            ))
        }),
{
    let hum_ratio_nano: i64 = match get_hum_ratio_from_rel_hum(
        tdry_bulb.convert::<T>(),
        rel_hum_nano,
        pres_ambient,
    ) {
        Ok(w) => w,
        Err(e) => {
            return Err(e);
        },
    };
    get_moist_air_enthalpy_from_hum_ratio(tdry_bulb, hum_ratio_nano)
}

} // verus!
