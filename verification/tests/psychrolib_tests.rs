//! Tests of the psychrometric formulas: reference values from the ASHRAE
//! correlations, error scenarios, and end-to-end composition.

use psychrometry::psychrolib::{get_hum_ratio_from_rel_hum, get_hum_ratio_from_vap_pres,
    get_moist_air_enthalpy_from_hum_ratio, get_moist_air_enthalpy_from_rel_hum,
    get_rel_hum_from_vap_pres, get_sat_vap_pres, get_vap_pres_from_hum_ratio,
    get_vap_pres_from_rel_hum, PsychroLibErr};
use psychrometry::quantities::{Pressure, SpecificEnthalpy, Temperature};
use psychrometry::units::{Atmosphere, Celcius, Fahrenheit, JoulesPerKg, KilojoulesPerKg, Pascal,
    Psi};

fn micros(x: f64) -> i64 {
    (x * 1e6).round() as i64
}

fn nanos(x: f64) -> i64 {
    (x * 1e9).round() as i64
}

#[test]
fn get_sat_vap_pres_above_triple_point() {
    let tdrybulb = Temperature::<Celcius>::from_micros(micros(23.525));
    let sat_pres_exp = Pressure::<Pascal>::from_micros(micros(2901.087));
    let sat_pres_calc: Pressure<Pascal> = get_sat_vap_pres(tdrybulb).unwrap();
    assert_eq!(sat_pres_exp, sat_pres_calc);
}

#[test]
fn get_sat_vap_pres_below_triple_point() {
    let tdry_bulb = Temperature::<Celcius>::from_micros(micros(-8.332));
    let sat_pres_exp = Pressure::<Pascal>::from_micros(micros(301.104));
    let sat_pres_calc: Pressure<Pascal> = get_sat_vap_pres(tdry_bulb).unwrap();
    assert_eq!(sat_pres_exp, sat_pres_calc);
}

#[test]
fn get_moist_air_enthalpy_normal() {
    let tdry_bulb = Temperature::<Fahrenheit>::from_units(86);
    let hum_ratio = nanos(0.010);
    let enthalpy_exp = SpecificEnthalpy::<KilojoulesPerKg>::from_micros(micros(55.748));
    let enthalpy_calc: SpecificEnthalpy<KilojoulesPerKg> =
        get_moist_air_enthalpy_from_hum_ratio(tdry_bulb, hum_ratio).unwrap();
    assert_eq!(enthalpy_exp, enthalpy_calc);
}

#[test]
fn get_vap_pres_from_hum_ratio_normal() {
    let hum_ratio = nanos(0.005);
    let pres_ambient = Pressure::<Atmosphere>::from_units(1);
    let vap_pres_exp = Pressure::<Psi>::from_micros(micros(0.1172028493));
    let vap_pres_calc: Pressure<Pascal> =
        get_vap_pres_from_hum_ratio(hum_ratio, pres_ambient).unwrap();
    assert_eq!(vap_pres_exp, vap_pres_calc);
}

#[test]
fn get_vap_pres_from_rel_hum_normal() {
    let rel_hum = nanos(0.54303);
    let tdry_bulb = Temperature::<Celcius>::from_micros(micros(18.826));
    let vap_pres_exp = Pressure::<Pascal>::from_micros(micros(1180.5643));
    let vap_pres_calc: Pressure<Pascal> =
        get_vap_pres_from_rel_hum(tdry_bulb, rel_hum).unwrap();
    assert_eq!(vap_pres_exp, vap_pres_calc);
}

#[test]
fn get_hum_ratio_from_vap_pres_normal() {
    let vap_pres = Pressure::<Pascal>::from_micros(micros(2292.850));
    let pres_ambient = Pressure::<Atmosphere>::from_units(1);
    let hum_ratio = get_hum_ratio_from_vap_pres(vap_pres, pres_ambient).unwrap();
    assert!((hum_ratio as f64 / 1e9 - 0.01439).abs() < 0.0001);
}

#[test]
fn get_hum_ratio_from_rel_hum_normal() {
    let tdry_bulb = Temperature::<Fahrenheit>::from_units(86);
    let pres_ambient = Pressure::<Psi>::from_micros(micros(14.6959));
    let rel_hum = nanos(0.25);
    let hum_ratio = get_hum_ratio_from_rel_hum(tdry_bulb, rel_hum, pres_ambient).unwrap();
    assert!((hum_ratio as f64 / 1e9 - 0.0065).abs() < 0.0001);
}

#[test]
fn calculate_enthalpy() {
    let rel_hum = nanos(0.25);
    let tdry_bulb = Temperature::<Fahrenheit>::from_units(86);
    let pres_ambient = Pressure::<Atmosphere>::from_units(1);
    let sp_enthalpy: SpecificEnthalpy<KilojoulesPerKg> =
        get_moist_air_enthalpy_from_rel_hum(tdry_bulb, rel_hum, pres_ambient).unwrap();
    let sp_enthalpy_exp = SpecificEnthalpy::<JoulesPerKg>::from_micros(micros(47015.61));
    assert_eq!(sp_enthalpy_exp, sp_enthalpy);
}

#[test]
fn sat_vap_pres_reference_below_freezing() {
    let t = Temperature::<Celcius>::from_micros(micros(-10.0));
    let p: Pressure<Pascal> = get_sat_vap_pres(t).unwrap();
    let exp = Pressure::<Pascal>::from_micros(micros(259.90));
    assert_eq!(p, exp);
}

#[test]
fn sat_vap_pres_branches_agree_at_triple_point() {
    // The below-triple-point and above-triple-point correlations agree at
    // the split within the equality tolerance: one micro-degree below and
    // above 0.01 C land on each side of the branch.
    let below = Temperature::<Celcius>::from_micros(10_000);
    let above = Temperature::<Celcius>::from_micros(10_001);
    let p_below: Pressure<Pascal> = get_sat_vap_pres(below).unwrap();
    let p_above: Pressure<Pascal> = get_sat_vap_pres(above).unwrap();
    assert_eq!(p_below, p_above);
}

#[test]
fn sat_vap_pres_accepts_window_edges() {
    let lo = Temperature::<Celcius>::from_micros(micros(-100.0));
    let hi = Temperature::<Celcius>::from_micros(micros(200.0));
    assert!(get_sat_vap_pres::<Celcius, Pascal>(lo).is_ok());
    assert!(get_sat_vap_pres::<Celcius, Pascal>(hi).is_ok());
}

#[test]
fn sat_vap_pres_out_of_range_is_range_error() {
    let t = Temperature::<Celcius>::from_micros(micros(-150.0));
    let r = get_sat_vap_pres::<Celcius, Pascal>(t);
    assert!(matches!(r, Err(PsychroLibErr::Range)));
    let t = Temperature::<Celcius>::from_micros(micros(250.0));
    let r = get_sat_vap_pres::<Celcius, Pascal>(t);
    assert!(matches!(r, Err(PsychroLibErr::Range)));
}

#[test]
fn vap_pres_from_rel_hum_out_of_range_is_range_error() {
    let t = Temperature::<Celcius>::from_micros(micros(20.0));
    let r = get_vap_pres_from_rel_hum::<Celcius, Pascal>(t, nanos(-0.4));
    assert!(matches!(r, Err(PsychroLibErr::Range)));
    let t = Temperature::<Celcius>::from_micros(micros(20.0));
    let r = get_vap_pres_from_rel_hum::<Celcius, Pascal>(t, nanos(1.5));
    assert!(matches!(r, Err(PsychroLibErr::Range)));
}

#[test]
fn hum_ratio_from_vap_pres_negative_is_value_error() {
    let vap_pres = Pressure::<Pascal>::from_micros(micros(-5.0));
    let pres_ambient = Pressure::<Pascal>::from_units(101_325);
    let r = get_hum_ratio_from_vap_pres(vap_pres, pres_ambient);
    assert!(matches!(r, Err(PsychroLibErr::Value)));
}

#[test]
fn rel_hum_from_vap_pres_negative_is_value_error() {
    let t = Temperature::<Celcius>::from_micros(micros(20.0));
    let vap_pres = Pressure::<Pascal>::from_micros(micros(-1.0));
    let r = get_rel_hum_from_vap_pres(t, vap_pres);
    assert!(matches!(r, Err(PsychroLibErr::Value)));
}

#[test]
fn moist_air_enthalpy_nonpositive_hum_ratio_is_value_error() {
    let t = Temperature::<Celcius>::from_micros(micros(30.0));
    let r = get_moist_air_enthalpy_from_hum_ratio::<Celcius, JoulesPerKg>(t, 0);
    assert!(matches!(r, Err(PsychroLibErr::Value)));
    let t = Temperature::<Celcius>::from_micros(micros(30.0));
    let r = get_moist_air_enthalpy_from_hum_ratio::<Celcius, JoulesPerKg>(t, nanos(-0.01));
    assert!(matches!(r, Err(PsychroLibErr::Value)));
}

#[test]
fn vap_pres_from_hum_ratio_nonpositive_is_value_error() {
    let pres_ambient = Pressure::<Atmosphere>::from_units(1);
    let r = get_vap_pres_from_hum_ratio::<Atmosphere, Pascal>(0, pres_ambient);
    assert!(matches!(r, Err(PsychroLibErr::Value)));
}

#[test]
fn rel_hum_from_vap_pres_recovers_rel_hum() {
    // Relative humidity over saturation pressure and back.
    let t = Temperature::<Celcius>::from_micros(micros(18.826));
    let pv: Pressure<Pascal> = get_vap_pres_from_rel_hum(t, nanos(0.54303)).unwrap();
    let t = Temperature::<Celcius>::from_micros(micros(18.826));
    let phi = get_rel_hum_from_vap_pres(t, pv).unwrap();
    assert!((phi as f64 / 1e9 - 0.54303).abs() < 0.0001);
}

#[test]
fn enthalpy_cross_unit_agreement() {
    // The same physical state through an SI call and an IP call: 30 C and
    // 86 F, each with humidity ratio 0.010, agree on the enthalpy.
    let h_si: SpecificEnthalpy<JoulesPerKg> = get_moist_air_enthalpy_from_hum_ratio(
        Temperature::<Celcius>::from_micros(micros(30.0)),
        nanos(0.010),
    )
        .unwrap();
    let h_ip: SpecificEnthalpy<KilojoulesPerKg> = get_moist_air_enthalpy_from_hum_ratio(
        Temperature::<Fahrenheit>::from_units(86),
        nanos(0.010),
    )
        .unwrap();
    let h_exp = SpecificEnthalpy::<JoulesPerKg>::from_units(55_748);
    assert_eq!(h_si, h_exp);
    assert_eq!(h_ip, h_exp);
    assert_eq!(h_si, h_ip);
}

#[test]
fn composition_matches_staged_calls() {
    // The one-call enthalpy from relative humidity equals the enthalpy of
    // the separately computed humidity ratio.
    let rel_hum = nanos(0.25);
    let pres_ambient = Pressure::<Atmosphere>::from_units(1);
    let w = get_hum_ratio_from_rel_hum(
        Temperature::<Fahrenheit>::from_units(86),
        rel_hum,
        pres_ambient,
    )
        .unwrap();
    let h_staged: SpecificEnthalpy<JoulesPerKg> = get_moist_air_enthalpy_from_hum_ratio(
        Temperature::<Fahrenheit>::from_units(86),
        w,
    )
        .unwrap();
    let pres_ambient = Pressure::<Atmosphere>::from_units(1);
    let h_direct: SpecificEnthalpy<JoulesPerKg> = get_moist_air_enthalpy_from_rel_hum(
        Temperature::<Fahrenheit>::from_units(86),
        rel_hum,
        pres_ambient,
    )
        .unwrap();
    assert_eq!(h_staged, h_direct);
    assert_eq!(h_direct, SpecificEnthalpy::<JoulesPerKg>::from_micros(micros(47015.61)));
}

#[test]
fn composition_propagates_errors_unchanged() {
    // Either stage's error comes through the composed calls unchanged.
    let pres_ambient = Pressure::<Atmosphere>::from_units(1);
    let r = get_hum_ratio_from_rel_hum(
        Temperature::<Celcius>::from_micros(micros(-150.0)),
        nanos(0.5),
        pres_ambient,
    );
    assert!(matches!(r, Err(PsychroLibErr::Range)));
    let pres_ambient = Pressure::<Atmosphere>::from_units(1);
    let r = get_hum_ratio_from_rel_hum(
        Temperature::<Celcius>::from_micros(micros(20.0)),
        nanos(-0.4),
        pres_ambient,
    );
    assert!(matches!(r, Err(PsychroLibErr::Range)));
    let pres_ambient = Pressure::<Atmosphere>::from_units(1);
    let r = get_moist_air_enthalpy_from_rel_hum::<Celcius, JoulesPerKg, Atmosphere>(
        Temperature::<Celcius>::from_micros(micros(20.0)),
        nanos(0.0),
        pres_ambient,
    );
    assert!(matches!(r, Err(PsychroLibErr::Value)));
}

#[test]
fn hum_ratio_is_floored_at_minimum() {
    // A vapor pressure at or above the ambient pressure would give a
    // negative raw ratio; the documented floor takes over.
    let vap_pres = Pressure::<Pascal>::from_units(200_000);
    let pres_ambient = Pressure::<Atmosphere>::from_units(1);
    let w = get_hum_ratio_from_vap_pres(vap_pres, pres_ambient).unwrap();
    assert_eq!(w, 100);
    // A tiny positive vapor pressure under a huge ambient pressure gives a
    // raw ratio under the floor.
    let vap_pres = Pressure::<Pascal>::from_micros(1_000);
    let pres_ambient = Pressure::<Pascal>::from_units(1_000_000);
    let w = get_hum_ratio_from_vap_pres(vap_pres, pres_ambient).unwrap();
    assert_eq!(w, 100);
}

#[test]
fn vap_pres_from_rel_hum_zero_gives_zero() {
    let t = Temperature::<Celcius>::from_micros(micros(20.0));
    let pv: Pressure<Pascal> = get_vap_pres_from_rel_hum(t, 0).unwrap();
    assert_eq!(pv.to_micros(), 0);
}
