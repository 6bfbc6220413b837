//! Tests of the quantity wrappers: construction, conversion, tolerance
//! equality, exact ordering, and scalar arithmetic.

use psychrometry::quantities::{Pressure, SpecificEnthalpy, Temperature};
use psychrometry::units::{Atmosphere, BtuPerPound, Celcius, Fahrenheit, JoulesPerKg, Kelvin,
    KilojoulesPerKg, Pascal, Psi, PressureUnit, SpecificEnthalpyUnit, TemperatureUnit};

fn micros(x: f64) -> i64 {
    (x * 1e6).round() as i64
}

#[test]
fn pressure_create() {
    let a = 1.2_f64; //atm
    let b = 121_590; //Pa
    let c = 17.635_138; //psi
    let pa = Pressure::<Atmosphere>::from_micros(micros(a));
    let pb = Pressure::<Pascal>::from_units(b);
    let pc = Pressure::<Psi>::from_micros(micros(c));
    assert_eq!(pa, pc);
    assert!((pa.to_micros() as f64 / 1e6 - a).abs() < 1E-8);
    assert_eq!(pb, pc);
}

#[test]
fn specific_enthalpy_create() {
    let a = 12.4; //kj/kg
    let b = 5.331; //btu/lb
    let ea = SpecificEnthalpy::<KilojoulesPerKg>::from_micros(micros(a));
    let eb = SpecificEnthalpy::<BtuPerPound>::from_micros(micros(b));
    let c = 12400; //j/kg;
    let ec = SpecificEnthalpy::<JoulesPerKg>::from_units(c);
    assert_eq!(ea, eb);
    assert_eq!(eb, ec);
}

#[test]
fn create_temperatures() {
    let a = 100.1;
    let b = 212.18;
    let c = 373.25;
    let tf = Temperature::<Fahrenheit>::from_micros(micros(b));
    let tc = Temperature::<Celcius>::from_micros(micros(a));
    let tk = Temperature::<Kelvin>::from_micros(micros(c));
    assert_eq!(tf, tk);
    assert_eq!(tc, tk);
}

#[test]
fn convert_temperatures() {
    let a = 100.1;
    let b = 212.18;
    let c = 373.25;
    let tf = Temperature::<Fahrenheit>::from_micros(micros(b));
    let tc = Temperature::<Celcius>::from(&tf);
    let tk = Temperature::<Kelvin>::from(&tc);
    assert!((tc.to_micros() as f64 / 1e6 - a).abs() < 0.000_2);
    let tf_from_k = Temperature::<Fahrenheit>::from(&tk);
    assert!((tf_from_k.to_micros() as f64 / 1e6 - b).abs() < 0.000_2);
    assert!((tk.to_micros() as f64 / 1e6 - c).abs() < 0.000_2);
}

#[test]
fn round_trip_micros_all_units() {
    // Reading a quantity back in the unit it was built from stays within
    // two micro-units of the source for every unit in the catalog.
    let m = micros(-40.125);
    assert!((Temperature::<Kelvin>::from_micros(m).to_micros() - m).abs() <= 2);
    assert!((Temperature::<Celcius>::from_micros(m).to_micros() - m).abs() <= 2);
    assert!((Temperature::<Fahrenheit>::from_micros(m).to_micros() - m).abs() <= 2);
    let m = micros(3.25);
    assert!((Pressure::<Pascal>::from_micros(m).to_micros() - m).abs() <= 2);
    assert!((Pressure::<Atmosphere>::from_micros(m).to_micros() - m).abs() <= 2);
    assert!((Pressure::<Psi>::from_micros(m).to_micros() - m).abs() <= 2);
    assert!((SpecificEnthalpy::<JoulesPerKg>::from_micros(m).to_micros() - m).abs() <= 2);
    assert!((SpecificEnthalpy::<KilojoulesPerKg>::from_micros(m).to_micros() - m).abs() <= 2);
    assert!((SpecificEnthalpy::<BtuPerPound>::from_micros(m).to_micros() - m).abs() <= 2);
}

#[test]
fn cross_unit_equality() {
    assert_eq!(
        Temperature::<Celcius>::from_micros(micros(0.0)),
        Temperature::<Kelvin>::from_micros(micros(273.15))
    );
    assert_eq!(
        Temperature::<Fahrenheit>::from_micros(micros(32.0)),
        Temperature::<Celcius>::from_micros(micros(0.0))
    );
}

#[test]
fn equality_tolerance_boundary() {
    // Equality holds strictly inside the 200 micro-kelvin tolerance and
    // fails exactly at it; ordering stays exact either way.
    let base = Temperature::<Kelvin>::from_micros(300_000_000);
    let inside = Temperature::<Kelvin>::from_micros(300_000_199);
    let at_edge = Temperature::<Kelvin>::from_micros(300_000_200);
    assert!(base == inside);
    assert!(base != at_edge);
    assert!(base < inside);
    assert!(base < at_edge);
}

#[test]
fn affine_scalar_mul_anchors_at_unit_zero() {
    // Doubling 10 C gives 20 C: the scaling is anchored at the Celsius
    // zero point, not a doubling of the canonical micro-kelvin magnitude.
    let t10 = Temperature::<Celcius>::from_micros(micros(10.0));
    let t20 = Temperature::<Celcius>::from_micros(micros(20.0));
    assert_eq!(t10 * 2, t20);
    let t10 = Temperature::<Celcius>::from_micros(micros(10.0));
    assert_eq!(2 * t10, t20);
    let t10 = Temperature::<Celcius>::from_micros(micros(10.0));
    assert_eq!(t10.mul_nano(2_000_000_000), t20);
}

#[test]
fn affine_scalar_div_anchors_at_unit_zero() {
    let t20 = Temperature::<Celcius>::from_micros(micros(20.0));
    let t10 = Temperature::<Celcius>::from_micros(micros(10.0));
    assert_eq!(t20 / 2, t10);
    let t20 = Temperature::<Celcius>::from_micros(micros(20.0));
    assert_eq!(t20.div_nano(2_000_000_000), t10);
}

#[test]
fn scalar_add_sub_counts_units() {
    let t = Temperature::<Celcius>::from_units(10);
    assert_eq!(t + 5, Temperature::<Celcius>::from_units(15));
    let t = Temperature::<Celcius>::from_units(10);
    assert_eq!(5 + t, Temperature::<Celcius>::from_units(15));
    let t = Temperature::<Celcius>::from_units(10);
    assert_eq!(t - 4, Temperature::<Celcius>::from_units(6));
    let p = Pressure::<Pascal>::from_units(1000);
    assert_eq!(p + 500, Pressure::<Pascal>::from_units(1500));
    let e = SpecificEnthalpy::<JoulesPerKg>::from_units(100);
    assert_eq!(e - 40, SpecificEnthalpy::<JoulesPerKg>::from_units(60));
}

#[test]
fn linear_scalar_mul_div() {
    let p = Pressure::<Pascal>::from_units(1000);
    assert_eq!(p * 3, Pressure::<Pascal>::from_units(3000));
    let p = Pressure::<Pascal>::from_units(1000);
    assert_eq!(p.mul_nano(500_000_000), Pressure::<Pascal>::from_units(500));
    let p = Pressure::<Pascal>::from_units(1000);
    assert_eq!(p / 4, Pressure::<Pascal>::from_units(250));
    let e = SpecificEnthalpy::<KilojoulesPerKg>::from_units(12);
    assert_eq!(e * 2, SpecificEnthalpy::<KilojoulesPerKg>::from_units(24));
}

#[test]
fn scalar_over_quantity() {
    // A number divided by a quantity is the number over the quantity's
    // value in its own unit.
    let t = Temperature::<Celcius>::from_units(50);
    assert_eq!(100 / t, 2);
    let p = Pressure::<Pascal>::from_units(250);
    assert_eq!(1000 / p, 4);
}

#[test]
fn quantity_ratio_is_unit_independent() {
    // The same physical pressures give the same ratio whatever units the
    // operands were tagged with.
    let p1 = Pressure::<Pascal>::from_units(202_650);
    let p2 = Pressure::<Atmosphere>::from_units(1);
    assert_eq!(p1.ratio_nano(&p2), 2_000_000_000);
    let p1_atm = Pressure::<Atmosphere>::from(&p1);
    assert_eq!(p1_atm.ratio_nano(&p2), 2_000_000_000);
    let t1 = Temperature::<Kelvin>::from_units(400);
    let t2 = Temperature::<Kelvin>::from_units(200);
    assert_eq!(t1.ratio_nano(&t2), 2_000_000_000);
    let e1 = SpecificEnthalpy::<JoulesPerKg>::from_units(3000);
    let e2 = SpecificEnthalpy::<JoulesPerKg>::from_units(1000);
    assert_eq!(e1.ratio_nano(&e2), 3_000_000_000);
}

#[test]
fn retag_keeps_canonical_magnitude() {
    // Re-tagging reinterprets without rescaling: one atmosphere re-tagged
    // as pascal reads as 101325 pascal.
    let p = Pressure::<Atmosphere>::from_units(1);
    let p_pa: Pressure<Pascal> = p.convert();
    assert_eq!(p_pa.to_micros(), 101_325_000_000);
}

#[test]
fn whole_unit_readout_truncates() {
    let t = Temperature::<Celcius>::from_micros(micros(21.75));
    assert_eq!(i64::from(t), 21);
    let t = Temperature::<Celcius>::from_micros(micros(-3.5));
    assert_eq!(i64::from(t), -3);
    let p = Pressure::<Atmosphere>::from_micros(micros(2.9));
    assert_eq!(i64::from(p), 2);
    let e = SpecificEnthalpy::<KilojoulesPerKg>::from_micros(micros(12.4));
    assert_eq!(i64::from(e), 12);
}

#[test]
fn unit_descriptor_names() {
    assert_eq!(<Kelvin as TemperatureUnit>::singular_name(), "kelvin");
    assert_eq!(<Kelvin as TemperatureUnit>::abbreviation(), "K");
    assert_eq!(<Celcius as TemperatureUnit>::singular_name(), "celcius");
    assert_eq!(<Fahrenheit as TemperatureUnit>::abbreviation(), "F");
    assert_eq!(<Pascal as PressureUnit>::singular_name(), "pascal");
    assert_eq!(<Atmosphere as PressureUnit>::abbreviation(), "atm");
    assert_eq!(<Psi as PressureUnit>::singular_name(), "psi");
    assert_eq!(<JoulesPerKg as SpecificEnthalpyUnit>::abbreviation(), "j kg-1");
    assert_eq!(<BtuPerPound as SpecificEnthalpyUnit>::singular_name(), "Btu per pound");
    assert_eq!(<KilojoulesPerKg as SpecificEnthalpyUnit>::singular_name(), "kilojoules per kilogram");
}

#[test]
fn unit_descriptor_factors() {
    assert_eq!(<Kelvin as TemperatureUnit>::conv_factor_micro_kelvin(), 1_000_000);
    assert_eq!(<Celcius as TemperatureUnit>::conv_offset_micro_kelvin(), 273_150_000);
    assert_eq!(<Fahrenheit as TemperatureUnit>::conv_factor_micro_kelvin(), 555_555);
    assert_eq!(<Fahrenheit as TemperatureUnit>::conv_offset_micro_kelvin(), 255_372_222);
    assert_eq!(<Pascal as PressureUnit>::conv_factor_milli_pascal(), 1_000);
    assert_eq!(<Atmosphere as PressureUnit>::conv_factor_milli_pascal(), 101_325_000);
    assert_eq!(<Psi as PressureUnit>::conv_factor_milli_pascal(), 6_894_760);
    assert_eq!(<JoulesPerKg as SpecificEnthalpyUnit>::conv_factor_base_unit(), 1_000);
    assert_eq!(<KilojoulesPerKg as SpecificEnthalpyUnit>::conv_factor_base_unit(), 1_000_000);
    assert_eq!(<BtuPerPound as SpecificEnthalpyUnit>::conv_factor_base_unit(), 2_326_000);
}
