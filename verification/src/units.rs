//! Unit descriptors: compile-time tags that carry the conversion metadata
//! from a measurement unit to its dimension's canonical unit.
//!
//! Every descriptor exposes an integer scale factor ("canonical sub-units per
//! 1 of this unit") and, for the affine temperature dimension, an offset
//! locating the unit's zero point above absolute zero, in canonical
//! sub-units.  Adding a unit to an existing dimension takes one descriptor
//! and nothing else; all conversions route through the canonical
//! representation.

use vstd::prelude::*;

verus! {

broadcast use vstd::string::to_string_from_display_ensures_for_str;

/// A temperature measurement unit.  The canonical representation of the
/// temperature dimension is micro-kelvin; temperature is affine, so each
/// unit carries an offset beside its scale.
pub trait TemperatureUnit: Sized {
    /// Micro-kelvin per 1 degree of this unit.
    spec fn scale() -> int;

    /// Micro-kelvin between absolute zero and this unit's zero point.
    spec fn offset() -> int;

    /// The unit's display name.
    spec fn spec_name() -> Seq<char>;

    /// The unit's abbreviation.
    spec fn spec_abbreviation() -> Seq<char>;

    /// Every descriptor's constants lie in these ranges; quantity arithmetic
    /// relies on them for its overflow reasoning.
    proof fn properties()
        ensures
            1_000 <= Self::scale() <= 200_000_000,
            0 <= Self::offset() <= 300_000_000,
    ;

    fn singular_name() -> (r: String)
        ensures
            r@ == Self::spec_name(),
    ;

    fn abbreviation() -> (r: String)
        ensures
            r@ == Self::spec_abbreviation(),
    ;

    fn conv_factor_micro_kelvin() -> (r: i64)
        ensures
            r == Self::scale(),
    ;

    fn conv_offset_micro_kelvin() -> (r: i64)
        ensures
            r == Self::offset(),
    ;
}

/// A pressure measurement unit.  The canonical representation of the
/// pressure dimension is milli-pascal; pressure is linear, so a unit's zero
/// is always absolute zero and only a scale is needed.
pub trait PressureUnit: Sized {
    /// Milli-pascal per 1 of this unit.
    spec fn scale() -> int;

    /// The unit's display name.
    spec fn spec_name() -> Seq<char>;

    /// The unit's abbreviation.
    spec fn spec_abbreviation() -> Seq<char>;

    /// Every descriptor's scale lies in this range; quantity arithmetic
    /// relies on it for its overflow reasoning.
    proof fn properties()
        ensures
            1_000 <= Self::scale() <= 200_000_000,
    ;

    fn singular_name() -> (r: String)
        ensures
            r@ == Self::spec_name(),
    ;

    fn abbreviation() -> (r: String)
        ensures
            r@ == Self::spec_abbreviation(),
    ;

    fn conv_factor_milli_pascal() -> (r: i64)
        ensures
            r == Self::scale(),
    ;
}

/// A specific-enthalpy measurement unit.  The canonical representation of
/// the specific-enthalpy dimension is milli-joule per kilogram; the
/// dimension is linear, like pressure.
pub trait SpecificEnthalpyUnit: Sized {
    /// Milli-joule per kilogram, per 1 of this unit.
    spec fn scale() -> int;

    /// The unit's display name.
    spec fn spec_name() -> Seq<char>;

    /// The unit's abbreviation.
    spec fn spec_abbreviation() -> Seq<char>;

    /// Every descriptor's scale lies in this range; quantity arithmetic
    /// relies on it for its overflow reasoning.
    proof fn properties()
        ensures
            1_000 <= Self::scale() <= 200_000_000,
    ;

    fn singular_name() -> (r: String)
        ensures
            r@ == Self::spec_name(),
    ;

    fn abbreviation() -> (r: String)
        ensures
            r@ == Self::spec_abbreviation(),
    ;

    fn conv_factor_base_unit() -> (r: i64)
        ensures
            r == Self::scale(),
    ;
}

#[derive(Debug, Clone, Copy, PartialEq, Eq, PartialOrd, Ord, Hash)]
pub struct Kelvin;

impl TemperatureUnit for Kelvin {
    open spec fn scale() -> int {
        1_000_000
    }

    open spec fn offset() -> int {
        0
    }

    open spec fn spec_name() -> Seq<char> {
        "kelvin"@
    }

    open spec fn spec_abbreviation() -> Seq<char> {
        "K"@
    }

    proof fn properties() {
    }

    fn singular_name() -> String {
        "kelvin".to_string()
    }

    fn abbreviation() -> String {
        "K".to_string()
    }

    fn conv_factor_micro_kelvin() -> i64 {
        1_000_000
    }

    fn conv_offset_micro_kelvin() -> i64 {
        0
    }
}

#[derive(Debug, Clone, Copy, PartialEq, Eq, PartialOrd, Ord, Hash)]
pub struct Celcius;

impl TemperatureUnit for Celcius {
    open spec fn scale() -> int {
        1_000_000
    }

    open spec fn offset() -> int {
        273_150_000
    }

    open spec fn spec_name() -> Seq<char> {
        "celcius"@
    }

    open spec fn spec_abbreviation() -> Seq<char> {
        "C"@
    }

    proof fn properties() {
    }

    fn singular_name() -> String {
        "celcius".to_string()
    }

    fn abbreviation() -> String {
        "C".to_string()
    }

    fn conv_factor_micro_kelvin() -> i64 {
        1_000_000
    }

    fn conv_offset_micro_kelvin() -> i64 {
        273_150_000
    }
}

#[derive(Debug, Clone, Copy, PartialEq, Eq, PartialOrd, Ord, Hash)]
pub struct Fahrenheit;

/// Scale and offset are 1e6/1.8 and 459.67e6/1.8 rounded toward zero, the
/// micro-kelvin per degree Fahrenheit and the micro-kelvin at 0 degrees
/// Fahrenheit.
impl TemperatureUnit for Fahrenheit {
    open spec fn scale() -> int {
        555_555
    }

    open spec fn offset() -> int {
        255_372_222
    }

    open spec fn spec_name() -> Seq<char> {
        "fahrenheit"@
    }

    open spec fn spec_abbreviation() -> Seq<char> {
        "F"@
    }

    proof fn properties() {
    }

    fn singular_name() -> String {
        "fahrenheit".to_string()
    }

    fn abbreviation() -> String {
        "F".to_string()
    }

    fn conv_factor_micro_kelvin() -> i64 {
        555_555
    }

    fn conv_offset_micro_kelvin() -> i64 {
        255_372_222
    }
}

#[derive(Debug, Clone, Copy, PartialEq, Eq, PartialOrd, Ord, Hash)]
pub struct Pascal;

impl PressureUnit for Pascal {
    open spec fn scale() -> int {
        1_000
    }

    open spec fn spec_name() -> Seq<char> {
        "pascal"@
    }

    open spec fn spec_abbreviation() -> Seq<char> {
        "Pa"@
    }

    proof fn properties() {
    }

    fn singular_name() -> String {
        "pascal".to_string()
    }

    fn abbreviation() -> String {
        "Pa".to_string()
    }

    fn conv_factor_milli_pascal() -> i64 {
        1_000
    }
}

#[derive(Debug, Clone, Copy, PartialEq, Eq, PartialOrd, Ord, Hash)]
pub struct Atmosphere;

impl PressureUnit for Atmosphere {
    open spec fn scale() -> int {
        101_325_000
    }

    open spec fn spec_name() -> Seq<char> {
        "atmosphere"@
    }

    open spec fn spec_abbreviation() -> Seq<char> {
        "atm"@
    }

    proof fn properties() {
    }

    fn singular_name() -> String {
        "atmosphere".to_string()
    }

    fn abbreviation() -> String {
        "atm".to_string()
    }

    fn conv_factor_milli_pascal() -> i64 {
        101_325_000
    }
}

#[derive(Debug, Clone, Copy, PartialEq, Eq, PartialOrd, Ord, Hash)]
pub struct Psi;

impl PressureUnit for Psi {
    open spec fn scale() -> int {
        6_894_760
    }

    open spec fn spec_name() -> Seq<char> {
        "psi"@
    }

    open spec fn spec_abbreviation() -> Seq<char> {
        "psi"@
    }

    proof fn properties() {
    }

    fn singular_name() -> String {
        "psi".to_string()
    }

    fn abbreviation() -> String {
        "psi".to_string()
    }

    fn conv_factor_milli_pascal() -> i64 {
        6_894_760
    }
}

#[derive(Debug, Clone, Copy, PartialEq, Eq, PartialOrd, Ord, Hash)]
pub struct JoulesPerKg;

impl SpecificEnthalpyUnit for JoulesPerKg {
    open spec fn scale() -> int {
        1_000
    }

    open spec fn spec_name() -> Seq<char> {
        "joules per kilogram"@
    }

    open spec fn spec_abbreviation() -> Seq<char> {
        "j kg-1"@
    }

    proof fn properties() {
    }

    fn singular_name() -> String {
        "joules per kilogram".to_string()
    }

    fn abbreviation() -> String {
        "j kg-1".to_string()
    }

    fn conv_factor_base_unit() -> i64 {
        1_000
    }
}

#[derive(Debug, Clone, Copy, PartialEq, Eq, PartialOrd, Ord, Hash)]
pub struct KilojoulesPerKg;

impl SpecificEnthalpyUnit for KilojoulesPerKg {
    open spec fn scale() -> int {
        1_000_000
    }

    open spec fn spec_name() -> Seq<char> {
        "kilojoules per kilogram"@
    }

    open spec fn spec_abbreviation() -> Seq<char> {
        "kj kg-1"@
    }

    proof fn properties() {
    }

    fn singular_name() -> String {
        "kilojoules per kilogram".to_string()
    }

    fn abbreviation() -> String {
        "kj kg-1".to_string()
    }

    fn conv_factor_base_unit() -> i64 {
        1_000_000
    }
}

#[derive(Debug, Clone, Copy, PartialEq, Eq, PartialOrd, Ord, Hash)]
pub struct BtuPerPound;

impl SpecificEnthalpyUnit for BtuPerPound {
    open spec fn scale() -> int {
        2_326_000
    }

    open spec fn spec_name() -> Seq<char> {
        "Btu per pound"@
    }

    open spec fn spec_abbreviation() -> Seq<char> {
        "Btu lb-1"@
    }

    proof fn properties() {
    }

    fn singular_name() -> String {
        "Btu per pound".to_string()
    }

    fn abbreviation() -> String {
        "Btu lb-1".to_string()
    }

    fn conv_factor_base_unit() -> i64 {
        2_326_000
    }
}

} // verus!
