//! The specific-enthalpy quantity: a milli-joule-per-kilogram magnitude
//! tagged with the unit it was last expressed in.  Specific enthalpy is
//! linear, like pressure.

use core::marker::PhantomData;

use vstd::prelude::*;

use crate::fixed::{abs1, affine_div, affine_mul, canonical_to_micros, clamp, micros_to_canonical,
    ratio_of, scale_units, tdiv, tdiv_i128, RATIO_LIMIT_NANO};
use crate::units::SpecificEnthalpyUnit;

verus! {

/// Two specific enthalpies are equal when their canonical magnitudes differ
/// by less than this many milli-joule per kilogram.
pub const ENTHALPY_TOLERANCE: i64 = 200;

/// A specific enthalpy, stored as milli-joule per kilogram whatever the tag
/// `T` says.  The tag only decides how numbers are read on the way in and
/// produced on the way out, so values with different tags convert and
/// compare freely.
#[derive(Debug)]
pub struct SpecificEnthalpy<T: SpecificEnthalpyUnit> {
    pub(crate) milli_joule_per_kg: i64,
    pub(crate) unit: PhantomData<T>,
}

impl<T: SpecificEnthalpyUnit> SpecificEnthalpy<T> {
    /// Wrap a canonical magnitude; for the formula layer.
    pub(crate) fn from_canonical(c: i64) -> (r: Self)
        ensures
            r.canonical() == c,
    {
        SpecificEnthalpy { milli_joule_per_kg: c, unit: PhantomData }
    }

    /// Read the canonical magnitude; for the formula layer.
    pub(crate) fn to_canonical(&self) -> (r: i64)
        ensures
            r == self.canonical(),
    {
        self.milli_joule_per_kg
    }

    /// The canonical magnitude in milli-joule per kilogram.
    pub closed spec fn canonical(self) -> int {
        self.milli_joule_per_kg as int
    }

    /// What constructing from `m` micro-units of `T` yields: scale, then
    /// truncate toward zero as a float-to-integer cast would.
    pub open spec fn spec_from_micros(m: int) -> int {
        tdiv(m * T::scale(), 1_000_000int)
    }

    /// What reading a canonical magnitude back in micro-units of `T` yields.
    pub open spec fn spec_to_micros(c: int) -> int {
        tdiv(c * 1_000_000, T::scale())
    }

    /// Construct from a count of micro-units of `T` (one millionth of the
    /// unit); fractional values enter through this constructor.
    pub fn from_micros(micros: i64) -> (r: Self)
        requires
            -1_000_000_000_000 <= micros <= 1_000_000_000_000,
        ensures
            r.canonical() == Self::spec_from_micros(micros as int),
    {
        proof {
            T::properties();
        }
        let s = T::conv_factor_base_unit();
        SpecificEnthalpy { milli_joule_per_kg: micros_to_canonical(micros, s, 0), unit: PhantomData }
    }

    /// Construct from a whole count of units of `T`; this is exact.
    pub fn from_units(n: i64) -> (r: Self)
        requires
            -1_000_000 <= n <= 1_000_000,
        ensures
            r.canonical() == n * T::scale(),
    {
        proof {
            T::properties();
        }
        let s = T::conv_factor_base_unit();
        SpecificEnthalpy { milli_joule_per_kg: scale_units(n, s), unit: PhantomData }
    }

    /// The value in micro-units of `T`, truncated toward zero.
    pub fn to_micros(&self) -> (r: i64)
        requires
            -8_000_000_000_000_000 <= self.canonical() <= 8_000_000_000_000_000,
        ensures
            r == Self::spec_to_micros(self.canonical()),
    {
        proof {
            T::properties();
        }
        let s = T::conv_factor_base_unit();
        canonical_to_micros(self.milli_joule_per_kg, s, 0)
    }

    /// Re-tag under another specific-enthalpy unit.  The canonical magnitude
    /// is untouched; only the interpretation at the boundary changes.
    pub fn convert<T2: SpecificEnthalpyUnit>(&self) -> (r: SpecificEnthalpy<T2>)
        ensures
            r.canonical() == self.canonical(),
    {
        SpecificEnthalpy { milli_joule_per_kg: self.milli_joule_per_kg, unit: PhantomData }
    }

    /// Scale by a dimensionless ratio in 1e-9 steps.
    pub fn mul_nano(self, factor_nano: i64) -> (r: Self)
        requires
            -1_000_000_000_000_000 <= self.canonical() <= 1_000_000_000_000_000,
            -1_000_000_000_000 <= factor_nano <= 1_000_000_000_000,
        ensures
            r.canonical() == tdiv(factor_nano * self.canonical(), 1_000_000_000int),
    {
        SpecificEnthalpy {
            milli_joule_per_kg: affine_mul(self.milli_joule_per_kg, 0, factor_nano),
            unit: PhantomData,
        }
    }

    /// Divide by a dimensionless ratio in 1e-9 steps.
    pub fn div_nano(self, divisor_nano: i64) -> (r: Self)
        requires
            divisor_nano != 0,
            abs1(self.canonical()) <= abs1(divisor_nano as int) * 4_000_000,
        ensures
            r.canonical() == tdiv(self.canonical() * 1_000_000_000, divisor_nano as int),
    {
        SpecificEnthalpy {
            milli_joule_per_kg: affine_div(self.milli_joule_per_kg, 0, divisor_nano),
            unit: PhantomData,
        }
    }

    /// The dimensionless ratio of two specific enthalpies' canonical
    /// magnitudes, in 1e-9 steps, whatever units either carries.
    pub fn ratio_nano<T2: SpecificEnthalpyUnit>(&self, other: &SpecificEnthalpy<T2>) -> (r: i64)
        requires
            other.canonical() != 0,
        ensures
            r == clamp(
                tdiv(self.canonical() * 1_000_000_000, other.canonical()),
                -RATIO_LIMIT_NANO as int,
                RATIO_LIMIT_NANO as int,
            ),
    {
        ratio_of(self.milli_joule_per_kg, other.milli_joule_per_kg)
    }
}

/// Round-trip law: reading a value back in the unit it was built
/// from recovers the original count of micro-units, up to a shortfall that,
/// weighed by the unit's scale, stays under one canonical sub-unit plus one
/// micro-unit.
pub proof fn lemma_round_trip<T: SpecificEnthalpyUnit>(m: int)
    requires
        -1_000_000_000_000 <= m <= 1_000_000_000_000,
    ensures
        abs1(SpecificEnthalpy::<T>::spec_to_micros(SpecificEnthalpy::<T>::spec_from_micros(m)) - m)
            * T::scale() < 1_000_000 + T::scale(),
{
    T::properties();
    crate::fixed::lemma_micros_round_trip(m, T::scale());
}

impl<T: SpecificEnthalpyUnit> std::ops::Add<i64> for SpecificEnthalpy<T> {
    type Output = SpecificEnthalpy<T>;

    /// Add that many units of `T`: the count is scaled by the unit's
    /// factor.
    fn add(self, rhs: i64) -> (r: SpecificEnthalpy<T>) {
        proof {
            T::properties();
        }
        let s = T::conv_factor_base_unit();
        SpecificEnthalpy { milli_joule_per_kg: self.milli_joule_per_kg + scale_units(rhs, s), unit: PhantomData }
    }
}

impl<T: SpecificEnthalpyUnit> vstd::std_specs::ops::AddSpecImpl<i64> for SpecificEnthalpy<T> {
    open spec fn obeys_add_spec() -> bool {
        true
    }

    open spec fn add_req(self, rhs: i64) -> bool {
        &&& -1_000_000 <= rhs <= 1_000_000
        &&& -4_000_000_000_000_000_000 <= self.canonical() <= 4_000_000_000_000_000_000
    }

    closed spec fn add_spec(self, rhs: i64) -> SpecificEnthalpy<T> {
        SpecificEnthalpy { milli_joule_per_kg: (self.milli_joule_per_kg + rhs * T::scale()) as i64, unit: PhantomData }
    }
}

impl<T: SpecificEnthalpyUnit> std::ops::Add<SpecificEnthalpy<T>> for i64 {
    type Output = SpecificEnthalpy<T>;

    /// The mirror of `SpecificEnthalpy + i64`, with the same result.
    fn add(self, rhs: SpecificEnthalpy<T>) -> (r: SpecificEnthalpy<T>) {
        proof {
            T::properties();
        }
        let s = T::conv_factor_base_unit();
        SpecificEnthalpy { milli_joule_per_kg: rhs.milli_joule_per_kg + scale_units(self, s), unit: PhantomData }
    }
}

impl<T: SpecificEnthalpyUnit> vstd::std_specs::ops::AddSpecImpl<SpecificEnthalpy<T>> for i64 {
    open spec fn obeys_add_spec() -> bool {
        true
    }

    open spec fn add_req(self, rhs: SpecificEnthalpy<T>) -> bool {
        &&& -1_000_000 <= self <= 1_000_000
        &&& -4_000_000_000_000_000_000 <= rhs.canonical() <= 4_000_000_000_000_000_000
    }

    closed spec fn add_spec(self, rhs: SpecificEnthalpy<T>) -> SpecificEnthalpy<T> {
        SpecificEnthalpy { milli_joule_per_kg: (rhs.milli_joule_per_kg + self * T::scale()) as i64, unit: PhantomData }
    }
}

impl<T: SpecificEnthalpyUnit> std::ops::Sub<i64> for SpecificEnthalpy<T> {
    type Output = SpecificEnthalpy<T>;

    /// Subtract that many units of `T`.
    fn sub(self, rhs: i64) -> (r: SpecificEnthalpy<T>) {
        proof {
            T::properties();
        }
        let s = T::conv_factor_base_unit();
        SpecificEnthalpy { milli_joule_per_kg: self.milli_joule_per_kg - scale_units(rhs, s), unit: PhantomData }
    }
}

impl<T: SpecificEnthalpyUnit> vstd::std_specs::ops::SubSpecImpl<i64> for SpecificEnthalpy<T> {
    open spec fn obeys_sub_spec() -> bool {
        true
    }

    open spec fn sub_req(self, rhs: i64) -> bool {
        &&& -1_000_000 <= rhs <= 1_000_000
        &&& -4_000_000_000_000_000_000 <= self.canonical() <= 4_000_000_000_000_000_000
    }

    closed spec fn sub_spec(self, rhs: i64) -> SpecificEnthalpy<T> {
        SpecificEnthalpy { milli_joule_per_kg: (self.milli_joule_per_kg - rhs * T::scale()) as i64, unit: PhantomData }
    }
}

impl<T: SpecificEnthalpyUnit> std::ops::Mul<i64> for SpecificEnthalpy<T> {
    type Output = SpecificEnthalpy<T>;

    /// Scale the canonical magnitude by a whole factor, exactly.
    fn mul(self, rhs: i64) -> (r: SpecificEnthalpy<T>) {
        assert(-1_000_000_000_000_000_000 <= (rhs as int) * (self.milli_joule_per_kg as int)
            <= 1_000_000_000_000_000_000) by (nonlinear_arith)
            requires
                -1_000 <= rhs <= 1_000,
                -1_000_000_000_000_000 <= self.milli_joule_per_kg <= 1_000_000_000_000_000,
        ;
        let p: i128 = (rhs as i128) * (self.milli_joule_per_kg as i128);
        SpecificEnthalpy { milli_joule_per_kg: p as i64, unit: PhantomData }
    }
}

impl<T: SpecificEnthalpyUnit> vstd::std_specs::ops::MulSpecImpl<i64> for SpecificEnthalpy<T> {
    open spec fn obeys_mul_spec() -> bool {
        true
    }

    open spec fn mul_req(self, rhs: i64) -> bool {
        &&& -1_000 <= rhs <= 1_000
        &&& -1_000_000_000_000_000 <= self.canonical() <= 1_000_000_000_000_000
    }

    closed spec fn mul_spec(self, rhs: i64) -> SpecificEnthalpy<T> {
        SpecificEnthalpy { milli_joule_per_kg: (rhs * self.milli_joule_per_kg) as i64, unit: PhantomData }
    }
}

impl<T: SpecificEnthalpyUnit> std::ops::Mul<SpecificEnthalpy<T>> for i64 {
    type Output = SpecificEnthalpy<T>;

    /// The mirror of `SpecificEnthalpy * i64`, with the same result.
    fn mul(self, rhs: SpecificEnthalpy<T>) -> (r: SpecificEnthalpy<T>) {
        assert(-1_000_000_000_000_000_000 <= (self as int) * (rhs.milli_joule_per_kg as int)
            <= 1_000_000_000_000_000_000) by (nonlinear_arith)
            requires
                -1_000 <= self <= 1_000,
                -1_000_000_000_000_000 <= rhs.milli_joule_per_kg <= 1_000_000_000_000_000,
        ;
        let p: i128 = (self as i128) * (rhs.milli_joule_per_kg as i128);
        SpecificEnthalpy { milli_joule_per_kg: p as i64, unit: PhantomData }
    }
}

impl<T: SpecificEnthalpyUnit> vstd::std_specs::ops::MulSpecImpl<SpecificEnthalpy<T>> for i64 {
    open spec fn obeys_mul_spec() -> bool {
        true
    }

    open spec fn mul_req(self, rhs: SpecificEnthalpy<T>) -> bool {
        &&& -1_000 <= self <= 1_000
        &&& -1_000_000_000_000_000 <= rhs.canonical() <= 1_000_000_000_000_000
    }

    closed spec fn mul_spec(self, rhs: SpecificEnthalpy<T>) -> SpecificEnthalpy<T> {
        SpecificEnthalpy { milli_joule_per_kg: (self * rhs.milli_joule_per_kg) as i64, unit: PhantomData }
    }
}

impl<T: SpecificEnthalpyUnit> std::ops::Div<i64> for SpecificEnthalpy<T> {
    type Output = SpecificEnthalpy<T>;

    /// Divide the canonical magnitude by a whole factor, truncating toward
    /// zero.
    fn div(self, rhs: i64) -> (r: SpecificEnthalpy<T>) {
        let q: i128 = tdiv_i128(self.milli_joule_per_kg as i128, rhs as i128);
        SpecificEnthalpy { milli_joule_per_kg: q as i64, unit: PhantomData }
    }
}

impl<T: SpecificEnthalpyUnit> vstd::std_specs::ops::DivSpecImpl<i64> for SpecificEnthalpy<T> {
    open spec fn obeys_div_spec() -> bool {
        true
    }

    open spec fn div_req(self, rhs: i64) -> bool {
        rhs != 0
    }

    closed spec fn div_spec(self, rhs: i64) -> SpecificEnthalpy<T> {
        SpecificEnthalpy { milli_joule_per_kg: tdiv(self.milli_joule_per_kg as int, rhs as int) as i64, unit: PhantomData }
    }
}

impl<T: SpecificEnthalpyUnit> std::ops::Div<SpecificEnthalpy<T>> for i64 {
    type Output = i64;

    /// A number divided by a specific enthalpy: the number over the value in its
    /// own unit, truncating toward zero.
    fn div(self, rhs: SpecificEnthalpy<T>) -> (r: i64) {
        proof {
            T::properties();
        }
        let s = T::conv_factor_base_unit();
        let p: i64 = scale_units(self, s);
        let q: i128 = tdiv_i128(p as i128, rhs.milli_joule_per_kg as i128);
        q as i64
    }
}

impl<T: SpecificEnthalpyUnit> vstd::std_specs::ops::DivSpecImpl<SpecificEnthalpy<T>> for i64 {
    open spec fn obeys_div_spec() -> bool {
        true
    }

    open spec fn div_req(self, rhs: SpecificEnthalpy<T>) -> bool {
        &&& -1_000_000 <= self <= 1_000_000
        &&& rhs.canonical() != 0
    }

    closed spec fn div_spec(self, rhs: SpecificEnthalpy<T>) -> i64 {
        tdiv(self * T::scale(), rhs.milli_joule_per_kg as int) as i64
    }
}

impl<'a, T1: SpecificEnthalpyUnit, T2: SpecificEnthalpyUnit> From<&'a SpecificEnthalpy<T1>> for SpecificEnthalpy<T2> {
    /// Re-tagging between specific-enthalpy units, as a `From` conversion.
    fn from(e: &'a SpecificEnthalpy<T1>) -> (r: SpecificEnthalpy<T2>) {
        SpecificEnthalpy { milli_joule_per_kg: e.milli_joule_per_kg, unit: PhantomData }
    }
}

impl<'a, T1: SpecificEnthalpyUnit, T2: SpecificEnthalpyUnit> vstd::std_specs::convert::FromSpecImpl<&'a SpecificEnthalpy<T1>> for SpecificEnthalpy<T2> {
    open spec fn obeys_from_spec() -> bool {
        true
    }

    closed spec fn from_spec(e: &'a SpecificEnthalpy<T1>) -> SpecificEnthalpy<T2> {
        SpecificEnthalpy { milli_joule_per_kg: e.milli_joule_per_kg, unit: PhantomData }
    }
}

impl<T: SpecificEnthalpyUnit> From<SpecificEnthalpy<T>> for i64 {
    /// The value as a whole count of units of `T`, truncated toward zero.
    fn from(q: SpecificEnthalpy<T>) -> (r: i64) {
        proof {
            T::properties();
        }
        let s = T::conv_factor_base_unit();
        let d: i128 = tdiv_i128(q.milli_joule_per_kg as i128, s as i128);
        proof {
            assert(abs1(d as int) * 1_000 <= abs1(d as int) * (s as int)) by (nonlinear_arith)
                requires
                    abs1(d as int) >= 0,
                    1_000 <= s,
            ;
        }
        d as i64
    }
}

impl<T: SpecificEnthalpyUnit> vstd::std_specs::convert::FromSpecImpl<SpecificEnthalpy<T>> for i64 {
    open spec fn obeys_from_spec() -> bool {
        true
    }

    closed spec fn from_spec(q: SpecificEnthalpy<T>) -> i64 {
        tdiv(q.milli_joule_per_kg as int, T::scale()) as i64
    }
}

impl<T1: SpecificEnthalpyUnit, T2: SpecificEnthalpyUnit> PartialEq<SpecificEnthalpy<T1>> for SpecificEnthalpy<T2> {
    /// Tolerance equality: canonical magnitudes within `ENTHALPY_TOLERANCE`
    /// milli-joule per kilogram of each other, whatever units either side
    /// carries.
    fn eq(&self, other: &SpecificEnthalpy<T1>) -> (r: bool) {
        let d: i128 = (self.milli_joule_per_kg as i128) - (other.milli_joule_per_kg as i128);
        let ad: i128 = if d < 0 {
            -d
        } else {
            d
        };
        ad < ENTHALPY_TOLERANCE as i128
    }
}

impl<T1: SpecificEnthalpyUnit, T2: SpecificEnthalpyUnit> vstd::std_specs::cmp::PartialEqSpecImpl<SpecificEnthalpy<T1>> for SpecificEnthalpy<T2> {
    open spec fn obeys_eq_spec() -> bool {
        true
    }

    closed spec fn eq_spec(&self, other: &SpecificEnthalpy<T1>) -> bool {
        abs1(self.milli_joule_per_kg - other.milli_joule_per_kg) < ENTHALPY_TOLERANCE
    }
}

impl<T: SpecificEnthalpyUnit> Eq for SpecificEnthalpy<T> {

}

} // verus!
