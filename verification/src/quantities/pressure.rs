//! The pressure quantity: a milli-pascal magnitude tagged with the unit it
//! was last expressed in.  Pressure is linear: every unit's zero is absolute
//! zero, so scalar multiplication and division act on the canonical
//! magnitude directly.

use core::marker::PhantomData;

use vstd::prelude::*;

use crate::fixed::{abs1, affine_div, affine_mul, canonical_to_micros, clamp, micros_to_canonical,
    ratio_of, scale_units, tdiv, tdiv_i128, RATIO_LIMIT_NANO};
use crate::units::PressureUnit;

verus! {

/// Two pressures are equal when their canonical magnitudes differ by less
/// than this many milli-pascal.
pub const PRESSURE_TOLERANCE: i64 = 200;

/// A pressure, stored as milli-pascal whatever the tag `T` says.  The tag
/// only decides how numbers are read on the way in and produced on the way
/// out, so values with different tags convert and compare freely.
#[derive(Debug)]
pub struct Pressure<T: PressureUnit> {
    pub(crate) milli_pascal: i64,
    pub(crate) unit: PhantomData<T>,
}

impl<T: PressureUnit> Pressure<T> {
    /// Wrap a canonical magnitude; for the formula layer.
    pub(crate) fn from_canonical(c: i64) -> (r: Self)
        ensures
            r.canonical() == c,
    {
        Pressure { milli_pascal: c, unit: PhantomData }
    }

    /// Read the canonical magnitude; for the formula layer.
    pub(crate) fn to_canonical(&self) -> (r: i64)
        ensures
            r == self.canonical(),
    {
        self.milli_pascal
    }

    /// The canonical magnitude in milli-pascal.
    pub closed spec fn canonical(self) -> int {
        self.milli_pascal as int
    }

    /// What constructing from `m` micro-units of `T` yields: scale, then
    /// truncate toward zero as a float-to-integer cast would.
    pub open spec fn spec_from_micros(m: int) -> int {
        tdiv(m * T::scale(), 1_000_000int)
    }

    /// What reading a canonical magnitude back in micro-units of `T` yields.
    pub open spec fn spec_to_micros(c: int) -> int {
        tdiv(c * 1_000_000, T::scale())
    }

    /// Construct from a count of micro-units of `T` (one millionth of the
    /// unit); fractional pressures enter through this constructor.
    pub fn from_micros(micros: i64) -> (r: Self)
        requires
            -1_000_000_000_000 <= micros <= 1_000_000_000_000,
        ensures
            r.canonical() == Self::spec_from_micros(micros as int),
    {
        proof {
            T::properties();
        }
        let s = T::conv_factor_milli_pascal();
        Pressure { milli_pascal: micros_to_canonical(micros, s, 0), unit: PhantomData }
    }

    /// Construct from a whole count of units of `T`; this is exact.
    pub fn from_units(n: i64) -> (r: Self)
        requires
            -1_000_000 <= n <= 1_000_000,
        ensures
            r.canonical() == n * T::scale(),
    {
        proof {
            T::properties();
        }
        let s = T::conv_factor_milli_pascal();
        Pressure { milli_pascal: scale_units(n, s), unit: PhantomData }
    }

    /// The pressure in micro-units of `T`, truncated toward zero.
    pub fn to_micros(&self) -> (r: i64)
        requires
            -8_000_000_000_000_000 <= self.canonical() <= 8_000_000_000_000_000,
        ensures
            r == Self::spec_to_micros(self.canonical()),
    {
        proof {
            T::properties();
        }
        let s = T::conv_factor_milli_pascal();
        canonical_to_micros(self.milli_pascal, s, 0)
    }

    /// Re-tag under another pressure unit.  The canonical magnitude is
    /// untouched; only the interpretation at the boundary changes.
    pub fn convert<T2: PressureUnit>(&self) -> (r: Pressure<T2>)
        ensures
            r.canonical() == self.canonical(),
    {
        Pressure { milli_pascal: self.milli_pascal, unit: PhantomData }
    }

    /// Scale by a dimensionless ratio in 1e-9 steps.
    pub fn mul_nano(self, factor_nano: i64) -> (r: Self)
        requires
            -1_000_000_000_000_000 <= self.canonical() <= 1_000_000_000_000_000,
            -1_000_000_000_000 <= factor_nano <= 1_000_000_000_000,
        ensures
            r.canonical() == tdiv(factor_nano * self.canonical(), 1_000_000_000int),
    {
        Pressure { milli_pascal: affine_mul(self.milli_pascal, 0, factor_nano), unit: PhantomData }
    }

    /// Divide by a dimensionless ratio in 1e-9 steps.
    pub fn div_nano(self, divisor_nano: i64) -> (r: Self)
        requires
            divisor_nano != 0,
            abs1(self.canonical()) <= abs1(divisor_nano as int) * 4_000_000,
        ensures
            r.canonical() == tdiv(self.canonical() * 1_000_000_000, divisor_nano as int),
    {
        Pressure { milli_pascal: affine_div(self.milli_pascal, 0, divisor_nano), unit: PhantomData }
    }

    /// The dimensionless ratio of two pressures' canonical magnitudes, in
    /// 1e-9 steps, whatever units either carries.
    pub fn ratio_nano<T2: PressureUnit>(&self, other: &Pressure<T2>) -> (r: i64)
        requires
            other.canonical() != 0,
        ensures
            r == clamp(
                tdiv(self.canonical() * 1_000_000_000, other.canonical()),
                -RATIO_LIMIT_NANO as int,
                RATIO_LIMIT_NANO as int,
            ),
    {
        ratio_of(self.milli_pascal, other.milli_pascal)
    }
}

/// Round-trip law: reading a pressure back in the unit it was built
/// from recovers the original count of micro-units, up to a shortfall that,
/// weighed by the unit's scale, stays under one canonical sub-unit plus one
/// micro-unit.
pub proof fn lemma_round_trip<T: PressureUnit>(m: int)
    requires
        -1_000_000_000_000 <= m <= 1_000_000_000_000,
    ensures
        abs1(Pressure::<T>::spec_to_micros(Pressure::<T>::spec_from_micros(m)) - m)
            * T::scale() < 1_000_000 + T::scale(),
{
    T::properties();
    crate::fixed::lemma_micros_round_trip(m, T::scale());
}

impl<T: PressureUnit> std::ops::Add<i64> for Pressure<T> {
    type Output = Pressure<T>;

    /// Add that many units of `T`: the count is scaled by the unit's
    /// factor.
    fn add(self, rhs: i64) -> (r: Pressure<T>) {
        proof {
            T::properties();
        }
        let s = T::conv_factor_milli_pascal();
        Pressure { milli_pascal: self.milli_pascal + scale_units(rhs, s), unit: PhantomData }
    }
}

impl<T: PressureUnit> vstd::std_specs::ops::AddSpecImpl<i64> for Pressure<T> {
    open spec fn obeys_add_spec() -> bool {
        true
    }

    open spec fn add_req(self, rhs: i64) -> bool {
        &&& -1_000_000 <= rhs <= 1_000_000
        &&& -4_000_000_000_000_000_000 <= self.canonical() <= 4_000_000_000_000_000_000
    }

    closed spec fn add_spec(self, rhs: i64) -> Pressure<T> {
        Pressure { milli_pascal: (self.milli_pascal + rhs * T::scale()) as i64, unit: PhantomData }
    }
}

impl<T: PressureUnit> std::ops::Add<Pressure<T>> for i64 {
    type Output = Pressure<T>;

    /// The mirror of `Pressure + i64`, with the same result.
    fn add(self, rhs: Pressure<T>) -> (r: Pressure<T>) {
        proof {
            T::properties();
        }
        let s = T::conv_factor_milli_pascal();
        Pressure { milli_pascal: rhs.milli_pascal + scale_units(self, s), unit: PhantomData }
    }
}

impl<T: PressureUnit> vstd::std_specs::ops::AddSpecImpl<Pressure<T>> for i64 {
    open spec fn obeys_add_spec() -> bool {
        true
    }

    open spec fn add_req(self, rhs: Pressure<T>) -> bool {
        &&& -1_000_000 <= self <= 1_000_000
        &&& -4_000_000_000_000_000_000 <= rhs.canonical() <= 4_000_000_000_000_000_000
    }

    closed spec fn add_spec(self, rhs: Pressure<T>) -> Pressure<T> {
        Pressure { milli_pascal: (rhs.milli_pascal + self * T::scale()) as i64, unit: PhantomData }
    }
}

impl<T: PressureUnit> std::ops::Sub<i64> for Pressure<T> {
    type Output = Pressure<T>;

    /// Subtract that many units of `T`.
    fn sub(self, rhs: i64) -> (r: Pressure<T>) {
        proof {
            T::properties();
        }
        let s = T::conv_factor_milli_pascal();
        Pressure { milli_pascal: self.milli_pascal - scale_units(rhs, s), unit: PhantomData }
    }
}

impl<T: PressureUnit> vstd::std_specs::ops::SubSpecImpl<i64> for Pressure<T> {
    open spec fn obeys_sub_spec() -> bool {
        true
    }

    open spec fn sub_req(self, rhs: i64) -> bool {
        &&& -1_000_000 <= rhs <= 1_000_000
        &&& -4_000_000_000_000_000_000 <= self.canonical() <= 4_000_000_000_000_000_000
    }

    closed spec fn sub_spec(self, rhs: i64) -> Pressure<T> {
        Pressure { milli_pascal: (self.milli_pascal - rhs * T::scale()) as i64, unit: PhantomData }
    }
}

impl<T: PressureUnit> std::ops::Mul<i64> for Pressure<T> {
    type Output = Pressure<T>;

    /// Scale the canonical magnitude by a whole factor, exactly.
    fn mul(self, rhs: i64) -> (r: Pressure<T>) {
        assert(-1_000_000_000_000_000_000 <= (rhs as int) * (self.milli_pascal as int)
            <= 1_000_000_000_000_000_000) by (nonlinear_arith)
            requires
                -1_000 <= rhs <= 1_000,
                -1_000_000_000_000_000 <= self.milli_pascal <= 1_000_000_000_000_000,
        ;
        let p: i128 = (rhs as i128) * (self.milli_pascal as i128);
        Pressure { milli_pascal: p as i64, unit: PhantomData }
    }
}

impl<T: PressureUnit> vstd::std_specs::ops::MulSpecImpl<i64> for Pressure<T> {
    open spec fn obeys_mul_spec() -> bool {
        true
    }

    open spec fn mul_req(self, rhs: i64) -> bool {
        &&& -1_000 <= rhs <= 1_000
        &&& -1_000_000_000_000_000 <= self.canonical() <= 1_000_000_000_000_000
    }

    closed spec fn mul_spec(self, rhs: i64) -> Pressure<T> {
        Pressure { milli_pascal: (rhs * self.milli_pascal) as i64, unit: PhantomData }
    }
}

impl<T: PressureUnit> std::ops::Mul<Pressure<T>> for i64 {
    type Output = Pressure<T>;

    /// The mirror of `Pressure * i64`, with the same result.
    fn mul(self, rhs: Pressure<T>) -> (r: Pressure<T>) {
        assert(-1_000_000_000_000_000_000 <= (self as int) * (rhs.milli_pascal as int)
            <= 1_000_000_000_000_000_000) by (nonlinear_arith)
            requires
                -1_000 <= self <= 1_000,
                -1_000_000_000_000_000 <= rhs.milli_pascal <= 1_000_000_000_000_000,
        ;
        let p: i128 = (self as i128) * (rhs.milli_pascal as i128);
        Pressure { milli_pascal: p as i64, unit: PhantomData }
    }
}

impl<T: PressureUnit> vstd::std_specs::ops::MulSpecImpl<Pressure<T>> for i64 {
    open spec fn obeys_mul_spec() -> bool {
        true
    }

    open spec fn mul_req(self, rhs: Pressure<T>) -> bool {
        &&& -1_000 <= self <= 1_000
        &&& -1_000_000_000_000_000 <= rhs.canonical() <= 1_000_000_000_000_000
    }

    closed spec fn mul_spec(self, rhs: Pressure<T>) -> Pressure<T> {
        Pressure { milli_pascal: (self * rhs.milli_pascal) as i64, unit: PhantomData }
    }
}

impl<T: PressureUnit> std::ops::Div<i64> for Pressure<T> {
    type Output = Pressure<T>;

    /// Divide the canonical magnitude by a whole factor, truncating toward
    /// zero.
    fn div(self, rhs: i64) -> (r: Pressure<T>) {
        let q: i128 = tdiv_i128(self.milli_pascal as i128, rhs as i128);
        Pressure { milli_pascal: q as i64, unit: PhantomData }
    }
}

impl<T: PressureUnit> vstd::std_specs::ops::DivSpecImpl<i64> for Pressure<T> {
    open spec fn obeys_div_spec() -> bool {
        true
    }

    open spec fn div_req(self, rhs: i64) -> bool {
        rhs != 0
    }

    closed spec fn div_spec(self, rhs: i64) -> Pressure<T> {
        Pressure { milli_pascal: tdiv(self.milli_pascal as int, rhs as int) as i64, unit: PhantomData }
    }
}

impl<T: PressureUnit> std::ops::Div<Pressure<T>> for i64 {
    type Output = i64;

    /// A number divided by a pressure: the number over the value in its
    /// own unit, truncating toward zero.
    fn div(self, rhs: Pressure<T>) -> (r: i64) {
        proof {
            T::properties();
        }
        let s = T::conv_factor_milli_pascal();
        let p: i64 = scale_units(self, s);
        let q: i128 = tdiv_i128(p as i128, rhs.milli_pascal as i128);
        q as i64
    }
}

impl<T: PressureUnit> vstd::std_specs::ops::DivSpecImpl<Pressure<T>> for i64 {
    open spec fn obeys_div_spec() -> bool {
        true
    }

    open spec fn div_req(self, rhs: Pressure<T>) -> bool {
        &&& -1_000_000 <= self <= 1_000_000
        &&& rhs.canonical() != 0
    }

    closed spec fn div_spec(self, rhs: Pressure<T>) -> i64 {
        tdiv(self * T::scale(), rhs.milli_pascal as int) as i64
    }
}

impl<'a, T1: PressureUnit, T2: PressureUnit> From<&'a Pressure<T1>> for Pressure<T2> {
    /// Re-tagging between pressure units, as a `From` conversion.
    fn from(p: &'a Pressure<T1>) -> (r: Pressure<T2>) {
        Pressure { milli_pascal: p.milli_pascal, unit: PhantomData }
    }
}

impl<'a, T1: PressureUnit, T2: PressureUnit> vstd::std_specs::convert::FromSpecImpl<&'a Pressure<T1>> for Pressure<T2> {
    open spec fn obeys_from_spec() -> bool {
        true
    }

    closed spec fn from_spec(p: &'a Pressure<T1>) -> Pressure<T2> {
        Pressure { milli_pascal: p.milli_pascal, unit: PhantomData }
    }
}

impl<T: PressureUnit> From<Pressure<T>> for i64 {
    /// The value as a whole count of units of `T`, truncated toward zero.
    fn from(q: Pressure<T>) -> (r: i64) {
        proof {
            T::properties();
        }
        let s = T::conv_factor_milli_pascal();
        let d: i128 = tdiv_i128(q.milli_pascal as i128, s as i128);
        proof {
            assert(abs1(d as int) * 1_000 <= abs1(d as int) * (s as int)) by (nonlinear_arith)
                requires
                    abs1(d as int) >= 0,
                    1_000 <= s,
            ;
        }
        d as i64
    }
}

impl<T: PressureUnit> vstd::std_specs::convert::FromSpecImpl<Pressure<T>> for i64 {
    open spec fn obeys_from_spec() -> bool {
        true
    }

    closed spec fn from_spec(q: Pressure<T>) -> i64 {
        tdiv(q.milli_pascal as int, T::scale()) as i64
    }
}

impl<T1: PressureUnit, T2: PressureUnit> PartialEq<Pressure<T1>> for Pressure<T2> {
    /// Tolerance equality: canonical magnitudes within `PRESSURE_TOLERANCE`
    /// milli-pascal of each other, whatever units either side carries.
    fn eq(&self, other: &Pressure<T1>) -> (r: bool) {
        let d: i128 = (self.milli_pascal as i128) - (other.milli_pascal as i128);
        let ad: i128 = if d < 0 {
            -d
        } else {
            d
        };
        ad < PRESSURE_TOLERANCE as i128
    }
}

impl<T1: PressureUnit, T2: PressureUnit> vstd::std_specs::cmp::PartialEqSpecImpl<Pressure<T1>> for Pressure<T2> {
    open spec fn obeys_eq_spec() -> bool {
        true
    }

    closed spec fn eq_spec(&self, other: &Pressure<T1>) -> bool {
        abs1(self.milli_pascal - other.milli_pascal) < PRESSURE_TOLERANCE
    }
}

impl<T: PressureUnit> Eq for Pressure<T> {

}

} // verus!
