//! The temperature quantity: a micro-kelvin magnitude tagged with the unit
//! it was last expressed in.
//!
//! Temperature is affine: a unit's zero point generally sits above absolute
//! zero, so construction and conversion apply an offset beside the scale,
//! and scalar multiplication and division blend toward the unit's zero
//! point instead of scaling the canonical magnitude raw.  One anchoring
//! convention — the offset of the unit the value currently carries — is
//! applied to all four scalar forms alike: quantity times number, number
//! times quantity, quantity over number, and number over quantity.

use core::marker::PhantomData;

use vstd::prelude::*;

use crate::fixed::{abs1, affine_div, affine_mul, canonical_to_micros, clamp, micros_to_canonical,
    ratio_of, scale_units, tdiv, tdiv_i128, RATIO_LIMIT_NANO};
use crate::units::TemperatureUnit;

verus! {

/// Two temperatures are equal when their canonical magnitudes differ by
/// less than this many micro-kelvin.
pub const TEMP_TOLERANCE: i64 = 200;

/// A temperature, stored as micro-kelvin whatever the tag `T` says.  The tag
/// only decides how numbers are read on the way in and produced on the way
/// out, so values with different tags convert and compare freely.
#[derive(Debug)]
pub struct Temperature<T: TemperatureUnit> {
    pub(crate) micro_kelvin: i64,
    pub(crate) unit: PhantomData<T>,
}

impl<T: TemperatureUnit> Temperature<T> {
    /// Wrap a canonical magnitude; for the formula layer.
    pub(crate) fn from_canonical(c: i64) -> (r: Self)
        ensures
            r.canonical() == c,
    {
        Temperature { micro_kelvin: c, unit: PhantomData }
    }

    /// Read the canonical magnitude; for the formula layer.
    pub(crate) fn to_canonical(&self) -> (r: i64)
        ensures
            r == self.canonical(),
    {
        self.micro_kelvin
    }

    /// The canonical magnitude in micro-kelvin.
    pub closed spec fn canonical(self) -> int {
        self.micro_kelvin as int
    }

    /// What constructing from `m` micro-units of `T` yields: scale, truncate
    /// toward zero as a float-to-integer cast would, then shift by the
    /// unit's offset.
    pub open spec fn spec_from_micros(m: int) -> int {
        tdiv(m * T::scale(), 1_000_000int) + T::offset()
    }

    /// What reading a canonical magnitude back in micro-units of `T` yields.
    pub open spec fn spec_to_micros(c: int) -> int {
        tdiv((c - T::offset()) * 1_000_000, T::scale())
    }

    /// Construct from a count of micro-units of `T` (one millionth of a
    /// degree); fractional temperatures enter through this constructor.
    pub fn from_micros(micros: i64) -> (r: Self)
        requires
            -1_000_000_000_000 <= micros <= 1_000_000_000_000,
        ensures
            r.canonical() == Self::spec_from_micros(micros as int),
    {
        proof {
            T::properties();
        }
        let s = T::conv_factor_micro_kelvin();
        let o = T::conv_offset_micro_kelvin();
        Temperature { micro_kelvin: micros_to_canonical(micros, s, o), unit: PhantomData }
    }

    /// Construct from a whole count of degrees of `T`; this is exact.
    pub fn from_units(n: i64) -> (r: Self)
        requires
            -1_000_000 <= n <= 1_000_000,
        ensures
            r.canonical() == n * T::scale() + T::offset(),
    {
        proof {
            T::properties();
        }
        let s = T::conv_factor_micro_kelvin();
        let o = T::conv_offset_micro_kelvin();
        Temperature { micro_kelvin: scale_units(n, s) + o, unit: PhantomData }
    }

    /// The temperature in micro-units of `T`, truncated toward zero.
    pub fn to_micros(&self) -> (r: i64)
        requires
            -8_000_000_000_000_000 <= self.canonical() <= 8_000_000_000_000_000,
        ensures
            r == Self::spec_to_micros(self.canonical()),
    {
        proof {
            T::properties();
        }
        let s = T::conv_factor_micro_kelvin();
        let o = T::conv_offset_micro_kelvin();
        canonical_to_micros(self.micro_kelvin, s, o)
    }

    /// Re-tag under another temperature unit.  The canonical magnitude is
    /// untouched; only the interpretation at the boundary changes.
    pub fn convert<T2: TemperatureUnit>(&self) -> (r: Temperature<T2>)
        ensures
            r.canonical() == self.canonical(),
    {
        Temperature { micro_kelvin: self.micro_kelvin, unit: PhantomData }
    }

    /// Scale by a dimensionless ratio in 1e-9 steps, anchored at the current
    /// unit's zero point: `offset + factor * (canonical - offset)`.
    pub fn mul_nano(self, factor_nano: i64) -> (r: Self)
        requires
            -1_000_000_000_000_000 <= self.canonical() <= 1_000_000_000_000_000,
            -1_000_000_000_000 <= factor_nano <= 1_000_000_000_000,
        ensures
            r.canonical() == T::offset() + tdiv(
                factor_nano * (self.canonical() - T::offset()),
                1_000_000_000int,
            ),
    {
        proof {
            T::properties();
        }
        let o = T::conv_offset_micro_kelvin();
        Temperature { micro_kelvin: affine_mul(self.micro_kelvin, o, factor_nano), unit: PhantomData }
    }

    /// Divide by a dimensionless ratio in 1e-9 steps, the dual of
    /// `mul_nano`: `offset + (canonical - offset) / factor`.
    pub fn div_nano(self, divisor_nano: i64) -> (r: Self)
        requires
            divisor_nano != 0,
            abs1(self.canonical() - T::offset()) <= abs1(divisor_nano as int) * 4_000_000,
        ensures
            r.canonical() == T::offset() + tdiv(
                (self.canonical() - T::offset()) * 1_000_000_000,
                divisor_nano as int,
            ),
    {
        proof {
            T::properties();
        }
        let o = T::conv_offset_micro_kelvin();
        Temperature { micro_kelvin: affine_div(self.micro_kelvin, o, divisor_nano), unit: PhantomData }
    }

    /// The dimensionless ratio of two temperatures' canonical magnitudes, in
    /// 1e-9 steps, whatever units either carries.
    pub fn ratio_nano<T2: TemperatureUnit>(&self, other: &Temperature<T2>) -> (r: i64)
        requires
            other.canonical() != 0,
        ensures
            r == clamp(
                tdiv(self.canonical() * 1_000_000_000, other.canonical()),
                -RATIO_LIMIT_NANO as int,
                RATIO_LIMIT_NANO as int,
            ),
    {
        ratio_of(self.micro_kelvin, other.micro_kelvin)
    }
}

/// Round-trip law: reading a temperature back in the unit it was built
/// from recovers the original count of micro-units, up to a shortfall that,
/// weighed by the unit's scale, stays under one canonical sub-unit plus one
/// micro-unit — for the micro-kelvin scales here, within one micro-unit.
pub proof fn lemma_round_trip<T: TemperatureUnit>(m: int)
    requires
        -1_000_000_000_000 <= m <= 1_000_000_000_000,
    ensures
        abs1(Temperature::<T>::spec_to_micros(Temperature::<T>::spec_from_micros(m)) - m)
            * T::scale() < 1_000_000 + T::scale(),
{
    T::properties();
    crate::fixed::lemma_micros_round_trip(m, T::scale());
}

impl<T: TemperatureUnit> std::ops::Add<i64> for Temperature<T> {
    type Output = Temperature<T>;

    /// Add that many degrees of `T`: the count is scaled by the unit's
    /// factor, never shifted by its offset.
    fn add(self, rhs: i64) -> (r: Temperature<T>) {
        proof {
            T::properties();
        }
        let s = T::conv_factor_micro_kelvin();
        Temperature { micro_kelvin: self.micro_kelvin + scale_units(rhs, s), unit: PhantomData }
    }
}

impl<T: TemperatureUnit> vstd::std_specs::ops::AddSpecImpl<i64> for Temperature<T> {
    open spec fn obeys_add_spec() -> bool {
        true
    }

    open spec fn add_req(self, rhs: i64) -> bool {
        &&& -1_000_000 <= rhs <= 1_000_000
        &&& -4_000_000_000_000_000_000 <= self.canonical() <= 4_000_000_000_000_000_000
    }

    closed spec fn add_spec(self, rhs: i64) -> Temperature<T> {
        Temperature {
            micro_kelvin: (self.micro_kelvin + rhs * T::scale()) as i64,
            unit: PhantomData,
        }
    }
}

impl<T: TemperatureUnit> std::ops::Add<Temperature<T>> for i64 {
    type Output = Temperature<T>;

    /// The mirror of `Temperature + i64`, with the same result.
    fn add(self, rhs: Temperature<T>) -> (r: Temperature<T>) {
        proof {
            T::properties();
        }
        let s = T::conv_factor_micro_kelvin();
        Temperature { micro_kelvin: rhs.micro_kelvin + scale_units(self, s), unit: PhantomData }
    }
}

impl<T: TemperatureUnit> vstd::std_specs::ops::AddSpecImpl<Temperature<T>> for i64 {
    open spec fn obeys_add_spec() -> bool {
        true
    }

    open spec fn add_req(self, rhs: Temperature<T>) -> bool {
        &&& -1_000_000 <= self <= 1_000_000
        &&& -4_000_000_000_000_000_000 <= rhs.canonical() <= 4_000_000_000_000_000_000
    }

    closed spec fn add_spec(self, rhs: Temperature<T>) -> Temperature<T> {
        Temperature {
            micro_kelvin: (rhs.micro_kelvin + self * T::scale()) as i64,
            unit: PhantomData,
        }
    }
}

impl<T: TemperatureUnit> std::ops::Sub<i64> for Temperature<T> {
    type Output = Temperature<T>;

    /// Subtract that many degrees of `T`.
    fn sub(self, rhs: i64) -> (r: Temperature<T>) {
        proof {
            T::properties();
        }
        let s = T::conv_factor_micro_kelvin();
        Temperature { micro_kelvin: self.micro_kelvin - scale_units(rhs, s), unit: PhantomData }
    }
}

impl<T: TemperatureUnit> vstd::std_specs::ops::SubSpecImpl<i64> for Temperature<T> {
    open spec fn obeys_sub_spec() -> bool {
        true
    }

    open spec fn sub_req(self, rhs: i64) -> bool {
        &&& -1_000_000 <= rhs <= 1_000_000
        &&& -4_000_000_000_000_000_000 <= self.canonical() <= 4_000_000_000_000_000_000
    }

    closed spec fn sub_spec(self, rhs: i64) -> Temperature<T> {
        Temperature {
            micro_kelvin: (self.micro_kelvin - rhs * T::scale()) as i64,
            unit: PhantomData,
        }
    }
}

impl<T: TemperatureUnit> std::ops::Mul<i64> for Temperature<T> {
    type Output = Temperature<T>;

    /// Scale by a whole factor, anchored at the unit's zero point:
    /// `offset + rhs * (canonical - offset)`, exactly.
    fn mul(self, rhs: i64) -> (r: Temperature<T>) {
        proof {
            T::properties();
        }
        let o = T::conv_offset_micro_kelvin();
        let d: i128 = (self.micro_kelvin as i128) - (o as i128);
        assert(-1_100_000_000_000_000_000 <= (rhs as int) * (d as int)
            <= 1_100_000_000_000_000_000) by (nonlinear_arith)
            requires
                -1_000 <= rhs <= 1_000,
                -1_000_300_000_000_000 <= d <= 1_000_300_000_000_000,
        ;
        let p: i128 = (rhs as i128) * d;
        Temperature { micro_kelvin: ((o as i128) + p) as i64, unit: PhantomData }
    }
}

impl<T: TemperatureUnit> vstd::std_specs::ops::MulSpecImpl<i64> for Temperature<T> {
    open spec fn obeys_mul_spec() -> bool {
        true
    }

    open spec fn mul_req(self, rhs: i64) -> bool {
        &&& -1_000 <= rhs <= 1_000
        &&& -1_000_000_000_000_000 <= self.canonical() <= 1_000_000_000_000_000
    }

    closed spec fn mul_spec(self, rhs: i64) -> Temperature<T> {
        Temperature {
            micro_kelvin: (T::offset() + rhs * (self.micro_kelvin - T::offset())) as i64,
            unit: PhantomData,
        }
    }
}

impl<T: TemperatureUnit> std::ops::Mul<Temperature<T>> for i64 {
    type Output = Temperature<T>;

    /// The mirror of `Temperature * i64`, with the same result.
    fn mul(self, rhs: Temperature<T>) -> (r: Temperature<T>) {
        proof {
            T::properties();
        }
        let o = T::conv_offset_micro_kelvin();
        let d: i128 = (rhs.micro_kelvin as i128) - (o as i128);
        assert(-1_100_000_000_000_000_000 <= (self as int) * (d as int)
            <= 1_100_000_000_000_000_000) by (nonlinear_arith)
            requires
                -1_000 <= self <= 1_000,
                -1_000_300_000_000_000 <= d <= 1_000_300_000_000_000,
        ;
        let p: i128 = (self as i128) * d;
        Temperature { micro_kelvin: ((o as i128) + p) as i64, unit: PhantomData }
    }
}

impl<T: TemperatureUnit> vstd::std_specs::ops::MulSpecImpl<Temperature<T>> for i64 {
    open spec fn obeys_mul_spec() -> bool {
        true
    }

    open spec fn mul_req(self, rhs: Temperature<T>) -> bool {
        &&& -1_000 <= self <= 1_000
        &&& -1_000_000_000_000_000 <= rhs.canonical() <= 1_000_000_000_000_000
    }

    closed spec fn mul_spec(self, rhs: Temperature<T>) -> Temperature<T> {
        Temperature {
            micro_kelvin: (T::offset() + self * (rhs.micro_kelvin - T::offset())) as i64,
            unit: PhantomData,
        }
    }
}

impl<T: TemperatureUnit> std::ops::Div<i64> for Temperature<T> {
    type Output = Temperature<T>;

    /// Divide by a whole factor, anchored at the unit's zero point:
    /// `offset + (canonical - offset) / rhs`, truncating toward zero.
    fn div(self, rhs: i64) -> (r: Temperature<T>) {
        proof {
            T::properties();
        }
        let o = T::conv_offset_micro_kelvin();
        let d: i128 = (self.micro_kelvin as i128) - (o as i128);
        let q: i128 = tdiv_i128(d, rhs as i128);
        Temperature { micro_kelvin: ((o as i128) + q) as i64, unit: PhantomData }
    }
}

impl<T: TemperatureUnit> vstd::std_specs::ops::DivSpecImpl<i64> for Temperature<T> {
    open spec fn obeys_div_spec() -> bool {
        true
    }

    open spec fn div_req(self, rhs: i64) -> bool {
        &&& rhs != 0
        &&& -4_000_000_000_000_000_000 <= self.canonical() <= 4_000_000_000_000_000_000
    }

    closed spec fn div_spec(self, rhs: i64) -> Temperature<T> {
        Temperature {
            micro_kelvin: (T::offset() + tdiv(self.micro_kelvin - T::offset(), rhs as int)) as i64,
            unit: PhantomData,
        }
    }
}

impl<T: TemperatureUnit> std::ops::Div<Temperature<T>> for i64 {
    type Output = i64;

    /// A number divided by a temperature: the number over the temperature's
    /// value in its own unit, truncating toward zero.
    fn div(self, rhs: Temperature<T>) -> (r: i64) {
        proof {
            T::properties();
        }
        let s = T::conv_factor_micro_kelvin();
        let o = T::conv_offset_micro_kelvin();
        let p: i64 = scale_units(self, s);
        let q: i128 = tdiv_i128(p as i128, (rhs.micro_kelvin as i128) - (o as i128));
        q as i64
    }
}

impl<T: TemperatureUnit> vstd::std_specs::ops::DivSpecImpl<Temperature<T>> for i64 {
    open spec fn obeys_div_spec() -> bool {
        true
    }

    open spec fn div_req(self, rhs: Temperature<T>) -> bool {
        &&& -1_000_000 <= self <= 1_000_000
        &&& rhs.canonical() != T::offset()
    }

    closed spec fn div_spec(self, rhs: Temperature<T>) -> i64 {
        tdiv(self * T::scale(), rhs.micro_kelvin - T::offset()) as i64
    }
}

impl<'a, T1: TemperatureUnit, T2: TemperatureUnit> From<&'a Temperature<T1>> for Temperature<T2> {
    /// Re-tagging between temperature units, as a `From` conversion.
    fn from(t: &'a Temperature<T1>) -> (r: Temperature<T2>) {
        Temperature { micro_kelvin: t.micro_kelvin, unit: PhantomData }
    }
}

impl<'a, T1: TemperatureUnit, T2: TemperatureUnit> vstd::std_specs::convert::FromSpecImpl<&'a Temperature<T1>> for Temperature<T2> {
    open spec fn obeys_from_spec() -> bool {
        true
    }

    closed spec fn from_spec(t: &'a Temperature<T1>) -> Temperature<T2> {
        Temperature { micro_kelvin: t.micro_kelvin, unit: PhantomData }
    }
}

impl<T: TemperatureUnit> From<Temperature<T>> for i64 {
    /// The temperature as a whole count of degrees of `T`, truncated
    /// toward zero.
    fn from(t: Temperature<T>) -> (r: i64) {
        proof {
            T::properties();
        }
        let s = T::conv_factor_micro_kelvin();
        let o = T::conv_offset_micro_kelvin();
        let q: i128 = tdiv_i128((t.micro_kelvin as i128) - (o as i128), s as i128);
        proof {
            assert(abs1(q as int) * 1_000 <= abs1(q as int) * (s as int)) by (nonlinear_arith)
                requires
                    abs1(q as int) >= 0,
                    1_000 <= s,
            ;
        }
        q as i64
    }
}

impl<T: TemperatureUnit> vstd::std_specs::convert::FromSpecImpl<Temperature<T>> for i64 {
    open spec fn obeys_from_spec() -> bool {
        true
    }

    closed spec fn from_spec(t: Temperature<T>) -> i64 {
        tdiv(t.micro_kelvin - T::offset(), T::scale()) as i64
    }
}

impl<T1: TemperatureUnit, T2: TemperatureUnit> PartialEq<Temperature<T1>> for Temperature<T2> {
    /// Tolerance equality: canonical magnitudes within `TEMP_TOLERANCE`
    /// micro-kelvin of each other, whatever units either side carries.
    /// Exactly at the tolerance boundary this is not transitive; ordering
    /// below stays exact on purpose.
    fn eq(&self, other: &Temperature<T1>) -> (r: bool) {
        let d: i128 = (self.micro_kelvin as i128) - (other.micro_kelvin as i128);
        let ad: i128 = if d < 0 {
            -d
        } else {
            d
        };
        ad < TEMP_TOLERANCE as i128
    }
}

impl<T1: TemperatureUnit, T2: TemperatureUnit> vstd::std_specs::cmp::PartialEqSpecImpl<Temperature<T1>> for Temperature<T2> {
    open spec fn obeys_eq_spec() -> bool {
        true
    }

    closed spec fn eq_spec(&self, other: &Temperature<T1>) -> bool {
        abs1(self.micro_kelvin - other.micro_kelvin) < TEMP_TOLERANCE
    }
}

impl<T: TemperatureUnit> Eq for Temperature<T> {

}

impl<T: TemperatureUnit> PartialOrd for Temperature<T> {
    /// Ordering is exact on canonical magnitudes; unlike equality it admits
    /// no tolerance.
    fn partial_cmp(&self, other: &Self) -> (r: Option<core::cmp::Ordering>) {
        if self.micro_kelvin < other.micro_kelvin {
            Some(core::cmp::Ordering::Less)
        } else if self.micro_kelvin == other.micro_kelvin {
            Some(core::cmp::Ordering::Equal)
        } else {
            Some(core::cmp::Ordering::Greater)
        }
    }
}

impl<T: TemperatureUnit> vstd::std_specs::cmp::PartialOrdSpecImpl for Temperature<T> {
    open spec fn obeys_partial_cmp_spec() -> bool {
        true
    }

    closed spec fn partial_cmp_spec(&self, other: &Temperature<T>) -> Option<core::cmp::Ordering> {
        if self.micro_kelvin < other.micro_kelvin {
            Some(core::cmp::Ordering::Less)
        } else if self.micro_kelvin == other.micro_kelvin {
            Some(core::cmp::Ordering::Equal)
        } else {
            Some(core::cmp::Ordering::Greater)
        }
    }
}

} // verus!
