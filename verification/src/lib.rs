//! Unit-safe psychrometric (humid-air) computations.
//!
//! Physical quantities — temperature, pressure, specific enthalpy — are kept
//! as fixed-point integers in one canonical unit per dimension (micro-kelvin,
//! milli-pascal, milli-joule per kilogram), tagged at compile time with the
//! measurement unit they were last expressed in.  The psychrometric formulas
//! (saturation vapor pressure, moist-air enthalpy, humidity-ratio and
//! relative-humidity conversions) are closed-form expressions over those
//! quantities, evaluated entirely in integer arithmetic.

pub mod fixed;
pub mod psychrolib;
pub mod quantities;
pub mod units;
