//! Quantity wrappers: one fixed-point container per physical dimension,
//! parameterized by the unit descriptor the value was last expressed in.

pub mod pressure;
pub mod specific_enthalpy;
pub mod temperature;

pub use pressure::Pressure;
pub use specific_enthalpy::SpecificEnthalpy;
pub use temperature::Temperature;
