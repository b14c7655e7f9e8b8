//! Dimensional-analysis arithmetic over the seven SI base dimensions.
//!
//! A quantity is a scalar magnitude paired with a signed exponent and a
//! concrete display unit for each base dimension.  Arithmetic propagates
//! and cancels the exponents, reconciles mismatched units through the
//! registry's conversion factors, and renders a human-readable unit
//! string from the exponent/unit state.  Magnitudes and conversion
//! factors are exact rationals, so every operation pins its result
//! exactly and the algebraic laws in `laws` hold without tolerance.

pub mod rational;
pub mod units;
pub mod quantity;
pub mod render;
pub mod laws;

pub use rational::Rational;
pub use units::AmountOfSubstanceUnit;
pub use units::Dimension;
pub use units::ElectricCurrentUnit;
pub use units::LengthUnit;
pub use units::LuminousIntensityUnit;
pub use units::MassUnit;
pub use units::TemperatureDeltaUnit;
pub use units::TimeUnit;
pub use units::Unit;
pub use units::get_base_unit;
pub use quantity::EngUnit;
pub use quantity::same_units;
