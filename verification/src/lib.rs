//! Unit-tagged temperatures: the three units, the table of conversions
//! between them, and the text form of a temperature.
//!
//! The library works on units, conversion routes and characters. The
//! arithmetic on the measured value itself is done by the caller, one
//! formula at a time, in the order that [`route::route`] gives.

pub mod error;
pub mod route;
pub mod text;
pub mod unit;

pub use error::{InvalidTemperature, ParseError};
pub use route::Formula;
pub use text::Reading;
pub use unit::TemperatureUnit;
