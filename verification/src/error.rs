//! What can go wrong: a temperature below absolute zero, and text that does
//! not hold a temperature. Both are handed back as values.

use vstd::prelude::*;
use vstd::std_specs::convert::FromSpecImpl;

verus! {

/// A temperature that lies below absolute zero when expressed in kelvin.
#[derive(Debug, Clone)]
pub struct InvalidTemperature;

/// Why a text was not read as a temperature.
#[derive(PartialEq, Eq, Structural, Clone, Copy, Debug)]
pub enum ParseError {
    /// Nothing is left of the text once the white space around it is gone.
    Empty,
    /// The text is a single character: a number and a unit need two.
    MissingUnit,
    /// The last character, held here, is none of `C`, `F` and `K`.
    InvalidUnit(char),
    /// What stands before the unit is empty or is no number.
    InvalidNumber,
    /// The number and the unit were read, and lie below absolute zero.
    BelowAbsoluteZero,
}

/// The words that say what is wrong with an invalid temperature.
pub open spec fn invalid_temperature_text() -> Seq<char> {
    "Temperature less than 0.0k"@
}

impl InvalidTemperature {
    /// The error in words.
    pub fn message(&self) -> (text: String)
        ensures
            text@ == invalid_temperature_text(),
    {
        String::from_str("Temperature less than 0.0k")
    }
}

impl From<InvalidTemperature> for ParseError {
    /// A parsed temperature that is refused as invalid is reported as
    /// [`ParseError::BelowAbsoluteZero`].
    fn from(error: InvalidTemperature) -> (mapped: ParseError) {
        ParseError::BelowAbsoluteZero
    }
}

impl FromSpecImpl<InvalidTemperature> for ParseError {
    open spec fn obeys_from_spec() -> bool {
        true
    }

    open spec fn from_spec(error: InvalidTemperature) -> ParseError {
        ParseError::BelowAbsoluteZero
    }
}

} // verus!
