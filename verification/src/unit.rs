//! The three temperature units, their names and their one-letter codes.

use vstd::prelude::*;

verus! {

/// A unit of temperature.
#[derive(PartialEq, Eq, Structural, Clone, Copy, Debug)]
pub enum TemperatureUnit {
    Celsius,
    Fahrenheit,
    Kelvin,
}

/// The name of a unit as it is written in running text.
pub open spec fn description_of(unit: TemperatureUnit) -> Seq<char> {
    match unit {
        TemperatureUnit::Celsius => seq!['C', 'e', 'l', 's', 'i', 'u', 's'],
        TemperatureUnit::Fahrenheit => seq!['F', 'a', 'h', 'r', 'e', 'n', 'h', 'e', 'i', 't'],
        TemperatureUnit::Kelvin => seq!['k', 'e', 'l', 'v', 'i', 'n'],
    }
}

/// The letter that stands for a unit in the text form of a temperature.
pub open spec fn letter_of(unit: TemperatureUnit) -> char {
    match unit {
        TemperatureUnit::Celsius => 'C',
        TemperatureUnit::Fahrenheit => 'F',
        TemperatureUnit::Kelvin => 'K',
    }
}

/// The unit that a letter stands for, if it stands for one. Only the three
/// upper-case letters do.
pub open spec fn unit_of_letter(c: char) -> Option<TemperatureUnit> {
    if c == 'C' {
        Some(TemperatureUnit::Celsius)
    } else if c == 'F' {
        Some(TemperatureUnit::Fahrenheit)
    } else if c == 'K' {
        Some(TemperatureUnit::Kelvin)
    } else {
        None
    }
}

impl TemperatureUnit {
    /// The unit's name: "Celsius", "Fahrenheit" or "kelvin".
    pub fn description(&self) -> (name: &'static str)
        ensures
            name@ == description_of(*self),
    {
        match *self {
            TemperatureUnit::Celsius => {
                proof {
                    reveal_strlit("Celsius");
                }
                assert("Celsius"@ =~= description_of(TemperatureUnit::Celsius));
                "Celsius"
            },
            TemperatureUnit::Fahrenheit => {
                proof {
                    reveal_strlit("Fahrenheit");
                }
                assert("Fahrenheit"@ =~= description_of(TemperatureUnit::Fahrenheit));
                "Fahrenheit"
            },
            TemperatureUnit::Kelvin => {
                proof {
                    reveal_strlit("kelvin");
                }
                assert("kelvin"@ =~= description_of(TemperatureUnit::Kelvin));
                "kelvin"
            },
        }
    }

    /// The unit's one-letter code as a string: "C", "F" or "K".
    pub fn abbreviation(&self) -> (code: &'static str)
        ensures
            code@ == seq![letter_of(*self)],
    {
        match *self {
            TemperatureUnit::Celsius => {
                proof {
                    reveal_strlit("C");
                }
                assert("C"@ =~= seq!['C']);
                "C"
            },
            TemperatureUnit::Fahrenheit => {
                proof {
                    reveal_strlit("F");
                }
                assert("F"@ =~= seq!['F']);
                "F"
            },
            TemperatureUnit::Kelvin => {
                proof {
                    reveal_strlit("K");
                }
                assert("K"@ =~= seq!['K']);
                "K"
            },
        }
    }

    /// The unit's one-letter code as a character.
    pub fn letter(&self) -> (c: char)
        ensures
            c == letter_of(*self),
    {
        match *self {
            TemperatureUnit::Celsius => 'C',
            TemperatureUnit::Fahrenheit => 'F',
            TemperatureUnit::Kelvin => 'K',
        }
    }

    /// Reads a unit from its one-letter code. Lower-case letters and every
    /// other character give `None`.
    pub fn from_letter(c: char) -> (unit: Option<TemperatureUnit>)
        ensures
            unit == unit_of_letter(c),
    {
        if c == 'C' {
            Some(TemperatureUnit::Celsius)
        } else if c == 'F' {
            Some(TemperatureUnit::Fahrenheit)
        } else if c == 'K' {
            Some(TemperatureUnit::Kelvin)
        } else {
            None
        }
    }
}

/// Each unit is read back from its own letter.
pub proof fn lemma_letter_round_trip(unit: TemperatureUnit)
    ensures
        unit_of_letter(letter_of(unit)) == Some(unit),
{
}

/// A letter that stands for a unit is that unit's letter.
pub proof fn lemma_unit_of_letter_is_exact(c: char, unit: TemperatureUnit)
    ensures
        unit_of_letter(c) == Some(unit) <==> c == letter_of(unit),
{
}

} // verus!
