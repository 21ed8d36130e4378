//! The table of conversions.
//!
//! Four formulas are given, each between Celsius and one other unit. A
//! conversion between Fahrenheit and Kelvin has no formula of its own: it
//! goes through Celsius, in two steps, and the caller rounds twice. A
//! conversion from a unit to itself takes no step at all.

use vstd::prelude::*;
use crate::unit::TemperatureUnit;

verus! {

/// One step of arithmetic on a measured value.
#[derive(PartialEq, Eq, Structural, Clone, Copy, Debug)]
pub enum Formula {
    /// `F = C * 9/5 + 32`
    CelsiusToFahrenheit,
    /// `K = C + 273.15`
    CelsiusToKelvin,
    /// `C = (F - 32) * 5/9`
    FahrenheitToCelsius,
    /// `C = K - 273.15`
    KelvinToCelsius,
}

/// The unit of the value that a formula takes.
pub open spec fn source_of(f: Formula) -> TemperatureUnit {
    match f {
        Formula::CelsiusToFahrenheit => TemperatureUnit::Celsius,
        Formula::CelsiusToKelvin => TemperatureUnit::Celsius,
        Formula::FahrenheitToCelsius => TemperatureUnit::Fahrenheit,
        Formula::KelvinToCelsius => TemperatureUnit::Kelvin,
    }
}

/// The unit of the value that a formula gives.
pub open spec fn target_of(f: Formula) -> TemperatureUnit {
    match f {
        Formula::CelsiusToFahrenheit => TemperatureUnit::Fahrenheit,
        Formula::CelsiusToKelvin => TemperatureUnit::Kelvin,
        Formula::FahrenheitToCelsius => TemperatureUnit::Celsius,
        Formula::KelvinToCelsius => TemperatureUnit::Celsius,
    }
}

/// The formula that undoes `f`.
pub open spec fn inverse_of(f: Formula) -> Formula {
    match f {
        Formula::CelsiusToFahrenheit => Formula::FahrenheitToCelsius,
        Formula::CelsiusToKelvin => Formula::KelvinToCelsius,
        Formula::FahrenheitToCelsius => Formula::CelsiusToFahrenheit,
        Formula::KelvinToCelsius => Formula::CelsiusToKelvin,
    }
}

/// What a formula says in exact arithmetic: whether it takes `x` to `y`,
/// both counted in hundredths of a degree.
pub open spec fn takes(f: Formula, x: int, y: int) -> bool {
    match f {
        Formula::CelsiusToFahrenheit => 5 * y == 9 * x + 16000,
        Formula::CelsiusToKelvin => y == x + 27315,
        Formula::FahrenheitToCelsius => 9 * y == 5 * (x - 3200),
        Formula::KelvinToCelsius => y == x - 27315,
    }
}

/// Whether `steps` lead from `from` to `to`: the first step takes a value in
/// `from`, each later step takes what the step before it gave, and the last
/// gives a value in `to`. No step at all leads from a unit to itself.
pub open spec fn connects(steps: Seq<Formula>, from: TemperatureUnit, to: TemperatureUnit) -> bool {
    if steps.len() == 0 {
        from == to
    } else {
        &&& source_of(steps.first()) == from
        &&& target_of(steps.last()) == to
        &&& forall|i: int|
            0 <= i < steps.len() - 1 ==> target_of(#[trigger] steps[i]) == source_of(steps[i + 1])
    }
}

/// The steps of the return journey: the inverses of `steps`, last first.
pub open spec fn reversed(steps: Seq<Formula>) -> Seq<Formula> {
    Seq::new(steps.len(), |i: int| inverse_of(steps[steps.len() - 1 - i]))
}

/// The steps that convert a value in `from` to a value in `to`.
pub open spec fn route_of(from: TemperatureUnit, to: TemperatureUnit) -> Seq<Formula> {
    match (from, to) {
        (TemperatureUnit::Celsius, TemperatureUnit::Celsius) => seq![],
        (TemperatureUnit::Celsius, TemperatureUnit::Fahrenheit) => seq![
            Formula::CelsiusToFahrenheit,
        ],
        (TemperatureUnit::Celsius, TemperatureUnit::Kelvin) => seq![Formula::CelsiusToKelvin],
        (TemperatureUnit::Fahrenheit, TemperatureUnit::Celsius) => seq![
            Formula::FahrenheitToCelsius,
        ],
        (TemperatureUnit::Fahrenheit, TemperatureUnit::Fahrenheit) => seq![],
        (TemperatureUnit::Fahrenheit, TemperatureUnit::Kelvin) => seq![
            Formula::FahrenheitToCelsius,
            Formula::CelsiusToKelvin,
        ],
        (TemperatureUnit::Kelvin, TemperatureUnit::Celsius) => seq![Formula::KelvinToCelsius],
        (TemperatureUnit::Kelvin, TemperatureUnit::Fahrenheit) => seq![
            Formula::KelvinToCelsius,
            Formula::CelsiusToFahrenheit,
        ],
        (TemperatureUnit::Kelvin, TemperatureUnit::Kelvin) => seq![],
    }
}

impl Formula {
    /// The unit of the value that this formula takes.
    pub fn source(&self) -> (unit: TemperatureUnit)
        ensures
            unit == source_of(*self),
    {
        match *self {
            Formula::CelsiusToFahrenheit => TemperatureUnit::Celsius,
            Formula::CelsiusToKelvin => TemperatureUnit::Celsius,
            Formula::FahrenheitToCelsius => TemperatureUnit::Fahrenheit,
            Formula::KelvinToCelsius => TemperatureUnit::Kelvin,
        }
    }

    /// The unit of the value that this formula gives.
    pub fn target(&self) -> (unit: TemperatureUnit)
        ensures
            unit == target_of(*self),
    {
        match *self {
            Formula::CelsiusToFahrenheit => TemperatureUnit::Fahrenheit,
            Formula::CelsiusToKelvin => TemperatureUnit::Kelvin,
            Formula::FahrenheitToCelsius => TemperatureUnit::Celsius,
            Formula::KelvinToCelsius => TemperatureUnit::Celsius,
        }
    }

    /// The formula that undoes this one.
    pub fn inverse(&self) -> (back: Formula)
        ensures
            back == inverse_of(*self),
    {
        match *self {
            Formula::CelsiusToFahrenheit => Formula::FahrenheitToCelsius,
            Formula::CelsiusToKelvin => Formula::KelvinToCelsius,
            Formula::FahrenheitToCelsius => Formula::CelsiusToFahrenheit,
            Formula::KelvinToCelsius => Formula::CelsiusToKelvin,
        }
    }
}

/// The steps that convert a value in `from` to a value in `to`, in the order
/// in which they are to be applied. Each step is rounded by itself: the two
/// steps between Fahrenheit and Kelvin are not to be merged into one.
pub fn route(from: TemperatureUnit, to: TemperatureUnit) -> (steps: Vec<Formula>)
    ensures
        steps@ == route_of(from, to),
{
    let mut steps: Vec<Formula> = Vec::new();
    match from {
        TemperatureUnit::Celsius => {},
        TemperatureUnit::Fahrenheit => {
            if to != TemperatureUnit::Fahrenheit {
                steps.push(Formula::FahrenheitToCelsius);
            }
        },
        TemperatureUnit::Kelvin => {
            if to != TemperatureUnit::Kelvin {
                steps.push(Formula::KelvinToCelsius);
            }
        },
    }
    match to {
        TemperatureUnit::Celsius => {},
        TemperatureUnit::Fahrenheit => {
            if from != TemperatureUnit::Fahrenheit {
                steps.push(Formula::CelsiusToFahrenheit);
            }
        },
        TemperatureUnit::Kelvin => {
            if from != TemperatureUnit::Kelvin {
                steps.push(Formula::CelsiusToKelvin);
            }
        },
    }
    assert(steps@ =~= route_of(from, to));
    steps
}

/// A formula and its inverse run between the same two units, in opposite
/// directions, and the inverse of the inverse is the formula itself.
pub proof fn lemma_inverse_turns_round(f: Formula)
    ensures
        source_of(inverse_of(f)) == target_of(f),
        target_of(inverse_of(f)) == source_of(f),
        inverse_of(inverse_of(f)) == f,
{
}

/// In exact arithmetic the inverse of a formula takes back what the formula
/// gave: it takes `y` to `x` exactly when the formula takes `x` to `y`.
pub proof fn lemma_inverse_undoes(f: Formula, x: int, y: int)
    ensures
        takes(f, x, y) <==> takes(inverse_of(f), y, x),
{
}

/// In exact arithmetic a formula gives at most one value for each value it
/// takes, and no two values are taken to the same one.
pub proof fn lemma_formula_is_one_to_one(f: Formula, x1: int, y1: int, x2: int, y2: int)
    requires
        takes(f, x1, y1),
        takes(f, x2, y2),
    ensures
        x1 == x2 <==> y1 == y2,
{
}

/// Every formula has Celsius at one of its ends.
pub proof fn lemma_formula_touches_celsius(f: Formula)
    ensures
        source_of(f) == TemperatureUnit::Celsius || target_of(f) == TemperatureUnit::Celsius,
        source_of(f) != target_of(f),
{
}

/// A route leads from the unit it was asked from to the unit it was asked
/// for: what comes out of a conversion is always in the requested unit.
pub proof fn lemma_route_connects(from: TemperatureUnit, to: TemperatureUnit)
    ensures
        connects(route_of(from, to), from, to),
{
}

/// A conversion from a unit to itself takes no step, so the value is handed
/// back as it was; every other conversion takes one step or two.
pub proof fn lemma_route_identity(from: TemperatureUnit, to: TemperatureUnit)
    ensures
        route_of(from, to).len() == 0 <==> from == to,
        route_of(from, to).len() <= 2,
{
}

/// Two steps are taken exactly between Fahrenheit and Kelvin, and then
/// Celsius is the unit in the middle.
pub proof fn lemma_route_pivots_on_celsius(from: TemperatureUnit, to: TemperatureUnit)
    ensures
        route_of(from, to).len() == 2 <==> from != to && from != TemperatureUnit::Celsius && to
            != TemperatureUnit::Celsius,
        route_of(from, to).len() == 2 ==> target_of(route_of(from, to)[0])
            == TemperatureUnit::Celsius && source_of(route_of(from, to)[1])
            == TemperatureUnit::Celsius,
{
}

/// The way back undoes the way there: the route from `to` to `from` is made
/// of the inverses of the steps from `from` to `to`, last step first.
pub proof fn lemma_route_round_trip(from: TemperatureUnit, to: TemperatureUnit)
    ensures
        route_of(to, from) == reversed(route_of(from, to)),
{
    assert(route_of(to, from) =~= reversed(route_of(from, to)));
}

} // verus!
