use temperature::route::{route, Formula};
use temperature::unit::TemperatureUnit;

const UNITS: [TemperatureUnit; 3] =
    [TemperatureUnit::Celsius, TemperatureUnit::Fahrenheit, TemperatureUnit::Kelvin];

const FORMULAS: [Formula; 4] = [
    Formula::CelsiusToFahrenheit,
    Formula::CelsiusToKelvin,
    Formula::FahrenheitToCelsius,
    Formula::KelvinToCelsius,
];

#[test]
fn same_unit_takes_no_step() {
    for unit in UNITS {
        assert_eq!(route(unit, unit), Vec::<Formula>::new());
    }
}

#[test]
fn celsius_is_one_step_from_the_others() {
    assert_eq!(
        route(TemperatureUnit::Celsius, TemperatureUnit::Fahrenheit),
        vec![Formula::CelsiusToFahrenheit]
    );
    assert_eq!(
        route(TemperatureUnit::Celsius, TemperatureUnit::Kelvin),
        vec![Formula::CelsiusToKelvin]
    );
    assert_eq!(
        route(TemperatureUnit::Fahrenheit, TemperatureUnit::Celsius),
        vec![Formula::FahrenheitToCelsius]
    );
    assert_eq!(
        route(TemperatureUnit::Kelvin, TemperatureUnit::Celsius),
        vec![Formula::KelvinToCelsius]
    );
}

#[test]
fn fahrenheit_and_kelvin_go_through_celsius() {
    assert_eq!(
        route(TemperatureUnit::Fahrenheit, TemperatureUnit::Kelvin),
        vec![Formula::FahrenheitToCelsius, Formula::CelsiusToKelvin]
    );
    assert_eq!(
        route(TemperatureUnit::Kelvin, TemperatureUnit::Fahrenheit),
        vec![Formula::KelvinToCelsius, Formula::CelsiusToFahrenheit]
    );
}

#[test]
fn every_route_is_a_chain_between_its_ends() {
    for from in UNITS {
        for to in UNITS {
            let steps = route(from, to);
            assert!(steps.len() <= 2);
            assert_eq!(steps.is_empty(), from == to);
            let mut at = from;
            for step in &steps {
                assert_eq!(step.source(), at);
                at = step.target();
            }
            assert_eq!(at, to);
        }
    }
}

#[test]
fn the_way_back_is_the_inverse_steps_last_first() {
    for from in UNITS {
        for to in UNITS {
            let back: Vec<Formula> = route(from, to).iter().rev().map(|f| f.inverse()).collect();
            assert_eq!(route(to, from), back);
        }
    }
}

#[test]
fn formula_ends() {
    assert_eq!(Formula::CelsiusToFahrenheit.source(), TemperatureUnit::Celsius);
    assert_eq!(Formula::CelsiusToFahrenheit.target(), TemperatureUnit::Fahrenheit);
    assert_eq!(Formula::CelsiusToKelvin.source(), TemperatureUnit::Celsius);
    assert_eq!(Formula::CelsiusToKelvin.target(), TemperatureUnit::Kelvin);
    assert_eq!(Formula::FahrenheitToCelsius.source(), TemperatureUnit::Fahrenheit);
    assert_eq!(Formula::FahrenheitToCelsius.target(), TemperatureUnit::Celsius);
    assert_eq!(Formula::KelvinToCelsius.source(), TemperatureUnit::Kelvin);
    assert_eq!(Formula::KelvinToCelsius.target(), TemperatureUnit::Celsius);
}

#[test]
fn formula_inverses() {
    assert_eq!(Formula::CelsiusToFahrenheit.inverse(), Formula::FahrenheitToCelsius);
    assert_eq!(Formula::FahrenheitToCelsius.inverse(), Formula::CelsiusToFahrenheit);
    assert_eq!(Formula::CelsiusToKelvin.inverse(), Formula::KelvinToCelsius);
    assert_eq!(Formula::KelvinToCelsius.inverse(), Formula::CelsiusToKelvin);
    for f in FORMULAS {
        assert_eq!(f.inverse().inverse(), f);
        assert_eq!(f.inverse().source(), f.target());
        assert_eq!(f.inverse().target(), f.source());
        assert_ne!(f.source(), f.target());
    }
}
