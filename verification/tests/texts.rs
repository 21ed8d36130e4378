use temperature::error::ParseError;
use temperature::text::{is_space, parse_reading, render, trim};
use temperature::unit::TemperatureUnit;

#[test]
fn is_space_agrees_with_unicode_white_space() {
    let mut spaces = 0;
    for code in 0..=0x10FFFFu32 {
        if let Some(c) = char::from_u32(code) {
            assert_eq!(is_space(c), c.is_whitespace(), "U+{:04X}", code);
            if is_space(c) {
                spaces += 1;
            }
        }
    }
    assert_eq!(spaces, 25);
}

#[test]
fn is_space_on_common_characters() {
    assert!(is_space(' '));
    assert!(is_space('\t'));
    assert!(is_space('\n'));
    assert!(is_space('\r'));
    assert!(is_space('\u{a0}'));
    assert!(is_space('\u{3000}'));
    assert!(!is_space('0'));
    assert!(!is_space('-'));
    assert!(!is_space('K'));
    assert!(!is_space('\u{b0}'));
    assert!(!is_space('\u{200b}'));
}

#[test]
fn trim_agrees_with_the_standard_trim() {
    let samples = [
        "",
        " ",
        "  \t\n ",
        "a",
        " a",
        "a ",
        " a ",
        "  12 3  ",
        "\u{a0}25\u{b0}C\u{3000}",
        "\t-40F\r\n",
        "no space",
        " \u{b0} ",
        "x \u{2003}",
    ];
    for text in samples {
        assert_eq!(trim(text), text.trim(), "{:?}", text);
    }
}

#[test]
fn trim_drops_only_the_ends() {
    assert_eq!(trim("  1 2  "), "1 2");
    assert_eq!(trim("12"), "12");
    assert_eq!(trim(" \t "), "");
}

#[test]
fn trim_twice_is_trim_once() {
    for text in ["", "  ", " a b ", "\n\u{b0}C\n", "K"] {
        assert_eq!(trim(trim(text)), trim(text));
    }
}

#[test]
fn empty_text_is_empty() {
    assert_eq!(parse_reading("").unwrap_err(), ParseError::Empty);
}

#[test]
fn white_space_alone_is_empty() {
    assert_eq!(parse_reading("   ").unwrap_err(), ParseError::Empty);
    assert_eq!(parse_reading("\t\n").unwrap_err(), ParseError::Empty);
}

#[test]
fn one_character_misses_the_unit() {
    assert_eq!(parse_reading("5").unwrap_err(), ParseError::MissingUnit);
    assert_eq!(parse_reading(" 5 ").unwrap_err(), ParseError::MissingUnit);
    assert_eq!(parse_reading("K").unwrap_err(), ParseError::MissingUnit);
}

#[test]
fn one_character_of_several_bytes_misses_the_unit() {
    assert_eq!(parse_reading("\u{b0}").unwrap_err(), ParseError::MissingUnit);
}

#[test]
fn unknown_unit_letter_is_reported_with_the_letter() {
    assert_eq!(parse_reading("10X").unwrap_err(), ParseError::InvalidUnit('X'));
    assert_eq!(parse_reading("10\u{b0}").unwrap_err(), ParseError::InvalidUnit('\u{b0}'));
    assert_eq!(parse_reading("100").unwrap_err(), ParseError::InvalidUnit('0'));
}

#[test]
fn lower_case_unit_letters_are_refused() {
    assert_eq!(parse_reading("10c").unwrap_err(), ParseError::InvalidUnit('c'));
    assert_eq!(parse_reading("10f").unwrap_err(), ParseError::InvalidUnit('f'));
    assert_eq!(parse_reading("10k").unwrap_err(), ParseError::InvalidUnit('k'));
}

#[test]
fn number_and_unit_are_taken_apart() {
    let reading = parse_reading("37.5C").unwrap();
    assert_eq!(reading.number, "37.5");
    assert_eq!(reading.unit, TemperatureUnit::Celsius);
    let reading = parse_reading("-40F").unwrap();
    assert_eq!(reading.number, "-40");
    assert_eq!(reading.unit, TemperatureUnit::Fahrenheit);
    let reading = parse_reading("300K").unwrap();
    assert_eq!(reading.number, "300");
    assert_eq!(reading.unit, TemperatureUnit::Kelvin);
}

#[test]
fn white_space_round_the_text_is_dropped() {
    let reading = parse_reading(" 273.15K ").unwrap();
    assert_eq!(reading.number, "273.15");
    assert_eq!(reading.unit, TemperatureUnit::Kelvin);
}

#[test]
fn white_space_before_the_unit_is_dropped() {
    let reading = parse_reading("  12.5 \t F\n").unwrap();
    assert_eq!(reading.number, "12.5");
    assert_eq!(reading.unit, TemperatureUnit::Fahrenheit);
}

#[test]
fn white_space_inside_the_number_stays() {
    let reading = parse_reading("1 2C").unwrap();
    assert_eq!(reading.number, "1 2");
    assert_eq!(reading.unit, TemperatureUnit::Celsius);
}

#[test]
fn the_number_is_not_judged() {
    let reading = parse_reading("abcC").unwrap();
    assert_eq!(reading.number, "abc");
    assert_eq!(reading.unit, TemperatureUnit::Celsius);
    let reading = parse_reading("CC").unwrap();
    assert_eq!(reading.number, "C");
    assert_eq!(reading.unit, TemperatureUnit::Celsius);
}

#[test]
fn the_number_is_never_empty() {
    for text in ["", " ", "5", "K", "CK", " 1K", "1 K", "\u{b0}C", "10X", "  F  "] {
        match parse_reading(text) {
            Ok(reading) => {
                assert!(!reading.number.is_empty());
                assert_eq!(reading.number.trim(), reading.number);
            }
            Err(error) => assert_ne!(error, ParseError::InvalidNumber),
        }
    }
}

#[test]
fn render_kelvin_has_no_degree_sign() {
    assert_eq!(render("300", TemperatureUnit::Kelvin), "300K");
    assert_eq!(render("0", TemperatureUnit::Kelvin), "0K");
}

#[test]
fn render_celsius_and_fahrenheit_have_the_degree_sign() {
    assert_eq!(render("25", TemperatureUnit::Celsius), "25\u{b0}C");
    assert_eq!(render("77", TemperatureUnit::Fahrenheit), "77\u{b0}F");
    assert_eq!(render("37.5", TemperatureUnit::Celsius), "37.5°C");
}

#[test]
fn render_keeps_the_number_as_it_is_spelt() {
    assert_eq!(render("", TemperatureUnit::Kelvin), "K");
    assert_eq!(render(" 1 ", TemperatureUnit::Fahrenheit), " 1 \u{b0}F");
    assert_eq!(render("-273.15", TemperatureUnit::Celsius), "-273.15\u{b0}C");
}

#[test]
fn kelvin_is_read_back_as_written() {
    for number in ["300", "0", "273.15", "1e3", "x"] {
        let text = render(number, TemperatureUnit::Kelvin);
        let reading = parse_reading(&text).unwrap();
        assert_eq!(reading.number, number);
        assert_eq!(reading.unit, TemperatureUnit::Kelvin);
    }
}

#[test]
fn degrees_are_read_back_with_the_degree_sign() {
    for unit in [TemperatureUnit::Celsius, TemperatureUnit::Fahrenheit] {
        for number in ["25", "-40", "37.5", ""] {
            let text = render(number, unit);
            let reading = parse_reading(&text).unwrap();
            assert_eq!(reading.number, format!("{}\u{b0}", number));
            assert_eq!(reading.unit, unit);
        }
    }
}
