//! The text form of a temperature: a number, then the unit's letter, with a
//! degree sign between them for Celsius and Fahrenheit.
//!
//! Reading takes a text apart into the characters of the number and the
//! unit; writing puts them together. Turning the number's characters into a
//! value, and a value into characters, is left to the caller.

use vstd::prelude::*;
use crate::error::ParseError;
use crate::unit::{letter_of, unit_of_letter, TemperatureUnit};

verus! {

/// Whether a character is white space: one of the code points that Unicode
/// gives the property `White_Space`.
pub open spec fn is_space_char(c: char) -> bool {
    let n = c as u32;
    ||| 0x09 <= n <= 0x0D
    ||| n == 0x20
    ||| n == 0x85
    ||| n == 0xA0
    ||| n == 0x1680
    ||| 0x2000 <= n <= 0x200A
    ||| n == 0x2028
    ||| n == 0x2029
    ||| n == 0x202F
    ||| n == 0x205F
    ||| n == 0x3000
}

/// A text without the white space at its two ends.
pub open spec fn trimmed(s: Seq<char>) -> Seq<char>
    decreases s.len(),
{
    if s.len() > 0 && is_space_char(s.first()) {
        trimmed(s.drop_first())
    } else if s.len() > 0 && is_space_char(s.last()) {
        trimmed(s.drop_last())
    } else {
        s
    }
}

/// Whether a text has white space neither at its start nor at its end. The
/// empty text has none.
pub open spec fn is_tight(s: Seq<char>) -> bool {
    s.len() > 0 ==> !is_space_char(s.first()) && !is_space_char(s.last())
}

/// Whether every character of `s` from `from` up to, not including, `to` is
/// white space.
pub open spec fn all_space(s: Seq<char>, from: int, to: int) -> bool {
    forall|k: int| from <= k < to ==> is_space_char(#[trigger] s[k])
}

/// Whether `s[from..to]` is the tight middle of `s`: the part is tight, and
/// all before it and all after it is white space.
pub open spec fn frames(s: Seq<char>, from: int, to: int) -> bool {
    &&& 0 <= from <= to <= s.len()
    &&& all_space(s, 0, from)
    &&& all_space(s, to, s.len() as int)
    &&& is_tight(s.subrange(from, to))
}

/// Whether a character is white space.
pub fn is_space(c: char) -> (space: bool)
    ensures
        space == is_space_char(c),
{
    let n: u32 = c as u32;
    (0x09 <= n && n <= 0x0D) || n == 0x20 || n == 0x85 || n == 0xA0 || n == 0x1680 || (0x2000 <= n
        && n <= 0x200A) || n == 0x2028 || n == 0x2029 || n == 0x202F || n == 0x205F || n == 0x3000
}

/// The tight middle of a text is what trimming leaves of it.
pub proof fn lemma_trimmed_is_the_tight_middle(s: Seq<char>, from: int, to: int)
    requires
        frames(s, from, to),
    ensures
        trimmed(s) == s.subrange(from, to),
    decreases s.len(),
{
    if s.len() == 0 {
        assert(s.subrange(from, to) =~= s);
    } else if from > 0 {
        let rest = s.drop_first();
        assert(is_space_char(s[0]));
        assert(rest.subrange(from - 1, to - 1) =~= s.subrange(from, to));
        assert forall|k: int| to - 1 <= k < rest.len() implies is_space_char(
            #[trigger] rest[k],
        ) by {
            assert(rest[k] == s[k + 1]);
        }
        assert forall|k: int| 0 <= k < from - 1 implies is_space_char(#[trigger] rest[k]) by {
            assert(rest[k] == s[k + 1]);
        }
        lemma_trimmed_is_the_tight_middle(rest, from - 1, to - 1);
    } else if to == 0 {
        let rest = s.drop_first();
        assert(is_space_char(s[0]));
        assert(rest.subrange(0, 0) =~= s.subrange(0, 0));
        assert forall|k: int| 0 <= k < rest.len() implies is_space_char(#[trigger] rest[k]) by {
            assert(rest[k] == s[k + 1]);
        }
        lemma_trimmed_is_the_tight_middle(rest, 0, 0);
    } else {
        let middle = s.subrange(from, to);
        assert(middle.first() == s[0]);
        assert(middle.last() == s[to - 1]);
        if to < s.len() {
            let rest = s.drop_last();
            assert(is_space_char(s[s.len() - 1]));
            assert(rest.subrange(0, to) =~= s.subrange(0, to));
            assert forall|k: int| to <= k < rest.len() implies is_space_char(
                #[trigger] rest[k],
            ) by {
                assert(rest[k] == s[k]);
            }
            lemma_trimmed_is_the_tight_middle(rest, 0, to);
        } else {
            assert(s.subrange(from, to) =~= s);
        }
    }
}

/// The characters of a text, in order.
fn chars_of(text: &str) -> (chars: Vec<char>)
    ensures
        chars@ == text@,
{
    let mut chars: Vec<char> = Vec::new();
    for c in it: text.chars()
        invariant
            it.seq() == text@,
            chars@ == it.seq().take(it.index()),
    {
        chars.push(c);
    }
    chars
}

/// Where the tight middle of `chars[from..to]` starts and ends.
fn tight_bounds(chars: &Vec<char>, from: usize, to: usize) -> (bounds: (usize, usize))
    requires
        from <= to <= chars.len(),
    ensures
        from <= bounds.0 <= bounds.1 <= to,
        chars@.subrange(bounds.0 as int, bounds.1 as int) == trimmed(
            chars@.subrange(from as int, to as int),
        ),
{
    let mut start: usize = from;
    while start < to && is_space(chars[start])
        invariant
            from <= start <= to <= chars.len(),
            all_space(chars@, from as int, start as int),
        decreases to - start,
    {
        start += 1;
    }
    let mut end: usize = to;
    while start < end && is_space(chars[end - 1])
        invariant
            from <= start <= end <= to <= chars.len(),
            all_space(chars@, end as int, to as int),
        decreases end - start,
    {
        end -= 1;
    }
    proof {
        let part = chars@.subrange(from as int, to as int);
        assert forall|k: int| 0 <= k < start - from implies is_space_char(#[trigger] part[k]) by {
            assert(part[k] == chars@[from + k]);
        }
        assert forall|k: int| end - from <= k < part.len() implies is_space_char(
            #[trigger] part[k],
        ) by {
            assert(part[k] == chars@[from + k]);
        }
        let middle = chars@.subrange(start as int, end as int);
        assert(part.subrange(start - from, end - from) =~= middle);
        if start < end {
            assert(middle.first() == chars@[start as int]);
            assert(middle.last() == chars@[end - 1]);
        }
        lemma_trimmed_is_the_tight_middle(part, start - from, end - from);
    }
    (start, end)
}

/// The text without the white space at its two ends.
pub fn trim<'a>(text: &'a str) -> (middle: &'a str)
    ensures
        middle@ == trimmed(text@),
{
    let chars = chars_of(text);
    let (start, end) = tight_bounds(&chars, 0, chars.len());
    assert(chars@.subrange(0, chars.len() as int) =~= chars@);
    text.substring_char(start, end)
}

/// A temperature as it stands in a text: the characters of the number, not
/// yet read as a value, and the unit.
#[derive(Clone, Copy, Debug)]
pub struct Reading<'a> {
    pub number: &'a str,
    pub unit: TemperatureUnit,
}

/// What reading a text gives: the characters of the number and the unit, or
/// the reason why the text holds no temperature.
///
/// The white space round the text is dropped first. The last character of
/// what is left is the unit's letter, and what stands before it, trimmed
/// again, is the number.
pub open spec fn reading_of(s: Seq<char>) -> Result<(Seq<char>, TemperatureUnit), ParseError> {
    let t = trimmed(s);
    if t.len() == 0 {
        Err(ParseError::Empty)
    } else if t.len() < 2 {
        Err(ParseError::MissingUnit)
    } else {
        match unit_of_letter(t.last()) {
            None => Err(ParseError::InvalidUnit(t.last())),
            Some(unit) => {
                let number = trimmed(t.drop_last());
                if number.len() == 0 {
                    Err(ParseError::InvalidNumber)
                } else {
                    Ok((number, unit))
                }
            },
        }
    }
}

/// Takes a text apart into the number's characters and the unit.
///
/// Whether the number's characters spell a value, and whether that value
/// lies at or above absolute zero, is for the caller to find out.
pub fn parse_reading<'a>(text: &'a str) -> (result: Result<Reading<'a>, ParseError>)
    ensures
        match reading_of(text@) {
            Ok((number, unit)) => result matches Ok(reading) && reading.number@ == number
                && reading.unit == unit,
            Err(error) => result matches Err(e) && e == error,
        },
{
    let chars = chars_of(text);
    assert(chars@.subrange(0, chars.len() as int) =~= chars@);
    let (start, end) = tight_bounds(&chars, 0, chars.len());
    if start == end {
        return Err(ParseError::Empty);
    }
    if end - start < 2 {
        return Err(ParseError::MissingUnit);
    }
    let letter = chars[end - 1];
    assert(chars@.subrange(start as int, end as int).last() == letter);
    assert(chars@.subrange(start as int, end as int).drop_last() =~= chars@.subrange(
        start as int,
        end - 1,
    ));
    match TemperatureUnit::from_letter(letter) {
        None => Err(ParseError::InvalidUnit(letter)),
        Some(unit) => {
            let (first, last) = tight_bounds(&chars, start, end - 1);
            if first == last {
                Err(ParseError::InvalidNumber)
            } else {
                Ok(Reading { number: text.substring_char(first, last), unit })
            }
        },
    }
}

/// The degree sign, which stands before the letter of Celsius and of
/// Fahrenheit and not before that of Kelvin.
pub open spec fn degree_sign() -> char {
    '\u{b0}'
}

/// What follows the number in the text form of a temperature.
pub open spec fn suffix_of(unit: TemperatureUnit) -> Seq<char> {
    match unit {
        TemperatureUnit::Kelvin => seq![letter_of(unit)],
        _ => seq![degree_sign(), letter_of(unit)],
    }
}

/// The text form of a temperature whose number is written `number`.
pub open spec fn rendering_of(number: Seq<char>, unit: TemperatureUnit) -> Seq<char> {
    number + suffix_of(unit)
}

/// Writes a temperature: the number as the caller has spelt it, then the
/// degree sign where the unit takes one, then the unit's letter.
pub fn render(number: &str, unit: TemperatureUnit) -> (text: String)
    ensures
        text@ == rendering_of(number@, unit),
{
    let mut text = String::from_str(number);
    match unit {
        TemperatureUnit::Kelvin => {},
        _ => {
            proof {
                reveal_strlit("\u{b0}");
            }
            assert("\u{b0}"@ =~= seq![degree_sign()]);
            text.append("\u{b0}");
        },
    }
    text.append(unit.abbreviation());
    assert(text@ =~= rendering_of(number@, unit));
    text
}

/// A tight text is left as it is by trimming.
pub proof fn lemma_trimmed_keeps_tight(s: Seq<char>)
    requires
        is_tight(s),
    ensures
        trimmed(s) == s,
{
}

/// What trimming leaves of a text is the text's tight middle.
pub proof fn lemma_trimmed_is_tight(s: Seq<char>)
    ensures
        is_tight(trimmed(s)),
        exists|from: int, to: int| #[trigger] frames(s, from, to) && s.subrange(from, to) == trimmed(s),
    decreases s.len(),
{
    if s.len() > 0 && is_space_char(s.first()) {
        let rest = s.drop_first();
        lemma_trimmed_is_tight(rest);
        let (from, to) = choose|from: int, to: int| #[trigger]
            frames(rest, from, to) && rest.subrange(from, to) == trimmed(rest);
        assert(s.subrange(from + 1, to + 1) =~= rest.subrange(from, to));
        assert forall|k: int| 0 <= k < from + 1 implies is_space_char(#[trigger] s[k]) by {
            if k > 0 {
                assert(s[k] == rest[k - 1]);
            }
        }
        assert forall|k: int| to + 1 <= k < s.len() implies is_space_char(#[trigger] s[k]) by {
            assert(s[k] == rest[k - 1]);
        }
        assert(frames(s, from + 1, to + 1));
    } else if s.len() > 0 && is_space_char(s.last()) {
        let rest = s.drop_last();
        lemma_trimmed_is_tight(rest);
        let (from, to) = choose|from: int, to: int| #[trigger]
            frames(rest, from, to) && rest.subrange(from, to) == trimmed(rest);
        assert(s.subrange(from, to) =~= rest.subrange(from, to));
        assert forall|k: int| 0 <= k < from implies is_space_char(#[trigger] s[k]) by {
            assert(s[k] == rest[k]);
        }
        assert forall|k: int| to <= k < s.len() implies is_space_char(#[trigger] s[k]) by {
            if k < rest.len() {
                assert(s[k] == rest[k]);
            }
        }
        assert(frames(s, from, to));
    } else {
        assert(s.subrange(0, s.len() as int) =~= s);
        assert(frames(s, 0, s.len() as int));
    }
}

/// Trimming twice is trimming once.
pub proof fn lemma_trimmed_twice(s: Seq<char>)
    ensures
        trimmed(trimmed(s)) == trimmed(s),
{
    lemma_trimmed_is_tight(s);
    lemma_trimmed_keeps_tight(trimmed(s));
}

/// White space round a text makes no difference to what is read from it.
pub proof fn lemma_reading_ignores_outer_space(s: Seq<char>)
    ensures
        reading_of(trimmed(s)) == reading_of(s),
{
    lemma_trimmed_twice(s);
}

/// Trimming a text that starts with another character than white space
/// leaves a text that starts with that character.
proof fn lemma_trimmed_starts_alike(s: Seq<char>)
    requires
        s.len() > 0,
        !is_space_char(s.first()),
    ensures
        trimmed(s).len() > 0,
        trimmed(s).first() == s.first(),
    decreases s.len(),
{
    if is_space_char(s.last()) {
        let rest = s.drop_last();
        assert(rest.len() > 0) by {
            if s.len() == 1 {
                assert(s.last() == s.first());
            }
        }
        assert(rest.first() == s.first());
        lemma_trimmed_starts_alike(rest);
    }
}

/// Once the unit's letter is found there is always a number before it: a
/// text of two characters or more that is tight starts with a character of
/// the number. So taking a text apart never reports an invalid number; only
/// the caller, who reads the number's characters as a value, does. The
/// number that is handed out is tight and not empty.
pub proof fn lemma_reading_has_a_number(s: Seq<char>)
    ensures
        reading_of(s) != Err::<(Seq<char>, TemperatureUnit), ParseError>(ParseError::InvalidNumber),
        reading_of(s) matches Ok((number, unit)) ==> number.len() > 0 && is_tight(number),
{
    let t = trimmed(s);
    lemma_trimmed_is_tight(s);
    if t.len() >= 2 {
        let front = t.drop_last();
        assert(front.first() == t.first());
        lemma_trimmed_starts_alike(front);
        lemma_trimmed_is_tight(front);
    }
}

/// A temperature in kelvin that was written is read back as it was: the
/// same characters for the number, and the unit Kelvin. The number must have
/// been spelt with at least one character and with no white space at its
/// ends.
pub proof fn lemma_reading_of_rendering_kelvin(number: Seq<char>)
    requires
        number.len() > 0,
        is_tight(number),
    ensures
        reading_of(rendering_of(number, TemperatureUnit::Kelvin)) == Ok::<
            (Seq<char>, TemperatureUnit),
            ParseError,
        >((number, TemperatureUnit::Kelvin)),
{
    let text = rendering_of(number, TemperatureUnit::Kelvin);
    assert(text.first() == number.first());
    assert(text.last() == 'K');
    lemma_trimmed_keeps_tight(text);
    assert(text.drop_last() =~= number);
    lemma_trimmed_keeps_tight(number);
}

/// A temperature in Celsius or Fahrenheit that was written is read back
/// with its unit, and with the degree sign as the last character of the
/// number: reading does not take the degree sign away.
pub proof fn lemma_reading_of_rendering_degrees(number: Seq<char>, unit: TemperatureUnit)
    requires
        unit != TemperatureUnit::Kelvin,
        is_tight(number),
    ensures
        reading_of(rendering_of(number, unit)) == Ok::<(Seq<char>, TemperatureUnit), ParseError>(
            (number.push(degree_sign()), unit),
        ),
{
    let text = rendering_of(number, unit);
    let front = number.push(degree_sign());
    assert(text.last() == letter_of(unit));
    assert(text.first() == front.first());
    assert(front.last() == degree_sign());
    lemma_trimmed_keeps_tight(text);
    assert(text.drop_last() =~= front);
    lemma_trimmed_keeps_tight(front);
}

} // verus!
