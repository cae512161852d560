//! The weather line: an icon for the provider's icon code, the condition,
//! and the temperature cut to two characters with its unit.

use crate::layout::{plain_line, DisplayLine};
use crate::text::{same_text, trim_char, without_surrounding};
use substring::Substring;
use vstd::prelude::*;
use vstd::string::*;

verus! {

/// The characters of `s` from position `start` up to, not including,
/// position `end`, as far as `s` has them. Nothing if `end` is not after
/// `start`.
pub open spec fn char_range(s: Seq<char>, start: int, end: int) -> Seq<char> {
    if end <= start {
        Seq::empty()
    } else {
        let from = if start < s.len() {
            start
        } else {
            s.len() as int
        };
        let to = if end < s.len() {
            end
        } else {
            s.len() as int
        };
        s.subrange(from, to)
    }
}

/// The slice of `s` between two character positions, by `substring` of the
/// `substring` crate. Trusted: the slice holds the characters from position
/// `start_index` up to position `end_index`, both clamped to the length of
/// `s`, and is empty when `end_index` is not after `start_index`.
#[verifier::external_body]
pub(crate) fn char_slice<'a>(s: &'a str, start_index: usize, end_index: usize) -> (r: &'a str)
    ensures
        r@ == char_range(s@, start_index as int, end_index as int),
{
    s.substring(start_index, end_index)
}

/// The icon for a weather provider's icon code; a question mark for a code
/// that is not known.
pub open spec fn icon_of(code: Seq<char>) -> Seq<char> {
    if code == "01d"@ {
        "☀️"@
    } else if code == "01n"@ || code == "02n"@ {
        "🌙"@
    } else if code == "02d"@ {
        "⛅️"@
    } else if code == "03d"@ || code == "03n"@ || code == "04d"@ || code == "04n"@ {
        "☁️"@
    } else if code == "09d"@ || code == "09n"@ || code == "10d"@ || code == "10n"@ {
        "🌧️"@
    } else if code == "11d"@ || code == "11n"@ {
        "⛈️"@
    } else if code == "13d"@ || code == "13n"@ {
        "🌨️"@
    } else if code == "40d"@ || code == "40n"@ || code == "50d"@ || code == "50n"@ {
        "🌫️"@
    } else {
        "❓"@
    }
}

/// The letter of the temperature scale: `F` for imperial units, else `C`.
/// Double quotes around the unit system's name do not count.
pub open spec fn degree_letter(units: Seq<char>) -> Seq<char> {
    if without_surrounding(units, '"') == "imperial"@ {
        "F"@
    } else {
        "C"@
    }
}

/// The text of the weather line: condition, temperature, degree sign, scale.
pub open spec fn weather_text(units: Seq<char>, main: Seq<char>, temp: Seq<char>) -> Seq<char> {
    main + " "@ + char_range(temp, 0, 2) + "°"@ + degree_letter(units)
}

/// The icon for a weather provider's icon code.
pub fn weather_icon(code: &str) -> (icon: &'static str)
    ensures
        icon@ == icon_of(code@),
{
    if same_text(code, "01d") {
        "☀️"
    } else if same_text(code, "01n") || same_text(code, "02n") {
        "🌙"
    } else if same_text(code, "02d") {
        "⛅️"
    } else if same_text(code, "03d") || same_text(code, "03n") || same_text(code, "04d")
        || same_text(code, "04n") {
        "☁️"
    } else if same_text(code, "09d") || same_text(code, "09n") || same_text(code, "10d")
        || same_text(code, "10n") {
        "🌧️"
    } else if same_text(code, "11d") || same_text(code, "11n") {
        "⛈️"
    } else if same_text(code, "13d") || same_text(code, "13n") {
        "🌨️"
    } else if same_text(code, "40d") || same_text(code, "40n") || same_text(code, "50d")
        || same_text(code, "50n") {
        "🌫️"
    } else {
        "❓"
    }
}

/// The condition with the temperature, given the first characters of the
/// temperature as `degrees`.
pub fn weather_words(units: &str, main: &str, degrees: &str) -> (r: String)
    ensures
        r@ == main@ + " "@ + degrees@ + "°"@ + degree_letter(units@),
{
    let letter = if same_text(trim_char(units, '"'), "imperial") {
        "F"
    } else {
        "C"
    };
    let mut out = String::from_str(main);
    out.append(" ");
    out.append(degrees);
    out.append("°");
    out.append(letter);
    out
}

/// The weather line of the box: the icon for `icon_code`, the condition
/// `main`, the first two characters of the temperature `temp`, and the
/// scale that goes with `units`.
pub fn weather_line(units: &str, icon_code: &str, main: &str, temp: &str) -> (line: DisplayLine)
    ensures
        line@ == plain_line(icon_of(icon_code@), weather_text(units@, main@, temp@)),
        line@.wf(),
{
    let words = weather_words(units, main, char_slice(temp, 0, 2));
    DisplayLine::new(weather_icon(icon_code), words.as_str())
}

/// The weather line as text, with the left border in front.
pub fn get_weather(units: &str, icon_code: &str, main: &str, temp: &str) -> (r: String)
    ensures
        r@ == "│ "@ + icon_of(icon_code@) + " "@ + weather_text(units@, main@, temp@),
{
    let words = weather_words(units, main, char_slice(temp, 0, 2));
    let mut out = String::from_str("│ ");
    out.append(weather_icon(icon_code));
    out.append(" ");
    out.append(words.as_str());
    out
}

} // verus!
