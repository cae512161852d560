//! The time of day: the greeting that goes with the hour, and the line
//! with the date and the time.

use crate::layout::{plain_line, DisplayLine};
use crate::text::{
    decimal, digit_char, push_decimal, same_text, trim_char, trim_start_char, without_leading,
    without_surrounding,
};
use vstd::prelude::*;
use vstd::string::*;

verus! {

/// A moment of local time, as far as the box shows it: the month from 1
/// to 12, the day from 1 to 31, the hour from 0 to 23 and the minute from
/// 0 to 59. No moment holds a part outside its range.
#[derive(Clone, Copy, Debug)]
pub struct Moment {
    month: u8,
    day: u8,
    hour: u8,
    minute: u8,
}

impl Moment {
    #[verifier::type_invariant]
    spec fn in_range(self) -> bool {
        &&& 1 <= self.month <= 12
        &&& 1 <= self.day <= 31
        &&& self.hour < 24
        &&& self.minute < 60
    }

    /// The month, 1 to 12.
    pub closed spec fn month_of(self) -> int {
        self.month as int
    }

    /// The day of the month, 1 to 31.
    pub closed spec fn day_of(self) -> int {
        self.day as int
    }

    /// The hour, 0 to 23.
    pub closed spec fn hour_of(self) -> int {
        self.hour as int
    }

    /// The minute, 0 to 59.
    pub closed spec fn minute_of(self) -> int {
        self.minute as int
    }

    /// A moment from its parts, or `None` if a part is out of its range.
    pub fn new(month: u8, day: u8, hour: u8, minute: u8) -> (r: Option<Moment>)
        ensures
            r is Some <==> (1 <= month <= 12 && 1 <= day <= 31 && hour < 24 && minute < 60),
            r is Some ==> r->0.month_of() == month && r->0.day_of() == day && r->0.hour_of()
                == hour && r->0.minute_of() == minute,
    {
        if 1 <= month && month <= 12 && 1 <= day && day <= 31 && hour < 24 && minute < 60 {
            Some(Moment { month, day, hour, minute })
        } else {
            None
        }
    }

    /// The month, 1 to 12.
    pub fn month(&self) -> (m: u8)
        ensures
            m == self.month_of(),
            1 <= m <= 12,
    {
        proof {
            use_type_invariant(self);
        }
        self.month
    }

    /// The day of the month, 1 to 31.
    pub fn day(&self) -> (d: u8)
        ensures
            d == self.day_of(),
            1 <= d <= 31,
    {
        proof {
            use_type_invariant(self);
        }
        self.day
    }

    /// The hour, 0 to 23.
    pub fn hour(&self) -> (h: u8)
        ensures
            h == self.hour_of(),
            h < 24,
    {
        proof {
            use_type_invariant(self);
        }
        self.hour
    }

    /// The minute, 0 to 59.
    pub fn minute(&self) -> (m: u8)
        ensures
            m == self.minute_of(),
            m < 60,
    {
        proof {
            use_type_invariant(self);
        }
        self.minute
    }
}

/// The English name of a month.
pub open spec fn month_name_of(month: int) -> Seq<char> {
    if month == 1 {
        "January"@
    } else if month == 2 {
        "February"@
    } else if month == 3 {
        "March"@
    } else if month == 4 {
        "April"@
    } else if month == 5 {
        "May"@
    } else if month == 6 {
        "June"@
    } else if month == 7 {
        "July"@
    } else if month == 8 {
        "August"@
    } else if month == 9 {
        "September"@
    } else if month == 10 {
        "October"@
    } else if month == 11 {
        "November"@
    } else {
        "December"@
    }
}

/// A number below 100 written with two digits.
pub open spec fn two_digits(n: int) -> Seq<char> {
    seq![digit_char(n / 10), digit_char(n % 10)]
}

/// The time on a 24-hour clock: hour and minute, two digits each.
pub open spec fn clock_24_of(hour: int, minute: int) -> Seq<char> {
    two_digits(hour) + seq![':'] + two_digits(minute)
}

/// The hour on a 12-hour clock: 12, 1, 2, ..., 11.
pub open spec fn hour_12(hour: int) -> int {
    if hour % 12 == 0 {
        12
    } else {
        hour % 12
    }
}

/// The time on a 12-hour clock: the hour in two places with a space in
/// front of a single digit, the minute in two digits, and `AM` or `PM`.
pub open spec fn clock_12_of(hour: int, minute: int) -> Seq<char> {
    let h = hour_12(hour);
    let shown = if h < 10 {
        seq![' ', digit_char(h)]
    } else {
        two_digits(h)
    };
    let half = if hour < 12 {
        "AM"@
    } else {
        "PM"@
    };
    shown + seq![':'] + two_digits(minute) + seq![' '] + half
}

/// The English name of a month, by `Month::name` of `chrono`. Trusted: the
/// names are `January` to `December` for the months 1 to 12.
#[verifier::external_body]
pub(crate) fn month_name(month: u8) -> (r: String)
    requires
        1 <= month <= 12,
    ensures
        r@ == month_name_of(month as int),
{
    chrono::Month::try_from(month).unwrap().name().to_string()
}

/// The time on a 24-hour clock, by `chrono`'s format `%H:%M`. Trusted: `%H`
/// is the hour 00 to 23 and `%M` the minute 00 to 59, each padded with a
/// zero to two digits.
#[verifier::external_body]
pub(crate) fn clock_24(hour: u8, minute: u8) -> (r: String)
    requires
        hour < 24,
        minute < 60,
    ensures
        r@ == clock_24_of(hour as int, minute as int),
{
    chrono::NaiveTime::from_hms_opt(hour as u32, minute as u32, 0).unwrap().format("%H:%M").to_string()
}

/// The time on a 12-hour clock, by `chrono`'s format `%l:%M %p`. Trusted:
/// `%l` is the hour 1 to 12 padded with a space to two places, `%M` the
/// minute padded with a zero to two digits, and `%p` is `AM` before noon
/// and `PM` from noon on.
#[verifier::external_body]
pub(crate) fn clock_12(hour: u8, minute: u8) -> (r: String)
    requires
        hour < 24,
        minute < 60,
    ensures
        r@ == clock_12_of(hour as int, minute as int),
{
    chrono::NaiveTime::from_hms_opt(hour as u32, minute as u32, 0).unwrap().format("%l:%M %p").to_string()
}

/// The ending that makes a day of the month an ordinal. The days 1 and 21
/// take `st`, 2 and 22 `nd`, 3 and 23 `rd`; every other day takes `th`.
pub open spec fn ordinal_ending(day: int) -> Seq<char> {
    if day == 1 || day == 21 {
        "st"@
    } else if day == 2 || day == 22 {
        "nd"@
    } else if day == 3 || day == 23 {
        "rd"@
    } else {
        "th"@
    }
}

/// The date: the month's name and the day as an ordinal.
pub open spec fn date_of(month: int, day: int) -> Seq<char> {
    month_name_of(month) + " "@ + decimal(day) + ordinal_ending(day)
}

/// The time in the configured format: `12h` gives the 12-hour clock
/// without the space in front, `24h` the 24-hour clock, anything else the
/// word `off`. Double quotes around the format's name do not count.
pub open spec fn time_of(format: Seq<char>, hour: int, minute: int) -> Seq<char> {
    let name = without_surrounding(format, '"');
    if name == "12h"@ {
        without_leading(clock_12_of(hour, minute), ' ')
    } else if name == "24h"@ {
        clock_24_of(hour, minute)
    } else {
        "off"@
    }
}

/// The clock face that shows an hour.
pub open spec fn clock_face_of(hour: int) -> Seq<char> {
    let h = hour % 12;
    if h == 1 {
        "🕐"@
    } else if h == 2 {
        "🕑"@
    } else if h == 3 {
        "🕒"@
    } else if h == 4 {
        "🕓"@
    } else if h == 5 {
        "🕔"@
    } else if h == 6 {
        "🕕"@
    } else if h == 7 {
        "🕖"@
    } else if h == 8 {
        "🕗"@
    } else if h == 9 {
        "🕘"@
    } else if h == 10 {
        "🕙"@
    } else if h == 11 {
        "🕚"@
    } else {
        "🕛"@
    }
}

/// The text of the date line: the date, a comma, the time.
pub open spec fn datetime_text(moment: Moment, format: Seq<char>) -> Seq<char> {
    date_of(moment.month_of(), moment.day_of()) + ", "@ + time_of(
        format,
        moment.hour_of(),
        moment.minute_of(),
    )
}

/// The clock face that shows an hour.
pub fn clock_face(hour: u8) -> (icon: &'static str)
    ensures
        icon@ == clock_face_of(hour as int),
{
    let h: u8 = hour % 12;
    if h == 1 {
        "🕐"
    } else if h == 2 {
        "🕑"
    } else if h == 3 {
        "🕒"
    } else if h == 4 {
        "🕓"
    } else if h == 5 {
        "🕔"
    } else if h == 6 {
        "🕕"
    } else if h == 7 {
        "🕖"
    } else if h == 8 {
        "🕗"
    } else if h == 9 {
        "🕘"
    } else if h == 10 {
        "🕙"
    } else if h == 11 {
        "🕚"
    } else {
        "🕛"
    }
}

/// The date written out, given the name of its month.
pub fn date_words(month_name: &str, day: u8) -> (r: String)
    ensures
        r@ == month_name@ + " "@ + decimal(day as int) + ordinal_ending(day as int),
{
    let mut out = String::from_str(month_name);
    out.append(" ");
    push_decimal(&mut out, day as i64);
    let ending = if day == 1 || day == 21 {
        "st"
    } else if day == 2 || day == 22 {
        "nd"
    } else if day == 3 || day == 23 {
        "rd"
    } else {
        "th"
    };
    out.append(ending);
    out
}

/// The time of `moment` in the configured format.
pub fn time_words(moment: &Moment, time_format: &str) -> (r: String)
    ensures
        r@ == time_of(time_format@, moment.hour_of(), moment.minute_of()),
{
    let name = trim_char(time_format, '"');
    if same_text(name, "12h") {
        let clock = clock_12(moment.hour(), moment.minute());
        String::from_str(trim_start_char(clock.as_str(), ' '))
    } else if same_text(name, "24h") {
        clock_24(moment.hour(), moment.minute())
    } else {
        String::from_str("off")
    }
}

/// The text of the date line.
pub fn datetime_words(moment: &Moment, time_format: &str) -> (r: String)
    ensures
        r@ == datetime_text(*moment, time_format@),
{
    let month = month_name(moment.month());
    let mut out = date_words(month.as_str(), moment.day());
    out.append(", ");
    let time = time_words(moment, time_format);
    out.append(time.as_str());
    out
}

/// The date line of the box: the clock face of the hour, the date and the
/// time in the configured format.
pub fn datetime_line(moment: &Moment, time_format: &str) -> (line: DisplayLine)
    ensures
        line@ == plain_line(clock_face_of(moment.hour_of()), datetime_text(*moment, time_format@)),
        line@.wf(),
{
    let words = datetime_words(moment, time_format);
    DisplayLine::new(clock_face(moment.hour()), words.as_str())
}

/// The date line as text, with the left border in front.
pub fn get_datetime(moment: &Moment, time_format: &str) -> (r: String)
    ensures
        r@ == "│ "@ + clock_face_of(moment.hour_of()) + " "@ + datetime_text(
            *moment,
            time_format@,
        ),
{
    let words = datetime_words(moment, time_format);
    let mut out = String::from_str("│ ");
    out.append(clock_face(moment.hour()));
    out.append(" ");
    out.append(words.as_str());
    out
}

/// The icon of the greeting for an hour.
pub open spec fn greeting_icon_of(hour: int) -> Seq<char> {
    if 6 <= hour <= 11 {
        "🌇"@
    } else if 12 <= hour <= 17 {
        "🏙️"@
    } else if 18 <= hour <= 22 {
        "🌆"@
    } else {
        "🌃"@
    }
}

/// The words of the greeting for an hour: morning from 6 to 11, afternoon
/// from 12 to 17, evening from 18 to 22, night otherwise.
pub open spec fn greeting_words_of(hour: int) -> Seq<char> {
    if 6 <= hour <= 11 {
        "Good morning"@
    } else if 12 <= hour <= 17 {
        "Good afternoon"@
    } else if 18 <= hour <= 22 {
        "Good evening"@
    } else {
        "Good night"@
    }
}

/// The greeting with the name after it. Double quotes around the name do
/// not count.
pub open spec fn greeting_text(hour: int, name: Seq<char>) -> Seq<char> {
    greeting_words_of(hour) + ", "@ + without_surrounding(name, '"')
}

/// The icon of the greeting for an hour.
pub fn greeting_icon(hour: u8) -> (icon: &'static str)
    ensures
        icon@ == greeting_icon_of(hour as int),
{
    if 6 <= hour && hour <= 11 {
        "🌇"
    } else if 12 <= hour && hour <= 17 {
        "🏙️"
    } else if 18 <= hour && hour <= 22 {
        "🌆"
    } else {
        "🌃"
    }
}

fn greeting_words(hour: u8, name: &str) -> (r: String)
    ensures
        r@ == greeting_text(hour as int, name@),
{
    let words = if 6 <= hour && hour <= 11 {
        "Good morning"
    } else if 12 <= hour && hour <= 17 {
        "Good afternoon"
    } else if 18 <= hour && hour <= 22 {
        "Good evening"
    } else {
        "Good night"
    };
    let mut out = String::from_str(words);
    out.append(", ");
    out.append(trim_char(name, '"'));
    out
}

/// The greeting for the hour, with its icon in front and the name after it.
pub fn greeting(hour: u8, name: &str) -> (r: String)
    ensures
        r@ == greeting_icon_of(hour as int) + " "@ + greeting_text(hour as int, name@),
{
    let words = greeting_words(hour, name);
    let mut out = String::from_str(greeting_icon(hour));
    out.append(" ");
    out.append(words.as_str());
    out
}

/// The greeting line of the box: the greeting and an exclamation mark.
pub fn greeting_line(hour: u8, name: &str) -> (line: DisplayLine)
    ensures
        line@ == plain_line(
            greeting_icon_of(hour as int),
            greeting_text(hour as int, name@) + "!"@,
        ),
        line@.wf(),
{
    let mut words = greeting_words(hour, name);
    words.append("!");
    DisplayLine::new(greeting_icon(hour), words.as_str())
}

} // verus!
