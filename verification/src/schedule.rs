//! When to look at the plan, when to tell about it, and for which day.

use crate::date::{Weekday, weekday_from_number};
use crate::text::{decimal_digits, decimal_string};
use vstd::prelude::*;

verus! {

/// The number of units of time that an age is told in: years, months, days,
/// hours, minutes and seconds.
pub const UNITS: usize = 6;

/// The length of a unit of time in seconds: a year of 365.25 days, a month of
/// a twelfth of that, a day, an hour, a minute, a second.
pub open spec fn unit_seconds(unit: int) -> nat {
    if unit == 0 {
        31_557_600
    } else if unit == 1 {
        2_630_016
    } else if unit == 2 {
        86_400
    } else if unit == 3 {
        3_600
    } else if unit == 4 {
        60
    } else {
        1
    }
}

/// How one of a unit is told.
pub open spec fn unit_one(unit: int) -> Seq<char> {
    if unit == 0 {
        "einem Jahr"@
    } else if unit == 1 {
        "einem Monat"@
    } else if unit == 2 {
        "einem Tag"@
    } else if unit == 3 {
        "einer Stunde"@
    } else if unit == 4 {
        "einer Minute"@
    } else {
        "einer Sekunde"@
    }
}

/// The name of a unit behind a number other than one.
pub open spec fn unit_many(unit: int) -> Seq<char> {
    if unit == 0 {
        "Jahren"@
    } else if unit == 1 {
        "Monaten"@
    } else if unit == 2 {
        "Tagen"@
    } else if unit == 3 {
        "Stunden"@
    } else if unit == 4 {
        "Minuten"@
    } else {
        "Sekunden"@
    }
}

/// What is left of an age once the units before `unit` have taken their
/// share.
pub open spec fn remainder(seconds: nat, unit: int) -> nat
    decreases unit,
{
    if unit <= 0 {
        seconds
    } else {
        remainder(seconds, unit - 1) % unit_seconds(unit - 1)
    }
}

/// How many of a unit an age holds, once the units before it have taken
/// their share.
pub open spec fn amount(seconds: nat, unit: int) -> nat {
    remainder(seconds, unit) / unit_seconds(unit)
}

/// How an amount of a unit is told: one by its own phrase, any other by its
/// number and the name of the unit.
pub open spec fn phrase(value: nat, unit: int) -> Seq<char> {
    if value == 1 {
        unit_one(unit)
    } else {
        decimal_digits(value) + " "@ + unit_many(unit)
    }
}

/// An age told from the unit `unit` on, where `first` is what the units
/// before it have given.
pub open spec fn told_from(seconds: nat, unit: int, first: Option<Seq<char>>) -> Seq<char>
    decreases UNITS - unit,
{
    if unit >= UNITS {
        match first {
            Some(text) => text,
            None => "idk"@,
        }
    } else if amount(seconds, unit) == 0 {
        told_from(seconds, unit + 1, first)
    } else {
        match first {
            Some(text) => text + " und "@ + phrase(amount(seconds, unit), unit),
            None => told_from(seconds, unit + 1, Some(phrase(amount(seconds, unit), unit))),
        }
    }
}

/// An age in words: the two largest units of which it holds any, or the one;
/// `idk` for no time at all.
pub open spec fn told(seconds: nat) -> Seq<char> {
    told_from(seconds, 0, None)
}

fn seconds_of_unit(unit: usize) -> (seconds: u64)
    requires
        unit < UNITS,
    ensures
        seconds == unit_seconds(unit as int),
{
    if unit == 0 {
        31_557_600
    } else if unit == 1 {
        2_630_016
    } else if unit == 2 {
        86_400
    } else if unit == 3 {
        3_600
    } else if unit == 4 {
        60
    } else {
        1
    }
}

fn one_of_unit(unit: usize) -> (text: &'static str)
    requires
        unit < UNITS,
    ensures
        text@ == unit_one(unit as int),
{
    if unit == 0 {
        "einem Jahr"
    } else if unit == 1 {
        "einem Monat"
    } else if unit == 2 {
        "einem Tag"
    } else if unit == 3 {
        "einer Stunde"
    } else if unit == 4 {
        "einer Minute"
    } else {
        "einer Sekunde"
    }
}

fn many_of_unit(unit: usize) -> (text: &'static str)
    requires
        unit < UNITS,
    ensures
        text@ == unit_many(unit as int),
{
    if unit == 0 {
        "Jahren"
    } else if unit == 1 {
        "Monaten"
    } else if unit == 2 {
        "Tagen"
    } else if unit == 3 {
        "Stunden"
    } else if unit == 4 {
        "Minuten"
    } else {
        "Sekunden"
    }
}

fn phrase_of(value: u64, unit: usize) -> (text: String)
    requires
        unit < UNITS,
    ensures
        text@ == phrase(value as nat, unit as int),
{
    if value == 1 {
        String::from_str(one_of_unit(unit))
    } else {
        let mut text = decimal_string(value);
        text.append(" ");
        text.append(many_of_unit(unit));
        text
    }
}

/// Tells an age, given in seconds, in words.
pub fn format_duration(secs: u64) -> (text: String)
    ensures
        text@ == told(secs as nat),
{
    let mut first: Option<String> = None;
    let mut left: u64 = secs;
    let mut unit: usize = 0;
    while unit < UNITS
        invariant
            unit <= UNITS,
            left == remainder(secs as nat, unit as int),
            told(secs as nat) == told_from(secs as nat, unit as int, first.deep_view()),
        decreases UNITS - unit,
    {
        let seconds = seconds_of_unit(unit);
        let value = left / seconds;
        let rest = left % seconds;
        if value != 0 {
            let part = phrase_of(value, unit);
            match first {
                Some(text) => {
                    let mut text = text;
                    text.append(" und ");
                    text.append(part.as_str());
                    return text;
                },
                None => {
                    first = Some(part);
                },
            }
        }
        left = rest;
        unit += 1;
    }
    match first {
        Some(text) => text,
        None => String::from_str("idk"),
    }
}

/// The seconds from a time of day to the next full quarter of an hour.
pub open spec fn until_next_quarter(minute: int, second: int) -> int {
    (15 - minute % 15) * 60 - second
}

/// The seconds to wait until the next full quarter of an hour, at `minute`
/// minutes and `second` seconds past the hour.
pub fn seconds_to_next_quarter(minute: u8, second: u8) -> (wait: u64)
    ensures
        wait == if until_next_quarter(minute as int, second as int) >= 0 {
            until_next_quarter(minute as int, second as int)
        } else {
            0
        },
{
    let to_quarter: u64 = (15 - (minute % 15) as u64) * 60;
    if to_quarter >= second as u64 {
        to_quarter - second as u64
    } else {
        0
    }
}

/// Whether a look at the plan is followed by a message: where the plan has
/// changed, and in any case at the first look after three in the afternoon.
pub open spec fn is_due(changed: bool, hour: int, minute: int) -> bool {
    changed || (hour == 15 && minute <= 14)
}

/// Whether to send a message after a look at the plan at the given time of
/// day.
pub fn should_notify(changed: bool, hour: u8, minute: u8) -> (due: bool)
    ensures
        due == is_due(changed, hour as int, minute as int),
{
    changed || (hour == 15 && minute <= 14)
}

/// How many days after today the day lies that a message is about: the
/// present day until three in the afternoon, then the next; and in place of a
/// Saturday or Sunday the Monday after it.
pub open spec fn days_until_target(hour: int, today: Weekday) -> int {
    let first: int = if hour >= 15 {
        1
    } else {
        0
    };
    let day = weekday_from_number((today.number() + first) % 7);
    if day == Weekday::Saturday {
        first + 2
    } else if day == Weekday::Sunday {
        first + 1
    } else {
        first
    }
}

/// How many days after today the day lies that a message is about.
pub fn days_ahead(hour: u8, today: Weekday) -> (days: u8)
    ensures
        days == days_until_target(hour as int, today),
        days <= 3,
{
    let first: u8 = if hour >= 15 {
        1
    } else {
        0
    };
    let day = if hour >= 15 {
        today.next()
    } else {
        today
    };
    match day {
        Weekday::Saturday => first + 2,
        Weekday::Sunday => first + 1,
        _ => first,
    }
}

} // verus!
