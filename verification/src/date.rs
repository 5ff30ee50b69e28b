//! Calendar dates and weekdays as plain values.

use vstd::prelude::*;

verus! {

/// A day of the week.
#[derive(Clone, Copy, Debug, PartialEq, Eq, Hash, Structural)]
pub enum Weekday {
    Monday,
    Tuesday,
    Wednesday,
    Thursday,
    Friday,
    Saturday,
    Sunday,
}

/// The weekday that lies `n` days after a Monday, for `n` below seven.
pub open spec fn weekday_from_number(n: int) -> Weekday {
    if n == 0 {
        Weekday::Monday
    } else if n == 1 {
        Weekday::Tuesday
    } else if n == 2 {
        Weekday::Wednesday
    } else if n == 3 {
        Weekday::Thursday
    } else if n == 4 {
        Weekday::Friday
    } else if n == 5 {
        Weekday::Saturday
    } else {
        Weekday::Sunday
    }
}

impl Weekday {
    /// The number of days from Monday to this weekday.
    pub open spec fn number(self) -> int {
        match self {
            Weekday::Monday => 0,
            Weekday::Tuesday => 1,
            Weekday::Wednesday => 2,
            Weekday::Thursday => 3,
            Weekday::Friday => 4,
            Weekday::Saturday => 5,
            Weekday::Sunday => 6,
        }
    }

    /// The weekday `n` days after a Monday; `None` from seven on.
    pub fn from_number(n: u8) -> (w: Option<Weekday>)
        ensures
            w == if n < 7 {
                Some(weekday_from_number(n as int))
            } else {
                None
            },
    {
        if n == 0 {
            Some(Weekday::Monday)
        } else if n == 1 {
            Some(Weekday::Tuesday)
        } else if n == 2 {
            Some(Weekday::Wednesday)
        } else if n == 3 {
            Some(Weekday::Thursday)
        } else if n == 4 {
            Some(Weekday::Friday)
        } else if n == 5 {
            Some(Weekday::Saturday)
        } else if n == 6 {
            Some(Weekday::Sunday)
        } else {
            None
        }
    }

    /// The day that follows this one.
    pub fn next(self) -> (w: Weekday)
        ensures
            w == weekday_from_number((self.number() + 1) % 7),
    {
        match self {
            Weekday::Monday => Weekday::Tuesday,
            Weekday::Tuesday => Weekday::Wednesday,
            Weekday::Wednesday => Weekday::Thursday,
            Weekday::Thursday => Weekday::Friday,
            Weekday::Friday => Weekday::Saturday,
            Weekday::Saturday => Weekday::Sunday,
            Weekday::Sunday => Weekday::Monday,
        }
    }
}

/// Leap years of the Gregorian calendar.
pub open spec fn is_leap_year(year: int) -> bool {
    year % 4 == 0 && (year % 100 != 0 || year % 400 == 0)
}

/// The number of days of a month, for months 1 to 12.
pub open spec fn days_in_month(year: int, month: int) -> int {
    if month == 2 {
        if is_leap_year(year) {
            29
        } else {
            28
        }
    } else if month == 4 || month == 6 || month == 9 || month == 11 {
        30
    } else {
        31
    }
}

/// The dates that a [`Date`] can hold: days of the Gregorian calendar in the
/// years 1 to 9999.
pub open spec fn is_calendar_date(year: int, month: int, day: int) -> bool {
    &&& 1 <= year <= 9999
    &&& 1 <= month <= 12
    &&& 1 <= day <= days_in_month(year, month)
}

/// The number of days of a year.
pub open spec fn days_in_year(year: int) -> int {
    if is_leap_year(year) {
        366
    } else {
        365
    }
}

/// The number of days from the first day of the year 1 to the first day of
/// `year`.
pub open spec fn days_before_year(year: int) -> int
    decreases year,
{
    if year <= 1 {
        0
    } else {
        days_before_year(year - 1) + days_in_year(year - 1)
    }
}

/// The number of days from the first day of `year` to the first day of its
/// month `month`.
pub open spec fn days_before_month(year: int, month: int) -> int
    decreases month,
{
    if month <= 1 {
        0
    } else {
        days_before_month(year, month - 1) + days_in_month(year, month - 1)
    }
}

/// The number of days from the first day of the year 1 to a date.
pub open spec fn day_number(year: int, month: int, day: int) -> int {
    days_before_year(year) + days_before_month(year, month) + day - 1
}

/// The weekday of a date. The first day of the year 1 is a Monday, and the
/// weekdays follow each other without a gap.
pub open spec fn weekday_of(year: int, month: int, day: int) -> Weekday {
    weekday_from_number(day_number(year, month, day) % 7)
}

/// The days before a year in closed form: a leap day every fourth year, but
/// in one year of every hundred only where it is one of every four hundred.
pub proof fn lemma_days_before_year(year: int)
    requires
        year >= 1,
    ensures
        days_before_year(year) == 365 * (year - 1) + (year - 1) / 4 - (year - 1) / 100 + (year
            - 1) / 400,
    decreases year,
{
    if year > 1 {
        lemma_days_before_year(year - 1);
    }
}

/// The days before a month, for each of the twelve months.
pub proof fn lemma_days_before_month(year: int, month: int)
    requires
        1 <= month <= 12,
    ensures
        days_before_month(year, month) == (if month == 1 {
            0int
        } else if month == 2 {
            31
        } else if month == 3 {
            59
        } else if month == 4 {
            90
        } else if month == 5 {
            120
        } else if month == 6 {
            151
        } else if month == 7 {
            181
        } else if month == 8 {
            212
        } else if month == 9 {
            243
        } else if month == 10 {
            273
        } else if month == 11 {
            304
        } else {
            334
        }) + (if month > 2 && is_leap_year(year) {
            1int
        } else {
            0
        }),
    decreases month,
{
    if month > 1 {
        lemma_days_before_month(year, month - 1);
    }
}

/// A day of the Gregorian calendar.
#[derive(Clone, Copy, Debug, PartialEq, Eq, Hash, Structural)]
pub struct Date {
    year: i32,
    month: u8,
    day: u8,
}

impl Date {
    #[verifier::type_invariant]
    spec fn well_formed(self) -> bool {
        is_calendar_date(self.year as int, self.month as int, self.day as int)
    }

    /// The date with the given year, month and day.
    pub closed spec fn of(year: int, month: int, day: int) -> Date {
        Date { year: year as i32, month: month as u8, day: day as u8 }
    }

    /// The year of this date.
    pub closed spec fn spec_year(self) -> int {
        self.year as int
    }

    /// The month of this date, from 1 to 12.
    pub closed spec fn spec_month(self) -> int {
        self.month as int
    }

    /// The day of the month of this date, from 1 on.
    pub closed spec fn spec_day(self) -> int {
        self.day as int
    }

    /// Whether this value is a day of the calendar. Every `Date` that
    /// executable code holds is one.
    pub open spec fn is_valid(self) -> bool {
        is_calendar_date(self.spec_year(), self.spec_month(), self.spec_day())
    }

    /// The weekday of this date.
    pub open spec fn spec_weekday(self) -> Weekday {
        weekday_of(self.spec_year(), self.spec_month(), self.spec_day())
    }

    /// The number of days from the first day of the year 1 to this date.
    pub open spec fn spec_day_number(self) -> int {
        day_number(self.spec_year(), self.spec_month(), self.spec_day())
    }

    /// Whether this date lies before `other`.
    pub open spec fn spec_before(self, other: Date) -> bool {
        ||| self.spec_year() < other.spec_year()
        ||| self.spec_year() == other.spec_year() && self.spec_month() < other.spec_month()
        ||| self.spec_year() == other.spec_year() && self.spec_month() == other.spec_month()
            && self.spec_day() < other.spec_day()
    }

    /// A date is its year, month and day.
    pub proof fn lemma_of_parts(year: int, month: int, day: int)
        requires
            is_calendar_date(year, month, day),
        ensures
            Date::of(year, month, day).spec_year() == year,
            Date::of(year, month, day).spec_month() == month,
            Date::of(year, month, day).spec_day() == day,
            Date::of(year, month, day).is_valid(),
    {
    }

    /// Two dates with the same year, month and day are the same date.
    pub proof fn lemma_same_parts(a: Date, b: Date)
        requires
            a.spec_year() == b.spec_year(),
            a.spec_month() == b.spec_month(),
            a.spec_day() == b.spec_day(),
        ensures
            a == b,
    {
    }

    /// The date with the given year, month and day, if the calendar has it.
    pub fn new(year: i32, month: u8, day: u8) -> (r: Option<Date>)
        ensures
            r == if is_calendar_date(year as int, month as int, day as int) {
                Some(Date::of(year as int, month as int, day as int))
            } else {
                None
            },
    {
        if year < 1 || year > 9999 || month < 1 || month > 12 || day < 1 {
            return None;
        }
        let y: u32 = year as u32;
        let leap = y % 4 == 0 && (y % 100 != 0 || y % 400 == 0);
        let last: u8 = if month == 2 {
            if leap {
                29
            } else {
                28
            }
        } else if month == 4 || month == 6 || month == 9 || month == 11 {
            30
        } else {
            31
        };
        if day > last {
            return None;
        }
        Some(Date { year, month, day })
    }

    pub fn year(&self) -> (y: i32)
        ensures
            y == self.spec_year(),
            self.is_valid(),
    {
        proof {
            use_type_invariant(self);
        }
        self.year
    }

    pub fn month(&self) -> (m: u8)
        ensures
            m == self.spec_month(),
            self.is_valid(),
    {
        proof {
            use_type_invariant(self);
        }
        self.month
    }

    pub fn day(&self) -> (d: u8)
        ensures
            d == self.spec_day(),
            self.is_valid(),
    {
        proof {
            use_type_invariant(self);
        }
        self.day
    }

    /// The number of days from the first day of the year 1 to this date.
    pub fn day_number(&self) -> (n: u32)
        ensures
            n == self.spec_day_number(),
    {
        proof {
            use_type_invariant(self);
            lemma_days_before_year(self.year as int);
            lemma_days_before_month(self.year as int, self.month as int);
        }
        let year: u32 = self.year as u32;
        let past: u32 = year - 1;
        let leap = year % 4 == 0 && (year % 100 != 0 || year % 400 == 0);
        let month = self.month;
        let before_month: u32 = if month == 1 {
            0
        } else if month == 2 {
            31
        } else if month == 3 {
            59
        } else if month == 4 {
            90
        } else if month == 5 {
            120
        } else if month == 6 {
            151
        } else if month == 7 {
            181
        } else if month == 8 {
            212
        } else if month == 9 {
            243
        } else if month == 10 {
            273
        } else if month == 11 {
            304
        } else {
            334
        };
        let leap_day: u32 = if month > 2 && leap {
            1
        } else {
            0
        };
        365 * past + past / 4 - past / 100 + past / 400 + before_month + leap_day + (self.day
            as u32 - 1)
    }

    /// The weekday of this date.
    pub fn weekday(&self) -> (w: Weekday)
        ensures
            w == self.spec_weekday(),
    {
        let days = self.day_number() % 7;
        if days == 0 {
            Weekday::Monday
        } else if days == 1 {
            Weekday::Tuesday
        } else if days == 2 {
            Weekday::Wednesday
        } else if days == 3 {
            Weekday::Thursday
        } else if days == 4 {
            Weekday::Friday
        } else if days == 5 {
            Weekday::Saturday
        } else {
            Weekday::Sunday
        }
    }

    /// Whether this date lies before `other`.
    pub fn before(&self, other: &Date) -> (b: bool)
        ensures
            b == self.spec_before(*other),
    {
        self.year < other.year || (self.year == other.year && (self.month < other.month || (
        self.month == other.month && self.day < other.day)))
    }
}

} // verus!
