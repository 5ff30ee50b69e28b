use bszet::date::{Date, Weekday};

#[test]
fn dates_of_the_calendar() {
    let date = Date::new(2022, 12, 12).unwrap();
    assert_eq!(date.year(), 2022);
    assert_eq!(date.month(), 12);
    assert_eq!(date.day(), 12);
    assert!(Date::new(1, 1, 1).is_some());
    assert!(Date::new(9999, 12, 31).is_some());
    assert!(Date::new(2024, 2, 29).is_some());
    assert!(Date::new(2000, 2, 29).is_some());
    assert!(Date::new(2022, 4, 30).is_some());
}

#[test]
fn dates_that_the_calendar_lacks() {
    assert_eq!(Date::new(2023, 2, 29), None);
    assert_eq!(Date::new(1900, 2, 29), None);
    assert_eq!(Date::new(2022, 4, 31), None);
    assert_eq!(Date::new(2022, 0, 1), None);
    assert_eq!(Date::new(2022, 13, 1), None);
    assert_eq!(Date::new(2022, 1, 0), None);
    assert_eq!(Date::new(2022, 1, 32), None);
    assert_eq!(Date::new(0, 1, 1), None);
    assert_eq!(Date::new(-5, 1, 1), None);
    assert_eq!(Date::new(10000, 1, 1), None);
}

#[test]
fn weekdays_come_from_the_calendar() {
    assert_eq!(Date::new(2022, 12, 12).unwrap().weekday(), Weekday::Monday);
    assert_eq!(Date::new(2022, 12, 13).unwrap().weekday(), Weekday::Tuesday);
    assert_eq!(Date::new(2022, 12, 14).unwrap().weekday(), Weekday::Wednesday);
    assert_eq!(Date::new(2022, 12, 15).unwrap().weekday(), Weekday::Thursday);
    assert_eq!(Date::new(2022, 12, 16).unwrap().weekday(), Weekday::Friday);
    assert_eq!(Date::new(2022, 12, 17).unwrap().weekday(), Weekday::Saturday);
    assert_eq!(Date::new(2022, 12, 18).unwrap().weekday(), Weekday::Sunday);
    assert_eq!(Date::new(2019, 1, 1).unwrap().weekday(), Weekday::Tuesday);
    assert_eq!(Date::new(2000, 2, 29).unwrap().weekday(), Weekday::Tuesday);
    assert_eq!(Date::new(1, 1, 1).unwrap().weekday(), Weekday::Monday);
    assert_eq!(Date::new(9999, 12, 31).unwrap().weekday(), Weekday::Friday);
}

#[test]
fn weekday_numbers() {
    assert_eq!(Weekday::from_number(0), Some(Weekday::Monday));
    assert_eq!(Weekday::from_number(4), Some(Weekday::Friday));
    assert_eq!(Weekday::from_number(6), Some(Weekday::Sunday));
    assert_eq!(Weekday::from_number(7), None);
    assert_eq!(Weekday::from_number(255), None);
}

#[test]
fn the_week_goes_round() {
    assert_eq!(Weekday::Monday.next(), Weekday::Tuesday);
    assert_eq!(Weekday::Friday.next(), Weekday::Saturday);
    assert_eq!(Weekday::Saturday.next(), Weekday::Sunday);
    assert_eq!(Weekday::Sunday.next(), Weekday::Monday);
}

#[test]
fn earlier_dates_come_before() {
    let a = Date::new(2022, 12, 12).unwrap();
    let b = Date::new(2022, 12, 13).unwrap();
    let c = Date::new(2023, 1, 1).unwrap();
    let d = Date::new(2022, 11, 30).unwrap();
    assert!(a.before(&b));
    assert!(!b.before(&a));
    assert!(!a.before(&a));
    assert!(b.before(&c));
    assert!(d.before(&a));
    assert!(!c.before(&d));
}

#[test]
fn days_are_counted_from_the_first_day_of_the_year_one() {
    assert_eq!(Date::new(1, 1, 1).unwrap().day_number(), 0);
    assert_eq!(Date::new(1, 12, 31).unwrap().day_number(), 364);
    assert_eq!(Date::new(2, 1, 1).unwrap().day_number(), 365);
    assert_eq!(Date::new(4, 12, 31).unwrap().day_number(), 1460);
    assert_eq!(Date::new(1970, 1, 1).unwrap().day_number(), 719162);
    assert_eq!(Date::new(2000, 3, 1).unwrap().day_number(), 730179);
    assert_eq!(Date::new(9999, 12, 31).unwrap().day_number(), 3652058);
}

#[test]
fn dates_and_weekdays_agree_with_the_time_crate() {
    let weekdays = [
        (time::Weekday::Monday, Weekday::Monday),
        (time::Weekday::Tuesday, Weekday::Tuesday),
        (time::Weekday::Wednesday, Weekday::Wednesday),
        (time::Weekday::Thursday, Weekday::Thursday),
        (time::Weekday::Friday, Weekday::Friday),
        (time::Weekday::Saturday, Weekday::Saturday),
        (time::Weekday::Sunday, Weekday::Sunday),
    ];
    for year in 1..=9999 {
        for month in 1..=12u8 {
            for day in 1..=31u8 {
                let theirs = time::Date::from_calendar_date(year, time::Month::try_from(month).unwrap(), day);
                let ours = Date::new(year, month, day);
                assert_eq!(ours.is_some(), theirs.is_ok());
                if let (Some(ours), Ok(theirs)) = (ours, theirs) {
                    let expected = weekdays.iter().find(|pair| pair.0 == theirs.weekday()).unwrap().1;
                    assert_eq!(ours.weekday(), expected);
                }
            }
        }
    }
}
