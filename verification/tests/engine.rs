use bszet::change::Change;
use bszet::date::{Date, Weekday};
use bszet::engine::{apply_all, apply_change, day_of, for_class};
use bszet::row::Row;
use bszet::timetable::{Lesson, Subject};

/// The hash of the row of Monday, 12 December 2022, for the class IGD21, that cancels chemistry in
/// block 2.
const HASH: u64 = 2519812335904650197;

fn monday() -> Date {
    Date::new(2022, 12, 12).unwrap()
}

fn row(index: u8, date: Date, class: &[&str], change: Change) -> Row {
    Row {
        index,
        date,
        class: class.iter().map(|name| name.to_string()).collect(),
        change,
        raw: Vec::new(),
    }
}

#[test]
fn a_cancellation_from_the_plan_cancels_chemistry_on_monday() {
    let date = monday();
    assert_eq!(date.weekday(), Weekday::Monday);
    let mut day = day_of(date.weekday(), 1);
    assert_eq!(day[1].lesson, 2);
    assert_eq!(day[1].subject, Subject::Chemistry);
    assert_eq!(day[1].place, Some("B9".to_string()));
    let lesson = bszet::slot::parse_slot("4.").unwrap();
    assert_eq!(lesson, 2);
    let change = Change::new(lesson, "CH", "", "", "", "").unwrap();
    assert!(change.is_cancel());
    let rows = vec![row(0, date, &["IGD21"], change)];
    let unknown = apply_all(&date, &mut day, &rows);
    assert!(unknown.is_empty());
    assert_eq!(day[1].lesson, 2);
    assert_eq!(day[1].subject, Subject::Cancel(Box::new(Subject::Chemistry)));
}

#[test]
fn cancellations_are_applied_before_other_rows() {
    let date = Date::new(2022, 12, 16).unwrap();
    let room = row(0, date, &["IGD21"], Change::new(3, "LF13D_I1", "LF13D_I1", "B1", "", "").unwrap());
    let cancel = row(1, date, &["IGD21"], Change::new(3, "LF13D_I1", "", "", "", "").unwrap());
    let rows = vec![room.clone(), cancel.clone()];

    let mut in_passes = day_of(Weekday::Friday, 1);
    let unknown = apply_all(&date, &mut in_passes, &rows);
    assert_eq!(in_passes[3].lesson, 3);
    assert_eq!(in_passes[3].subject, Subject::Cancel(Box::new(Subject::Lf13__1)));
    assert_eq!(in_passes[3].place, Some("A103".to_string()));
    assert_eq!(unknown.len(), 1);
    assert_eq!(unknown[0], room);
    assert_eq!(unknown[0].index, 0);

    let mut in_order = day_of(Weekday::Friday, 1);
    let mut left: Vec<Row> = Vec::new();
    assert!(apply_change(&date, &mut in_order, &mut left, &room));
    assert!(apply_change(&date, &mut in_order, &mut left, &cancel));
    assert!(left.is_empty());
    assert_eq!(in_order[3].subject, Subject::Cancel(Box::new(Subject::Lf13__1)));
    assert_eq!(in_order[3].place, Some("B1".to_string()));

    assert_ne!(in_passes[3].place, in_order[3].place);
}

#[test]
fn rows_for_other_days_and_classes_are_passed_over() {
    let date = monday();
    let other_day = Date::new(2022, 12, 13).unwrap();
    let rows = vec![
        row(0, other_day, &["IGD21"], Change::new(2, "CH", "", "", "", "").unwrap()),
        row(1, date, &["IGD22"], Change::new(2, "CH", "", "", "", "").unwrap()),
        row(2, date, &["IGD22", "IGD 21"], Change::new(1, "DEU", "", "", "", "").unwrap()),
    ];
    assert!(for_class(&rows[0]));
    assert!(!for_class(&rows[1]));
    assert!(for_class(&rows[2]));
    let mut day = day_of(Weekday::Monday, 1);
    let unknown = apply_all(&date, &mut day, &rows);
    assert!(unknown.is_empty());
    assert_eq!(day[0].subject, Subject::Cancel(Box::new(Subject::GermanBasic)));
    assert_eq!(day[1].subject, Subject::Chemistry);
}

#[test]
fn rows_that_do_not_apply_are_handed_back() {
    let date = monday();
    let no_lesson = row(0, date, &["IGD21"], Change::new(4, "PHY", "", "", "", "").unwrap());
    let unknown_subject = row(1, date, &["IGD21"], Change::new(1, "DEU", "XYZ", "", "", "").unwrap());
    let fine = row(2, date, &["IGD21"], Change::new(2, "CH", "", "", "", "").unwrap());
    let rows = vec![no_lesson.clone(), unknown_subject.clone(), fine];
    let mut day = day_of(Weekday::Monday, 1);
    let unknown = apply_all(&date, &mut day, &rows);
    assert_eq!(unknown.len(), 2);
    assert_eq!(unknown[0], no_lesson);
    assert_eq!(unknown[1], unknown_subject);
    assert_eq!(day[0].subject, Subject::GermanBasic);
    assert_eq!(day[1].subject, Subject::Cancel(Box::new(Subject::Chemistry)));
}

#[test]
fn apply_change_reports_what_it_did() {
    let date = monday();
    let mut day: Vec<Lesson> = day_of(Weekday::Monday, 2);
    let mut unknown: Vec<Row> = Vec::new();
    let applies = row(0, date, &["IGD 21"], Change::new(3, "LF11D", "LF11D", "B7", "", "").unwrap());
    assert!(apply_change(&date, &mut day, &mut unknown, &applies));
    assert_eq!(day[2].place, Some("B7".to_string()));
    assert!(unknown.is_empty());
    let elsewhere = row(1, date, &["ABC"], Change::new(9, "PHY", "", "", "", "").unwrap());
    assert!(apply_change(&date, &mut day, &mut unknown, &elsewhere));
    assert!(unknown.is_empty());
    let misses = row(2, date, &["IGD21"], Change::new(9, "PHY", "", "", "", "").unwrap());
    assert!(!apply_change(&date, &mut day, &mut unknown, &misses));
    assert_eq!(unknown.len(), 1);
    assert_eq!(unknown[0], misses);
}

#[test]
fn rows_are_equal_whatever_their_position_and_raw_columns() {
    let date = monday();
    let a = Row {
        index: 0,
        date,
        class: vec!["IGD21".to_string()],
        change: Change::new(2, "CH", "", "", "", "").unwrap(),
        raw: vec!["IGD21".to_string(), "4.".to_string()],
    };
    let b = Row {
        index: 17,
        date,
        class: vec!["IGD21".to_string()],
        change: Change::new(2, "CH", "", "", "", "").unwrap(),
        raw: vec!["  IGD21".to_string(), "(4.)".to_string(), "x".to_string()],
    };
    assert_eq!(a, b);
    assert_eq!(a.hash(), b.hash());
    assert_eq!(a.hash(), HASH);
    assert_eq!(a.clone(), a);
    assert_eq!(a.clone().index, 0);
    assert_eq!(a.clone().raw, a.raw);
}

#[test]
fn rows_that_differ_hash_apart() {
    let date = monday();
    let base = row(0, date, &["IGD21"], Change::new(2, "CH", "", "", "", "").unwrap());
    let other_date = row(0, Date::new(2022, 12, 13).unwrap(), &["IGD21"], Change::new(2, "CH", "", "", "", "").unwrap());
    let other_class = row(0, date, &["IGD 21"], Change::new(2, "CH", "", "", "", "").unwrap());
    let other_change = row(0, date, &["IGD21"], Change::new(2, "CH", "CH", "", "", "x").unwrap());
    let unknown = row(0, date, &["IGD21"], Change::new(2, "XY", "", "", "", "").unwrap());
    assert_eq!(base.hash(), HASH);
    assert_ne!(base.hash(), other_date.hash());
    assert_ne!(base.hash(), other_class.hash());
    assert_ne!(base.hash(), other_change.hash());
    assert_ne!(base.hash(), unknown.hash());
}

#[test]
fn rows_differ_by_date_classes_and_change() {
    let date = monday();
    let base = row(0, date, &["IGD21", "IGD22"], Change::new(2, "CH", "", "", "", "").unwrap());
    let other_date =
        row(0, Date::new(2022, 12, 13).unwrap(), &["IGD21", "IGD22"], Change::new(2, "CH", "", "", "", "").unwrap());
    let other_class = row(0, date, &["IGD21"], Change::new(2, "CH", "", "", "", "").unwrap());
    let other_order = row(0, date, &["IGD22", "IGD21"], Change::new(2, "CH", "", "", "", "").unwrap());
    let other_change = row(0, date, &["IGD21", "IGD22"], Change::new(2, "CH", "PHY", "", "", "").unwrap());
    assert_ne!(base, other_date);
    assert_ne!(base, other_class);
    assert_ne!(base, other_order);
    assert_ne!(base, other_change);
    assert!(base.has_class("IGD22"));
    assert!(!base.has_class("IGD"));
    assert!(!base.has_class(""));
}
