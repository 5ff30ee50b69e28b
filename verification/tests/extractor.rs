use bszet::change::{Change, ChangeError};
use bszet::date::Date;
use bszet::extractor::{
    classes, date_from_groups, extract_date, extract_next_page, parse, parse_row, reference, room_from_groups,
    ParseError,
};
use bszet::row::Row;
use bszet::timetable::Subject;

fn monday() -> Date {
    Date::new(2022, 12, 12).unwrap()
}

fn cells(values: [&str; 7]) -> Vec<String> {
    values.iter().map(|value| value.to_string()).collect()
}

fn groups(values: &[Option<&str>]) -> Option<Vec<Option<String>>> {
    Some(values.iter().map(|value| value.map(|text| text.to_string())).collect())
}

#[test]
fn a_date_from_its_groups() {
    let found = groups(&[Some("Montag 12.12.2022"), Some("12"), Some("12"), Some("2022")]);
    assert_eq!(date_from_groups(&found), Some(monday()));
    let leap = groups(&[Some("x"), Some("29"), Some("02"), Some("2024")]);
    assert_eq!(date_from_groups(&leap), Date::new(2024, 2, 29));
}

#[test]
fn groups_that_name_no_date() {
    assert_eq!(date_from_groups(&None), None);
    assert_eq!(date_from_groups(&groups(&[])), None);
    assert_eq!(date_from_groups(&groups(&[Some("x"), Some("12"), Some("12")])), None);
    assert_eq!(
        date_from_groups(&groups(&[Some("x"), Some("12"), Some("12"), Some("2022"), Some("1")])),
        None
    );
    assert_eq!(date_from_groups(&groups(&[Some("x"), None, Some("12"), Some("2022")])), None);
    assert_eq!(date_from_groups(&groups(&[Some("x"), Some("31"), Some("02"), Some("2022")])), None);
    assert_eq!(date_from_groups(&groups(&[Some("x"), Some("12"), Some("13"), Some("2022")])), None);
    assert_eq!(date_from_groups(&groups(&[Some("x"), Some("12"), Some("12"), Some("0000")])), None);
    assert_eq!(date_from_groups(&groups(&[Some("x"), Some("1a"), Some("12"), Some("2022")])), None);
    assert_eq!(date_from_groups(&groups(&[Some("x"), Some("300"), Some("12"), Some("2022")])), None);
    assert_eq!(date_from_groups(&groups(&[Some("x"), Some("12"), Some("12"), Some("12022")])), None);
}

#[test]
fn a_room_from_its_groups() {
    let found = groups(&[Some("+B5 (B3)"), Some("B5"), Some("B3")]);
    assert_eq!(room_from_groups(&found, "+B5 (B3)"), "B5");
    assert_eq!(room_from_groups(&None, "B5"), "B5");
    assert_eq!(room_from_groups(&groups(&[Some("x"), None, Some("B3")]), "B7"), "B7");
    assert_eq!(room_from_groups(&groups(&[Some("x"), Some("B5")]), "B7"), "B7");
    assert_eq!(room_from_groups(&groups(&[Some("x"), Some(""), Some("B3")]), "B7"), "");
}

#[test]
fn class_columns() {
    assert_eq!(classes("IGD21"), vec!["IGD21"]);
    assert_eq!(classes("IGD21, IGD 22 ,BGy 11"), vec!["IGD21", "IGD 22", "BGy 11"]);
    assert_eq!(classes("IGD21,,"), vec!["IGD21", "", ""]);
}

#[test]
fn references_in_handlers() {
    assert_eq!(reference("window.location.href='V_DC_002.html'"), Some("V_DC_002.html".to_string()));
    assert_eq!(reference("window.location.href=\"V_DC_002.html\""), Some("V_DC_002.html".to_string()));
    assert_eq!(reference("  location.href  =  'a/b.html?x=1'  ;  "), Some("a/b.html?x=1".to_string()));
    assert_eq!(reference("window.location='a'"), Some("a".to_string()));
    assert_eq!(reference("document.location.href='a'"), Some("a".to_string()));
    assert_eq!(reference("document.location='a'"), Some("a".to_string()));
    assert_eq!(reference("location='it\"s'"), Some("it\"s".to_string()));
    assert_eq!(reference("location=''"), Some("".to_string()));
}

#[test]
fn handlers_of_another_form_hold_no_reference() {
    assert_eq!(reference(""), None);
    assert_eq!(reference("window.print()"), None);
    assert_eq!(reference("go('a/b.html', 'x')"), None);
    assert_eq!(reference("'V_DC_002.html'"), None);
    assert_eq!(reference("window.location.href"), None);
    assert_eq!(reference("window.location.href="), None);
    assert_eq!(reference("window.location.href='V_DC_002.html"), None);
    assert_eq!(reference("window.location.href='V_DC_002.html\""), None);
    assert_eq!(reference("window.location.href=V_DC_002.html"), None);
    assert_eq!(reference("window.location.href='a';;"), None);
    assert_eq!(reference("window.location.href='a'; alert(1)"), None);
    assert_eq!(reference("window.location.href='a'+'b'"), None);
    assert_eq!(reference("window.location.hash='a'"), None);
    assert_eq!(reference("window . location='a'"), None);
    assert_eq!(reference("Window.location='a'"), None);
    assert_eq!(reference("x=1; window.location='a'"), None);
}

#[test]
fn a_full_row() {
    let raw = cells(["IGD21, IGD 22", "4.", "CH", "", "", "", "fällt aus"]);
    let row = parse_row(&raw, &monday(), 3, None).unwrap();
    assert_eq!(row.index, 3);
    assert_eq!(row.date, monday());
    assert_eq!(row.class, vec!["IGD21", "IGD 22"]);
    assert_eq!(
        row.change,
        Change::Cancel { lesson: 2, subject: Subject::Chemistry, notice: Some("fällt aus".to_string()) }
    );
    assert_eq!(row.raw, raw);
}

#[test]
fn cells_are_cleaned_before_they_are_read() {
    let raw = cells([" (IGD21) ", "(3.)", "(DEU)", " DEU", "\u{a0}+B5 (B6) ", "\u{a0}", " (Raum) "]);
    let row = parse_row(&raw, &monday(), 0, None).unwrap();
    assert_eq!(row.class, vec!["IGD21"]);
    assert_eq!(
        row.change,
        Change::RoomChange {
            lesson: 2,
            subject: Subject::GermanBasic,
            room: "B5".to_string(),
            notice: Some("Raum".to_string()),
        }
    );
    assert_eq!(row.raw, raw);
}

#[test]
fn blank_columns_take_the_values_of_the_row_above() {
    let table = vec![
        cells(["X", "3.", "CH", "", "", "", ""]),
        cells(["", "", "DEU", "MA", "B6", "", ""]),
        cells(["Y", "", "ENG", "", "", "", ""]),
        cells(["", "7.", "PHY", "", "", "", ""]),
    ];
    let mut rows: Vec<Row> = Vec::new();
    assert_eq!(parse(&table, &monday(), &mut rows), Ok(()));
    assert_eq!(rows.len(), 4);
    assert_eq!(rows[0].class, vec!["X"]);
    assert_eq!(rows[0].change.lesson(), 2);
    assert_eq!(rows[1].class, vec!["X"]);
    assert_eq!(rows[1].change.lesson(), 2);
    assert_eq!(rows[1].index, 1);
    assert_eq!(rows[2].class, vec!["Y"]);
    assert_eq!(rows[2].change.lesson(), 2);
    assert_eq!(rows[3].class, vec!["Y"]);
    assert_eq!(rows[3].change.lesson(), 4);
    assert_eq!(rows[3].index, 3);
}

#[test]
fn a_first_row_with_a_blank_class_or_slot_is_an_error() {
    let mut rows: Vec<Row> = Vec::new();
    let no_class = vec![cells(["", "3.", "CH", "", "", "", ""])];
    assert_eq!(parse(&no_class, &monday(), &mut rows), Err(ParseError::MissingClass));
    let no_slot = vec![cells(["X", " ", "CH", "", "", "", ""])];
    assert_eq!(parse(&no_slot, &monday(), &mut rows), Err(ParseError::MissingSlot));
    let neither = vec![cells(["\u{a0}", "()", "CH", "", "", "", ""])];
    assert_eq!(parse(&neither, &monday(), &mut rows), Err(ParseError::MissingClass));
    assert!(rows.is_empty());
    assert_eq!(
        parse_row(&cells(["", "3.", "CH", "", "", "", ""]), &monday(), 0, None).err(),
        Some(ParseError::MissingClass)
    );
}

#[test]
fn a_row_needs_seven_columns() {
    let mut rows: Vec<Row> = Vec::new();
    let six: Vec<String> = ["X", "3.", "CH", "", "", ""].iter().map(|cell| cell.to_string()).collect();
    let eight: Vec<String> = ["X", "3.", "CH", "", "", "", "", ""].iter().map(|cell| cell.to_string()).collect();
    assert_eq!(parse(&vec![six], &monday(), &mut rows), Err(ParseError::Columns));
    assert_eq!(parse(&vec![eight], &monday(), &mut rows), Err(ParseError::Columns));
    assert_eq!(parse(&vec![Vec::new()], &monday(), &mut rows), Err(ParseError::Columns));
    assert!(rows.is_empty());
}

#[test]
fn rows_that_cannot_be_read() {
    let mut rows: Vec<Row> = Vec::new();
    let bad_slot = vec![cells(["X", "drei", "CH", "", "", "", ""])];
    assert_eq!(parse(&bad_slot, &monday(), &mut rows), Err(ParseError::Slot));
    let no_subject = vec![cells(["X", "3.", "", "CH", "", "", ""])];
    assert_eq!(parse(&no_subject, &monday(), &mut rows), Err(ParseError::Change(ChangeError::MissingSubject)));
    let no_effect = vec![cells(["X", "3.", "CH", "CH", "", "", ""])];
    assert_eq!(parse(&no_effect, &monday(), &mut rows), Err(ParseError::Change(ChangeError::NoEffect)));
    let bad_time = vec![cells(["X", "3.", "CH", "CH", "", "später", ""])];
    assert_eq!(parse(&bad_time, &monday(), &mut rows), Err(ParseError::Change(ChangeError::Time)));
    assert!(rows.is_empty());
}

#[test]
fn an_error_adds_no_row() {
    let existing = parse_row(&cells(["A", "1.", "DEU", "", "", "", ""]), &monday(), 0, None).unwrap();
    let mut rows = vec![existing.clone()];
    let table = vec![cells(["X", "3.", "CH", "", "", "", ""]), cells(["", "", "CH", "CH", "", "", ""])];
    assert_eq!(parse(&table, &monday(), &mut rows), Err(ParseError::Change(ChangeError::NoEffect)));
    assert_eq!(rows, vec![existing.clone()]);
    let good = vec![cells(["X", "3.", "CH", "", "", "", ""])];
    assert_eq!(parse(&good, &monday(), &mut rows), Ok(()));
    assert_eq!(rows.len(), 2);
    assert_eq!(rows[0], existing);
    assert_eq!(rows[1].class, vec!["X"]);
    assert_eq!(parse(&Vec::new(), &monday(), &mut rows), Ok(()));
    assert_eq!(rows.len(), 2);
}

#[test]
fn positions_beyond_255_stay_at_255() {
    let mut table = Vec::new();
    for _ in 0..300 {
        table.push(cells(["X", "3.", "CH", "", "", "", ""]));
    }
    let mut rows: Vec<Row> = Vec::new();
    assert_eq!(parse(&table, &monday(), &mut rows), Ok(()));
    assert_eq!(rows.len(), 300);
    assert_eq!(rows[0].index, 0);
    assert_eq!(rows[254].index, 254);
    assert_eq!(rows[255].index, 255);
    assert_eq!(rows[299].index, 255);
}

#[test]
fn the_room_pattern_is_applied_to_the_room_column() {
    let row = parse_row(&cells(["X", "1.", "MA", "DEU", "+A102 (B05)", "", ""]), &monday(), 0, None).unwrap();
    assert_eq!(
        row.change,
        Change::Replacement {
            lesson: 1,
            subject: Subject::MathBasic,
            replacement: Subject::GermanBasic,
            place: Some("A102".to_string()),
            notice: None,
        }
    );
    let plain = parse_row(&cells(["X", "1.", "MA", "DEU", "A102", "", ""]), &monday(), 0, None).unwrap();
    assert_eq!(
        plain.change,
        Change::Replacement {
            lesson: 1,
            subject: Subject::MathBasic,
            replacement: Subject::GermanBasic,
            place: Some("A102".to_string()),
            notice: None,
        }
    );
}

#[test]
fn the_first_heading_with_a_date_gives_the_date() {
    let headings = vec![
        "Vertretungsplan".to_string(),
        "Stand: 11.12.2022".to_string(),
        "Montag 31.02.2022".to_string(),
        "für Montag 12.12.2022, Woche 50".to_string(),
        "Dienstag 13.12.2022".to_string(),
    ];
    assert_eq!(extract_date(&headings), Some(monday()));
    assert_eq!(extract_date(&headings[..3].to_vec()), None);
    assert_eq!(extract_date(&Vec::new()), None);
    assert_eq!(extract_date(&vec!["Montag 1.12.2022".to_string()]), None);
    assert_eq!(extract_date(&vec!["Montag 12.12.22".to_string()]), None);
    assert_eq!(extract_date(&vec!["Montag  12.12.2022".to_string()]), None);
    assert_eq!(extract_date(&vec!["12.12.2022".to_string()]), None);
    assert_eq!(extract_date(&vec!["Mo. 12.12.2022".to_string()]), None);
    assert_eq!(extract_date(&vec!["Montag, 12.12.2022".to_string()]), None);
    assert_eq!(extract_date(&vec!["Žalgiris 12.12.2022".to_string()]), Some(monday()));
    assert_eq!(extract_date(&vec!["Montag 12.12.20225".to_string()]), Some(monday()));
}

#[test]
fn the_first_handler_with_a_reference_gives_the_next_page() {
    let handlers = vec![
        None,
        Some("window.print()".to_string()),
        Some("go('V_DC_009.html')".to_string()),
        Some("window.location.href='V_DC_002.html'".to_string()),
        Some("window.location.href='V_DC_003.html'".to_string()),
    ];
    assert_eq!(extract_next_page(&handlers), Some("V_DC_002.html".to_string()));
    assert_eq!(extract_next_page(&handlers[..3].to_vec()), None);
    assert_eq!(extract_next_page(&Vec::new()), None);
}
