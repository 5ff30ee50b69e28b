//! Reading a page of the plan: its date, its rows, and the reference to the
//! page that follows.

use crate::change::{Change, ChangeError, ChangeView, change_of_columns};
use crate::date::{Date, is_calendar_date};
use crate::page::{captures, captures_of};
use crate::row::{Row, RowView, clone_texts};
use crate::slot::{block_of_label, parse_slot};
use crate::text::{
    chars_of,
    clean,
    cleaned,
    decimal_of,
    is_blank,
    parse_decimal,
    split,
    split_at,
    str_eq,
    trim,
    trimmed,
};
use vstd::prelude::*;

verus! {

/// The heading of a page names its date: the name of the weekday, a word of
/// letters, then a blank, and day, month and year with full stops between
/// them.
pub const DATE_PATTERN: &'static str = "\\p{L}+ ([0-9]{2})\\.([0-9]{2})\\.([0-9]{4})";

/// A room column that moves a lesson names the new room behind a plus sign
/// and the old one in parentheses.
pub const ROOM_PATTERN: &'static str = "\\+(.*) \\((.+)\\)";

/// The number of columns of a row of the plan: classes, slot, old subject,
/// new subject, room, time and notice.
pub const COLUMNS: usize = 7;

/// Why a table of the plan cannot be read.
#[derive(Clone, Copy, Debug, PartialEq, Eq, Structural)]
pub enum ParseError {
    /// A row has more or fewer than seven columns.
    Columns,
    /// The first row of the page names no class.
    MissingClass,
    /// The first row of the page names no slot.
    MissingSlot,
    /// The slot column holds something that is no slot label.
    Slot,
    /// The columns of a row do not make a substitution.
    Change(ChangeError),
}

/// The date that the groups of [`DATE_PATTERN`] name: day, month and year,
/// if the calendar has that day.
pub open spec fn date_of_groups(groups: Option<Seq<Option<Seq<char>>>>) -> Option<Date> {
    let found = groups->0;
    if groups is Some && found.len() == 4 && found[1] is Some && found[2] is Some && found[3]
        is Some {
        match (decimal_of(found[1]->0), decimal_of(found[2]->0), decimal_of(found[3]->0)) {
            (Some(day), Some(month), Some(year)) => if is_calendar_date(
                year as int,
                month as int,
                day as int,
            ) {
                Some(Date::of(year as int, month as int, day as int))
            } else {
                None
            },
            _ => None,
        }
    } else {
        None
    }
}

/// The date of the first heading that names one.
pub open spec fn first_date(headings: Seq<Seq<char>>) -> Option<Date>
    decreases headings.len(),
{
    if headings.len() == 0 {
        None
    } else {
        match date_of_groups(captures_of(DATE_PATTERN@, headings[0])) {
            Some(date) => Some(date),
            None => first_date(headings.drop_first()),
        }
    }
}

/// The room that a room column names: the new room where the column has the
/// form of [`ROOM_PATTERN`], else the column as it is.
pub open spec fn room_of_groups(groups: Option<Seq<Option<Seq<char>>>>, text: Seq<char>) -> Seq<
    char,
> {
    let found = groups->0;
    if groups is Some && found.len() == 3 && found[1] is Some {
        found[1]->0
    } else {
        text
    }
}

/// The room that a cleaned room column names.
pub open spec fn room_of(text: Seq<char>) -> Seq<char> {
    room_of_groups(captures_of(ROOM_PATTERN@, text), text)
}

/// The classes that a cleaned class column names: its pieces between commas,
/// each cleaned.
pub open spec fn class_list(text: Seq<char>) -> Seq<Seq<char>> {
    split(text, ',').map_values(|piece: Seq<char>| cleaned(piece))
}

/// The position of a row on its page as the row keeps it: from 255 on, 255.
pub open spec fn index_of(position: int) -> u8 {
    if position < 255 {
        position as u8
    } else {
        255
    }
}

/// What a row hands on to the row below it: its classes and its block.
pub struct Carry {
    pub class: Seq<Seq<char>>,
    pub lesson: u8,
}

/// The classes of a row: those that its class column names, or those of the
/// row above where the column is blank.
pub open spec fn class_of_row(text: Seq<char>, carry: Option<Carry>) -> Result<
    Seq<Seq<char>>,
    ParseError,
> {
    if cleaned(text).len() != 0 {
        Ok(class_list(cleaned(text)))
    } else {
        match carry {
            Some(above) => Ok(above.class),
            None => Err(ParseError::MissingClass),
        }
    }
}

/// The block of a row: that which its slot column names, or that of the row
/// above where the column is blank.
pub open spec fn lesson_of_row(text: Seq<char>, carry: Option<Carry>) -> Result<u8, ParseError> {
    if cleaned(text).len() != 0 {
        match block_of_label(cleaned(text)) {
            Some(block) => Ok(block),
            None => Err(ParseError::Slot),
        }
    } else {
        match carry {
            Some(above) => Ok(above.lesson),
            None => Err(ParseError::MissingSlot),
        }
    }
}

/// The substitution that the last five columns of a row describe for the
/// given block, each column cleaned and the room read by [`room_of`].
pub open spec fn change_of_cells(lesson: u8, cells: Seq<Seq<char>>) -> Result<
    ChangeView,
    ChangeError,
> {
    change_of_columns(
        lesson,
        cleaned(cells[2]),
        cleaned(cells[3]),
        room_of(cleaned(cells[4])),
        cleaned(cells[5]),
        cleaned(cells[6]),
    )
}

/// The row that seven cells make, on a page of `date`, at the given position,
/// below a row that hands on `carry`.
pub open spec fn row_of_cells(cells: Seq<Seq<char>>, date: Date, index: u8, carry: Option<Carry>) -> Result<
    RowView,
    ParseError,
> {
    if cells.len() != COLUMNS {
        Err(ParseError::Columns)
    } else {
        match class_of_row(cells[0], carry) {
            Err(error) => Err(error),
            Ok(class) => match lesson_of_row(cells[1], carry) {
                Err(error) => Err(error),
                Ok(lesson) => match change_of_cells(lesson, cells) {
                    Err(error) => Err(ParseError::Change(error)),
                    Ok(change) => Ok(RowView { index, date, class, change, raw: cells }),
                },
            },
        }
    }
}

/// What the last of some rows hands on to the row below.
pub open spec fn carry_of(rows: Seq<RowView>) -> Option<Carry> {
    if rows.len() == 0 {
        None
    } else {
        Some(Carry { class: rows.last().class, lesson: rows.last().change.lesson() })
    }
}

/// The rows of a table, from the top; the first row that cannot be read
/// decides the error.
pub open spec fn rows_of_table(table: Seq<Seq<Seq<char>>>, date: Date) -> Result<
    Seq<RowView>,
    ParseError,
>
    decreases table.len(),
{
    if table.len() == 0 {
        Ok(Seq::empty())
    } else {
        match rows_of_table(table.drop_last(), date) {
            Err(error) => Err(error),
            Ok(rows) => match row_of_cells(
                table.last(),
                date,
                index_of(table.len() - 1),
                carry_of(rows),
            ) {
                Err(error) => Err(error),
                Ok(row) => Ok(rows.push(row)),
            },
        }
    }
}

/// The index at which `mark` first stands in `s` at or behind `from`; the
/// length of `s` where it stands nowhere there.
pub open spec fn position(s: Seq<char>, mark: char, from: int) -> int
    decreases s.len() - from,
{
    if from >= s.len() {
        s.len() as int
    } else if s[from] == mark {
        from
    } else {
        position(s, mark, from + 1)
    }
}

/// Whether a text names the place that a handler writes to in order to go
/// to another page.
pub open spec fn is_location(target: Seq<char>) -> bool {
    ||| target == "window.location.href"@
    ||| target == "window.location"@
    ||| target == "document.location.href"@
    ||| target == "document.location"@
    ||| target == "location.href"@
    ||| target == "location"@
}

/// The text that stands between quotation marks, single or double, where the
/// whole of `text` is such a quotation, with nothing behind it but blank space
/// and one semicolon at most.
pub open spec fn quoted(text: Seq<char>) -> Option<Seq<char>> {
    if text.len() == 0 || !(text[0] == '\'' || text[0] == '"') {
        None
    } else {
        let end = position(text, text[0], 1);
        if end >= text.len() {
            None
        } else {
            let rest = trimmed(text.subrange(end + 1, text.len() as int));
            if rest.len() == 0 || rest == ";"@ {
                Some(text.subrange(1, end))
            } else {
                None
            }
        }
    }
}

/// The reference that a handler holds. A handler that leads to another page
/// is one assignment: the location of the window, an equals sign, and the
/// reference between quotation marks, with blank space wherever it pleases.
pub open spec fn handler_path(handler: Seq<char>) -> Option<Seq<char>> {
    let sign = position(handler, '=', 0);
    if sign < handler.len() && is_location(trimmed(handler.subrange(0, sign))) {
        quoted(trimmed(handler.subrange(sign + 1, handler.len() as int)))
    } else {
        None
    }
}

/// The reference of the first handler that holds one.
pub open spec fn first_reference(handlers: Seq<Option<Seq<char>>>) -> Option<Seq<char>>
    decreases handlers.len(),
{
    if handlers.len() == 0 {
        None
    } else if handlers[0] is Some && handler_path(handlers[0]->0) is Some {
        handler_path(handlers[0]->0)
    } else {
        first_reference(handlers.drop_first())
    }
}

/// The text of a group, if the match has it.
fn group_text(groups: &Vec<Option<String>>, i: usize) -> (text: Option<&String>)
    requires
        i < groups.len(),
    ensures
        text.deep_view() == groups.deep_view()[i as int],
{
    match &groups[i] {
        Some(text) => Some(text),
        None => None,
    }
}

/// Reads the date that the groups of [`DATE_PATTERN`] name.
pub fn date_from_groups(groups: &Option<Vec<Option<String>>>) -> (date: Option<Date>)
    ensures
        date == date_of_groups(groups.deep_view()),
{
    let found = match groups {
        Some(found) => found,
        None => {
            return None;
        },
    };
    if found.len() != 4 {
        return None;
    }
    match (group_text(found, 1), group_text(found, 2), group_text(found, 3)) {
        (Some(day), Some(month), Some(year)) => {
            match (
                parse_decimal(day.as_str()),
                parse_decimal(month.as_str()),
                parse_decimal(year.as_str()),
            ) {
                (Some(day), Some(month), Some(year)) => {
                    if day > 255 || month > 255 || year > 9999 {
                        None
                    } else {
                        Date::new(year as i32, month as u8, day as u8)
                    }
                },
                _ => None,
            }
        },
        _ => None,
    }
}

/// Reads the room that a cleaned room column names from the groups of
/// [`ROOM_PATTERN`].
pub fn room_from_groups(groups: &Option<Vec<Option<String>>>, text: &str) -> (room: String)
    ensures
        room@ == room_of_groups(groups.deep_view(), text@),
{
    match groups {
        Some(found) => {
            if found.len() == 3 {
                match group_text(found, 1) {
                    Some(new) => {
                        return new.clone();
                    },
                    None => {},
                }
            }
        },
        None => {},
    }
    String::from_str(text)
}

/// Reads the classes of a cleaned class column.
pub fn classes(text: &str) -> (names: Vec<String>)
    ensures
        names.deep_view() == class_list(text@),
{
    let pieces = split_at(text, ',');
    let mut names: Vec<String> = Vec::new();
    let mut i: usize = 0;
    while i < pieces.len()
        invariant
            i <= pieces.len(),
            names.len() == i,
            forall|j: int| 0 <= j < i ==> names@[j]@ == cleaned(pieces@[j]@),
        decreases pieces.len() - i,
    {
        names.push(String::from_str(clean(pieces[i].as_str())));
        i += 1;
    }
    names
}

/// Finds where `mark` first stands in `v` at or behind `from`.
fn find(v: &Vec<char>, mark: char, from: usize) -> (at: usize)
    requires
        from <= v.len(),
    ensures
        at == position(v@, mark, from as int),
        from <= at <= v.len(),
{
    let mut i: usize = from;
    while i < v.len() && v[i] != mark
        invariant
            from <= i <= v.len(),
            position(v@, mark, from as int) == position(v@, mark, i as int),
        decreases v.len() - i,
    {
        i += 1;
    }
    i
}

/// Whether a text names the place that a handler writes to.
fn location(target: &str) -> (found: bool)
    ensures
        found == is_location(target@),
{
    str_eq(target, "window.location.href") || str_eq(target, "window.location") || str_eq(
        target,
        "document.location.href",
    ) || str_eq(target, "document.location") || str_eq(target, "location.href") || str_eq(
        target,
        "location",
    )
}

/// Reads the text between the quotation marks of a quotation.
fn unquote(text: &str) -> (inner: Option<String>)
    ensures
        inner.deep_view() == quoted(text@),
{
    let v = chars_of(text);
    if v.len() == 0 || !(v[0] == '\'' || v[0] == '"') {
        return None;
    }
    let end = find(&v, v[0], 1);
    if end >= v.len() {
        return None;
    }
    let rest = trim(text.substring_char(end + 1, v.len()));
    if rest.is_empty() || str_eq(rest, ";") {
        Some(String::from_str(text.substring_char(1, end)))
    } else {
        None
    }
}

/// Reads the reference that a handler holds.
pub fn reference(handler: &str) -> (path: Option<String>)
    ensures
        path.deep_view() == handler_path(handler@),
{
    let v = chars_of(handler);
    let sign = find(&v, '=', 0);
    if sign >= v.len() {
        return None;
    }
    if !location(trim(handler.substring_char(0, sign))) {
        return None;
    }
    unquote(trim(handler.substring_char(sign + 1, v.len())))
}

/// The first date of two lists of headings is that of the first list, or
/// else that of the second.
pub proof fn lemma_first_date_of_both(first: Seq<Seq<char>>, second: Seq<Seq<char>>)
    ensures
        first_date(first + second) == match first_date(first) {
            Some(date) => Some(date),
            None => first_date(second),
        },
    decreases first.len(),
{
    if first.len() == 0 {
        assert(first + second =~= second);
    } else {
        assert((first + second).drop_first() =~= first.drop_first() + second);
        lemma_first_date_of_both(first.drop_first(), second);
    }
}

/// The date of a page: that of the first of its headings that names one.
pub fn extract_date(headings: &Vec<String>) -> (date: Option<Date>)
    ensures
        date == first_date(headings.deep_view()),
{
    let ghost all = headings.deep_view();
    let mut i: usize = 0;
    assert(all.skip(0) =~= all);
    while i < headings.len()
        invariant
            i <= headings.len(),
            all == headings.deep_view(),
            first_date(all) == first_date(all.skip(i as int)),
        decreases headings.len() - i,
    {
        let groups = captures(DATE_PATTERN, headings[i].as_str());
        assert(all.skip(i as int).drop_first() =~= all.skip(i + 1));
        match date_from_groups(&groups) {
            Some(date) => {
                return Some(date);
            },
            None => {},
        }
        i += 1;
    }
    None
}

/// The reference to the next page that a page holds: that of the first of
/// its handlers that holds one.
pub fn extract_next_page(handlers: &Vec<Option<String>>) -> (next: Option<String>)
    ensures
        next.deep_view() == first_reference(handlers.deep_view()),
{
    let ghost all = handlers.deep_view();
    let mut i: usize = 0;
    assert(all.skip(0) =~= all);
    while i < handlers.len()
        invariant
            i <= handlers.len(),
            all == handlers.deep_view(),
            first_reference(all) == first_reference(all.skip(i as int)),
        decreases handlers.len() - i,
    {
        assert(all.skip(i as int).drop_first() =~= all.skip(i + 1));
        match &handlers[i] {
            Some(handler) => {
                let path = reference(handler.as_str());
                if path.is_some() {
                    return path;
                }
            },
            None => {},
        }
        i += 1;
    }
    None
}

/// Reads one row of a table. `above` is the row above it on the page.
pub fn parse_row(cells: &Vec<String>, date: &Date, index: u8, above: Option<&Row>) -> (r: Result<
    Row,
    ParseError,
>)
    ensures
        match r {
            Ok(row) => row_of_cells(
                cells.deep_view(),
                *date,
                index,
                match above {
                    Some(row) => carry_of(seq![row@]),
                    None => None,
                },
            ) == Ok::<RowView, ParseError>(row@),
            Err(error) => row_of_cells(
                cells.deep_view(),
                *date,
                index,
                match above {
                    Some(row) => carry_of(seq![row@]),
                    None => None,
                },
            ) == Err::<RowView, ParseError>(error),
        },
{
    if cells.len() != COLUMNS {
        return Err(ParseError::Columns);
    }
    let class_text = clean(cells[0].as_str());
    let class = if !class_text.is_empty() {
        classes(class_text)
    } else {
        match above {
            Some(row) => clone_texts(&row.class),
            None => {
                return Err(ParseError::MissingClass);
            },
        }
    };
    let slot_text = clean(cells[1].as_str());
    let lesson = if !slot_text.is_empty() {
        match parse_slot(slot_text) {
            Some(block) => block,
            None => {
                return Err(ParseError::Slot);
            },
        }
    } else {
        match above {
            Some(row) => row.change.lesson(),
            None => {
                return Err(ParseError::MissingSlot);
            },
        }
    };
    let room_text = clean(cells[4].as_str());
    let groups = captures(ROOM_PATTERN, room_text);
    let room = room_from_groups(&groups, room_text);
    match Change::new(
        lesson,
        clean(cells[2].as_str()),
        clean(cells[3].as_str()),
        room.as_str(),
        clean(cells[5].as_str()),
        clean(cells[6].as_str()),
    ) {
        Ok(change) => Ok(Row { index, date: *date, class, change, raw: clone_texts(cells) }),
        Err(error) => Err(ParseError::Change(error)),
    }
}

/// Reads the rows of the table of a page of `date` and adds them to `rows`.
/// A blank class or slot column takes the value of the row above it on the
/// page. Where a row cannot be read, nothing is added.
pub fn parse(table: &Vec<Vec<String>>, date: &Date, rows: &mut Vec<Row>) -> (r: Result<
    (),
    ParseError,
>)
    ensures
        match r {
            Ok(_) => {
                &&& rows_of_table(table.deep_view(), *date) matches Ok(read)
                &&& final(rows).deep_view() == old(rows).deep_view() + read
            },
            Err(error) => {
                &&& rows_of_table(table.deep_view(), *date) == Err::<Seq<RowView>, ParseError>(error)
                &&& final(rows).deep_view() == old(rows).deep_view()
            },
        },
{
    let ghost all = table.deep_view();
    let mut read: Vec<Row> = Vec::new();
    let mut i: usize = 0;
    assert(read.deep_view() =~= Seq::<RowView>::empty());
    while i < table.len()
        invariant
            i <= table.len(),
            all == table.deep_view(),
            read.len() == i,
            rows_of_table(all.take(i as int), *date) == Ok::<Seq<RowView>, ParseError>(
                read.deep_view(),
            ),
        decreases table.len() - i,
    {
        let ghost before = read.deep_view();
        let index: u8 = if i < 255 {
            i as u8
        } else {
            255
        };
        let above = if i == 0 {
            None
        } else {
            Some(&read[i - 1])
        };
        assert(all.take(i + 1).drop_last() =~= all.take(i as int));
        match parse_row(&table[i], date, index, above) {
            Ok(row) => {
                read.push(row);
                assert(read.deep_view() =~= before.push(row@));
            },
            Err(error) => {
                proof {
                    lemma_rows_error(all, *date, i + 1);
                }
                return Err(error);
            },
        }
        i += 1;
    }
    assert(all.take(table.len() as int) =~= all);
    rows.append(&mut read);
    Ok(())
}

/// A table whose upper part cannot be read cannot be read, for the same
/// reason.
pub proof fn lemma_rows_error(table: Seq<Seq<Seq<char>>>, date: Date, upper: int)
    requires
        0 <= upper <= table.len(),
        rows_of_table(table.take(upper), date) is Err,
    ensures
        rows_of_table(table, date) == rows_of_table(table.take(upper), date),
    decreases table.len() - upper,
{
    if upper == table.len() {
        assert(table.take(upper) =~= table);
    } else {
        assert(table.drop_last().take(upper) =~= table.take(upper));
        lemma_rows_error(table.drop_last(), date, upper);
    }
}

/// A table that can be read gives one row for each of its rows.
pub proof fn lemma_rows_len(table: Seq<Seq<Seq<char>>>, date: Date)
    requires
        rows_of_table(table, date) is Ok,
    ensures
        rows_of_table(table, date)->Ok_0.len() == table.len(),
    decreases table.len(),
{
    if table.len() > 0 {
        lemma_rows_len(table.drop_last(), date);
    }
}

/// A page whose first row leaves the class column or the slot column blank
/// cannot be read: there is no row above to take the value from.
pub proof fn lemma_first_row_is_complete(table: Seq<Seq<Seq<char>>>, date: Date)
    requires
        table.len() > 0,
        table[0].len() == COLUMNS,
        is_blank(table[0][0]) || is_blank(table[0][1]),
    ensures
        rows_of_table(table, date) == Err::<Seq<RowView>, ParseError>(
            if is_blank(table[0][0]) {
                ParseError::MissingClass
            } else {
                ParseError::MissingSlot
            },
        ),
{
    assert(rows_of_table(table.take(1).drop_last(), date) == Ok::<Seq<RowView>, ParseError>(
        Seq::empty(),
    ));
    lemma_rows_error(table, date, 1);
}

/// A row below the first whose class column is blank has the classes of the
/// row above it, and one whose slot column is blank is about the block of the
/// row above it.
pub proof fn lemma_blank_columns_inherit(table: Seq<Seq<Seq<char>>>, date: Date, at: int)
    requires
        rows_of_table(table, date) is Ok,
        0 < at < table.len(),
    ensures
        ({
            let rows = rows_of_table(table, date)->Ok_0;
            &&& rows.len() == table.len()
            &&& is_blank(table[at][0]) ==> rows[at].class == rows[at - 1].class
            &&& is_blank(table[at][1]) ==> rows[at].change.lesson() == rows[at - 1].change.lesson()
        }),
    decreases table.len(),
{
    lemma_rows_len(table, date);
    lemma_rows_len(table.drop_last(), date);
    if at < table.len() - 1 {
        lemma_blank_columns_inherit(table.drop_last(), date, at);
    }
}

} // verus!
