//! Applying the rows of the plan to a day of the base timetable.

use crate::date::{Date, Weekday};
use crate::row::{Row, RowView};
use crate::timetable::igd21::{igd21, igd21_day};
use crate::timetable::{Lesson, LessonView, SubjectView};
use vstd::prelude::*;

verus! {

/// Whether a row is for the class whose timetable this is. The plan writes the
/// name of the class with and without a blank.
pub open spec fn is_for_class(row: RowView) -> bool {
    row.has_class("IGD21"@) || row.has_class("IGD 21"@)
}

/// Whether a row says something about the timetable of the class on `date`.
pub open spec fn is_relevant(row: RowView, date: Date) -> bool {
    row.date == date && is_for_class(row)
}

/// Whether a lesson takes place in the given week of the rotation.
pub open spec fn in_iteration(lesson: LessonView, iteration: u8) -> bool {
    lesson.iteration is None || lesson.iteration == Some(iteration)
}

/// The lessons of `day` that take place in the given week of the rotation, in
/// their order.
pub open spec fn of_iteration(day: Seq<LessonView>, iteration: u8) -> Seq<LessonView>
    decreases day.len(),
{
    if day.len() == 0 {
        Seq::empty()
    } else if in_iteration(day.last(), iteration) {
        of_iteration(day.drop_last(), iteration).push(day.last())
    } else {
        of_iteration(day.drop_last(), iteration)
    }
}

/// The lessons that the base timetable has on a weekday in the given week of
/// the rotation.
pub open spec fn base_day(weekday: Weekday, iteration: u8) -> Seq<LessonView> {
    of_iteration(igd21_day(weekday), iteration)
}

/// A day while rows are applied to it: its lessons, and the rows for it that
/// could not be applied.
pub struct DayState {
    pub day: Seq<LessonView>,
    pub unknown: Seq<RowView>,
}

/// What one row does. A row for another date or class does nothing. A row for
/// this day is applied to the lessons it is about; where there is none, or the
/// substitution of the row cannot be applied to any day, it joins the unknown
/// rows.
pub open spec fn apply_row(date: Date, state: DayState, row: RowView) -> DayState {
    if !is_relevant(row, date) {
        state
    } else if !row.change.applicable() || !row.change.applies(state.day) {
        DayState { day: state.day, unknown: state.unknown.push(row) }
    } else {
        DayState { day: row.change.applied_to(state.day), unknown: state.unknown }
    }
}

/// One pass over the rows, in their order: with `cancels` the rows that
/// cancel a lesson are applied and the others passed over, without it the
/// other way round.
pub open spec fn apply_pass(date: Date, state: DayState, rows: Seq<RowView>, cancels: bool) -> DayState
    decreases rows.len(),
{
    if rows.len() == 0 {
        state
    } else if rows.last().change.is_cancel() == cancels {
        apply_row(date, apply_pass(date, state, rows.drop_last(), cancels), rows.last())
    } else {
        apply_pass(date, state, rows.drop_last(), cancels)
    }
}

/// The day after all rows: first every cancellation is applied, then every
/// other row.
pub open spec fn apply_rows(date: Date, day: Seq<LessonView>, rows: Seq<RowView>) -> DayState {
    apply_pass(
        date,
        apply_pass(date, DayState { day, unknown: Seq::empty() }, rows, true),
        rows,
        false,
    )
}

/// The base timetable of a weekday in the given week of the rotation.
pub fn day_of(weekday: Weekday, iteration: u8) -> (day: Vec<Lesson>)
    ensures
        day.deep_view() == base_day(weekday, iteration),
{
    let all = igd21(weekday);
    let mut day: Vec<Lesson> = Vec::new();
    let mut i: usize = 0;
    while i < all.len()
        invariant
            i <= all.len(),
            day.deep_view() == of_iteration(all.deep_view().take(i as int), iteration),
        decreases all.len() - i,
    {
        let lesson = &all[i];
        let keep = match lesson.iteration {
            Some(only) => only == iteration,
            None => true,
        };
        assert(all.deep_view().take(i + 1).drop_last() =~= all.deep_view().take(i as int));
        if keep {
            day.push(lesson.clone());
        }
        i += 1;
    }
    assert(all.deep_view().take(all.len() as int) =~= all.deep_view());
    day
}

/// Whether a row is for the class whose timetable this is.
pub fn for_class(row: &Row) -> (ours: bool)
    ensures
        ours == is_for_class(row@),
{
    row.has_class("IGD21") || row.has_class("IGD 21")
}

/// Applies one row to a day. A row for this date and class that cannot be
/// applied is added to `relevant_rows`, and the result is `false`; in every
/// other case the result is `true`.
pub fn apply_change(
    date: &Date,
    day: &mut Vec<Lesson>,
    relevant_rows: &mut Vec<Row>,
    row: &Row,
) -> (done: bool)
    ensures
        (DayState { day: final(day).deep_view(), unknown: final(relevant_rows).deep_view() })
            == apply_row(
            *date,
            DayState { day: old(day).deep_view(), unknown: old(relevant_rows).deep_view() },
            row@,
        ),
        done == (final(relevant_rows).len() == old(relevant_rows).len()),
{
    if row.date != *date || !for_class(row) {
        return true;
    }
    let ghost lessons = day.deep_view();
    let ghost unknown = relevant_rows.deep_view();
    match row.change.apply(day) {
        Ok(applied) => {
            if applied {
                return true;
            }
            assert(day.deep_view() =~= lessons);
        },
        Err(_) => {},
    }
    relevant_rows.push(row.clone());
    assert(relevant_rows.deep_view() =~= unknown.push(row@));
    false
}

/// One pass over the rows: see [`apply_pass`].
fn pass(
    date: &Date,
    day: &mut Vec<Lesson>,
    relevant_rows: &mut Vec<Row>,
    rows: &Vec<Row>,
    cancels: bool,
)
    ensures
        (DayState { day: final(day).deep_view(), unknown: final(relevant_rows).deep_view() })
            == apply_pass(
            *date,
            DayState { day: old(day).deep_view(), unknown: old(relevant_rows).deep_view() },
            rows.deep_view(),
            cancels,
        ),
{
    let ghost start = DayState { day: day.deep_view(), unknown: relevant_rows.deep_view() };
    let mut i: usize = 0;
    while i < rows.len()
        invariant
            i <= rows.len(),
            (DayState { day: day.deep_view(), unknown: relevant_rows.deep_view() }) == apply_pass(
                *date,
                start,
                rows.deep_view().take(i as int),
                cancels,
            ),
        decreases rows.len() - i,
    {
        let row = &rows[i];
        assert(rows.deep_view().take(i + 1).drop_last() =~= rows.deep_view().take(i as int));
        if row.change.is_cancel() == cancels {
            apply_change(date, day, relevant_rows, row);
        }
        i += 1;
    }
    assert(rows.deep_view().take(rows.len() as int) =~= rows.deep_view());
}

/// Applies the rows of the plan to a day: first every row that cancels a
/// lesson, then every other row, each pass in the order of the rows. Gives the
/// rows for this date and class that could not be applied.
///
/// The order matters where the plan cancels a lesson and also says something
/// else about it: the second row is then held against the cancelled lesson.
pub fn apply_all(date: &Date, day: &mut Vec<Lesson>, rows: &Vec<Row>) -> (unknown: Vec<Row>)
    ensures
        (DayState { day: final(day).deep_view(), unknown: unknown.deep_view() }) == apply_rows(
            *date,
            old(day).deep_view(),
            rows.deep_view(),
        ),
{
    let mut unknown: Vec<Row> = Vec::new();
    assert(unknown.deep_view() =~= Seq::<RowView>::empty());
    pass(date, day, &mut unknown, rows, true);
    pass(date, day, &mut unknown, rows, false);
    unknown
}

/// One pass over the rows keeps the number of lessons, keeps the rows that
/// were handed back before, and hands back none but rows of the plan that are
/// for this date and class.
pub proof fn lemma_pass_hands_back_rows_of_the_day(
    date: Date,
    state: DayState,
    rows: Seq<RowView>,
    cancels: bool,
)
    ensures
        ({
            let after = apply_pass(date, state, rows, cancels);
            &&& after.day.len() == state.day.len()
            &&& state.unknown.len() <= after.unknown.len()
            &&& after.unknown.take(state.unknown.len() as int) == state.unknown
            &&& forall|i: int|
                state.unknown.len() <= i < after.unknown.len() ==> {
                    &&& is_relevant(#[trigger] after.unknown[i], date)
                    &&& after.unknown[i].change.is_cancel() == cancels
                    &&& rows.contains(after.unknown[i])
                }
        }),
    decreases rows.len(),
{
    let after = apply_pass(date, state, rows, cancels);
    if rows.len() > 0 {
        let before = apply_pass(date, state, rows.drop_last(), cancels);
        lemma_pass_hands_back_rows_of_the_day(date, state, rows.drop_last(), cancels);
        assert(after.unknown.take(state.unknown.len() as int) =~= state.unknown);
        assert forall|i: int| state.unknown.len() <= i < after.unknown.len() implies rows.contains(
            #[trigger] after.unknown[i],
        ) by {
            if i < before.unknown.len() {
                let k = choose|k: int|
                    0 <= k < rows.drop_last().len() && rows.drop_last()[k] == before.unknown[i];
                assert(rows[k] == after.unknown[i]);
            } else {
                assert(rows[rows.len() - 1] == after.unknown[i]);
            }
        }
    } else {
        assert(after.unknown.take(state.unknown.len() as int) =~= state.unknown);
    }
}

/// The plan leaves a day with as many lessons as it had, and hands back none
/// but its own rows for this date and class: first those that cancel a
/// lesson, then the others.
pub proof fn lemma_apply_rows_hands_back_rows_of_the_day(
    date: Date,
    day: Seq<LessonView>,
    rows: Seq<RowView>,
)
    ensures
        apply_rows(date, day, rows).day.len() == day.len(),
        forall|i: int|
            0 <= i < apply_rows(date, day, rows).unknown.len() ==> {
                &&& is_relevant(#[trigger] apply_rows(date, day, rows).unknown[i], date)
                &&& rows.contains(apply_rows(date, day, rows).unknown[i])
            },
{
    let start = DayState { day, unknown: Seq::empty() };
    let cancelled = apply_pass(date, start, rows, true);
    lemma_pass_hands_back_rows_of_the_day(date, start, rows, true);
    lemma_pass_hands_back_rows_of_the_day(date, cancelled, rows, false);
    let after = apply_pass(date, cancelled, rows, false);
    assert forall|i: int| 0 <= i < after.unknown.len() implies is_relevant(
        #[trigger] after.unknown[i],
        date,
    ) && rows.contains(after.unknown[i]) by {
        if i < cancelled.unknown.len() {
            assert(after.unknown[i] == after.unknown.take(cancelled.unknown.len() as int)[i]);
        }
    }
}

/// A lesson is cancelled, and the plan also moves it to another room. With
/// the room first and the cancellation second, as rows in their order would
/// be applied, both take effect. In two passes the cancellation comes first,
/// the room then finds no lesson with its subject and is handed back: the day
/// is the cancelled day, and the two ways end in different states.
pub proof fn lemma_cancel_before_other(date: Date, day: Seq<LessonView>, room: RowView, cancel: RowView)
    requires
        is_relevant(room, date),
        is_relevant(cancel, date),
        cancel.change is Cancel,
        cancel.change.well_formed(),
        room.change is RoomChange,
        room.change.well_formed(),
        room.change.lesson() == cancel.change.lesson(),
        room.change.subject() == cancel.change.subject(),
        cancel.change.applies(day),
    ensures
        ({
            let start = DayState { day, unknown: Seq::empty() };
            let in_order = apply_row(date, apply_row(date, start, room), cancel);
            let in_passes = apply_rows(date, day, seq![room, cancel]);
            &&& in_order.unknown == Seq::<RowView>::empty()
            &&& in_order.day == cancel.change.applied_to(room.change.applied_to(day))
            &&& in_passes.unknown == seq![room]
            &&& in_passes.day == cancel.change.applied_to(day)
            &&& in_passes != in_order
        }),
{
    let start = DayState { day, unknown: Seq::empty() };
    let first = seq![room, cancel].drop_last();
    assert(first.drop_last() =~= Seq::<RowView>::empty());
    let at = choose|i: int| 0 <= i < day.len() && cancel.change.concerns(#[trigger] day[i]);

    // In the order of the rows the room finds its lesson, and the
    // cancellation finds it in the other room.
    assert(cancel.change.concerns(room.change.applied_to(day)[at]));

    // The first pass takes the cancellation alone.
    assert(apply_pass(date, start, Seq::<RowView>::empty(), true) == start);
    assert(apply_pass(date, start, first, true) == start);
    let cancelled = DayState { day: cancel.change.applied_to(day), unknown: Seq::empty() };

    // The second pass finds no lesson for the room.
    assert forall|i: int| 0 <= i < cancelled.day.len() implies !room.change.concerns(
        #[trigger] cancelled.day[i],
    ) by {
        if cancel.change.concerns(day[i]) {
            lemma_cancelled_is_another(day[i].subject);
        }
    }
    assert(apply_pass(date, cancelled, Seq::<RowView>::empty(), false) == cancelled);
    assert(apply_pass(date, cancelled, first, false) == DayState {
        day: cancelled.day,
        unknown: seq![room],
    });
}

/// A cancelled subject is another subject than the one that is cancelled.
pub proof fn lemma_cancelled_is_another(subject: SubjectView)
    ensures
        SubjectView::Cancel(Box::new(subject)) != subject,
    decreases subject,
{
    if let SubjectView::Cancel(inner) = subject {
        lemma_cancelled_is_another(*inner);
    }
}

} // verus!
