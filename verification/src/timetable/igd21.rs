//! The weekly timetable of the class IGD 21.

use crate::date::Weekday;
use crate::timetable::{Day, Lesson, LessonView, Subject, SubjectView};
use vstd::prelude::*;

verus! {

/// A lesson of the base timetable as a mathematical value.
pub open spec fn slot(
    lesson: u8,
    iteration: Option<u8>,
    subject: SubjectView,
    place: Seq<char>,
) -> LessonView {
    LessonView { lesson, subject, iteration, place: Some(place), notice: None }
}

/// The lessons of a weekday, for every week of the rotation together.
pub open spec fn igd21_day(weekday: Weekday) -> Seq<LessonView> {
    match weekday {
        Weekday::Monday => seq![
            slot(1, None, SubjectView::GermanBasic, "B6"@),
            slot(2, None, SubjectView::Chemistry, "B9"@),
            slot(3, Some(1), SubjectView::EnglishAdvanced, "A102"@),
            slot(3, Some(1), SubjectView::MathAdvanced, "B11"@),
            slot(3, Some(2), SubjectView::Lf11, "B5"@),
            slot(4, Some(1), SubjectView::History, "B4"@),
            slot(4, Some(2), SubjectView::Art, "A06"@),
            slot(4, Some(2), SubjectView::Literature, "B4"@),
        ],
        Weekday::Tuesday => seq![
            slot(1, None, SubjectView::MathBasic, "B05"@),
            slot(1, None, SubjectView::EnglishBasic, "B104"@),
            slot(2, None, SubjectView::GermanBasic, "B6"@),
            slot(3, None, SubjectView::Lf13__1, "A103"@),
            slot(3, None, SubjectView::Lf11__2, "B3"@),
            slot(4, None, SubjectView::EnglishAdvanced, "A102"@),
            slot(4, None, SubjectView::MathAdvanced, "B11"@),
        ],
        Weekday::Wednesday => seq![
            slot(1, None, SubjectView::EnglishAdvanced, "B6"@),
            slot(1, None, SubjectView::MathAdvanced, "B11"@),
            slot(2, None, SubjectView::EnglishBasic, "B105"@),
            slot(2, None, SubjectView::MathBasic, "B106"@),
            slot(3, None, SubjectView::Ethics, "B4"@),
            slot(4, None, SubjectView::French, "B111"@),
            slot(4, None, SubjectView::Russian, "B4"@),
        ],
        Weekday::Thursday => seq![
            slot(1, None, SubjectView::History, "B4"@),
            slot(2, None, SubjectView::Lf9_12, "B8"@),
            slot(3, None, SubjectView::PhysicalEducation, "117.GS Neu"@),
            slot(4, None, SubjectView::Lf10__1, "B405"@),
            slot(4, None, SubjectView::Lf13__2, "A103"@),
        ],
        Weekday::Friday => seq![
            slot(1, None, SubjectView::Physics, "B112"@),
            slot(2, None, SubjectView::French, "A102"@),
            slot(2, None, SubjectView::Russian, "B4"@),
            slot(3, None, SubjectView::Lf13__1, "A103"@),
            slot(3, None, SubjectView::Lf10__2, "B405"@),
            slot(4, None, SubjectView::Lf11__1, "B5"@),
            slot(4, None, SubjectView::Lf13__2, "A103"@),
        ],
        Weekday::Saturday => Seq::empty(),
        Weekday::Sunday => Seq::empty(),
    }
}

/// The lessons of a weekday in the base timetable; none at the weekend.
pub fn igd21(weekday: Weekday) -> (day: Day)
    ensures
        day.deep_view() == igd21_day(weekday),
{
    match weekday {
        Weekday::Monday => vec![
            Lesson::new(1, None, Subject::GermanBasic, "B6"),
            Lesson::new(2, None, Subject::Chemistry, "B9"),
            Lesson::new(3, Some(1), Subject::EnglishAdvanced, "A102"),
            Lesson::new(3, Some(1), Subject::MathAdvanced, "B11"),
            Lesson::new(3, Some(2), Subject::Lf11, "B5"),
            Lesson::new(4, Some(1), Subject::History, "B4"),
            Lesson::new(4, Some(2), Subject::Art, "A06"),
            Lesson::new(4, Some(2), Subject::Literature, "B4"),
        ],
        Weekday::Tuesday => vec![
            Lesson::new(1, None, Subject::MathBasic, "B05"),
            Lesson::new(1, None, Subject::EnglishBasic, "B104"),
            Lesson::new(2, None, Subject::GermanBasic, "B6"),
            Lesson::new(3, None, Subject::Lf13__1, "A103"),
            Lesson::new(3, None, Subject::Lf11__2, "B3"),
            Lesson::new(4, None, Subject::EnglishAdvanced, "A102"),
            Lesson::new(4, None, Subject::MathAdvanced, "B11"),
        ],
        Weekday::Wednesday => vec![
            Lesson::new(1, None, Subject::EnglishAdvanced, "B6"),
            Lesson::new(1, None, Subject::MathAdvanced, "B11"),
            Lesson::new(2, None, Subject::EnglishBasic, "B105"),
            Lesson::new(2, None, Subject::MathBasic, "B106"),
            Lesson::new(3, None, Subject::Ethics, "B4"),
            Lesson::new(4, None, Subject::French, "B111"),
            Lesson::new(4, None, Subject::Russian, "B4"),
        ],
        Weekday::Thursday => vec![
            Lesson::new(1, None, Subject::History, "B4"),
            Lesson::new(2, None, Subject::Lf9_12, "B8"),
            Lesson::new(3, None, Subject::PhysicalEducation, "117.GS Neu"),
            Lesson::new(4, None, Subject::Lf10__1, "B405"),
            Lesson::new(4, None, Subject::Lf13__2, "A103"),
        ],
        Weekday::Friday => vec![
            Lesson::new(1, None, Subject::Physics, "B112"),
            Lesson::new(2, None, Subject::French, "A102"),
            Lesson::new(2, None, Subject::Russian, "B4"),
            Lesson::new(3, None, Subject::Lf13__1, "A103"),
            Lesson::new(3, None, Subject::Lf10__2, "B405"),
            Lesson::new(4, None, Subject::Lf11__1, "B5"),
            Lesson::new(4, None, Subject::Lf13__2, "A103"),
        ],
        Weekday::Saturday => Vec::new(),
        Weekday::Sunday => Vec::new(),
    }
}

} // verus!
