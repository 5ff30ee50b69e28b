//! The kinds of substitution and what each does to a day of lessons.

use crate::slot::{block_of_label, parse_slot};
use crate::text::{same_text, str_eq};
use crate::timetable::{
    Lesson,
    LessonView,
    Subject,
    SubjectView,
    lemma_codes_name_subjects,
    subject_of_code,
};
use vstd::prelude::*;
use vstd::std_specs::cmp::PartialEqSpecImpl;

verus! {

/// One substitution. Every kind names the lesson it is about by its block and
/// by the subject that the timetable has there.
#[derive(Debug)]
pub enum Change {
    /// The lesson does not take place.
    Cancel { lesson: u8, subject: Subject, notice: Option<String> },
    /// The lesson moves to the block `to`.
    Shift { lesson: u8, subject: Subject, to: u8, place: Option<String>, notice: Option<String> },
    /// The lesson takes place in another room.
    RoomChange { lesson: u8, subject: Subject, room: String, notice: Option<String> },
    /// Another subject is taught in place of the lesson.
    Replacement {
        lesson: u8,
        subject: Subject,
        replacement: Subject,
        place: Option<String>,
        notice: Option<String>,
    },
    /// The lesson takes place as planned; there is something to say about it.
    Notice { lesson: u8, subject: Subject, text: String },
}

/// The mathematical value of a [`Change`].
pub enum ChangeView {
    Cancel { lesson: u8, subject: SubjectView, notice: Option<Seq<char>> },
    Shift {
        lesson: u8,
        subject: SubjectView,
        to: u8,
        place: Option<Seq<char>>,
        notice: Option<Seq<char>>,
    },
    RoomChange { lesson: u8, subject: SubjectView, room: Seq<char>, notice: Option<Seq<char>> },
    Replacement {
        lesson: u8,
        subject: SubjectView,
        replacement: SubjectView,
        place: Option<Seq<char>>,
        notice: Option<Seq<char>>,
    },
    Notice { lesson: u8, subject: SubjectView, text: Seq<char> },
}

impl View for Change {
    type V = ChangeView;

    open spec fn view(&self) -> ChangeView {
        match self {
            Change::Cancel { lesson, subject, notice } => ChangeView::Cancel {
                lesson: *lesson,
                subject: subject@,
                notice: notice.deep_view(),
            },
            Change::Shift { lesson, subject, to, place, notice } => ChangeView::Shift {
                lesson: *lesson,
                subject: subject@,
                to: *to,
                place: place.deep_view(),
                notice: notice.deep_view(),
            },
            Change::RoomChange { lesson, subject, room, notice } => ChangeView::RoomChange {
                lesson: *lesson,
                subject: subject@,
                room: room@,
                notice: notice.deep_view(),
            },
            Change::Replacement {
                lesson,
                subject,
                replacement,
                place,
                notice,
            } => ChangeView::Replacement {
                lesson: *lesson,
                subject: subject@,
                replacement: replacement@,
                place: place.deep_view(),
                notice: notice.deep_view(),
            },
            Change::Notice { lesson, subject, text } => ChangeView::Notice {
                lesson: *lesson,
                subject: subject@,
                text: text@,
            },
        }
    }
}

impl DeepView for Change {
    type V = ChangeView;

    open spec fn deep_view(&self) -> ChangeView {
        self@
    }
}

/// Why a set of columns does not make a substitution.
#[derive(Clone, Copy, Debug, PartialEq, Eq, Structural)]
pub enum ChangeError {
    /// Blocks are counted from 1.
    Slot,
    /// The column of the old subject is empty: no lesson is named.
    MissingSubject,
    /// The time column holds something that is no slot label.
    Time,
    /// Subject, room and time stay as they are and there is no notice.
    NoEffect,
}

/// Why a substitution cannot be applied to any day.
#[derive(Debug)]
pub enum ApplyError {
    /// The substitution is none that the columns of a row can make.
    Malformed,
    /// The subject to teach instead has a code that is not known.
    UnknownSubject(String),
}

/// A text, unless it is empty.
pub open spec fn filled(text: Seq<char>) -> Option<Seq<char>> {
    if text.len() == 0 {
        None
    } else {
        Some(text)
    }
}

/// The second value where there is one, else the first.
pub open spec fn replaced<T>(old: Option<T>, new: Option<T>) -> Option<T> {
    match new {
        Some(_) => new,
        None => old,
    }
}

/// The substitution that six cleaned columns describe: the block, the old and
/// the new subject code, the room, the time and the notice.
///
/// An empty new subject cancels the lesson. A new subject other than the old
/// one replaces it. With the subject unchanged, a time moves the lesson, else a
/// room moves it to that room, else a notice is attached to it.
pub open spec fn change_of_columns(
    lesson: u8,
    old: Seq<char>,
    new: Seq<char>,
    room: Seq<char>,
    time: Seq<char>,
    notice: Seq<char>,
) -> Result<ChangeView, ChangeError> {
    let subject = subject_of_code(old);
    if lesson == 0 {
        Err(ChangeError::Slot)
    } else if old.len() == 0 {
        Err(ChangeError::MissingSubject)
    } else if new.len() == 0 {
        Ok(ChangeView::Cancel { lesson, subject, notice: filled(notice) })
    } else if new != old {
        Ok(
            ChangeView::Replacement {
                lesson,
                subject,
                replacement: subject_of_code(new),
                place: filled(room),
                notice: filled(notice),
            },
        )
    } else if time.len() != 0 {
        match block_of_label(time) {
            Some(to) => Ok(
                ChangeView::Shift { lesson, subject, to, place: filled(room), notice: filled(notice) },
            ),
            None => Err(ChangeError::Time),
        }
    } else if room.len() != 0 {
        Ok(ChangeView::RoomChange { lesson, subject, room, notice: filled(notice) })
    } else if notice.len() != 0 {
        Ok(ChangeView::Notice { lesson, subject, text: notice })
    } else {
        Err(ChangeError::NoEffect)
    }
}

impl ChangeView {
    /// The block of the lesson that the substitution is about.
    pub open spec fn lesson(self) -> u8 {
        match self {
            ChangeView::Cancel { lesson, .. } => lesson,
            ChangeView::Shift { lesson, .. } => lesson,
            ChangeView::RoomChange { lesson, .. } => lesson,
            ChangeView::Replacement { lesson, .. } => lesson,
            ChangeView::Notice { lesson, .. } => lesson,
        }
    }

    /// The subject that the timetable has in that block.
    pub open spec fn subject(self) -> SubjectView {
        match self {
            ChangeView::Cancel { subject, .. } => subject,
            ChangeView::Shift { subject, .. } => subject,
            ChangeView::RoomChange { subject, .. } => subject,
            ChangeView::Replacement { subject, .. } => subject,
            ChangeView::Notice { subject, .. } => subject,
        }
    }

    /// The free text that comes with the substitution.
    pub open spec fn notice(self) -> Option<Seq<char>> {
        match self {
            ChangeView::Cancel { notice, .. } => notice,
            ChangeView::Shift { notice, .. } => notice,
            ChangeView::RoomChange { notice, .. } => notice,
            ChangeView::Replacement { notice, .. } => notice,
            ChangeView::Notice { text, .. } => Some(text),
        }
    }

    /// What holds of every substitution that is made from the columns of a
    /// row: blocks are counted from 1, the lesson is named by a subject that
    /// is there, a new room has a name and a notice has a text.
    pub open spec fn well_formed(self) -> bool {
        &&& self.lesson() >= 1
        &&& !(self.subject() is Blank)
        &&& !(self.subject() is Cancel)
        &&& match self {
            ChangeView::Cancel { notice, .. } => notice != Some(Seq::<char>::empty()),
            ChangeView::Shift { to, place, notice, .. } => {
                &&& to >= 1
                &&& place != Some(Seq::<char>::empty())
                &&& notice != Some(Seq::<char>::empty())
            },
            ChangeView::RoomChange { room, notice, .. } => {
                &&& room.len() > 0
                &&& notice != Some(Seq::<char>::empty())
            },
            ChangeView::Replacement { replacement, place, notice, .. } => {
                &&& !(replacement is Blank)
                &&& !(replacement is Cancel)
                &&& place != Some(Seq::<char>::empty())
                &&& notice != Some(Seq::<char>::empty())
            },
            ChangeView::Notice { text, .. } => text.len() > 0,
        }
    }

    /// Whether the substitution cancels a lesson.
    pub open spec fn is_cancel(self) -> bool {
        self is Cancel
    }

    /// Whether the substitution asks for a subject whose code is not known,
    /// so that it cannot be applied.
    pub open spec fn unresolved(self) -> bool {
        self matches ChangeView::Replacement { replacement, .. } && replacement is Other
    }

    /// Whether the substitution can be applied to a day: it is well formed
    /// and asks for no subject that is not known.
    pub open spec fn applicable(self) -> bool {
        self.well_formed() && !self.unresolved()
    }

    /// Whether `lesson` is a lesson that the substitution is about: it lies
    /// in the block and has the subject that the substitution names.
    pub open spec fn concerns(self, lesson: LessonView) -> bool {
        lesson.lesson == self.lesson() && lesson.subject == self.subject()
    }

    /// The lesson after the substitution, for a lesson that it is about.
    pub open spec fn changed(self, lesson: LessonView) -> LessonView {
        let notice = replaced(lesson.notice, self.notice());
        match self {
            ChangeView::Cancel { .. } => LessonView {
                subject: SubjectView::Cancel(Box::new(lesson.subject)),
                notice,
                ..lesson
            },
            ChangeView::Shift { to, place, .. } => LessonView {
                lesson: to,
                place: replaced(lesson.place, place),
                notice,
                ..lesson
            },
            ChangeView::RoomChange { room, .. } => LessonView {
                place: Some(room),
                notice,
                ..lesson
            },
            ChangeView::Replacement { replacement, place, .. } => LessonView {
                subject: replacement,
                place: replaced(lesson.place, place),
                notice,
                ..lesson
            },
            ChangeView::Notice { .. } => LessonView { notice, ..lesson },
        }
    }

    /// Whether the day has a lesson that the substitution is about.
    pub open spec fn applies(self, day: Seq<LessonView>) -> bool {
        exists|i: int| 0 <= i < day.len() && self.concerns(#[trigger] day[i])
    }

    /// The day after the substitution: every lesson that it is about is
    /// changed, the others stay.
    pub open spec fn applied_to(self, day: Seq<LessonView>) -> Seq<LessonView> {
        Seq::new(
            day.len(),
            |i: int|
                if self.concerns(day[i]) {
                    self.changed(day[i])
                } else {
                    day[i]
                },
        )
    }
}

/// The columns of a row make no substitution but a well-formed one.
pub proof fn lemma_columns_make_well_formed_changes(
    lesson: u8,
    old: Seq<char>,
    new: Seq<char>,
    room: Seq<char>,
    time: Seq<char>,
    notice: Seq<char>,
)
    ensures
        change_of_columns(lesson, old, new, room, time, notice) matches Ok(change)
            ==> change.well_formed(),
{
    lemma_codes_name_subjects(old);
    lemma_codes_name_subjects(new);
}

/// Whether a subject is one that a code can name: a subject that is there
/// and is not cancelled.
fn named_subject(subject: &Subject) -> (named: bool)
    ensures
        named == (!(subject@ is Blank) && !(subject@ is Cancel)),
{
    match subject {
        Subject::Blank => false,
        Subject::Cancel(_) => false,
        _ => true,
    }
}

/// Whether a text that may be missing is not there empty.
fn has_text(text: &Option<String>) -> (filled: bool)
    ensures
        filled == (text.deep_view() != Some(Seq::<char>::empty())),
{
    match text {
        Some(text) => {
            assert(text@.len() == 0 ==> text@ =~= Seq::<char>::empty());
            !text.as_str().is_empty()
        },
        None => true,
    }
}

/// A copy of the text, unless it is empty.
fn filled_text(text: &str) -> (r: Option<String>)
    ensures
        r.deep_view() == filled(text@),
{
    if text.is_empty() {
        None
    } else {
        Some(String::from_str(text))
    }
}

/// A copy of the second value where there is one, else of the first.
fn replaced_text(old: &Option<String>, new: &Option<String>) -> (r: Option<String>)
    ensures
        r.deep_view() == replaced(old.deep_view(), new.deep_view()),
{
    match new {
        Some(text) => Some(text.clone()),
        None => old.clone(),
    }
}

impl Change {
    /// Makes a substitution from the columns of a row of the plan, each of
    /// them cleaned, and the slot label already read as a block.
    pub fn new(lesson: u8, old: &str, new: &str, room: &str, time: &str, notice: &str) -> (r:
        Result<Change, ChangeError>)
        ensures
            r matches Ok(change) ==> change@.well_formed(),
            match r {
                Ok(change) => change_of_columns(lesson, old@, new@, room@, time@, notice@) == Ok::<
                    ChangeView,
                    ChangeError,
                >(change@),
                Err(error) => change_of_columns(lesson, old@, new@, room@, time@, notice@) == Err::<
                    ChangeView,
                    ChangeError,
                >(error),
            },
    {
        proof {
            lemma_columns_make_well_formed_changes(lesson, old@, new@, room@, time@, notice@);
        }
        if lesson == 0 {
            Err(ChangeError::Slot)
        } else if old.is_empty() {
            Err(ChangeError::MissingSubject)
        } else if new.is_empty() {
            Ok(Change::Cancel { lesson, subject: Subject::from(old), notice: filled_text(notice) })
        } else if !str_eq(new, old) {
            Ok(
                Change::Replacement {
                    lesson,
                    subject: Subject::from(old),
                    replacement: Subject::from(new),
                    place: filled_text(room),
                    notice: filled_text(notice),
                },
            )
        } else if !time.is_empty() {
            match parse_slot(time) {
                Some(to) => Ok(
                    Change::Shift {
                        lesson,
                        subject: Subject::from(old),
                        to,
                        place: filled_text(room),
                        notice: filled_text(notice),
                    },
                ),
                None => Err(ChangeError::Time),
            }
        } else if !room.is_empty() {
            Ok(
                Change::RoomChange {
                    lesson,
                    subject: Subject::from(old),
                    room: String::from_str(room),
                    notice: filled_text(notice),
                },
            )
        } else if !notice.is_empty() {
            Ok(Change::Notice { lesson, subject: Subject::from(old), text: String::from_str(notice) })
        } else {
            Err(ChangeError::NoEffect)
        }
    }

    /// The block of the lesson that the substitution is about.
    pub fn lesson(&self) -> (lesson: u8)
        ensures
            lesson == self@.lesson(),
    {
        match self {
            Change::Cancel { lesson, .. } => *lesson,
            Change::Shift { lesson, .. } => *lesson,
            Change::RoomChange { lesson, .. } => *lesson,
            Change::Replacement { lesson, .. } => *lesson,
            Change::Notice { lesson, .. } => *lesson,
        }
    }

    /// The subject that the timetable has in that block.
    pub fn subject(&self) -> (subject: &Subject)
        ensures
            subject@ == self@.subject(),
    {
        match self {
            Change::Cancel { subject, .. } => subject,
            Change::Shift { subject, .. } => subject,
            Change::RoomChange { subject, .. } => subject,
            Change::Replacement { subject, .. } => subject,
            Change::Notice { subject, .. } => subject,
        }
    }

    /// Whether the substitution is one that the columns of a row can make.
    /// A value that [`Change::new`] made is; one that was put together by
    /// hand need not be.
    pub fn is_well_formed(&self) -> (good: bool)
        ensures
            good == self@.well_formed(),
    {
        let subject = self.subject();
        if self.lesson() == 0 || !named_subject(subject) {
            return false;
        }
        match self {
            Change::Cancel { notice, .. } => has_text(notice),
            Change::Shift { to, place, notice, .. } => *to >= 1 && has_text(place) && has_text(
                notice,
            ),
            Change::RoomChange { room, notice, .. } => !room.as_str().is_empty() && has_text(
                notice,
            ),
            Change::Replacement { replacement, place, notice, .. } => named_subject(replacement)
                && has_text(place) && has_text(notice),
            Change::Notice { text, .. } => !text.as_str().is_empty(),
        }
    }

    /// Whether the substitution cancels a lesson.
    pub fn is_cancel(&self) -> (cancel: bool)
        ensures
            cancel == self@.is_cancel(),
    {
        match self {
            Change::Cancel { .. } => true,
            _ => false,
        }
    }

    /// The lesson after the substitution.
    fn changed(&self, lesson: &Lesson) -> (r: Lesson)
        ensures
            r@ == self@.changed(lesson@),
    {
        match self {
            Change::Cancel { notice, .. } => Lesson {
                lesson: lesson.lesson,
                subject: Subject::Cancel(Box::new(lesson.subject.clone())),
                iteration: lesson.iteration,
                place: lesson.place.clone(),
                notice: replaced_text(&lesson.notice, notice),
            },
            Change::Shift { to, place, notice, .. } => Lesson {
                lesson: *to,
                subject: lesson.subject.clone(),
                iteration: lesson.iteration,
                place: replaced_text(&lesson.place, place),
                notice: replaced_text(&lesson.notice, notice),
            },
            Change::RoomChange { room, notice, .. } => Lesson {
                lesson: lesson.lesson,
                subject: lesson.subject.clone(),
                iteration: lesson.iteration,
                place: Some(room.clone()),
                notice: replaced_text(&lesson.notice, notice),
            },
            Change::Replacement { replacement, place, notice, .. } => Lesson {
                lesson: lesson.lesson,
                subject: replacement.clone(),
                iteration: lesson.iteration,
                place: replaced_text(&lesson.place, place),
                notice: replaced_text(&lesson.notice, notice),
            },
            Change::Notice { text, .. } => Lesson {
                lesson: lesson.lesson,
                subject: lesson.subject.clone(),
                iteration: lesson.iteration,
                place: lesson.place.clone(),
                notice: Some(text.clone()),
            },
        }
    }

    /// Applies the substitution to a day: every lesson in its block that has
    /// its subject is changed. Tells whether there was such a lesson.
    ///
    /// A substitution that is not well formed fails, and so does one that
    /// asks for a subject with an unknown code; the day then stays as it is.
    pub fn apply(&self, day: &mut Vec<Lesson>) -> (r: Result<bool, ApplyError>)
        ensures
            match r {
                Ok(applied) => {
                    &&& self@.applicable()
                    &&& applied == self@.applies(old(day).deep_view())
                    &&& final(day).deep_view() == self@.applied_to(old(day).deep_view())
                },
                Err(ApplyError::Malformed) => {
                    &&& !self@.well_formed()
                    &&& final(day).deep_view() == old(day).deep_view()
                },
                Err(ApplyError::UnknownSubject(code)) => {
                    &&& self@.well_formed()
                    &&& self@ matches ChangeView::Replacement { replacement, .. }
                    &&& replacement == SubjectView::Other(code@)
                    &&& final(day).deep_view() == old(day).deep_view()
                },
            },
    {
        if !self.is_well_formed() {
            return Err(ApplyError::Malformed);
        }
        if let Change::Replacement { replacement: Subject::Other(code), .. } = self {
            return Err(ApplyError::UnknownSubject(code.clone()));
        }
        let ghost before = day.deep_view();
        let n = day.len();
        let mut applied = false;
        let mut i: usize = 0;
        while i < n
            invariant
                i <= n,
                n == day.len(),
                n == before.len(),
                forall|j: int| 0 <= j < i ==> day@[j]@ == self@.applied_to(before)[j],
                forall|j: int| i <= j < n ==> day@[j]@ == before[j],
                applied == (exists|j: int| 0 <= j < i && self@.concerns(#[trigger] before[j])),
            decreases n - i,
        {
            let lesson = &day[i];
            if lesson.lesson == self.lesson() && lesson.subject == *self.subject() {
                let changed = self.changed(lesson);
                day.set(i, changed);
                applied = true;
            }
            i += 1;
        }
        Ok(applied)
    }
}

impl Clone for Change {
    fn clone(&self) -> (copy: Self)
        ensures
            copy@ == self@,
    {
        match self {
            Change::Cancel { lesson, subject, notice } => Change::Cancel {
                lesson: *lesson,
                subject: subject.clone(),
                notice: notice.clone(),
            },
            Change::Shift { lesson, subject, to, place, notice } => Change::Shift {
                lesson: *lesson,
                subject: subject.clone(),
                to: *to,
                place: place.clone(),
                notice: notice.clone(),
            },
            Change::RoomChange { lesson, subject, room, notice } => Change::RoomChange {
                lesson: *lesson,
                subject: subject.clone(),
                room: room.clone(),
                notice: notice.clone(),
            },
            Change::Replacement { lesson, subject, replacement, place, notice } => {
                Change::Replacement {
                    lesson: *lesson,
                    subject: subject.clone(),
                    replacement: replacement.clone(),
                    place: place.clone(),
                    notice: notice.clone(),
                }
            },
            Change::Notice { lesson, subject, text } => Change::Notice {
                lesson: *lesson,
                subject: subject.clone(),
                text: text.clone(),
            },
        }
    }
}

impl PartialEq for Change {
    fn eq(&self, other: &Self) -> (same: bool) {
        match (self, other) {
            (
                Change::Cancel { lesson: la, subject: sa, notice: na },
                Change::Cancel { lesson: lb, subject: sb, notice: nb },
            ) => *la == *lb && *sa == *sb && same_text(na, nb),
            (
                Change::Shift { lesson: la, subject: sa, to: ta, place: pa, notice: na },
                Change::Shift { lesson: lb, subject: sb, to: tb, place: pb, notice: nb },
            ) => *la == *lb && *sa == *sb && *ta == *tb && same_text(pa, pb) && same_text(na, nb),
            (
                Change::RoomChange { lesson: la, subject: sa, room: pa, notice: na },
                Change::RoomChange { lesson: lb, subject: sb, room: pb, notice: nb },
            ) => *la == *lb && *sa == *sb && *pa == *pb && same_text(na, nb),
            (
                Change::Replacement { lesson: la, subject: sa, replacement: ra, place: pa, notice: na },
                Change::Replacement { lesson: lb, subject: sb, replacement: rb, place: pb, notice: nb },
            ) => *la == *lb && *sa == *sb && *ra == *rb && same_text(pa, pb) && same_text(na, nb),
            (
                Change::Notice { lesson: la, subject: sa, text: na },
                Change::Notice { lesson: lb, subject: sb, text: nb },
            ) => *la == *lb && *sa == *sb && *na == *nb,
            _ => false,
        }
    }
}

impl Eq for Change {

}

impl PartialEqSpecImpl for Change {
    open spec fn obeys_eq_spec() -> bool {
        true
    }

    open spec fn eq_spec(&self, other: &Self) -> bool {
        self@ == other@
    }
}

} // verus!
