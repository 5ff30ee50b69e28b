//! The weekly timetable: subjects, lessons and the days they fill.

use crate::text::str_eq;
use vstd::prelude::*;
use vstd::std_specs::cmp::PartialEqSpecImpl;
use vstd::std_specs::convert::FromSpecImpl;

pub mod igd21;

verus! {

/// A subject of the timetable.
///
/// `Cancel` marks the slot of the subject it wraps as cancelled. `Other`
/// keeps a code that is not in the table of known codes, so that it can still
/// be shown.
#[allow(non_camel_case_types)]
#[derive(Debug)]
pub enum Subject {
    GermanBasic,
    GermanAdvanced,
    MathBasic,
    MathAdvanced,
    EnglishBasic,
    EnglishAdvanced,
    Art,
    History,
    French,
    Ethics,
    Russian,
    Chemistry,
    Physics,
    /// PE
    PhysicalEducation,
    Literature,
    Lf6_7_9,
    Lf9_12,
    Lf8__1,
    Lf8__2,
    Lf10__1,
    Lf10__2,
    Lf11,
    Lf11__1,
    Lf11__2,
    Lf13__1,
    Lf13__2,
    FaeVerb,
    /// The blank code: no subject.
    Blank,
    Cancel(Box<Subject>),
    Other(String),
}

/// The mathematical value of a [`Subject`]: the same variants, with the text
/// of an unknown code as a sequence of characters.
#[allow(non_camel_case_types)]
pub enum SubjectView {
    GermanBasic,
    GermanAdvanced,
    MathBasic,
    MathAdvanced,
    EnglishBasic,
    EnglishAdvanced,
    Art,
    History,
    French,
    Ethics,
    Russian,
    Chemistry,
    Physics,
    PhysicalEducation,
    Literature,
    Lf6_7_9,
    Lf9_12,
    Lf8__1,
    Lf8__2,
    Lf10__1,
    Lf10__2,
    Lf11,
    Lf11__1,
    Lf11__2,
    Lf13__1,
    Lf13__2,
    FaeVerb,
    Blank,
    Cancel(Box<SubjectView>),
    Other(Seq<char>),
}

impl Subject {
    /// The mathematical value of this subject; `self@` is short for it.
    pub open spec fn model(&self) -> SubjectView
        decreases self,
    {
        match self {
            Subject::GermanBasic => SubjectView::GermanBasic,
            Subject::GermanAdvanced => SubjectView::GermanAdvanced,
            Subject::MathBasic => SubjectView::MathBasic,
            Subject::MathAdvanced => SubjectView::MathAdvanced,
            Subject::EnglishBasic => SubjectView::EnglishBasic,
            Subject::EnglishAdvanced => SubjectView::EnglishAdvanced,
            Subject::Art => SubjectView::Art,
            Subject::History => SubjectView::History,
            Subject::French => SubjectView::French,
            Subject::Ethics => SubjectView::Ethics,
            Subject::Russian => SubjectView::Russian,
            Subject::Chemistry => SubjectView::Chemistry,
            Subject::Physics => SubjectView::Physics,
            Subject::PhysicalEducation => SubjectView::PhysicalEducation,
            Subject::Literature => SubjectView::Literature,
            Subject::Lf6_7_9 => SubjectView::Lf6_7_9,
            Subject::Lf9_12 => SubjectView::Lf9_12,
            Subject::Lf8__1 => SubjectView::Lf8__1,
            Subject::Lf8__2 => SubjectView::Lf8__2,
            Subject::Lf10__1 => SubjectView::Lf10__1,
            Subject::Lf10__2 => SubjectView::Lf10__2,
            Subject::Lf11 => SubjectView::Lf11,
            Subject::Lf11__1 => SubjectView::Lf11__1,
            Subject::Lf11__2 => SubjectView::Lf11__2,
            Subject::Lf13__1 => SubjectView::Lf13__1,
            Subject::Lf13__2 => SubjectView::Lf13__2,
            Subject::FaeVerb => SubjectView::FaeVerb,
            Subject::Blank => SubjectView::Blank,
            Subject::Cancel(inner) => SubjectView::Cancel(Box::new(inner.model())),
            Subject::Other(code) => SubjectView::Other(code@),
        }
    }
}

impl View for Subject {
    type V = SubjectView;

    open spec fn view(&self) -> SubjectView {
        self.model()
    }
}

impl DeepView for Subject {
    type V = SubjectView;

    open spec fn deep_view(&self) -> SubjectView {
        self@
    }
}

/// The subject that a code of the substitution plan stands for.
pub open spec fn subject_of_code(code: Seq<char>) -> SubjectView {
    if code == "DEU"@ {
        SubjectView::GermanBasic
    } else if code == "LK-DEU"@ {
        SubjectView::GermanAdvanced
    } else if code == "MA"@ {
        SubjectView::MathBasic
    } else if code == "LK-MA"@ {
        SubjectView::MathAdvanced
    } else if code == "ENG"@ {
        SubjectView::EnglishBasic
    } else if code == "LK-ENG"@ {
        SubjectView::EnglishAdvanced
    } else if code == "BK"@ {
        SubjectView::Art
    } else if code == "BK1"@ {
        SubjectView::Art
    } else if code == "BK2"@ {
        SubjectView::Art
    } else if code == "GGK"@ {
        SubjectView::History
    } else if code == "F-B"@ {
        SubjectView::French
    } else if code == "ETH"@ {
        SubjectView::Ethics
    } else if code == "R-B"@ {
        SubjectView::Russian
    } else if code == "CH"@ {
        SubjectView::Chemistry
    } else if code == "PHY"@ {
        SubjectView::Physics
    } else if code == "SP"@ {
        SubjectView::PhysicalEducation
    } else if code == "LIT"@ {
        SubjectView::Literature
    } else if code == "LF 6+7+9"@ {
        SubjectView::Lf6_7_9
    } else if code == "LF 9+12"@ {
        SubjectView::Lf9_12
    } else if code == "IS-GP"@ {
        SubjectView::Lf9_12
    } else if code == "LF8D_I1"@ {
        SubjectView::Lf8__1
    } else if code == "LF8D_I2"@ {
        SubjectView::Lf8__2
    } else if code == "LF10D_I1"@ {
        SubjectView::Lf10__1
    } else if code == "LF10D_I2"@ {
        SubjectView::Lf10__2
    } else if code == "LF11D"@ {
        SubjectView::Lf11
    } else if code == "LF11D_I"@ {
        SubjectView::Lf11
    } else if code == "LF11D_I1"@ {
        SubjectView::Lf11__1
    } else if code == "LF11D_I2"@ {
        SubjectView::Lf11__2
    } else if code == "LF13D_I1"@ {
        SubjectView::Lf13__1
    } else if code == "LF13D_I2"@ {
        SubjectView::Lf13__2
    } else if code == "_fä.verb."@ {
        SubjectView::FaeVerb
    } else if code == ""@ {
        SubjectView::Blank
    } else {
        SubjectView::Other(code)
    }
}

impl SubjectView {
    /// The short name under which a subject is shown. A cancelled subject is
    /// shown in parentheses, an unknown code as it is.
    pub open spec fn display(self) -> Seq<char>
        decreases self,
    {
        match self {
            SubjectView::GermanBasic => "D"@,
            SubjectView::GermanAdvanced => "LK-D"@,
            SubjectView::MathBasic => "Ma"@,
            SubjectView::MathAdvanced => "LK-Ma"@,
            SubjectView::EnglishBasic => "En"@,
            SubjectView::EnglishAdvanced => "LK-En"@,
            SubjectView::Art => "BK"@,
            SubjectView::History => "Ge"@,
            SubjectView::French => "Frz"@,
            SubjectView::Ethics => "Eth"@,
            SubjectView::Russian => "Ru"@,
            SubjectView::Chemistry => "Ch"@,
            SubjectView::Physics => "Ph"@,
            SubjectView::PhysicalEducation => "Sp"@,
            SubjectView::Literature => "Lit"@,
            SubjectView::Lf6_7_9 => "LF 6+7+9"@,
            SubjectView::Lf9_12 => "LF 9+12"@,
            SubjectView::Lf8__1 => "LF 8_1"@,
            SubjectView::Lf8__2 => "LF 8_2"@,
            SubjectView::Lf10__1 => "LF 10_1"@,
            SubjectView::Lf10__2 => "LF 10_2"@,
            SubjectView::Lf11 => "LF 11"@,
            SubjectView::Lf11__1 => "LF 11_1"@,
            SubjectView::Lf11__2 => "LF 11_2"@,
            SubjectView::Lf13__1 => "LF 13_1"@,
            SubjectView::Lf13__2 => "LF 13_2"@,
            SubjectView::FaeVerb => "Fä-Verb"@,
            SubjectView::Blank => "None"@,
            SubjectView::Cancel(inner) => "("@ + inner.display() + ")"@,
            SubjectView::Other(code) => code,
        }
    }

    /// Whether this is a code outside the table of known codes.
    pub open spec fn is_unknown(self) -> bool {
        self is Other
    }
}

/// A code that is not known is shown as it is.
pub proof fn lemma_unknown_code_is_shown_as_it_is(code: Seq<char>)
    requires
        subject_of_code(code).is_unknown(),
    ensures
        subject_of_code(code).display() == code,
{
}

/// Only the empty code stands for no subject, and no code stands for a
/// cancelled subject.
pub proof fn lemma_codes_name_subjects(code: Seq<char>)
    ensures
        subject_of_code(code) is Blank <==> code.len() == 0,
        !(subject_of_code(code) is Cancel),
{
    reveal_strlit("");
    reveal_strlit("DEU");
    reveal_strlit("LK-DEU");
    reveal_strlit("MA");
    reveal_strlit("LK-MA");
    reveal_strlit("ENG");
    reveal_strlit("LK-ENG");
    reveal_strlit("BK");
    reveal_strlit("BK1");
    reveal_strlit("BK2");
    reveal_strlit("GGK");
    reveal_strlit("F-B");
    reveal_strlit("ETH");
    reveal_strlit("R-B");
    reveal_strlit("CH");
    reveal_strlit("PHY");
    reveal_strlit("SP");
    reveal_strlit("LIT");
    reveal_strlit("LF 6+7+9");
    reveal_strlit("LF 9+12");
    reveal_strlit("IS-GP");
    reveal_strlit("LF8D_I1");
    reveal_strlit("LF8D_I2");
    reveal_strlit("LF10D_I1");
    reveal_strlit("LF10D_I2");
    reveal_strlit("LF11D");
    reveal_strlit("LF11D_I");
    reveal_strlit("LF11D_I1");
    reveal_strlit("LF11D_I2");
    reveal_strlit("LF13D_I1");
    reveal_strlit("LF13D_I2");
    reveal_strlit("_fä.verb.");
    if code.len() == 0 {
        assert(code =~= ""@);
    }
}

impl Subject {
    /// Reads a code of the substitution plan.
    pub fn from(value: &str) -> (subject: Subject)
        ensures
            subject@ == subject_of_code(value@),
    {
        if str_eq(value, "DEU") {
            Subject::GermanBasic
        } else if str_eq(value, "LK-DEU") {
            Subject::GermanAdvanced
        } else if str_eq(value, "MA") {
            Subject::MathBasic
        } else if str_eq(value, "LK-MA") {
            Subject::MathAdvanced
        } else if str_eq(value, "ENG") {
            Subject::EnglishBasic
        } else if str_eq(value, "LK-ENG") {
            Subject::EnglishAdvanced
        } else if str_eq(value, "BK") {
            Subject::Art
        } else if str_eq(value, "BK1") {
            Subject::Art
        } else if str_eq(value, "BK2") {
            Subject::Art
        } else if str_eq(value, "GGK") {
            Subject::History
        } else if str_eq(value, "F-B") {
            Subject::French
        } else if str_eq(value, "ETH") {
            Subject::Ethics
        } else if str_eq(value, "R-B") {
            Subject::Russian
        } else if str_eq(value, "CH") {
            Subject::Chemistry
        } else if str_eq(value, "PHY") {
            Subject::Physics
        } else if str_eq(value, "SP") {
            Subject::PhysicalEducation
        } else if str_eq(value, "LIT") {
            Subject::Literature
        } else if str_eq(value, "LF 6+7+9") {
            Subject::Lf6_7_9
        } else if str_eq(value, "LF 9+12") {
            Subject::Lf9_12
        } else if str_eq(value, "IS-GP") {
            Subject::Lf9_12
        } else if str_eq(value, "LF8D_I1") {
            Subject::Lf8__1
        } else if str_eq(value, "LF8D_I2") {
            Subject::Lf8__2
        } else if str_eq(value, "LF10D_I1") {
            Subject::Lf10__1
        } else if str_eq(value, "LF10D_I2") {
            Subject::Lf10__2
        } else if str_eq(value, "LF11D") {
            Subject::Lf11
        } else if str_eq(value, "LF11D_I") {
            Subject::Lf11
        } else if str_eq(value, "LF11D_I1") {
            Subject::Lf11__1
        } else if str_eq(value, "LF11D_I2") {
            Subject::Lf11__2
        } else if str_eq(value, "LF13D_I1") {
            Subject::Lf13__1
        } else if str_eq(value, "LF13D_I2") {
            Subject::Lf13__2
        } else if str_eq(value, "_fä.verb.") {
            Subject::FaeVerb
        } else if str_eq(value, "") {
            Subject::Blank
        } else {
            Subject::Other(String::from_str(value))
        }
    }

    /// The short name under which the subject is shown.
    pub fn to_string(&self) -> (text: String)
        ensures
            text@ == self@.display(),
        decreases self,
    {
        match self {
            Subject::GermanBasic => String::from_str("D"),
            Subject::GermanAdvanced => String::from_str("LK-D"),
            Subject::MathBasic => String::from_str("Ma"),
            Subject::MathAdvanced => String::from_str("LK-Ma"),
            Subject::EnglishBasic => String::from_str("En"),
            Subject::EnglishAdvanced => String::from_str("LK-En"),
            Subject::Art => String::from_str("BK"),
            Subject::History => String::from_str("Ge"),
            Subject::French => String::from_str("Frz"),
            Subject::Ethics => String::from_str("Eth"),
            Subject::Russian => String::from_str("Ru"),
            Subject::Chemistry => String::from_str("Ch"),
            Subject::Physics => String::from_str("Ph"),
            Subject::PhysicalEducation => String::from_str("Sp"),
            Subject::Literature => String::from_str("Lit"),
            Subject::Lf6_7_9 => String::from_str("LF 6+7+9"),
            Subject::Lf9_12 => String::from_str("LF 9+12"),
            Subject::Lf8__1 => String::from_str("LF 8_1"),
            Subject::Lf8__2 => String::from_str("LF 8_2"),
            Subject::Lf10__1 => String::from_str("LF 10_1"),
            Subject::Lf10__2 => String::from_str("LF 10_2"),
            Subject::Lf11 => String::from_str("LF 11"),
            Subject::Lf11__1 => String::from_str("LF 11_1"),
            Subject::Lf11__2 => String::from_str("LF 11_2"),
            Subject::Lf13__1 => String::from_str("LF 13_1"),
            Subject::Lf13__2 => String::from_str("LF 13_2"),
            Subject::FaeVerb => String::from_str("Fä-Verb"),
            Subject::Blank => String::from_str("None"),
            Subject::Cancel(inner) => {
                let mut text = String::from_str("(");
                let name = inner.to_string();
                text.append(name.as_str());
                text.append(")");
                text
            },
            Subject::Other(code) => code.clone(),
        }
    }

    /// Whether this is a code outside the table of known codes.
    pub fn is_unknown(&self) -> (unknown: bool)
        ensures
            unknown == self@.is_unknown(),
    {
        match self {
            Subject::Other(_) => true,
            _ => false,
        }
    }
}

impl<'a> From<&'a str> for Subject {
    /// Reads a code of the substitution plan.
    fn from(value: &'a str) -> (subject: Subject)
        ensures
            subject@ == subject_of_code(value@),
    {
        Subject::from(value)
    }
}

impl<'a> FromSpecImpl<&'a str> for Subject {
    /// What a code reads as is stated of the value of the subject, by
    /// [`subject_of_code`]: an unknown code is kept as a text, and a text is
    /// known by its characters alone.
    open spec fn obeys_from_spec() -> bool {
        false
    }

    open spec fn from_spec(value: &'a str) -> Subject {
        choose|subject: Subject| subject@ == subject_of_code(value@)
    }
}

impl Clone for Subject {
    fn clone(&self) -> (copy: Self)
        ensures
            copy@ == self@,
        decreases self,
    {
        match self {
            Subject::GermanBasic => Subject::GermanBasic,
            Subject::GermanAdvanced => Subject::GermanAdvanced,
            Subject::MathBasic => Subject::MathBasic,
            Subject::MathAdvanced => Subject::MathAdvanced,
            Subject::EnglishBasic => Subject::EnglishBasic,
            Subject::EnglishAdvanced => Subject::EnglishAdvanced,
            Subject::Art => Subject::Art,
            Subject::History => Subject::History,
            Subject::French => Subject::French,
            Subject::Ethics => Subject::Ethics,
            Subject::Russian => Subject::Russian,
            Subject::Chemistry => Subject::Chemistry,
            Subject::Physics => Subject::Physics,
            Subject::PhysicalEducation => Subject::PhysicalEducation,
            Subject::Literature => Subject::Literature,
            Subject::Lf6_7_9 => Subject::Lf6_7_9,
            Subject::Lf9_12 => Subject::Lf9_12,
            Subject::Lf8__1 => Subject::Lf8__1,
            Subject::Lf8__2 => Subject::Lf8__2,
            Subject::Lf10__1 => Subject::Lf10__1,
            Subject::Lf10__2 => Subject::Lf10__2,
            Subject::Lf11 => Subject::Lf11,
            Subject::Lf11__1 => Subject::Lf11__1,
            Subject::Lf11__2 => Subject::Lf11__2,
            Subject::Lf13__1 => Subject::Lf13__1,
            Subject::Lf13__2 => Subject::Lf13__2,
            Subject::FaeVerb => Subject::FaeVerb,
            Subject::Blank => Subject::Blank,
            Subject::Cancel(inner) => {
                let copy = (&**inner).clone();
                Subject::Cancel(Box::new(copy))
            },
            Subject::Other(code) => Subject::Other(code.clone()),
        }
    }
}

impl PartialEq for Subject {
    fn eq(&self, other: &Self) -> (same: bool)
        decreases self,
    {
        match (self, other) {
            (Subject::GermanBasic, Subject::GermanBasic) => true,
            (Subject::GermanAdvanced, Subject::GermanAdvanced) => true,
            (Subject::MathBasic, Subject::MathBasic) => true,
            (Subject::MathAdvanced, Subject::MathAdvanced) => true,
            (Subject::EnglishBasic, Subject::EnglishBasic) => true,
            (Subject::EnglishAdvanced, Subject::EnglishAdvanced) => true,
            (Subject::Art, Subject::Art) => true,
            (Subject::History, Subject::History) => true,
            (Subject::French, Subject::French) => true,
            (Subject::Ethics, Subject::Ethics) => true,
            (Subject::Russian, Subject::Russian) => true,
            (Subject::Chemistry, Subject::Chemistry) => true,
            (Subject::Physics, Subject::Physics) => true,
            (Subject::PhysicalEducation, Subject::PhysicalEducation) => true,
            (Subject::Literature, Subject::Literature) => true,
            (Subject::Lf6_7_9, Subject::Lf6_7_9) => true,
            (Subject::Lf9_12, Subject::Lf9_12) => true,
            (Subject::Lf8__1, Subject::Lf8__1) => true,
            (Subject::Lf8__2, Subject::Lf8__2) => true,
            (Subject::Lf10__1, Subject::Lf10__1) => true,
            (Subject::Lf10__2, Subject::Lf10__2) => true,
            (Subject::Lf11, Subject::Lf11) => true,
            (Subject::Lf11__1, Subject::Lf11__1) => true,
            (Subject::Lf11__2, Subject::Lf11__2) => true,
            (Subject::Lf13__1, Subject::Lf13__1) => true,
            (Subject::Lf13__2, Subject::Lf13__2) => true,
            (Subject::FaeVerb, Subject::FaeVerb) => true,
            (Subject::Blank, Subject::Blank) => true,
            (Subject::Cancel(a), Subject::Cancel(b)) => (&**a).eq(&**b),
            (Subject::Other(a), Subject::Other(b)) => *a == *b,
            _ => false,
        }
    }
}

impl Eq for Subject {

}

impl PartialEqSpecImpl for Subject {
    open spec fn obeys_eq_spec() -> bool {
        true
    }

    open spec fn eq_spec(&self, other: &Self) -> bool {
        self@ == other@
    }
}

/// One slot of the timetable.
#[derive(Debug)]
pub struct Lesson {
    /// The number of the two-period block, counted from 1.
    pub lesson: u8,
    pub subject: Subject,
    /// The week of the rotation in which the lesson takes place; `None` for
    /// a lesson that takes place in every week.
    pub iteration: Option<u8>,
    pub place: Option<String>,
    pub notice: Option<String>,
}

/// The mathematical value of a [`Lesson`].
pub struct LessonView {
    pub lesson: u8,
    pub subject: SubjectView,
    pub iteration: Option<u8>,
    pub place: Option<Seq<char>>,
    pub notice: Option<Seq<char>>,
}

impl View for Lesson {
    type V = LessonView;

    open spec fn view(&self) -> LessonView {
        LessonView {
            lesson: self.lesson,
            subject: self.subject@,
            iteration: self.iteration,
            place: self.place.deep_view(),
            notice: self.notice.deep_view(),
        }
    }
}

impl DeepView for Lesson {
    type V = LessonView;

    open spec fn deep_view(&self) -> LessonView {
        self@
    }
}

/// A day of the timetable: its lessons, in the order of the plan.
pub type Day = Vec<Lesson>;

impl Lesson {
    /// A lesson of the base timetable: in a room, without a notice.
    pub fn new(lesson: u8, iteration: Option<u8>, subject: Subject, place: &str) -> (made: Self)
        ensures
            made@ == (LessonView {
                lesson,
                subject: subject@,
                iteration,
                place: Some(place@),
                notice: None,
            }),
    {
        Self { lesson, iteration, subject, place: Some(String::from_str(place)), notice: None }
    }
}

impl Clone for Lesson {
    fn clone(&self) -> (copy: Self)
        ensures
            copy@ == self@,
    {
        Lesson {
            lesson: self.lesson,
            subject: self.subject.clone(),
            iteration: self.iteration,
            place: self.place.clone(),
            notice: self.notice.clone(),
        }
    }
}

} // verus!
