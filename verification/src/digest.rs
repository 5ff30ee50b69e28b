//! A hash of rows that goes by what makes a row the row it is, so that equal
//! rows hash alike.

use crate::change::{Change, ChangeView};
use crate::row::{Row, RowKey};
use crate::timetable::{Subject, SubjectView};
use vstd::prelude::*;

verus! {

/// The state that a hash starts from.
pub const START: u64 = 0xcbf2_9ce4_8422_2325;

/// The factor by which a hash is stirred.
pub const PRIME: u64 = 0x0000_0100_0000_01b3;

/// The hash after one more word.
pub open spec fn mix(state: u64, word: u64) -> u64 {
    (state ^ word).wrapping_mul(PRIME)
}

/// The hash after the characters of a text.
pub open spec fn mix_chars(state: u64, text: Seq<char>) -> u64
    decreases text.len(),
{
    if text.len() == 0 {
        state
    } else {
        mix(mix_chars(state, text.drop_last()), text.last() as u64)
    }
}

/// The hash after a text: after its length and its characters.
pub open spec fn mix_text(state: u64, text: Seq<char>) -> u64 {
    mix_chars(mix(state, text.len() as u64), text)
}

/// The hash after a text that may be missing.
pub open spec fn mix_option(state: u64, text: Option<Seq<char>>) -> u64 {
    match text {
        Some(text) => mix_text(mix(state, 1), text),
        None => mix(state, 0),
    }
}

/// The hash after the texts of a list.
pub open spec fn mix_items(state: u64, texts: Seq<Seq<char>>) -> u64
    decreases texts.len(),
{
    if texts.len() == 0 {
        state
    } else {
        mix_text(mix_items(state, texts.drop_last()), texts.last())
    }
}

/// The hash after a list of texts: after its length and its texts.
pub open spec fn mix_texts(state: u64, texts: Seq<Seq<char>>) -> u64 {
    mix_items(mix(state, texts.len() as u64), texts)
}

/// The hash after a subject: after the number of its kind and what it holds.
pub open spec fn mix_subject(state: u64, subject: SubjectView) -> u64
    decreases subject,
{
    match subject {
        SubjectView::GermanBasic => mix(state, 0),
        SubjectView::GermanAdvanced => mix(state, 1),
        SubjectView::MathBasic => mix(state, 2),
        SubjectView::MathAdvanced => mix(state, 3),
        SubjectView::EnglishBasic => mix(state, 4),
        SubjectView::EnglishAdvanced => mix(state, 5),
        SubjectView::Art => mix(state, 6),
        SubjectView::History => mix(state, 7),
        SubjectView::French => mix(state, 8),
        SubjectView::Ethics => mix(state, 9),
        SubjectView::Russian => mix(state, 10),
        SubjectView::Chemistry => mix(state, 11),
        SubjectView::Physics => mix(state, 12),
        SubjectView::PhysicalEducation => mix(state, 13),
        SubjectView::Literature => mix(state, 14),
        SubjectView::Lf6_7_9 => mix(state, 15),
        SubjectView::Lf9_12 => mix(state, 16),
        SubjectView::Lf8__1 => mix(state, 17),
        SubjectView::Lf8__2 => mix(state, 18),
        SubjectView::Lf10__1 => mix(state, 19),
        SubjectView::Lf10__2 => mix(state, 20),
        SubjectView::Lf11 => mix(state, 21),
        SubjectView::Lf11__1 => mix(state, 22),
        SubjectView::Lf11__2 => mix(state, 23),
        SubjectView::Lf13__1 => mix(state, 24),
        SubjectView::Lf13__2 => mix(state, 25),
        SubjectView::FaeVerb => mix(state, 26),
        SubjectView::Blank => mix(state, 27),
        SubjectView::Cancel(inner) => mix_subject(mix(state, 28), *inner),
        SubjectView::Other(code) => mix_text(mix(state, 29), code),
    }
}

/// The hash after a substitution: after the number of its kind and its
/// fields.
pub open spec fn mix_change(state: u64, change: ChangeView) -> u64 {
    match change {
        ChangeView::Cancel { lesson, subject, notice } => mix_option(
            mix_subject(mix(mix(state, 0), lesson as u64), subject),
            notice,
        ),
        ChangeView::Shift { lesson, subject, to, place, notice } => mix_option(
            mix_option(mix(mix_subject(mix(mix(state, 1), lesson as u64), subject), to as u64), place),
            notice,
        ),
        ChangeView::RoomChange { lesson, subject, room, notice } => mix_option(
            mix_text(mix_subject(mix(mix(state, 2), lesson as u64), subject), room),
            notice,
        ),
        ChangeView::Replacement { lesson, subject, replacement, place, notice } => mix_option(
            mix_option(
                mix_subject(mix_subject(mix(mix(state, 3), lesson as u64), subject), replacement),
                place,
            ),
            notice,
        ),
        ChangeView::Notice { lesson, subject, text } => mix_text(
            mix_subject(mix(mix(state, 4), lesson as u64), subject),
            text,
        ),
    }
}

/// The hash of a row: of its date, its classes and its substitution.
pub open spec fn hash_of(key: RowKey) -> u64 {
    mix_change(
        mix_texts(
            mix(
                mix(mix(START, key.date.spec_year() as u64), key.date.spec_month() as u64),
                key.date.spec_day() as u64,
            ),
            key.class,
        ),
        key.change,
    )
}

fn stir(state: u64, word: u64) -> (hash: u64)
    ensures
        hash == mix(state, word),
{
    (state ^ word).wrapping_mul(PRIME)
}

fn stir_text(state: u64, text: &str) -> (hash: u64)
    ensures
        hash == mix_text(state, text@),
{
    let chars = crate::text::chars_of(text);
    let mut hash = stir(state, chars.len() as u64);
    let mut i: usize = 0;
    while i < chars.len()
        invariant
            i <= chars.len(),
            chars@ == text@,
            hash == mix_chars(mix(state, text@.len() as u64), text@.take(i as int)),
        decreases chars.len() - i,
    {
        assert(text@.take(i + 1).drop_last() =~= text@.take(i as int));
        hash = stir(hash, chars[i] as u64);
        i += 1;
    }
    assert(text@.take(chars.len() as int) =~= text@);
    hash
}

fn stir_option(state: u64, text: &Option<String>) -> (hash: u64)
    ensures
        hash == mix_option(state, text.deep_view()),
{
    match text {
        Some(text) => stir_text(stir(state, 1), text.as_str()),
        None => stir(state, 0),
    }
}

fn stir_texts(state: u64, texts: &Vec<String>) -> (hash: u64)
    ensures
        hash == mix_texts(state, texts.deep_view()),
{
    let mut hash = stir(state, texts.len() as u64);
    let mut i: usize = 0;
    while i < texts.len()
        invariant
            i <= texts.len(),
            hash == mix_items(
                mix(state, texts.deep_view().len() as u64),
                texts.deep_view().take(i as int),
            ),
        decreases texts.len() - i,
    {
        assert(texts.deep_view().take(i + 1).drop_last() =~= texts.deep_view().take(i as int));
        hash = stir_text(hash, texts[i].as_str());
        i += 1;
    }
    assert(texts.deep_view().take(texts.len() as int) =~= texts.deep_view());
    hash
}

fn stir_subject(state: u64, subject: &Subject) -> (hash: u64)
    ensures
        hash == mix_subject(state, subject@),
    decreases subject,
{
    match subject {
        Subject::GermanBasic => stir(state, 0),
        Subject::GermanAdvanced => stir(state, 1),
        Subject::MathBasic => stir(state, 2),
        Subject::MathAdvanced => stir(state, 3),
        Subject::EnglishBasic => stir(state, 4),
        Subject::EnglishAdvanced => stir(state, 5),
        Subject::Art => stir(state, 6),
        Subject::History => stir(state, 7),
        Subject::French => stir(state, 8),
        Subject::Ethics => stir(state, 9),
        Subject::Russian => stir(state, 10),
        Subject::Chemistry => stir(state, 11),
        Subject::Physics => stir(state, 12),
        Subject::PhysicalEducation => stir(state, 13),
        Subject::Literature => stir(state, 14),
        Subject::Lf6_7_9 => stir(state, 15),
        Subject::Lf9_12 => stir(state, 16),
        Subject::Lf8__1 => stir(state, 17),
        Subject::Lf8__2 => stir(state, 18),
        Subject::Lf10__1 => stir(state, 19),
        Subject::Lf10__2 => stir(state, 20),
        Subject::Lf11 => stir(state, 21),
        Subject::Lf11__1 => stir(state, 22),
        Subject::Lf11__2 => stir(state, 23),
        Subject::Lf13__1 => stir(state, 24),
        Subject::Lf13__2 => stir(state, 25),
        Subject::FaeVerb => stir(state, 26),
        Subject::Blank => stir(state, 27),
        Subject::Cancel(inner) => stir_subject(stir(state, 28), &**inner),
        Subject::Other(code) => stir_text(stir(state, 29), code.as_str()),
    }
}

fn stir_change(state: u64, change: &Change) -> (hash: u64)
    ensures
        hash == mix_change(state, change@),
{
    match change {
        Change::Cancel { lesson, subject, notice } => stir_option(
            stir_subject(stir(stir(state, 0), *lesson as u64), subject),
            notice,
        ),
        Change::Shift { lesson, subject, to, place, notice } => stir_option(
            stir_option(
                stir(stir_subject(stir(stir(state, 1), *lesson as u64), subject), *to as u64),
                place,
            ),
            notice,
        ),
        Change::RoomChange { lesson, subject, room, notice } => stir_option(
            stir_text(stir_subject(stir(stir(state, 2), *lesson as u64), subject), room.as_str()),
            notice,
        ),
        Change::Replacement { lesson, subject, replacement, place, notice } => stir_option(
            stir_option(
                stir_subject(
                    stir_subject(stir(stir(state, 3), *lesson as u64), subject),
                    replacement,
                ),
                place,
            ),
            notice,
        ),
        Change::Notice { lesson, subject, text } => stir_text(
            stir_subject(stir(stir(state, 4), *lesson as u64), subject),
            text.as_str(),
        ),
    }
}

impl Row {
    /// The hash of the row. It goes by the date, the classes and the
    /// substitution alone, as the equality of rows does.
    pub fn hash(&self) -> (hash: u64)
        ensures
            hash == hash_of(self@.key()),
    {
        let date = stir(
            stir(stir(START, self.date.year() as u64), self.date.month() as u64),
            self.date.day() as u64,
        );
        stir_change(stir_texts(date, &self.class), &self.change)
    }
}

/// Rows that agree in date, classes and substitution have the same hash,
/// whatever their position on the page and their raw columns.
pub proof fn lemma_equal_rows_hash_alike(a: Row, b: Row)
    requires
        a@.date == b@.date,
        a@.class == b@.class,
        a@.change == b@.change,
    ensures
        hash_of(a@.key()) == hash_of(b@.key()),
{
}

} // verus!
