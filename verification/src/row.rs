//! Rows of the substitution plan.

use crate::change::{Change, ChangeView};
use crate::date::Date;
use crate::text::str_eq;
use vstd::prelude::*;
use vstd::std_specs::cmp::PartialEqSpec;
use vstd::std_specs::cmp::PartialEqSpecImpl;

verus! {

/// One entry of the substitution plan.
///
/// Two rows are equal when they agree in `date`, `class` and `change`:
/// `index` and `raw` only serve to show the row.
#[derive(Debug)]
pub struct Row {
    /// The position of the row on its page.
    pub index: u8,
    pub date: Date,
    /// The classes that the entry is for.
    pub class: Vec<String>,
    pub change: Change,
    /// The columns of the row as the page holds them.
    pub raw: Vec<String>,
}

/// The mathematical value of a [`Row`].
pub struct RowView {
    pub index: u8,
    pub date: Date,
    pub class: Seq<Seq<char>>,
    pub change: ChangeView,
    pub raw: Seq<Seq<char>>,
}

/// What makes a row the row it is: two rows with the same key are equal.
pub struct RowKey {
    pub date: Date,
    pub class: Seq<Seq<char>>,
    pub change: ChangeView,
}

impl RowView {
    pub open spec fn key(self) -> RowKey {
        RowKey { date: self.date, class: self.class, change: self.change }
    }

    /// Whether the entry is for the class `name`.
    pub open spec fn has_class(self, name: Seq<char>) -> bool {
        self.class.contains(name)
    }
}

impl View for Row {
    type V = RowView;

    open spec fn view(&self) -> RowView {
        RowView {
            index: self.index,
            date: self.date,
            class: self.class.deep_view(),
            change: self.change@,
            raw: self.raw.deep_view(),
        }
    }
}

impl DeepView for Row {
    type V = RowView;

    open spec fn deep_view(&self) -> RowView {
        self@
    }
}

/// Whether two lists hold the same texts in the same order.
pub fn same_texts(a: &Vec<String>, b: &Vec<String>) -> (same: bool)
    ensures
        same == (a.deep_view() == b.deep_view()),
{
    if a.len() != b.len() {
        assert(a.deep_view().len() != b.deep_view().len());
        return false;
    }
    let mut i: usize = 0;
    while i < a.len()
        invariant
            i <= a.len(),
            a.len() == b.len(),
            forall|j: int| 0 <= j < i ==> a@[j]@ == b@[j]@,
        decreases a.len() - i,
    {
        if a[i] != b[i] {
            assert(a.deep_view()[i as int] != b.deep_view()[i as int]);
            return false;
        }
        i += 1;
    }
    assert(a.deep_view() =~= b.deep_view());
    true
}

/// A copy of a list of texts.
pub fn clone_texts(texts: &Vec<String>) -> (copy: Vec<String>)
    ensures
        copy.deep_view() == texts.deep_view(),
{
    let mut copy: Vec<String> = Vec::new();
    let mut i: usize = 0;
    while i < texts.len()
        invariant
            i <= texts.len(),
            copy.len() == i,
            forall|j: int| 0 <= j < i ==> copy@[j]@ == texts@[j]@,
        decreases texts.len() - i,
    {
        copy.push(texts[i].clone());
        i += 1;
    }
    copy
}

impl Row {
    /// Whether the entry is for the class `name`.
    pub fn has_class(&self, name: &str) -> (found: bool)
        ensures
            found == self@.has_class(name@),
    {
        let mut i: usize = 0;
        while i < self.class.len()
            invariant
                i <= self.class.len(),
                forall|j: int| 0 <= j < i ==> self.class@[j]@ != name@,
            decreases self.class.len() - i,
        {
            if str_eq(self.class[i].as_str(), name) {
                assert(self@.class[i as int] == name@);
                return true;
            }
            i += 1;
        }
        assert forall|j: int| 0 <= j < self@.class.len() implies self@.class[j] != name@ by {
            assert(self@.class[j] == self.class@[j]@);
        }
        false
    }
}

impl Clone for Row {
    fn clone(&self) -> (copy: Self)
        ensures
            copy@ == self@,
    {
        Row {
            index: self.index,
            date: self.date,
            class: clone_texts(&self.class),
            change: self.change.clone(),
            raw: clone_texts(&self.raw),
        }
    }
}

impl PartialEq for Row {
    fn eq(&self, other: &Self) -> (same: bool) {
        self.date == other.date && same_texts(&self.class, &other.class) && self.change
            == other.change
    }
}

impl Eq for Row {

}

impl PartialEqSpecImpl for Row {
    open spec fn obeys_eq_spec() -> bool {
        true
    }

    open spec fn eq_spec(&self, other: &Self) -> bool {
        self@.key() == other@.key()
    }
}

/// Rows that agree in date, classes and substitution are equal, whatever
/// their position on the page and their raw columns.
pub proof fn lemma_row_equality_ignores_presentation(a: Row, b: Row)
    requires
        a@.date == b@.date,
        a@.class == b@.class,
        a@.change == b@.change,
    ensures
        PartialEqSpec::eq_spec(&a, &b),
{
}

} // verus!
