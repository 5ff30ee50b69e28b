//! The rows of the latest crawl, kept as a set: no row twice, and no meaning
//! in their order.

use crate::row::{Row, RowKey, RowView};
use vstd::prelude::*;

verus! {

/// The keys of the rows of a list.
pub open spec fn keys(rows: Seq<RowView>) -> Set<RowKey> {
    Set::new(|key: RowKey| has_key(rows, key))
}

/// Whether a list has a row with the given key.
pub open spec fn has_key(rows: Seq<RowView>, key: RowKey) -> bool {
    exists|i: int| 0 <= i < rows.len() && (#[trigger] rows[i]).key() == key
}

/// Whether no two rows of a list are equal.
pub open spec fn distinct(rows: Seq<RowView>) -> bool {
    forall|i: int, j: int|
        0 <= i < j < rows.len() ==> (#[trigger] rows[i]).key() != (#[trigger] rows[j]).key()
}

/// The list without the rows that are equal to an earlier row.
pub open spec fn without_repeats(rows: Seq<RowView>) -> Seq<RowView>
    decreases rows.len(),
{
    if rows.len() == 0 {
        Seq::empty()
    } else if has_key(without_repeats(rows.drop_last()), rows.last().key()) {
        without_repeats(rows.drop_last())
    } else {
        without_repeats(rows.drop_last()).push(rows.last())
    }
}

/// Leaving out repeated rows keeps every key, and leaves no row twice.
pub proof fn lemma_without_repeats(rows: Seq<RowView>)
    ensures
        keys(without_repeats(rows)) == keys(rows),
        distinct(without_repeats(rows)),
        forall|i: int|
            0 <= i < without_repeats(rows).len() ==> rows.contains(
                #[trigger] without_repeats(rows)[i],
            ),
    decreases rows.len(),
{
    let short = without_repeats(rows);
    if rows.len() > 0 {
        let init = rows.drop_last();
        let before = without_repeats(init);
        lemma_without_repeats(init);
        assert forall|key: RowKey| has_key(short, key) <==> has_key(rows, key) by {
            if has_key(short, key) {
                let i = choose|i: int| 0 <= i < short.len() && (#[trigger] short[i]).key() == key;
                if i < before.len() {
                    let j = choose|j: int| 0 <= j < init.len() && (#[trigger] init[j]).key() == key;
                    assert(rows[j].key() == key);
                }
            }
            if has_key(rows, key) {
                let j = choose|j: int| 0 <= j < rows.len() && (#[trigger] rows[j]).key() == key;
                if j < init.len() {
                    assert(init[j].key() == key);
                    assert(keys(before).contains(key));
                    let i = choose|i: int|
                        0 <= i < before.len() && (#[trigger] before[i]).key() == key;
                    assert(short[i].key() == key);
                } else if has_key(before, key) {
                    let i = choose|i: int|
                        0 <= i < before.len() && (#[trigger] before[i]).key() == key;
                    assert(short[i].key() == key);
                } else {
                    assert(short[short.len() - 1].key() == key);
                }
            }
        }
        assert forall|i: int| 0 <= i < short.len() implies rows.contains(#[trigger] short[i]) by {
            if i < before.len() {
                let j = choose|j: int| 0 <= j < init.len() && init[j] == before[i];
                assert(rows[j] == short[i]);
            }
        }
    }
}

/// A list without repeated rows is what it is.
pub proof fn lemma_distinct_without_repeats(rows: Seq<RowView>)
    requires
        distinct(rows),
    ensures
        without_repeats(rows) == rows,
    decreases rows.len(),
{
    if rows.len() > 0 {
        let init = rows.drop_last();
        lemma_distinct_without_repeats(init);
        if has_key(init, rows.last().key()) {
            let i = choose|i: int|
                0 <= i < init.len() && (#[trigger] init[i]).key() == rows.last().key();
            assert(rows[i].key() == rows[rows.len() - 1].key());
        }
        assert(init.push(rows.last()) =~= rows);
    }
}

/// Whether `rows` has a row equal to `row`.
pub fn contains_row(rows: &Vec<Row>, row: &Row) -> (found: bool)
    ensures
        found == has_key(rows.deep_view(), row@.key()),
{
    let mut i: usize = 0;
    while i < rows.len()
        invariant
            i <= rows.len(),
            forall|j: int| 0 <= j < i ==> rows@[j]@.key() != row@.key(),
        decreases rows.len() - i,
    {
        if rows[i] == *row {
            assert(rows.deep_view()[i as int].key() == row@.key());
            return true;
        }
        i += 1;
    }
    false
}

/// The rows without those that are equal to an earlier row.
pub fn unique(rows: Vec<Row>) -> (set: Vec<Row>)
    ensures
        set.deep_view() == without_repeats(rows.deep_view()),
{
    let mut set: Vec<Row> = Vec::new();
    let mut rows = rows;
    let ghost all = rows.deep_view();
    let n = rows.len();
    let mut i: usize = 0;
    while i < n
        invariant
            i <= n,
            n == rows.len(),
            rows.deep_view() == all,
            set.deep_view() == without_repeats(all.take(i as int)),
        decreases n - i,
    {
        assert(all.take(i + 1).drop_last() =~= all.take(i as int));
        if !contains_row(&set, &rows[i]) {
            set.push(rows[i].clone());
        }
        i += 1;
    }
    assert(all.take(n as int) =~= all);
    set
}

/// Whether every row of `a` has an equal in `b`.
pub fn subset(a: &Vec<Row>, b: &Vec<Row>) -> (all: bool)
    ensures
        all == keys(a.deep_view()).subset_of(keys(b.deep_view())),
{
    let mut i: usize = 0;
    while i < a.len()
        invariant
            i <= a.len(),
            forall|j: int| 0 <= j < i ==> has_key(b.deep_view(), (#[trigger] a@[j])@.key()),
        decreases a.len() - i,
    {
        if !contains_row(b, &a[i]) {
            assert(a.deep_view()[i as int].key() == a@[i as int]@.key());
            assert(!keys(b.deep_view()).contains(a@[i as int]@.key()));
            return false;
        }
        i += 1;
    }
    assert forall|key: RowKey| keys(a.deep_view()).contains(key) implies keys(
        b.deep_view(),
    ).contains(key) by {
        let j = choose|j: int|
            0 <= j < a.deep_view().len() && (#[trigger] a.deep_view()[j]).key() == key;
        assert(a.deep_view()[j] == a@[j]@);
    }
    true
}

/// Whether two lists hold the same rows, in whatever order and however
/// often.
pub fn same_rows(a: &Vec<Row>, b: &Vec<Row>) -> (same: bool)
    ensures
        same == (keys(a.deep_view()) == keys(b.deep_view())),
{
    let same = subset(a, b) && subset(b, a);
    proof {
        if same {
            assert(keys(a.deep_view()) =~= keys(b.deep_view()));
        }
    }
    same
}

} // verus!
