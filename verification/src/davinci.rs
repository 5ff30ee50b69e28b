//! The store of the latest plan, and the timetable that follows from it.

use crate::crawl::{Crawl, CrawlView, FetchError, Stage, fetched, page_date, page_table};
use crate::date::Date;
use crate::extractor::{COLUMNS, ParseError, lemma_first_row_is_complete};
use crate::page::{MAX_PAGE_BYTES, MAX_PAGE_TAGS, rfc2822_seconds_of, start_tags};
use crate::text::is_blank;
use crate::engine::{DayState, apply_all, apply_rows, base_day, day_of};
use crate::iteration::{Period, get_iteration, iteration_of};
use crate::row::{Row, RowView, clone_texts};
use crate::store::{
    distinct,
    keys,
    lemma_distinct_without_repeats,
    lemma_without_repeats,
    same_rows,
    unique,
    without_repeats,
};
use crate::timetable::Lesson;
use vstd::prelude::*;
use vstd::string::StringSliceAdditionalSpecFns;

verus! {

/// What a crawl of the plan has brought. Times are seconds since the Unix
/// epoch.
#[derive(Debug)]
pub struct Data {
    /// When the plan was last crawled.
    pub last_checked: i64,
    /// The latest time at which the server says a page of the plan was
    /// modified.
    pub last_modified: Option<i64>,
    /// The rows of the plan, none of them twice.
    pub rows: Vec<Row>,
}

/// The mathematical value of [`Data`].
pub struct DataView {
    pub last_checked: i64,
    pub last_modified: Option<i64>,
    pub rows: Seq<RowView>,
}

impl View for Data {
    type V = DataView;

    open spec fn view(&self) -> DataView {
        DataView {
            last_checked: self.last_checked,
            last_modified: self.last_modified,
            rows: self.rows.deep_view(),
        }
    }
}

impl DeepView for Data {
    type V = DataView;

    open spec fn deep_view(&self) -> DataView {
        self@
    }
}

/// The store after a crawl that brought `rows`, and whether the plan has
/// changed.
///
/// Where the store holds the same rows already, in whatever order, only the
/// time of the last check moves on. Else the store is replaced as a whole: it
/// then holds the new rows, each once.
pub open spec fn updated(
    store: Option<DataView>,
    rows: Seq<RowView>,
    last_modified: Option<i64>,
    now: i64,
) -> (Option<DataView>, bool) {
    if store is Some && keys(store->0.rows) == keys(rows) {
        (Some(DataView { last_checked: now, ..store->0 }), false)
    } else {
        (Some(DataView { last_checked: now, last_modified, rows: without_repeats(rows) }), true)
    }
}

/// The store after a crawl has been handed in at the time `now`, and whether
/// the plan has changed. A complete crawl is taken in as [`updated`] says. A
/// crawl that is not complete, because it has failed or because pages are
/// left, is not taken in: the store stays as it is.
pub open spec fn absorbed(store: Option<DataView>, crawl: CrawlView, now: i64) -> (
    Option<DataView>,
    Option<bool>,
) {
    if crawl.stage == Stage::Complete {
        let after = updated(store, crawl.rows, crawl.last_modified, now);
        (after.0, Some(after.1))
    } else {
        (store, None)
    }
}

/// The raw columns of the rows of `date` that stand at position `index` of
/// their page, in the order of the rows.
pub open spec fn raws_at(rows: Seq<RowView>, date: Date, index: u8) -> Seq<Seq<Seq<char>>>
    decreases rows.len(),
{
    if rows.len() == 0 {
        Seq::empty()
    } else if rows.last().date == date && rows.last().index == index {
        raws_at(rows.drop_last(), date, index).push(rows.last().raw)
    } else {
        raws_at(rows.drop_last(), date, index)
    }
}

/// The raw columns of the rows of `date` whose position is below `bound`,
/// ordered by position.
pub open spec fn table_below(rows: Seq<RowView>, date: Date, bound: int) -> Seq<Seq<Seq<char>>>
    decreases bound,
{
    if bound <= 0 {
        Seq::empty()
    } else {
        table_below(rows, date, bound - 1) + raws_at(rows, date, (bound - 1) as u8)
    }
}

/// The plan of one date as a table: the raw columns of its rows, ordered by
/// their position on the page; rows at the same position keep their order.
pub open spec fn table_of(rows: Seq<RowView>, date: Date) -> Seq<Seq<Seq<char>>> {
    table_below(rows, date, 256)
}

/// The plan of one date as a table.
pub fn table(rows: &Vec<Row>, date: &Date) -> (table: Vec<Vec<String>>)
    ensures
        table.deep_view() == table_of(rows.deep_view(), *date),
{
    let mut table: Vec<Vec<String>> = Vec::new();
    let ghost all = rows.deep_view();
    let mut index: u16 = 0;
    while index < 256
        invariant
            index <= 256,
            all == rows.deep_view(),
            table.deep_view() == table_below(all, *date, index as int),
        decreases 256 - index,
    {
        let ghost done = table.deep_view();
        let mut i: usize = 0;
        while i < rows.len()
            invariant
                i <= rows.len(),
                index < 256,
                all == rows.deep_view(),
                table.deep_view() == done + raws_at(all.take(i as int), *date, index as u8),
            decreases rows.len() - i,
        {
            let ghost before = table.deep_view();
            let row = &rows[i];
            assert(all.take(i + 1).drop_last() =~= all.take(i as int));
            if row.date == *date && row.index as u16 == index {
                table.push(clone_texts(&row.raw));
                assert(before.push(row@.raw) =~= done + raws_at(
                    all.take(i as int),
                    *date,
                    index as u8,
                ).push(row@.raw));
            }
            i += 1;
        }
        assert(all.take(rows.len() as int) =~= all);
        index += 1;
    }
    table
}

/// Notes the time of a crawl that brought nothing new.
fn set_last_checked(data: &mut Option<Data>, now: i64)
    ensures
        final(data).deep_view() == match old(data).deep_view() {
            Some(held) => Some(DataView { last_checked: now, ..held }),
            None => None,
        },
    no_unwind
{
    match data {
        Some(held) => {
            held.last_checked = now;
        },
        None => {},
    }
}

/// The store of the latest plan.
pub struct Davinci {
    username: String,
    password: String,
    entrypoint: String,
    data: Option<Data>,
}

/// The mathematical value of a [`Davinci`] store.
pub struct DavinciView {
    /// The address of the first page of the plan.
    pub entrypoint: Seq<char>,
    /// The name to fetch the plan with.
    pub username: Seq<char>,
    /// The password to fetch the plan with.
    pub password: Seq<char>,
    /// What the latest crawl has brought: nothing before the first crawl.
    pub data: Option<DataView>,
}

impl View for Davinci {
    type V = DavinciView;

    closed spec fn view(&self) -> DavinciView {
        DavinciView {
            entrypoint: self.entrypoint@,
            username: self.username@,
            password: self.password@,
            data: self.data.deep_view(),
        }
    }
}

impl Davinci {
    #[verifier::type_invariant]
    spec fn well_formed(self) -> bool {
        self.data matches Some(data) ==> distinct(data@.rows)
    }

    /// What the store holds: nothing before the first crawl.
    pub open spec fn snapshot(self) -> Option<DataView> {
        self@.data
    }

    /// An empty store for the plan at `entrypoint`.
    pub fn new(entrypoint: String, username: String, password: String) -> (store: Self)
        ensures
            store@ == (DavinciView {
                entrypoint: entrypoint@,
                username: username@,
                password: password@,
                data: None,
            }),
    {
        Self { username, password, entrypoint, data: None }
    }

    /// The address of the first page of the plan.
    pub fn entrypoint(&self) -> (entrypoint: &String)
        ensures
            entrypoint@ == self@.entrypoint,
    {
        &self.entrypoint
    }

    /// The name to fetch the plan with.
    pub fn username(&self) -> (username: &String)
        ensures
            username@ == self@.username,
    {
        &self.username
    }

    /// The password to fetch the plan with.
    pub fn password(&self) -> (password: &String)
        ensures
            password@ == self@.password,
    {
        &self.password
    }

    /// What the store holds. No row is there twice.
    pub fn data(&self) -> (data: &Option<Data>)
        ensures
            data.deep_view() == self.snapshot(),
            data matches Some(held) ==> distinct(held@.rows),
    {
        proof {
            use_type_invariant(self);
        }
        &self.data
    }

    /// Takes in the rows of a finished crawl, the latest modification time
    /// that its pages had, and the time of the crawl. Tells whether the plan
    /// has changed.
    pub fn update(&mut self, rows: Vec<Row>, last_modified: Option<i64>, now: i64) -> (changed:
        bool)
        ensures
            (final(self).snapshot(), changed) == updated(
                old(self).snapshot(),
                rows.deep_view(),
                last_modified,
                now,
            ),
            final(self)@ == (DavinciView { data: final(self).snapshot(), ..old(self)@ }),
    {
        proof {
            use_type_invariant(&*self);
            lemma_without_repeats(rows.deep_view());
        }
        let set = unique(rows);
        let same = match &self.data {
            Some(held) => same_rows(&held.rows, &set),
            None => false,
        };
        if same {
            set_last_checked(&mut self.data, now);
            false
        } else {
            self.data = Some(Data { last_checked: now, last_modified, rows: set });
            true
        }
    }

    /// Takes in a crawl at the time `now`. Tells whether the plan has
    /// changed; `None` for a crawl that is not complete, which leaves the store
    /// as it is.
    pub fn update_from(&mut self, crawl: Crawl, now: i64) -> (changed: Option<bool>)
        ensures
            (final(self).snapshot(), changed) == absorbed(old(self).snapshot(), crawl@, now),
            final(self)@ == (DavinciView { data: final(self).snapshot(), ..old(self)@ }),
    {
        match crawl.finish() {
            Some((rows, last_modified)) => Some(self.update(rows, last_modified, now)),
            None => None,
        }
    }

    /// The timetable of `date` with the plan applied to it: the time at which
    /// the plan was last modified, the lessons of the day, the rows for this
    /// day that could not be applied, and the week of the rotation that the
    /// calendar gives for the date. `None` where the calendar gives no week
    /// for the date.
    pub fn get_applied_timetable(&self, date: Date, calendar: &Vec<Period>) -> (r: Option<
        (Option<i64>, Vec<Lesson>, Vec<Row>, u8),
    >)
        ensures
            iteration_of(calendar@, date) is None ==> r is None,
            iteration_of(calendar@, date) matches Some(week) ==> {
                &&& r matches Some((last_modified, day, unknown, turn))
                &&& turn == week
                &&& last_modified == match self.snapshot() {
                    Some(data) => data.last_modified,
                    None => None,
                }
                &&& (DayState { day: day.deep_view(), unknown: unknown.deep_view() }) == apply_rows(
                    date,
                    base_day(date.spec_weekday(), week),
                    match self.snapshot() {
                        Some(data) => data.rows,
                        None => Seq::empty(),
                    },
                )
            },
    {
        let week = match get_iteration(calendar, date) {
            None => {
                return None;
            },
            Some(week) => week,
        };
        let mut day = day_of(date.weekday(), week);
        match &self.data {
            Some(data) => {
                let unknown = apply_all(&date, &mut day, &data.rows);
                Some((data.last_modified, day, unknown, week))
            },
            None => {
                let unknown: Vec<Row> = Vec::new();
                assert(unknown.deep_view() =~= Seq::<RowView>::empty());
                Some((None, day, unknown, week))
            },
        }
    }

    /// The plan of one date as a table, for display: the raw columns of the
    /// rows of that date, ordered by their position on the page. `None`
    /// before the first crawl.
    pub fn get_table(&self, date: &Date) -> (r: Option<Vec<Vec<String>>>)
        ensures
            r.deep_view() == match self.snapshot() {
                Some(data) => Some(table_of(data.rows, *date)),
                None => None,
            },
    {
        match &self.data {
            Some(data) => Some(table(&data.rows, date)),
            None => None,
        }
    }
}

/// A page that an open crawl cannot read leaves the store as it was: the
/// crawl has failed, and a failed crawl is not taken in.
pub proof fn lemma_failed_crawl_leaves_store(
    store: Option<DataView>,
    crawl: CrawlView,
    html: &str,
    header: Option<Seq<char>>,
    now: i64,
)
    requires
        crawl.stage == Stage::Open,
        fetched(crawl, html, header).1 is Err,
    ensures
        fetched(crawl, html, header).0.stage == Stage::Failed,
        absorbed(store, fetched(crawl, html, header).0, now) == (store, None::<bool>),
{
}

/// A page whose first row leaves the class column or the slot column blank
/// fails the crawl, and the store stays as it was.
pub proof fn lemma_blank_first_row_leaves_store(
    store: Option<DataView>,
    crawl: CrawlView,
    html: &str,
    header: Seq<char>,
    now: i64,
)
    requires
        crawl.stage == Stage::Open,
        rfc2822_seconds_of(header) is Some,
        html.spec_bytes().len() <= MAX_PAGE_BYTES,
        start_tags(html.spec_bytes()) <= MAX_PAGE_TAGS,
        page_date(html@) is Some,
        page_table(html@) is Some,
        page_table(html@)->0.len() > 0,
        page_table(html@)->0[0].len() == COLUMNS,
        is_blank(page_table(html@)->0[0][0]) || is_blank(page_table(html@)->0[0][1]),
    ensures
        fetched(crawl, html, Some(header)).1 == Err::<bool, FetchError>(
            FetchError::Row(
                if is_blank(page_table(html@)->0[0][0]) {
                    ParseError::MissingClass
                } else {
                    ParseError::MissingSlot
                },
            ),
        ),
        absorbed(store, fetched(crawl, html, Some(header)).0, now) == (store, None::<bool>),
{
    lemma_first_row_is_complete(page_table(html@)->0, page_date(html@)->0);
}

/// A second crawl that brings the same rows as the first reports no change:
/// the store keeps its rows and its time of modification, and only the time
/// of the last check moves on.
pub proof fn lemma_update_idempotent(
    store: Option<DataView>,
    rows: Seq<RowView>,
    first_modified: Option<i64>,
    first_checked: i64,
    second_modified: Option<i64>,
    second_checked: i64,
)
    ensures
        ({
            let first = updated(store, rows, first_modified, first_checked);
            let second = updated(first.0, rows, second_modified, second_checked);
            &&& first.0 is Some
            &&& !second.1
            &&& second.0 == Some(DataView { last_checked: second_checked, ..first.0->0 })
            &&& keys(second.0->0.rows) == keys(rows)
        }),
{
    lemma_without_repeats(rows);
}

/// A crawl whose rows are not those that the store holds reports a change,
/// and the store then holds exactly the rows of that crawl, each once.
pub proof fn lemma_update_detects_change(
    store: Option<DataView>,
    rows: Seq<RowView>,
    last_modified: Option<i64>,
    now: i64,
)
    requires
        store matches Some(data) ==> keys(data.rows) != keys(rows),
    ensures
        ({
            let after = updated(store, rows, last_modified, now);
            &&& after.1
            &&& after.0 matches Some(data)
            &&& keys(data.rows) == keys(rows)
            &&& distinct(data.rows)
            &&& data.last_checked == now
            &&& data.last_modified == last_modified
        }),
{
    lemma_without_repeats(rows);
}

/// Two crawls that differ in one row only: the row that the second crawl has
/// there is another row than that of the first, by date, classes or
/// substitution. Where the first crawl holds no row twice, the second crawl
/// reports a change, and the store then holds exactly its rows.
pub proof fn lemma_one_row_changed(
    store: Option<DataView>,
    first: Seq<RowView>,
    second: Seq<RowView>,
    at: int,
    first_modified: Option<i64>,
    first_checked: i64,
    second_modified: Option<i64>,
    second_checked: i64,
)
    requires
        distinct(first),
        0 <= at < first.len(),
        second == first.update(at, second[at]),
        second[at].key() != first[at].key(),
    ensures
        ({
            let before = updated(store, first, first_modified, first_checked);
            let after = updated(before.0, second, second_modified, second_checked);
            &&& after.1
            &&& after.0 matches Some(data)
            &&& keys(data.rows) == keys(second)
            &&& distinct(data.rows)
            &&& distinct(second) ==> data.rows == second
        }),
{
    lemma_without_repeats(first);
    lemma_without_repeats(second);
    if distinct(second) {
        lemma_distinct_without_repeats(second);
    }
    // The key of the row that was there is a key of the first crawl and no
    // key of the second.
    let gone = first[at].key();
    assert(keys(first).contains(gone));
    if keys(second).contains(gone) {
        let j = choose|j: int| 0 <= j < second.len() && (#[trigger] second[j]).key() == gone;
        assert(j != at);
        assert(second[j] == first[j]);
        assert(false);
    }
}

} // verus!
