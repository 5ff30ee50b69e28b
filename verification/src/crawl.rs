//! A crawl of the plan, page by page. The caller fetches each page and hands
//! it in; the crawl reads it and says where to go next.

use crate::date::Date;
use crate::extractor::{
    ParseError,
    extract_date,
    extract_next_page,
    first_date,
    first_reference,
    lemma_first_date_of_both,
    parse,
    rows_of_table,
};
use crate::page::{
    MAX_PAGE_BYTES,
    MAX_PAGE_TAGS,
    attribute_values,
    attributes_of,
    bodies_of,
    element_texts,
    join_url,
    joined_url_of,
    normal_url,
    normal_url_of,
    origin,
    origin_of,
    is_letter,
    is_web,
    opens_tag,
    rfc2822_seconds,
    rfc2822_seconds_of,
    start_tags,
    start_tags_before,
    table_bodies,
    texts_of,
};
use crate::row::{Row, RowView};
use crate::text::{has_prefix, str_eq};
use vstd::prelude::*;
use vstd::string::StringSliceAdditionalSpecFns;

verus! {

/// The number of kinds of heading: `h1` to `h6`.
pub const HEADINGS: usize = 6;

/// The name of the element that holds the rows of the plan.
pub const TABLE_BODY: &'static str = "tbody";

/// The name of the element that holds one row of the plan.
pub const TABLE_ROW: &'static str = "tr";

/// The name of the element that holds one column of a row.
pub const TABLE_CELL: &'static str = "td";

/// The name of the attribute that holds the handler of a control.
pub const HANDLER: &'static str = "onclick";

/// How the `url` crate writes the origin of an address that has no scheme,
/// host and port of its own.
pub const NO_ORIGIN: &'static str = "null";

/// Why a page ends the crawl without a result.
#[derive(Clone, Copy, Debug, PartialEq, Eq, Structural)]
pub enum FetchError {
    /// The crawl is complete or has failed: it takes no more pages.
    Closed,
    /// The server did not say when the page was last modified.
    LastModified,
    /// The time of the last modification is no date in the format of RFC
    /// 2822.
    LastModifiedFormat,
    /// The page is longer than the HTML parser takes.
    TooLarge,
    /// The page has more start tags than the HTML parser is given.
    TooManyTags,
    /// No heading of the page names a date.
    Date,
    /// The page has no table body.
    Table,
    /// The table of the page cannot be read.
    Row(ParseError),
    /// The reference to the next page cannot be resolved.
    Link,
}

/// How far a crawl has come.
#[derive(Clone, Copy, Debug, PartialEq, Eq, Structural)]
pub enum Stage {
    /// The page at the address of the crawl is to be fetched.
    Open,
    /// The last page has been read.
    Complete,
    /// A page could not be read.
    Failed,
}

/// An address of the web.
struct Address {
    text: String,
}

impl Address {
    #[verifier::type_invariant]
    spec fn of_the_web(self) -> bool {
        is_web(self.text@)
    }
}

/// A crawl of the plan.
pub struct Crawl {
    url: Address,
    rows: Vec<Row>,
    last_modified: Option<i64>,
    stage: Stage,
}

/// The mathematical value of a [`Crawl`].
pub struct CrawlView {
    /// The address of the page to fetch next, or of the last page that was
    /// handed in once the crawl is complete or has failed.
    pub url: Seq<char>,
    /// The rows of the pages read so far, in the order in which they were
    /// read.
    pub rows: Seq<RowView>,
    /// The latest time of modification among the pages read so far.
    pub last_modified: Option<i64>,
    pub stage: Stage,
}

impl View for Crawl {
    type V = CrawlView;

    closed spec fn view(&self) -> CrawlView {
        CrawlView {
            url: self.url.text@,
            rows: self.rows.deep_view(),
            last_modified: self.last_modified,
            stage: self.stage,
        }
    }
}

/// The later of two times, of which the first may be missing.
pub open spec fn later(known: Option<i64>, new: i64) -> Option<i64> {
    match known {
        Some(time) => if time < new {
            Some(new)
        } else {
            known
        },
        None => Some(new),
    }
}

/// The name of a kind of heading, the largest first.
pub open spec fn heading_name(level: int) -> Seq<char> {
    if level == 0 {
        "h1"@
    } else if level == 1 {
        "h2"@
    } else if level == 2 {
        "h3"@
    } else if level == 3 {
        "h4"@
    } else if level == 4 {
        "h5"@
    } else {
        "h6"@
    }
}

/// The texts of the headings of a page of the first `levels` kinds: those of
/// a larger kind before those of a smaller, each kind in the order of the
/// page.
pub open spec fn headings_of(html: Seq<char>, levels: int) -> Seq<Seq<char>>
    decreases levels,
{
    if levels <= 0 {
        Seq::empty()
    } else {
        headings_of(html, levels - 1) + texts_of(html, heading_name(levels - 1))
    }
}

/// The date of a page: that of the first of its headings that names one.
pub open spec fn page_date(html: Seq<char>) -> Option<Date> {
    first_date(headings_of(html, HEADINGS as int))
}

/// The table of a page: the rows and cells of its first table body.
pub open spec fn page_table(html: Seq<char>) -> Option<Seq<Seq<Seq<char>>>> {
    let bodies = bodies_of(html, TABLE_BODY@, TABLE_ROW@, TABLE_CELL@);
    if bodies.len() == 0 {
        None
    } else {
        Some(bodies[0])
    }
}

/// The reference of a page to the page that follows it: that of the first of
/// its handlers that holds one.
pub open spec fn page_reference(html: Seq<char>) -> Option<Seq<char>> {
    first_reference(attributes_of(html, HANDLER@))
}

/// Whether a crawl goes on from the page at `url` to the page at `next`: it
/// does where `next` is another address of the same origin. The origin is
/// asked of addresses of the web only; an address that is not of the web has
/// another origin than one that is, and a crawl is at an address of the web.
pub open spec fn follows(url: Seq<char>, next: Seq<char>) -> bool {
    &&& next != url
    &&& is_web(next)
    &&& origin_of(url) is Some
    &&& origin_of(url) != Some(NO_ORIGIN@)
    &&& origin_of(next) == origin_of(url)
}

/// The address of the page that follows the page at `url`, where that page
/// holds `reference`. The reference is resolved against `url`. No page
/// follows where there is no reference, or where the crawl does not go on to
/// the address that it leads to.
pub open spec fn next_url_by(url: Seq<char>, reference: Option<Seq<char>>) -> Result<
    Option<Seq<char>>,
    FetchError,
> {
    match reference {
        None => Ok(None),
        Some(reference) => match joined_url_of(url, reference) {
            None => Err(FetchError::Link),
            Some(next) => if follows(url, next) {
                Ok(Some(next))
            } else {
                Ok(None)
            },
        },
    }
}

/// An open crawl after the page at its address has been read, and whether
/// another page follows. `header` is what the server gave as the time of the
/// last modification.
pub open spec fn crawl_step(state: CrawlView, html: &str, header: Option<Seq<char>>) -> Result<
    (CrawlView, bool),
    FetchError,
> {
    if header is None {
        Err(FetchError::LastModified)
    } else if rfc2822_seconds_of(header->0) is None {
        Err(FetchError::LastModifiedFormat)
    } else if html.spec_bytes().len() > MAX_PAGE_BYTES {
        Err(FetchError::TooLarge)
    } else if start_tags(html.spec_bytes()) > MAX_PAGE_TAGS {
        Err(FetchError::TooManyTags)
    } else if page_date(html@) is None {
        Err(FetchError::Date)
    } else if page_table(html@) is None {
        Err(FetchError::Table)
    } else {
        let modified = rfc2822_seconds_of(header->0)->0;
        match rows_of_table(page_table(html@)->0, page_date(html@)->0) {
            Err(error) => Err(FetchError::Row(error)),
            Ok(read) => match next_url_by(state.url, page_reference(html@)) {
                Err(error) => Err(error),
                Ok(next) => Ok(
                    (
                        CrawlView {
                            url: match next {
                                Some(address) => address,
                                None => state.url,
                            },
                            rows: state.rows + read,
                            last_modified: later(state.last_modified, modified),
                            stage: if next is Some {
                                Stage::Open
                            } else {
                                Stage::Complete
                            },
                        },
                        next is Some,
                    ),
                ),
            },
        }
    }
}

/// A crawl after a page has been handed in, and what the crawl says of it. A
/// crawl that is not open refuses the page. A page that cannot be read makes
/// the crawl fail, with the rows and the time that it had.
pub open spec fn fetched(state: CrawlView, html: &str, header: Option<Seq<char>>) -> (
    CrawlView,
    Result<bool, FetchError>,
) {
    if state.stage != Stage::Open {
        (state, Err(FetchError::Closed))
    } else {
        match crawl_step(state, html, header) {
            Ok((after, more)) => (after, Ok(more)),
            Err(error) => (CrawlView { stage: Stage::Failed, ..state }, Err(error)),
        }
    }
}

/// The name of a kind of heading.
fn heading(level: usize) -> (name: &'static str)
    requires
        level < HEADINGS,
    ensures
        name@ == heading_name(level as int),
{
    if level == 0 {
        "h1"
    } else if level == 1 {
        "h2"
    } else if level == 2 {
        "h3"
    } else if level == 3 {
        "h4"
    } else if level == 4 {
        "h5"
    } else {
        "h6"
    }
}

/// The places at which a start tag may open get no fewer as a page goes on.
proof fn lemma_start_tags_grow(bytes: Seq<u8>, end: int)
    requires
        0 <= end <= bytes.len(),
    ensures
        start_tags_before(bytes, end) <= start_tags(bytes),
    decreases bytes.len() - end,
{
    if end < bytes.len() {
        lemma_start_tags_grow(bytes, end + 1);
    }
}

/// Whether a page has no more start tags than the HTML parser is given.
fn few_tags(html: &str) -> (few: bool)
    ensures
        few == (start_tags(html.spec_bytes()) <= MAX_PAGE_TAGS),
{
    let bytes = html.as_bytes();
    let mut count: usize = 0;
    let mut i: usize = 0;
    while i < bytes.len()
        invariant
            i <= bytes.len(),
            bytes@ == html.spec_bytes(),
            count == start_tags_before(bytes@, i as int),
            count <= MAX_PAGE_TAGS,
        decreases bytes.len() - i,
    {
        if bytes[i] == 0x3c && i + 1 < bytes.len() && letter(bytes[i + 1]) {
            if count == MAX_PAGE_TAGS {
                proof {
                    lemma_start_tags_grow(bytes@, i + 1);
                }
                return false;
            }
            count += 1;
        }
        i += 1;
    }
    true
}

/// Whether a byte is an ASCII letter.
fn letter(byte: u8) -> (found: bool)
    ensures
        found == is_letter(byte),
{
    (0x41 <= byte && byte <= 0x5a) || (0x61 <= byte && byte <= 0x7a)
}

/// Whether an address is one of the web.
fn web(address: &str) -> (found: bool)
    ensures
        found == is_web(address@),
{
    has_prefix(address, "http://") || has_prefix(address, "https://")
}

/// Finds the date of a page.
fn date_of_page(html: &str) -> (date: Option<Date>)
    requires
        html.spec_bytes().len() <= MAX_PAGE_BYTES,
        start_tags(html.spec_bytes()) <= MAX_PAGE_TAGS,
    ensures
        date == page_date(html@),
{
    let mut level: usize = 0;
    while level < HEADINGS
        invariant
            level <= HEADINGS,
            html.spec_bytes().len() <= MAX_PAGE_BYTES,
            start_tags(html.spec_bytes()) <= MAX_PAGE_TAGS,
            first_date(headings_of(html@, level as int)) is None,
        decreases HEADINGS - level,
    {
        let texts = element_texts(html, heading(level));
        let found = extract_date(&texts);
        proof {
            lemma_first_date_of_both(headings_of(html@, level as int), texts.deep_view());
        }
        if found.is_some() {
            proof {
                lemma_date_found(html@, level + 1);
            }
            return found;
        }
        level += 1;
    }
    None
}

/// A date that the headings of the first kinds give is the date of the
/// page.
proof fn lemma_date_found(html: Seq<char>, levels: int)
    requires
        0 <= levels <= HEADINGS,
        first_date(headings_of(html, levels)) is Some,
    ensures
        page_date(html) == first_date(headings_of(html, levels)),
    decreases HEADINGS - levels,
{
    if levels < HEADINGS {
        lemma_first_date_of_both(headings_of(html, levels), texts_of(html, heading_name(levels)));
        lemma_date_found(html, levels + 1);
    }
}

/// Finds the address of the page that follows the page at `url`.
fn follow(url: &String, reference: Option<String>) -> (r: Result<Option<String>, FetchError>)
    requires
        is_web(url@),
    ensures
        match r {
            Ok(next) => next_url_by(url@, reference.deep_view()) == Ok::<
                Option<Seq<char>>,
                FetchError,
            >(next.deep_view()),
            Err(error) => next_url_by(url@, reference.deep_view()) == Err::<
                Option<Seq<char>>,
                FetchError,
            >(error),
        },
        r matches Ok(Some(next)) ==> is_web(next@),
{
    let reference = match reference {
        None => {
            return Ok(None);
        },
        Some(reference) => reference,
    };
    let next = match join_url(url.as_str(), reference.as_str()) {
        None => {
            return Err(FetchError::Link);
        },
        Some(next) => next,
    };
    if next == *url || !web(next.as_str()) {
        return Ok(None);
    }
    let here = match origin(url.as_str()) {
        None => {
            return Ok(None);
        },
        Some(here) => here,
    };
    if str_eq(here.as_str(), NO_ORIGIN) {
        return Ok(None);
    }
    match origin(next.as_str()) {
        Some(there) => if there == here {
            Ok(Some(next))
        } else {
            Ok(None)
        },
        None => Ok(None),
    }
}

/// The later of two times, of which the first may be missing.
fn max_time(known: Option<i64>, new: i64) -> (time: Option<i64>)
    ensures
        time == later(known, new),
{
    match known {
        Some(time) => if time < new {
            Some(new)
        } else {
            known
        },
        None => Some(new),
    }
}

impl Crawl {
    /// A crawl that starts at `entrypoint`; `None` where that is no absolute
    /// address of the web.
    pub fn new(entrypoint: &str) -> (crawl: Option<Crawl>)
        ensures
            match crawl {
                Some(crawl) => {
                    &&& normal_url_of(entrypoint@) == Some(crawl@.url)
                    &&& is_web(crawl@.url)
                    &&& crawl@.rows == Seq::<RowView>::empty()
                    &&& crawl@.last_modified is None
                    &&& crawl@.stage == Stage::Open
                },
                None => normal_url_of(entrypoint@) matches Some(address) ==> !is_web(address),
            },
    {
        match normal_url(entrypoint) {
            Some(text) => if web(text.as_str()) {
                Some(
                    Crawl {
                        url: Address { text },
                        rows: Vec::new(),
                        last_modified: None,
                        stage: Stage::Open,
                    },
                )
            } else {
                None
            },
            None => None,
        }
    }

    /// The address of the page to fetch next. It is an address of the web.
    pub fn url(&self) -> (url: &String)
        ensures
            url@ == self@.url,
            is_web(url@),
    {
        proof {
            use_type_invariant(&self.url);
        }
        &self.url.text
    }

    /// How far the crawl has come.
    pub fn stage(&self) -> (stage: Stage)
        ensures
            stage == self@.stage,
    {
        self.stage
    }

    /// Reads one page of an open crawl: see [`crawl_step`].
    fn step(&mut self, html: &str, last_modified: Option<&str>) -> (r: Result<bool, FetchError>)
        requires
            old(self)@.stage == Stage::Open,
        ensures
            match r {
                Ok(more) => crawl_step(old(self)@, html, last_modified.deep_view()) == Ok::<
                    (CrawlView, bool),
                    FetchError,
                >((final(self)@, more)),
                Err(error) => {
                    &&& crawl_step(old(self)@, html, last_modified.deep_view()) == Err::<
                        (CrawlView, bool),
                        FetchError,
                    >(error)
                    &&& final(self)@ == old(self)@
                },
            },
    {
        let header = match last_modified {
            None => {
                return Err(FetchError::LastModified);
            },
            Some(header) => header,
        };
        let modified = match rfc2822_seconds(header) {
            None => {
                return Err(FetchError::LastModifiedFormat);
            },
            Some(modified) => modified,
        };
        if html.as_bytes().len() > MAX_PAGE_BYTES {
            return Err(FetchError::TooLarge);
        }
        if !few_tags(html) {
            return Err(FetchError::TooManyTags);
        }
        let date = match date_of_page(html) {
            None => {
                return Err(FetchError::Date);
            },
            Some(date) => date,
        };
        let bodies = table_bodies(html, TABLE_BODY, TABLE_ROW, TABLE_CELL);
        if bodies.len() == 0 {
            return Err(FetchError::Table);
        }
        let mut read: Vec<Row> = Vec::new();
        match parse(&bodies[0], &date, &mut read) {
            Err(error) => {
                return Err(FetchError::Row(error));
            },
            Ok(_) => {},
        }
        let handlers = attribute_values(html, HANDLER);
        proof {
            use_type_invariant(&self.url);
        }
        let next = match follow(&self.url.text, extract_next_page(&handlers)) {
            Err(error) => {
                return Err(error);
            },
            Ok(next) => next,
        };
        let ghost held = self.rows.deep_view();
        let ghost added = read.deep_view();
        self.rows.append(&mut read);
        assert(self.rows.deep_view() =~= held + added);
        self.last_modified = max_time(self.last_modified, modified);
        match next {
            Some(text) => {
                self.url = Address { text };
                Ok(true)
            },
            None => {
                self.stage = Stage::Complete;
                Ok(false)
            },
        }
    }

    /// Takes in the page at [`Crawl::url`], with what the server gave as the
    /// time of its last modification. Tells whether another page follows; its
    /// address is then the new [`Crawl::url`]. With the last page the crawl is
    /// complete.
    ///
    /// A page that cannot be read makes the crawl fail. A crawl that is
    /// complete or has failed takes no more pages.
    pub fn fetch(&mut self, html: &str, last_modified: Option<&str>) -> (r: Result<bool, FetchError>)
        ensures
            (final(self)@, r) == fetched(old(self)@, html, last_modified.deep_view()),
            is_web(old(self)@.url),
            is_web(final(self)@.url),
    {
        proof {
            use_type_invariant(&self.url);
        }
        match self.stage {
            Stage::Open => {},
            _ => {
                return Err(FetchError::Closed);
            },
        }
        let r = self.step(html, last_modified);
        if r.is_err() {
            self.stage = Stage::Failed;
        }
        r
    }

    /// What a complete crawl has brought: the rows of its pages and the
    /// latest time at which one of them was modified. `None` for a crawl that
    /// is not complete.
    pub fn finish(self) -> (r: Option<(Vec<Row>, Option<i64>)>)
        ensures
            match r {
                Some((rows, last_modified)) => {
                    &&& self@.stage == Stage::Complete
                    &&& rows.deep_view() == self@.rows
                    &&& last_modified == self@.last_modified
                },
                None => self@.stage != Stage::Complete,
            },
    {
        match self.stage {
            Stage::Complete => Some((self.rows, self.last_modified)),
            _ => None,
        }
    }
}

} // verus!
