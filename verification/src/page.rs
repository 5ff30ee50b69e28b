//! What the outside crates read: the elements of an HTML document, the
//! groups that a pattern captures, addresses and times.

use select::document::Document;
use select::predicate::{Attr, Name};
use crate::text::begins_with;
use vstd::prelude::*;
use vstd::string::StringSliceAdditionalSpecFns;

verus! {

/// The longest page, in bytes, that is handed to the HTML parser. The parser
/// holds a text of the page, which can be three times as long as its source,
/// in a buffer that cannot grow beyond 2^31 bytes.
pub const MAX_PAGE_BYTES: usize = 0x1000_0000;

/// The most start tags of a page that is handed to the HTML parser. The
/// `select` crate walks the tree of the page by a function that calls itself
/// once for each level, and the tree is no deeper than twice the number of
/// start tags and a few levels more.
pub const MAX_PAGE_TAGS: usize = 500;

/// Whether a byte is an ASCII letter.
pub open spec fn is_letter(byte: u8) -> bool {
    (0x41 <= byte <= 0x5a) || (0x61 <= byte <= 0x7a)
}

/// Whether a start tag may open at a place of a page: a `<` stands there, and
/// a letter behind it.
pub open spec fn opens_tag(bytes: Seq<u8>, at: int) -> bool {
    0 <= at && at + 1 < bytes.len() && bytes[at] == 0x3c && is_letter(bytes[at + 1])
}

/// The number of places before `end` at which a start tag may open.
pub open spec fn start_tags_before(bytes: Seq<u8>, end: int) -> nat
    decreases end,
{
    if end <= 0 {
        0
    } else if opens_tag(bytes, end - 1) {
        start_tags_before(bytes, end - 1) + 1
    } else {
        start_tags_before(bytes, end - 1)
    }
}

/// The number of places of a page at which a start tag may open. A page has
/// no more start tags than that.
pub open spec fn start_tags(bytes: Seq<u8>) -> nat {
    start_tags_before(bytes, bytes.len() as int)
}

/// Whether an address is one of the web: it begins with `http://` or with
/// `https://`.
pub open spec fn is_web(address: Seq<char>) -> bool {
    begins_with(address, "http://"@) || begins_with(address, "https://"@)
}

/// The text of every element of an HTML document that has the given name, in
/// the order of the document, as the `select` crate reads it.
pub uninterp spec fn texts_of(html: Seq<char>, name: Seq<char>) -> Seq<Seq<char>>;

/// The tables of an HTML document as the `select` crate reads it: for every
/// element with the name `body`, in the order of the document, and for every
/// element with the name `row` below it, the text of every element with the
/// name `cell` below that.
pub uninterp spec fn bodies_of(html: Seq<char>, body: Seq<char>, row: Seq<char>, cell: Seq<char>) -> Seq<
    Seq<Seq<Seq<char>>>,
>;

/// For every element of an HTML document that the `select` crate finds to
/// have the given attribute, in the order of the document, the value of that
/// attribute as the crate gives it.
pub uninterp spec fn attributes_of(html: Seq<char>, attribute: Seq<char>) -> Seq<Option<Seq<char>>>;

/// What the `regex` crate finds for a pattern in a text: `None` where the
/// pattern is no regular expression or matches nowhere, else the groups of the
/// leftmost match, the whole match first; a group that took no part in the
/// match is `None`.
pub uninterp spec fn captures_of(pattern: Seq<char>, text: Seq<char>) -> Option<
    Seq<Option<Seq<char>>>,
>;

/// An address as the `url` crate writes it; `None` where the text is no
/// absolute address.
pub uninterp spec fn normal_url_of(text: Seq<char>) -> Option<Seq<char>>;

/// The address that a reference found on the page at `base` leads to, as the
/// `url` crate resolves it; `None` where `base` is no absolute address or the
/// reference cannot be resolved.
pub uninterp spec fn joined_url_of(base: Seq<char>, reference: Seq<char>) -> Option<Seq<char>>;

/// The origin of an address, scheme, host and port, as the `url` crate writes
/// it; `None` where the text is no absolute address. An address without a
/// scheme, host and port of its own is given the origin `null`.
pub uninterp spec fn origin_of(text: Seq<char>) -> Option<Seq<char>>;

/// The time that a date in the format of RFC 2822 names, in seconds since the
/// Unix epoch, as the `time` crate reads it; `None` where the text is no such
/// date.
pub uninterp spec fn rfc2822_seconds_of(text: Seq<char>) -> Option<i64>;

/// Calls `select::document::Document::from`, `Document::find` with the
/// predicate `Name`, and `Node::text`.
///
/// Trusted: the result depends on the document and the name alone. The
/// parser panics where a text outgrows its buffer, and the crate goes as deep
/// as the page is nested, so the caller keeps the page below
/// [`MAX_PAGE_BYTES`] and [`MAX_PAGE_TAGS`].
#[verifier::external_body]
pub(crate) fn element_texts(html: &str, name: &str) -> (texts: Vec<String>)
    requires
        html.spec_bytes().len() <= MAX_PAGE_BYTES,
        start_tags(html.spec_bytes()) <= MAX_PAGE_TAGS,
    ensures
        texts.deep_view() == texts_of(html@, name@),
{
    let document = Document::from(html);
    document.find(Name(name)).map(|node| node.text()).collect()
}

/// Calls `select::document::Document::from`, `Document::find` and
/// `Node::find` with the predicate `Name`, and `Node::text`.
///
/// Trusted: the result depends on the document and the three names alone.
/// The parser panics where a text outgrows its buffer, and the crate goes as
/// deep as the page is nested, so the caller keeps the page below
/// [`MAX_PAGE_BYTES`] and [`MAX_PAGE_TAGS`].
#[verifier::external_body]
pub(crate) fn table_bodies(html: &str, body: &str, row: &str, cell: &str) -> (bodies: Vec<
    Vec<Vec<String>>,
>)
    requires
        html.spec_bytes().len() <= MAX_PAGE_BYTES,
        start_tags(html.spec_bytes()) <= MAX_PAGE_TAGS,
    ensures
        bodies.deep_view() == bodies_of(html@, body@, row@, cell@),
{
    let document = Document::from(html);
    document.find(Name(body)).map(
        |found| found.find(Name(row)).map(
            |line| line.find(Name(cell)).map(|field| field.text()).collect(),
        ).collect(),
    ).collect()
}

/// Calls `select::document::Document::from`, `Document::find` with the
/// predicate `Attr`, and `Node::attr`.
///
/// Trusted: the result depends on the document and the attribute alone. The
/// parser panics where a text outgrows its buffer, and the crate goes as deep
/// as the page is nested, so the caller keeps the page below
/// [`MAX_PAGE_BYTES`] and [`MAX_PAGE_TAGS`].
#[verifier::external_body]
pub(crate) fn attribute_values(html: &str, attribute: &str) -> (values: Vec<Option<String>>)
    requires
        html.spec_bytes().len() <= MAX_PAGE_BYTES,
        start_tags(html.spec_bytes()) <= MAX_PAGE_TAGS,
    ensures
        values.deep_view() == attributes_of(html@, attribute@),
{
    let document = Document::from(html);
    document.find(Attr(attribute, ())).map(|node| node.attr(attribute).map(String::from)).collect()
}

/// Calls `regex::Regex::new`, `Regex::captures`, `Captures::iter` and
/// `Match::as_str`.
///
/// Trusted: the result depends on the pattern and the text alone.
#[verifier::external_body]
pub(crate) fn captures(pattern: &str, text: &str) -> (groups: Option<Vec<Option<String>>>)
    ensures
        groups.deep_view() == captures_of(pattern@, text@),
{
    let regex = regex::Regex::new(pattern).ok()?;
    let found = regex.captures(text)?;
    Some(found.iter().map(|group| group.map(|part| String::from(part.as_str()))).collect())
}

/// Calls `url::Url::parse` and `Url::as_str`.
///
/// Trusted: the result depends on the text alone.
#[verifier::external_body]
pub(crate) fn normal_url(text: &str) -> (address: Option<String>)
    ensures
        address.deep_view() == normal_url_of(text@),
{
    let address = url::Url::parse(text).ok()?;
    Some(String::from(address.as_str()))
}

/// Calls `url::Url::parse`, `Url::join` and `Url::as_str`.
///
/// Trusted: the result depends on the two texts alone.
#[verifier::external_body]
pub(crate) fn join_url(base: &str, reference: &str) -> (address: Option<String>)
    ensures
        address.deep_view() == joined_url_of(base@, reference@),
{
    let base = url::Url::parse(base).ok()?;
    let address = base.join(reference).ok()?;
    Some(String::from(address.as_str()))
}

/// Calls `url::Url::parse`, `Url::origin` and `Origin::ascii_serialization`.
///
/// Trusted: the result depends on the text alone. For an address that holds
/// another address the crate goes into it, as deep as the addresses are
/// nested; for an address of the web it does not, so the caller asks of such
/// addresses only.
#[verifier::external_body]
pub(crate) fn origin(text: &str) -> (origin: Option<String>)
    requires
        is_web(text@),
    ensures
        origin.deep_view() == origin_of(text@),
{
    let address = url::Url::parse(text).ok()?;
    Some(address.origin().ascii_serialization())
}

/// Calls `time::OffsetDateTime::parse` with the format
/// `time::format_description::well_known::Rfc2822`, and
/// `OffsetDateTime::unix_timestamp`.
///
/// Trusted: the result depends on the text alone.
#[verifier::external_body]
pub(crate) fn rfc2822_seconds(text: &str) -> (seconds: Option<i64>)
    ensures
        seconds == rfc2822_seconds_of(text@),
{
    let format = time::format_description::well_known::Rfc2822;
    let time = time::OffsetDateTime::parse(text, &format).ok()?;
    Some(time.unix_timestamp())
}

} // verus!
