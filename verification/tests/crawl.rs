use bszet::change::{Change, ChangeError};
use bszet::crawl::{Crawl, FetchError, Stage};
use bszet::date::Date;
use bszet::extractor::ParseError;
use bszet::iteration::Period;
use bszet::timetable::Subject;
use bszet::Davinci;

const MODIFIED: &str = "Mon, 12 Dec 2022 06:30:00 +0000";

const START: &str = "https://example.org/plan/V_DC_001.html";

fn page(heading: &str, body: &str, handler: &str) -> String {
    format!(
        "<html><head><title>Plan</title></head><body><h1>{}</h1>\
         <table><thead><tr><th>Klasse</th><th>Pos</th></tr></thead><tbody>{}</tbody></table>{}\
         </body></html>",
        heading, body, handler
    )
}

fn first_page() -> String {
    page(
        "Montag 12.12.2022",
        "<tr><td>IGD21</td><td>4.</td><td>CH</td><td></td><td></td><td></td><td>f&auml;llt aus</td></tr>\
         <tr><td>&nbsp;</td><td>&nbsp;</td><td>DEU</td><td>DEU</td><td>+B5 (B6)</td><td></td><td></td></tr>",
        "<input type=\"button\" value=\"&gt;\" onclick=\"window.location.href='V_DC_002.html'\">",
    )
}

fn second_page() -> String {
    page(
        "Dienstag 13.12.2022",
        "<tr><td>IGD 21</td><td>1.</td><td>MA</td><td>ENG</td><td>B104</td><td></td><td></td></tr>",
        "<input type=\"button\" value=\"&gt;\" onclick=\"window.location.href='V_DC_002.html'\">",
    )
}

/// What a new crawl says of one page, and the crawl after it.
fn one(html: &str, header: Option<&str>) -> (Result<bool, FetchError>, Crawl) {
    let mut crawl = Crawl::new(START).unwrap();
    let said = crawl.fetch(html, header);
    (said, crawl)
}

fn linked(handler: &str) -> (Result<bool, FetchError>, Crawl) {
    one(&page("Montag 12.12.2022", "", handler), Some(MODIFIED))
}

#[test]
fn a_crawl_starts_at_an_absolute_address() {
    let crawl = Crawl::new("HTTPS://Example.org:443/plan/../plan/V_DC_001.html").unwrap();
    assert_eq!(crawl.url(), START);
    assert_eq!(crawl.stage(), Stage::Open);
    assert!(Crawl::new("plan/V_DC_001.html").is_none());
    assert!(Crawl::new("").is_none());
    assert_eq!(Crawl::new("http://example.org").unwrap().url(), "http://example.org/");
}

#[test]
fn a_crawl_starts_at_an_address_of_the_web() {
    assert!(Crawl::new("file:///plan/V_DC_001.html").is_none());
    assert!(Crawl::new("ftp://example.org/plan/V_DC_001.html").is_none());
    assert!(Crawl::new("blob:https://example.org/plan").is_none());
    assert!(Crawl::new("httpx://example.org/plan").is_none());
    assert_eq!(Crawl::new("https:plan").unwrap().url(), "https://plan/");
}

#[test]
fn a_crawl_that_is_not_complete_brings_nothing() {
    assert!(Crawl::new(START).unwrap().finish().is_none());
    let mut crawl = Crawl::new(START).unwrap();
    assert_eq!(crawl.fetch(&first_page(), Some(MODIFIED)), Ok(true));
    assert_eq!(crawl.stage(), Stage::Open);
    assert!(crawl.finish().is_none());
    let mut failed = Crawl::new(START).unwrap();
    assert_eq!(failed.fetch(&first_page(), Some(MODIFIED)), Ok(true));
    assert_eq!(failed.fetch("<html></html>", Some(MODIFIED)), Err(FetchError::Date));
    assert_eq!(failed.stage(), Stage::Failed);
    assert!(failed.finish().is_none());
}

#[test]
fn a_crawl_that_is_closed_takes_no_page() {
    let mut failed = Crawl::new(START).unwrap();
    assert_eq!(failed.fetch(&first_page(), None), Err(FetchError::LastModified));
    assert_eq!(failed.stage(), Stage::Failed);
    assert_eq!(failed.fetch(&first_page(), Some(MODIFIED)), Err(FetchError::Closed));
    assert_eq!(failed.stage(), Stage::Failed);
    assert_eq!(failed.url(), START);
    let mut complete = Crawl::new("https://example.org/plan/V_DC_002.html").unwrap();
    assert_eq!(complete.fetch(&second_page(), Some(MODIFIED)), Ok(false));
    assert_eq!(complete.stage(), Stage::Complete);
    assert_eq!(complete.fetch(&second_page(), Some(MODIFIED)), Err(FetchError::Closed));
    assert_eq!(complete.stage(), Stage::Complete);
    let (rows, _) = complete.finish().unwrap();
    assert_eq!(rows.len(), 1);
}

#[test]
fn two_pages_are_crawled_in_order() {
    let mut crawl = Crawl::new(START).unwrap();
    assert_eq!(crawl.fetch(&first_page(), Some(MODIFIED)), Ok(true));
    assert_eq!(crawl.url(), "https://example.org/plan/V_DC_002.html");
    assert_eq!(crawl.fetch(&second_page(), Some("Sun, 11 Dec 2022 23:00:00 GMT")), Ok(false));
    assert_eq!(crawl.url(), "https://example.org/plan/V_DC_002.html");
    assert_eq!(crawl.stage(), Stage::Complete);
    let (rows, last_modified) = crawl.finish().unwrap();
    assert_eq!(last_modified, Some(1670826600));
    assert_eq!(rows.len(), 3);
    assert_eq!(rows[0].index, 0);
    assert_eq!(rows[0].date, Date::new(2022, 12, 12).unwrap());
    assert_eq!(rows[0].class, vec!["IGD21"]);
    assert_eq!(
        rows[0].change,
        Change::Cancel { lesson: 2, subject: Subject::Chemistry, notice: Some("fällt aus".to_string()) }
    );
    assert_eq!(rows[0].raw, vec!["IGD21", "4.", "CH", "", "", "", "fällt aus"]);
    assert_eq!(rows[1].index, 1);
    assert_eq!(rows[1].class, vec!["IGD21"]);
    assert_eq!(
        rows[1].change,
        Change::RoomChange { lesson: 2, subject: Subject::GermanBasic, room: "B5".to_string(), notice: None }
    );
    assert_eq!(rows[1].raw[0], "\u{a0}");
    assert_eq!(rows[2].index, 0);
    assert_eq!(rows[2].date, Date::new(2022, 12, 13).unwrap());
    assert_eq!(rows[2].class, vec!["IGD 21"]);
}

#[test]
fn the_latest_modification_is_kept() {
    let mut crawl = Crawl::new(START).unwrap();
    assert_eq!(crawl.fetch(&first_page(), Some("Sun, 11 Dec 2022 23:00:00 +0000")), Ok(true));
    assert_eq!(crawl.fetch(&second_page(), Some("Mon, 12 Dec 2022 07:30:00 +0100")), Ok(false));
    let (_, last_modified) = crawl.finish().unwrap();
    assert_eq!(last_modified, Some(1670826600));
}

#[test]
fn a_page_without_a_reference_ends_the_crawl() {
    let (said, crawl) = linked("<p onclick=\"window.print()\">Drucken</p>");
    assert_eq!(said, Ok(false));
    assert_eq!(crawl.url(), START);
    let (rows, last_modified) = crawl.finish().unwrap();
    assert!(rows.is_empty());
    assert_eq!(last_modified, Some(1670826600));
    assert_eq!(linked("").0, Ok(false));
    assert_eq!(linked("<a href=\"next.html\">weiter</a>").0, Ok(false));
    assert_eq!(linked("<a onmouseover=\"window.location.href='next.html'\">weiter</a>").0, Ok(false));
}

#[test]
fn the_first_handler_with_a_reference_is_followed() {
    let (said, crawl) = linked(
        "<p onclick=\"window.print()\">Drucken</p><a onclick=\"go('skipped.html')\">anders</a>\
         <a onclick=\"location.href = &quot;/other/next.html&quot; ;\">weiter</a>\
         <a onclick=\"window.location.href='last.html'\">Ende</a>",
    );
    assert_eq!(said, Ok(true));
    assert_eq!(crawl.url(), "https://example.org/other/next.html");
    assert_eq!(crawl.stage(), Stage::Open);
}

#[test]
fn a_reference_back_to_the_page_ends_the_crawl() {
    let (said, crawl) = linked("<a onclick=\"window.location.href='V_DC_001.html'\">x</a>");
    assert_eq!(said, Ok(false));
    assert_eq!(crawl.stage(), Stage::Complete);
    assert_eq!(linked("<a onclick=\"window.location.href=''\">x</a>").0, Ok(false));
    assert_eq!(linked("<a onclick=\"window.location.href='../PLAN/../plan/V_DC_001.html'\">x</a>").0, Ok(false));
}

#[test]
fn a_reference_to_another_origin_is_not_followed() {
    let (said, crawl) = linked("<a onclick=\"window.location='https://example.com/plan.html'\">x</a>");
    assert_eq!(said, Ok(false));
    assert_eq!(crawl.url(), START);
    assert_eq!(linked("<a onclick=\"window.location='http://example.org/plan.html'\">x</a>").0, Ok(false));
    assert_eq!(linked("<a onclick=\"window.location='https://example.org:8443/plan.html'\">x</a>").0, Ok(false));
    assert_eq!(linked("<a onclick=\"window.location='file:///plan.html'\">x</a>").0, Ok(false));
    let (said, crawl) = linked("<a onclick=\"window.location='https://example.org:443/b.html'\">x</a>");
    assert_eq!(said, Ok(true));
    assert_eq!(crawl.url(), "https://example.org/b.html");
}

#[test]
fn addresses_that_are_not_of_the_web_are_not_followed() {
    assert_eq!(linked("<a onclick=\"window.location='ftp://example.org/plan/V_DC_002.html'\">x</a>").0, Ok(false));
    assert_eq!(linked("<a onclick=\"window.location='blob:https://example.org/plan'\">x</a>").0, Ok(false));
    assert_eq!(linked("<a onclick=\"window.location='mailto:plan@example.org'\">x</a>").0, Ok(false));
    let nested = format!("<a onclick=\"window.location.href='{}https://example.org/'\">x</a>", "blob:".repeat(100000));
    let (said, crawl) = linked(&nested);
    assert_eq!(said, Ok(false));
    assert_eq!(crawl.url(), START);
}

#[test]
fn long_addresses_are_followed() {
    let long = format!("<a onclick=\"window.location.href='/{}'\">x</a>", "a".repeat(100000));
    let (said, crawl) = linked(&long);
    assert_eq!(said, Ok(true));
    assert_eq!(crawl.url().len(), 100020);
    assert_eq!(crawl.stage(), Stage::Open);
    let mut crawl = crawl;
    assert_eq!(crawl.fetch(&second_page(), Some(MODIFIED)), Ok(true));
    assert_eq!(crawl.url(), "https://example.org/V_DC_002.html");
}

#[test]
fn a_page_with_many_tags_is_refused() {
    let fits = page("Montag 12.12.2022", "", &"<br>".repeat(500 - 11));
    assert_eq!(one(&fits, Some(MODIFIED)).0, Ok(false));
    let more = page("Montag 12.12.2022", "", &"<br>".repeat(500 - 10));
    let (said, crawl) = one(&more, Some(MODIFIED));
    assert_eq!(said, Err(FetchError::TooManyTags));
    assert_eq!(crawl.stage(), Stage::Failed);
    let ends = page("Montag 12.12.2022", "", &"</br><!-- < --><1>< a><".repeat(1000));
    assert_eq!(one(&ends, Some(MODIFIED)).0, Ok(false));
}

#[test]
fn a_page_nested_as_deep_as_its_tags_allow_is_read() {
    let mut deep = String::from("<h1>Montag 12.12.2022</h1><table><tbody></tbody></table>");
    deep.push_str(&"<x>".repeat(500 - 3));
    deep.push_str("tief");
    assert_eq!(one(&deep, Some(MODIFIED)).0, Ok(false));
    let mut tables = String::from("<h1>Montag 12.12.2022</h1><table><tbody></tbody></table>");
    tables.push_str(&"<table><td>".repeat(100));
    assert_eq!(one(&tables, Some(MODIFIED)).0, Ok(false));
    deep.push_str("<x>");
    assert_eq!(one(&deep, Some(MODIFIED)).0, Err(FetchError::TooManyTags));
}

#[test]
fn the_time_of_modification_is_required() {
    assert_eq!(one(&first_page(), None).0, Err(FetchError::LastModified));
    assert_eq!(one(&first_page(), Some("gestern")).0, Err(FetchError::LastModifiedFormat));
    assert_eq!(one(&first_page(), Some("")).0, Err(FetchError::LastModifiedFormat));
    assert_eq!(one(&first_page(), Some("2022-12-12T06:30:00Z")).0, Err(FetchError::LastModifiedFormat));
    let (_, crawl) = one(&first_page(), None);
    assert_eq!(crawl.url(), START);
    assert_eq!(crawl.stage(), Stage::Failed);
}

#[test]
fn a_page_that_is_too_long_is_refused() {
    let mut html = first_page();
    html.push_str(&" ".repeat(0x1000_0000 - html.len()));
    assert_eq!(html.len(), 0x1000_0000);
    html.push(' ');
    let (said, crawl) = one(&html, Some(MODIFIED));
    assert_eq!(said, Err(FetchError::TooLarge));
    assert_eq!(crawl.stage(), Stage::Failed);
    assert_eq!(one(&html, None).0, Err(FetchError::LastModified));
}

#[test]
fn a_page_needs_a_heading_with_a_date() {
    let none = "<html><body><table><tbody></tbody></table></body></html>";
    assert_eq!(one(none, Some(MODIFIED)).0, Err(FetchError::Date));
    assert_eq!(one(&page("Vertretungsplan", "", ""), Some(MODIFIED)).0, Err(FetchError::Date));
    assert_eq!(one(&page("12.12.2022", "", ""), Some(MODIFIED)).0, Err(FetchError::Date));
    assert_eq!(one(&page("Montag 31.02.2022", "", ""), Some(MODIFIED)).0, Err(FetchError::Date));
    let elsewhere = "<html><body><p>Montag 12.12.2022</p><table><tbody></tbody></table></body></html>";
    assert_eq!(one(elsewhere, Some(MODIFIED)).0, Err(FetchError::Date));
    let smallest = "<html><body><h6>Montag 12.12.2022</h6><table><tbody></tbody></table></body></html>";
    assert_eq!(one(smallest, Some(MODIFIED)).0, Ok(false));
    let second = "<html><body><h1>Plan</h1><h1>Stand: Montag 12.12.2022 06:00</h1>\
                  <table><tbody></tbody></table></body></html>";
    assert_eq!(one(second, Some(MODIFIED)).0, Ok(false));
}

#[test]
fn larger_headings_are_asked_for_the_date_first() {
    let html = "<html><body><h3>Mittwoch 14.12.2022</h3><h2>Dienstag 13.12.2022</h2><h1>Plan</h1>\
                <h2>Montag 12.12.2022</h2><table><tbody>\
                <tr><td>IGD21</td><td>4.</td><td>CH</td><td></td><td></td><td></td><td></td></tr>\
                </tbody></table></body></html>";
    let (said, crawl) = one(html, Some(MODIFIED));
    assert_eq!(said, Ok(false));
    let (rows, _) = crawl.finish().unwrap();
    assert_eq!(rows[0].date, Date::new(2022, 12, 13).unwrap());
}

#[test]
fn a_page_needs_a_table_body() {
    let html = "<html><body><h1>Montag 12.12.2022</h1><p>kein Plan</p></body></html>";
    assert_eq!(one(html, Some(MODIFIED)).0, Err(FetchError::Table));
}

#[test]
fn the_first_table_body_holds_the_plan() {
    let html = "<html><body><h1>Montag 12.12.2022</h1>\
                <table><tbody><tr><td>IGD21</td><td>4.</td><td>CH</td><td></td><td></td><td></td><td></td></tr>\
                </tbody></table>\
                <table><tbody><tr><td>Legende</td></tr></tbody></table></body></html>";
    let (said, crawl) = one(html, Some(MODIFIED));
    assert_eq!(said, Ok(false));
    let (rows, _) = crawl.finish().unwrap();
    assert_eq!(rows.len(), 1);
    assert_eq!(rows[0].class, vec!["IGD21"]);
    let other_way = "<html><body><h1>Montag 12.12.2022</h1>\
                     <table><tbody><tr><td>Legende</td></tr></tbody></table>\
                     <table><tbody><tr><td>IGD21</td><td>4.</td><td>CH</td><td></td><td></td><td></td><td></td></tr>\
                     </tbody></table></body></html>";
    assert_eq!(one(other_way, Some(MODIFIED)).0, Err(FetchError::Row(ParseError::Columns)));
}

#[test]
fn a_row_that_cannot_be_read_fails_the_page() {
    let short = page("Montag 12.12.2022", "<tr><td>IGD21</td><td>4.</td><td>CH</td></tr>", "");
    assert_eq!(one(&short, Some(MODIFIED)).0, Err(FetchError::Row(ParseError::Columns)));
    let blank = page(
        "Montag 12.12.2022",
        "<tr><td></td><td>4.</td><td>CH</td><td></td><td></td><td></td><td></td></tr>",
        "",
    );
    assert_eq!(one(&blank, Some(MODIFIED)).0, Err(FetchError::Row(ParseError::MissingClass)));
    let odd = page(
        "Montag 12.12.2022",
        "<tr><td>IGD21</td><td>4.</td><td>CH</td><td></td><td></td><td></td><td></td></tr>\
         <tr><td></td><td></td><td></td><td>CH</td><td></td><td></td><td></td></tr>",
        "<a onclick=\"window.location.href='next.html'\">x</a>",
    );
    let (said, crawl) = one(&odd, Some(MODIFIED));
    assert_eq!(said, Err(FetchError::Row(ParseError::Change(ChangeError::MissingSubject))));
    assert_eq!(crawl.url(), START);
    assert_eq!(crawl.stage(), Stage::Failed);
    assert!(crawl.finish().is_none());
}

#[test]
fn a_reference_that_cannot_be_resolved_fails_the_page() {
    let html = page(
        "Montag 12.12.2022",
        "<tr><td>IGD21</td><td>4.</td><td>CH</td><td></td><td></td><td></td><td></td></tr>",
        "<a onclick=\"window.location.href='https://[::1'\">x</a>",
    );
    let (said, crawl) = one(&html, Some(MODIFIED));
    assert_eq!(said, Err(FetchError::Link));
    assert!(crawl.finish().is_none());
}

#[test]
fn a_crawl_feeds_the_store() {
    let mut store = Davinci::new(START.to_string(), "user".to_string(), "SECRET-REDACTED".to_string());
    let mut crawl = Crawl::new(store.entrypoint()).unwrap();
    assert_eq!(crawl.fetch(&first_page(), Some(MODIFIED)), Ok(true));
    assert_eq!(crawl.fetch(&second_page(), Some(MODIFIED)), Ok(false));
    assert_eq!(store.update_from(crawl, 1670830000), Some(true));

    let mut again = Crawl::new(store.entrypoint()).unwrap();
    assert_eq!(again.fetch(&first_page(), Some(MODIFIED)), Ok(true));
    assert_eq!(again.fetch(&second_page(), Some(MODIFIED)), Ok(false));
    assert_eq!(store.update_from(again, 1670830900), Some(false));
    assert_eq!(store.data().as_ref().unwrap().last_checked, 1670830900);

    let monday = Date::new(2022, 12, 12).unwrap();
    let calendar = vec![Period { from: monday, to: Date::new(2022, 12, 16).unwrap(), iteration: 1 }];
    let (modified, day, unknown, iteration) = store.get_applied_timetable(monday, &calendar).unwrap();
    assert_eq!(modified, Some(1670826600));
    assert_eq!(iteration, 1);
    assert_eq!(day[1].subject, Subject::Cancel(Box::new(Subject::Chemistry)));
    assert_eq!(day[1].notice, Some("fällt aus".to_string()));
    assert_eq!(unknown.len(), 1);
    assert_eq!(unknown[0].index, 1);
    let table = store.get_table(&monday).unwrap();
    assert_eq!(table.len(), 2);
    assert_eq!(table[0], vec!["IGD21", "4.", "CH", "", "", "", "fällt aus"]);
}

#[test]
fn a_crawl_that_failed_leaves_the_store_as_it_was() {
    let mut store = Davinci::new(START.to_string(), "user".to_string(), "SECRET-REDACTED".to_string());
    let blank = page(
        "Dienstag 13.12.2022",
        "<tr><td></td><td>4.</td><td>CH</td><td></td><td></td><td></td><td></td></tr>",
        "",
    );
    let mut failed = Crawl::new(store.entrypoint()).unwrap();
    assert_eq!(failed.fetch(&first_page(), Some(MODIFIED)), Ok(true));
    assert_eq!(failed.fetch(&blank, Some(MODIFIED)), Err(FetchError::Row(ParseError::MissingClass)));
    assert_eq!(store.update_from(failed, 5), None);
    assert!(store.data().is_none());

    let mut crawl = Crawl::new(store.entrypoint()).unwrap();
    assert_eq!(crawl.fetch(&first_page(), Some(MODIFIED)), Ok(true));
    assert_eq!(crawl.fetch(&second_page(), Some(MODIFIED)), Ok(false));
    assert_eq!(store.update_from(crawl, 10), Some(true));

    let mut failed = Crawl::new(store.entrypoint()).unwrap();
    assert_eq!(failed.fetch(&blank, Some("Tue, 13 Dec 2022 06:30:00 +0000")), Err(FetchError::Row(ParseError::MissingClass)));
    assert_eq!(store.update_from(failed, 20), None);
    let unfinished = {
        let mut crawl = Crawl::new(store.entrypoint()).unwrap();
        assert_eq!(crawl.fetch(&first_page(), Some("Tue, 13 Dec 2022 06:30:00 +0000")), Ok(true));
        crawl
    };
    assert_eq!(store.update_from(unfinished, 30), None);
    let data = store.data().as_ref().unwrap();
    assert_eq!(data.last_checked, 10);
    assert_eq!(data.last_modified, Some(1670826600));
    assert_eq!(data.rows.len(), 3);
}
