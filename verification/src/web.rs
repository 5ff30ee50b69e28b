//! What the pages that show the plan are made from: the dates that the plan
//! has rows for, the path under which the plan of a date is shown, and the
//! media type of a file.

use crate::date::Date;
use crate::row::{Row, RowView};
use crate::text::{chars_of, decimal_digits, decimal_string, split, split_at, str_eq, lemma_split_len};
use vstd::prelude::*;

verus! {

/// Whether each date lies before the next.
pub open spec fn ascending(dates: Seq<Date>) -> bool {
    forall|i: int, j: int| 0 <= i < j < dates.len() ==> (#[trigger] dates[i]).spec_before(#[trigger] dates[j])
}

/// Whether the plan has a row for a date.
pub open spec fn has_date(rows: Seq<RowView>, date: Date) -> bool {
    exists|i: int| 0 <= i < rows.len() && (#[trigger] rows[i]).date == date
}

/// Of two dates one lies before the other, or they are the same.
pub proof fn lemma_dates_in_order(a: Date, b: Date)
    ensures
        a.spec_before(b) || a == b || b.spec_before(a),
        !(a.spec_before(b) && b.spec_before(a)),
        !a.spec_before(a),
{
    if !a.spec_before(b) && !b.spec_before(a) {
        Date::lemma_same_parts(a, b);
    }
}

/// A date that lies before a date that lies before a third lies before the
/// third.
pub proof fn lemma_before_transitive(a: Date, b: Date, c: Date)
    requires
        a.spec_before(b),
        b.spec_before(c),
    ensures
        a.spec_before(c),
{
}

/// The dates that the plan has rows for, each once, the earliest first.
pub fn plan_dates(rows: &Vec<Row>) -> (dates: Vec<Date>)
    ensures
        ascending(dates@),
        forall|date: Date| dates@.contains(date) <==> has_date(rows.deep_view(), date),
{
    let mut dates: Vec<Date> = Vec::new();
    let mut i: usize = 0;
    while i < rows.len()
        invariant
            i <= rows.len(),
            ascending(dates@),
            forall|date: Date| dates@.contains(date) <==> has_date(rows.deep_view().take(i as int), date),
        decreases rows.len() - i,
    {
        let date = rows[i].date;
        let mut at: usize = 0;
        while at < dates.len() && dates[at].before(&date)
            invariant
                at <= dates.len(),
                forall|k: int| 0 <= k < at ==> (#[trigger] dates@[k]).spec_before(date),
            decreases dates.len() - at,
        {
            at += 1;
        }
        let ghost before = dates@;
        let ghost seen = rows.deep_view().take(i as int);
        let ghost next = rows.deep_view().take(i + 1);
        proof {
            assert(next.drop_last() =~= seen);
            assert(next.last().date == date);
            assert forall|other: Date| has_date(next, other) <==> (has_date(seen, other) || other
                == date) by {
                if has_date(next, other) {
                    let k = choose|k: int| 0 <= k < next.len() && (#[trigger] next[k]).date == other;
                    if k < i {
                        assert(seen[k].date == other);
                    }
                }
                if has_date(seen, other) {
                    let k = choose|k: int| 0 <= k < seen.len() && (#[trigger] seen[k]).date == other;
                    assert(next[k].date == other);
                }
                if other == date {
                    assert(next[i as int].date == other);
                }
            }
        }
        if at < dates.len() && dates[at] == date {
            proof {
                assert(before[at as int] == date);
                assert(before.contains(date));
                assert(has_date(seen, date));
            }
        } else {
            dates.insert(at, date);
            proof {
                assert forall|a: int, b: int| 0 <= a < b < dates@.len() implies (#[trigger] dates@[a]).spec_before(
                    #[trigger] dates@[b],
                ) by {
                    if b == at {
                        assert(dates@[a] == before[a]);
                    } else if a == at {
                        assert(dates@[b] == before[b - 1]);
                        lemma_dates_in_order(before[at as int], date);
                        if b - 1 > at {
                            lemma_before_transitive(date, before[at as int], before[b - 1]);
                        }
                    } else {
                        let x = if a < at {
                            a
                        } else {
                            a - 1
                        };
                        let y = if b < at {
                            b
                        } else {
                            b - 1
                        };
                        assert(dates@[a] == before[x]);
                        assert(dates@[b] == before[y]);
                    }
                }
                assert forall|other: Date| dates@.contains(other) <==> (before.contains(other)
                    || other == date) by {
                    if dates@.contains(other) {
                        let k = choose|k: int| 0 <= k < dates@.len() && dates@[k] == other;
                        if k < at {
                            assert(before[k] == other);
                        } else if k > at {
                            assert(before[k - 1] == other);
                        }
                    }
                    if before.contains(other) {
                        let k = choose|k: int| 0 <= k < before.len() && before[k] == other;
                        if k < at {
                            assert(dates@[k] == other);
                        } else {
                            assert(dates@[k + 1] == other);
                        }
                    }
                    if other == date {
                        assert(dates@[at as int] == other);
                    }
                }
            }
        }
        assert forall|other: Date| dates@.contains(other) <==> has_date(next, other) by {
            assert(before.contains(other) <==> has_date(seen, other));
        }
        i += 1;
    }
    assert(rows.deep_view().take(rows.len() as int) =~= rows.deep_view());
    dates
}

/// A number below one hundred in two digits.
pub open spec fn two_digits(n: nat) -> Seq<char> {
    if n < 10 {
        "0"@ + decimal_digits(n)
    } else {
        decimal_digits(n)
    }
}

/// The path under which the plan of a date is shown for the class: the year,
/// month and day of the date, the last two in two digits, and both names of
/// the class.
pub open spec fn plan_path_of(date: Date) -> Seq<char> {
    "davinci/"@ + decimal_digits(date.spec_year() as nat) + "-"@ + two_digits(
        date.spec_month() as nat,
    ) + "-"@ + two_digits(date.spec_day() as nat) + "?class=IGD21,IGD 21"@
}

fn push_two_digits(text: &mut String, n: u8)
    ensures
        final(text)@ == old(text)@ + two_digits(n as nat),
{
    if n < 10 {
        text.append("0");
    }
    let digits = decimal_string(n as u64);
    text.append(digits.as_str());
}

/// The path under which the plan of a date is shown for the class.
pub fn plan_path(date: &Date) -> (path: String)
    ensures
        path@ == plan_path_of(*date),
{
    let mut path = String::from_str("davinci/");
    let year = decimal_string(date.year() as u64);
    path.append(year.as_str());
    path.append("-");
    push_two_digits(&mut path, date.month());
    path.append("-");
    push_two_digits(&mut path, date.day());
    path.append("?class=IGD21,IGD 21");
    path
}

/// `path` without the slashes that it begins with.
pub open spec fn without_leading_slashes(path: Seq<char>) -> Seq<char>
    decreases path.len(),
{
    if path.len() > 0 && path[0] == '/' {
        without_leading_slashes(path.drop_first())
    } else {
        path
    }
}

/// The ending of a file name: what follows its last full stop, or all of it
/// where it has none.
pub open spec fn ending(path: Seq<char>) -> Seq<char> {
    split(path, '.').last()
}

/// The media type of a file, by the ending of its name.
pub open spec fn mime_type_of(path: Seq<char>) -> Seq<char> {
    let ending = ending(without_leading_slashes(path));
    if ending == "css"@ {
        "text/css"@
    } else if ending == "woff2"@ {
        "font/woff2"@
    } else {
        "application/octet-stream"@
    }
}

proof fn lemma_leading_slashes(path: Seq<char>, k: int)
    requires
        0 <= k <= path.len(),
        forall|i: int| 0 <= i < k ==> path[i] == '/',
        k == path.len() || path[k] != '/',
    ensures
        without_leading_slashes(path) == path.subrange(k, path.len() as int),
    decreases k,
{
    if k > 0 {
        lemma_leading_slashes(path.drop_first(), k - 1);
    }
}

/// The path of a file without the slashes that it begins with.
pub fn static_path<'a>(path: &'a str) -> (file: &'a str)
    ensures
        file@ == without_leading_slashes(path@),
{
    let v = chars_of(path);
    let mut k: usize = 0;
    while k < v.len() && v[k] == '/'
        invariant
            k <= v.len(),
            forall|i: int| 0 <= i < k ==> v@[i] == '/',
        decreases v.len() - k,
    {
        k += 1;
    }
    proof {
        lemma_leading_slashes(path@, k as int);
    }
    path.substring_char(k, v.len())
}

/// The media type of a file, by the ending of its name.
pub fn mime_type(path: &str) -> (mime: &'static str)
    ensures
        mime@ == mime_type_of(path@),
{
    let file = static_path(path);
    let pieces = split_at(file, '.');
    proof {
        lemma_split_len(file@, '.');
    }
    let ending = &pieces[pieces.len() - 1];
    if str_eq(ending.as_str(), "css") {
        "text/css"
    } else if str_eq(ending.as_str(), "woff2") {
        "font/woff2"
    } else {
        "application/octet-stream"
    }
}

} // verus!
