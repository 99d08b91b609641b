//! Reading the active segment back: one record per line, newest first,
//! cut into the page that a query selects.

use vstd::prelude::*;
use vstd::string::*;
use crate::codec::{DecodeError, decode_line};
use crate::page::{Pagination, extract_data, page_of};
use crate::record::{AppError, Events, Log, LogView};

verus! {

/// The lines of a text as `str::lines` splits it.
pub uninterp spec fn lines_of(s: Seq<char>) -> Seq<Seq<char>>;

/// Relies on str::lines: the text cut at line breaks, a trailing carriage
/// return dropped from each line.
#[verifier::external_body]
fn split_lines(text: &str) -> (r: Vec<String>)
    ensures
        r@.map_values(|l: String| l@) == lines_of(text@),
{
    text.lines().map(|l| l.to_string()).collect()
}

/// The views of a sequence of records.
pub open spec fn views(s: Seq<Log>) -> Seq<LogView> {
    s.map_values(|l: Log| l@)
}

/// The records of a segment, newest first.
pub fn newest_first(records: &Vec<Log>) -> (r: Vec<Log>)
    ensures
        views(r@) == views(records@).reverse(),
{
    let n = records.len();
    let mut out: Vec<Log> = Vec::new();
    let mut i: usize = n;
    while i > 0
        invariant
            i <= n,
            n == records@.len(),
            out@.len() == n - i,
            forall|j: int| 0 <= j < out@.len() ==> out@[j]@ == records@[n - 1 - j]@,
        decreases i,
    {
        i = i - 1;
        out.push(records[i].duplicate());
    }
    assert(views(out@) =~= views(records@).reverse());
    out
}

/// Copies a run of records.
fn copy_records(s: &[Log]) -> (r: Vec<Log>)
    ensures
        views(r@) == views(s@),
{
    let mut out: Vec<Log> = Vec::new();
    let mut i: usize = 0;
    while i < s.len()
        invariant
            i <= s@.len(),
            out@.len() == i,
            forall|j: int| 0 <= j < i ==> out@[j]@ == s@[j]@,
        decreases s@.len() - i,
    {
        out.push(s[i].duplicate());
        i = i + 1;
    }
    assert(views(out@) =~= views(s@));
    out
}

/// The page of `records` (oldest first, as stored) that `page` selects in
/// the newest-first order, with the total count.
pub fn page_events(records: &Vec<Log>, page: &Pagination) -> (r: Events)
    requires
        page.valid(),
    ensures
        r.status == 200,
        views(r.data@) == page_of(views(records@).reverse(), page.limit, page.offset),
        r.limit == page.limit,
        r.offset == page.offset,
        r.size == records@.len(),
{
    let full = newest_first(records);
    let data = extract_data(&full, page.limit, page.offset);
    let copied = copy_records(data);
    proof {
        let a = views(copied@);
        let b = page_of(views(full@), page.limit, page.offset);
        assert(page_of(full@, page.limit, page.offset).map_values(|l: Log| l@) =~= b);
        assert(a =~= b);
    }
    Events { status: 200, data: copied, limit: page.limit, offset: page.offset, size: full.len() }
}

/// Every line decodes.
pub open spec fn all_decode(lines: Seq<Seq<char>>) -> bool {
    forall|i: int| 0 <= i < lines.len() ==> decode_line(#[trigger] lines[i]) is Some
}

/// The records that the lines decode to, where all of them do.
pub open spec fn decoded(lines: Seq<Seq<char>>) -> Seq<LogView> {
    lines.map_values(|l: Seq<char>| decode_line(l)->Some_0)
}

/// Index of the first line that does not decode.
pub open spec fn is_first_failure(lines: Seq<Seq<char>>, i: int) -> bool {
    &&& 0 <= i < lines.len()
    &&& decode_line(lines[i]) is None
    &&& forall|j: int| 0 <= j < i ==> decode_line(#[trigger] lines[j]) is Some
}

/// The views of a sequence of strings.
pub open spec fn texts(s: Seq<String>) -> Seq<Seq<char>> {
    s.map_values(|l: String| l@)
}

/// Decodes every line, oldest first; the first line that does not decode
/// aborts the read.
pub fn decode_all(lines: &Vec<String>) -> (r: Result<Vec<Log>, DecodeError>)
    ensures
        r is Ok <==> all_decode(texts(lines@)),
        r matches Ok(v) ==> views(v@) == decoded(texts(lines@)),
        r matches Err(e) ==> exists|i: int|
            is_first_failure(texts(lines@), i) && lines@[i]@ == e.line@,
{
    let mut out: Vec<Log> = Vec::new();
    let mut i: usize = 0;
    while i < lines.len()
        invariant
            i <= lines@.len(),
            out@.len() == i,
            forall|j: int| 0 <= j < i ==> decode_line(#[trigger] lines@[j]@) == Some(out@[j]@),
        decreases lines@.len() - i,
    {
        let line = lines[i].as_str();
        assert(line@ == lines@[i as int]@);
        match Log::from_str(line) {
            Ok(log) => {
                assert(decode_line(lines@[i as int]@) == Some(log@));
                out.push(log);
                assert(out@[i as int]@ == log@);
                assert(forall|j: int| 0 <= j <= i ==> decode_line(#[trigger] lines@[j]@) == Some(out@[j]@));
            },
            Err(e) => {
                proof {
                    let t = texts(lines@);
                    assert(t[i as int] == lines@[i as int]@);
                    assert forall|j: int| 0 <= j < i implies decode_line(#[trigger] t[j]) is Some by {
                        assert(t[j] == lines@[j]@);
                    }
                    assert(is_first_failure(t, i as int));
                    assert(!all_decode(t));
                }
                return Err(e);
            },
        }
        i = i + 1;
    }
    proof {
        let t = texts(lines@);
        assert forall|j: int| 0 <= j < t.len() implies decode_line(#[trigger] t[j]) is Some by {
            assert(t[j] == lines@[j]@);
        }
        assert forall|j: int| 0 <= j < t.len() implies views(out@)[j] == decoded(t)[j] by {
            assert(t[j] == lines@[j]@);
        }
        assert(views(out@) =~= decoded(t));
    }
    Ok(out)
}

/// Lists a page of the active segment's records, newest first. A query with
/// offset 0 is refused with a client error; a line that does not decode
/// fails the whole read with a server error carrying that line.
pub fn get_log_events(segment: &str, page: &Pagination) -> (r: Result<Events, AppError>)
    ensures
        !page.valid() ==> (r matches Err(e) && e.status@ == "400 Bad Request"@),
        page.valid() && all_decode(lines_of(segment@)) ==> (r matches Ok(ev) && ev.status == 200
            && ev.limit == page.limit && ev.offset == page.offset && ev.size == lines_of(
            segment@,
        ).len() && views(ev.data@) == page_of(
            decoded(lines_of(segment@)).reverse(),
            page.limit,
            page.offset,
        )),
        page.valid() && !all_decode(lines_of(segment@)) ==> (r matches Err(e) && e.status@
            == "500 Internal Server Error"@ && exists|i: int|
            is_first_failure(lines_of(segment@), i) && lines_of(segment@)[i] == e.error@),
{
    match page.validate() {
        Ok(()) => {},
        Err(field) => {
            return Err(AppError { status: String::from_str("400 Bad Request"), error: field });
        },
    }
    let lines = split_lines(segment);
    proof {
        assert(texts(lines@) == lines_of(segment@));
    }
    match decode_all(&lines) {
        Ok(records) => {
            let ev = page_events(&records, page);
            proof {
                assert(views(records@).len() == records@.len());
            }
            Ok(ev)
        },
        Err(e) => {
            Err(AppError { status: String::from_str("500 Internal Server Error"), error: e.line })
        },
    }
}

} // verus!
