//! The two-mode output renderer. Structured mode prints the response document
//! verbatim; text mode projects the top-level data array of a stats response
//! to one `start_time<TAB>requests` line per element, defaulting missing or
//! non-integer fields to zero and a missing array to no lines at all.

use vstd::prelude::*;

use crate::doc::{as_i64_of, as_u64_of, get_spec, Doc};
use crate::numfmt::{dec_int, dec_nat, format_i64, format_u64};

verus! {

/// The start time a data point carries: zero when absent or not an integer.
pub open spec fn start_time_of(e: Doc) -> i64 {
    match get_spec(e, "start_time"@) {
        Some(d) => match as_i64_of(d) {
            Some(i) => i,
            None => 0,
        },
        None => 0,
    }
}

/// The request count a data point carries: zero when absent or not an
/// unsigned integer.
pub open spec fn requests_of(e: Doc) -> u64 {
    match get_spec(e, "requests"@) {
        Some(d) => match as_u64_of(d) {
            Some(u) => u,
            None => 0,
        },
        None => 0,
    }
}

/// One text-mode output line: start time, a tab, request count.
pub open spec fn line_of(ts: i64, req: u64) -> Seq<char> {
    dec_int(ts as int) + seq!['\t'] + dec_nat(req as nat)
}

/// The text-mode lines of a stats document: one per element of the top-level
/// data array, in array order; none when the array is missing or the field is
/// not an array.
pub open spec fn spec_stats_lines(doc: Doc) -> Seq<Seq<char>> {
    match get_spec(doc, "data"@) {
        Some(Doc::Arr(elems)) => elems@.map_values(
            |e: Doc| line_of(start_time_of(e), requests_of(e)),
        ),
        _ => Seq::empty(),
    }
}

fn start_time_field(e: &Doc) -> (r: i64)
    ensures
        r == start_time_of(*e),
{
    let key = String::from_str("start_time");
    match e.get(&key) {
        Some(d) => match d {
            Doc::Int(i) => *i,
            _ => 0,
        },
        None => 0,
    }
}

fn requests_field(e: &Doc) -> (r: u64)
    ensures
        r == requests_of(*e),
{
    let key = String::from_str("requests");
    match e.get(&key) {
        Some(d) => match d {
            Doc::Int(i) => if *i >= 0 {
                *i as u64
            } else {
                0
            },
            Doc::UInt(u) => *u,
            _ => 0,
        },
        None => 0,
    }
}

fn format_line(ts: i64, req: u64) -> (r: String)
    ensures
        r@ == line_of(ts, req),
{
    let mut s = format_i64(ts);
    s.append("\t");
    let reqs = format_u64(req);
    s.append(reqs.as_str());
    proof {
        reveal_strlit("\t");
        assert(s@ =~= line_of(ts, req));
    }
    s
}

/// The text-mode lines of a stats document, built in array order.
pub fn stats_lines(doc: &Doc) -> (r: Vec<String>)
    ensures
        r.deep_view() == spec_stats_lines(*doc),
{
    let key = String::from_str("data");
    match doc.get(&key) {
        Some(d) => match d {
            Doc::Arr(elems) => {
                let n = elems.len();
                let mut out: Vec<String> = Vec::new();
                let mut i: usize = 0;
                while i < n
                    invariant
                        i <= n,
                        n == elems@.len(),
                        out@.len() == i,
                        get_spec(*doc, "data"@) == Some(Doc::Arr(*elems)),
                        forall|j: int|
                            0 <= j < i ==> out@[j]@ == line_of(
                                start_time_of(elems@[j]),
                                requests_of(elems@[j]),
                            ),
                    decreases n - i,
                {
                    let ts = start_time_field(&elems[i]);
                    let req = requests_field(&elems[i]);
                    out.push(format_line(ts, req));
                    i += 1;
                }
                proof {
                    assert(out.deep_view() =~~= spec_stats_lines(*doc));
                }
                out
            },
            _ => {
                let out: Vec<String> = Vec::new();
                proof {
                    assert(out.deep_view() =~~= spec_stats_lines(*doc));
                }
                out
            },
        },
        None => {
            let out: Vec<String> = Vec::new();
            proof {
                assert(out.deep_view() =~~= spec_stats_lines(*doc));
            }
            out
        },
    }
}

/// How a response is to be printed: the document itself, verbatim, or a list
/// of already-formatted text lines.
#[derive(Debug, PartialEq, Eq)]
pub enum Rendering {
    Verbatim,
    Lines(Vec<String>),
}

/// What the stats renderer prints: `None` stands for the document verbatim,
/// `Some` for the projected text lines.
pub open spec fn spec_stats_output(doc: Doc, structured: bool) -> Option<Seq<Seq<char>>> {
    if structured {
        None
    } else {
        Some(spec_stats_lines(doc))
    }
}

/// Renders a stats response: the document verbatim in structured mode, one
/// `start_time<TAB>requests` line per data point in text mode.
pub fn render_stats(doc: &Doc, structured: bool) -> (r: Rendering)
    ensures
        r is Verbatim <==> spec_stats_output(*doc, structured) is None,
        r matches Rendering::Lines(ls) ==> Some(ls.deep_view()) == spec_stats_output(
            *doc,
            structured,
        ),
{
    if structured {
        Rendering::Verbatim
    } else {
        Rendering::Lines(stats_lines(doc))
    }
}

/// Renders a summary response: the document verbatim in either mode — the
/// text branch has no distinct rendering.
pub fn render_summary(structured: bool) -> (r: Rendering)
    ensures
        r is Verbatim,
{
    if structured {
        Rendering::Verbatim
    } else {
        Rendering::Verbatim
    }
}

} // verus!
