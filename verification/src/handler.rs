//! Per-request decision logic: only `GET` requests are served from the
//! archive; a matched entry is replayed verbatim; an unmatched `GET` is
//! handed to the fallback proxy collaborator.

use vstd::prelude::*;

use crate::structure::{first_match, HarFile};
use crate::text::str_eq;

verus! {

/// The verdict on one request, at the level of views.
pub enum OutcomeView {
    Replay { status: u16, body: Seq<char> },
    Forward,
    NotFound,
}

/// The verdict on one request: replay a recorded response, forward to the
/// fallback upstream, or answer "not found".
#[derive(Debug, PartialEq, Eq)]
pub enum Outcome {
    Replay { status: u16, body: String },
    Forward,
    NotFound,
}

impl View for Outcome {
    type V = OutcomeView;

    open spec fn view(&self) -> OutcomeView {
        match self {
            Outcome::Replay { status, body } => OutcomeView::Replay {
                status: *status,
                body: body@,
            },
            Outcome::Forward => OutcomeView::Forward,
            Outcome::NotFound => OutcomeView::NotFound,
        }
    }
}

/// What serving one request means: a non-`GET` method is never served nor
/// forwarded; a `GET` replays the first matching entry's status and body;
/// an unmatched `GET` goes to the fallback.
pub open spec fn handle_spec(
    entries: Seq<crate::structure::EntryView>,
    method: Seq<char>,
    path: Seq<char>,
    prefixes: Seq<Seq<char>>,
) -> OutcomeView {
    if method != "GET"@ {
        OutcomeView::NotFound
    } else {
        match first_match(entries, method, path, prefixes) {
            Some(i) => OutcomeView::Replay { status: entries[i].status, body: entries[i].body },
            None => OutcomeView::Forward,
        }
    }
}

/// The URL the fallback proxy should fetch: the upstream base with the
/// request's path appended verbatim.
pub fn upstream_url(base: &str, path: &str) -> (r: String)
    ensures
        r@ == base@ + path@,
{
    let mut target = String::from_str(base);
    target.append(path);
    target
}

/// Serves one request against the archive `file`.
pub fn handle(file: &HarFile, method: &str, path: &str, prefixes: &Vec<String>) -> (r: Outcome)
    ensures
        r@ == handle_spec(file@, method@, path@, prefixes.deep_view()),
{
    if !str_eq(method, "GET") {
        return Outcome::NotFound;
    }
    match file.search(method, path, prefixes) {
        Some(e) => Outcome::Replay { status: e.status(), body: e.body_text().clone() },
        None => Outcome::Forward,
    }
}

} // verus!
