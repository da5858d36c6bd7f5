//! The archive model and the matcher: recorded request/response entries,
//! and the first-match search that compares an incoming method and path
//! against each stored entry, optionally stripping a configured prefix
//! from the stored path.

use vstd::prelude::*;

use crate::text::{str_eq, strip_prefix_once, strip_prefix_spec};

verus! {

/// The path component of a recorded URL, as a URI parser extracts it
/// (scheme, host and query discarded); `None` when the text is not a
/// valid URI. The component is a function of the URL text alone.
pub uninterp spec fn url_path(url: Seq<char>) -> Option<Seq<char>>;

/// Relies on `hyper::Uri`'s `FromStr` parser and its `path` accessor: the
/// parse and the extracted path component depend on the URL text alone, so
/// the result is named by `url_path`.
#[verifier::external_body]
fn parse_url_path(url: &str) -> (r: Option<String>)
    ensures
        r is Some <==> url_path(url@) is Some,
        r matches Some(p) ==> url_path(url@) == Some(p@),
{
    match url.parse::<hyper::Uri>() {
        Ok(uri) => Some(uri.path().to_string()),
        Err(_) => None,
    }
}

/// The mathematical content of one recorded entry.
pub struct EntryView {
    pub method: Seq<char>,
    pub url: Seq<char>,
    pub status: u16,
    pub body: Seq<char>,
}

struct Request {
    method: String,
    url: String,
}

struct Content {
    text: String,
}

struct Response {
    status: u16,
    content: Content,
}

/// One recorded request/response exchange.
pub struct Entry {
    request: Request,
    response: Response,
}

impl View for Entry {
    type V = EntryView;

    closed spec fn view(&self) -> EntryView {
        EntryView {
            method: self.request.method@,
            url: self.request.url@,
            status: self.response.status,
            body: self.response.content.text@,
        }
    }
}

struct Log {
    entries: Vec<Entry>,
}

/// A loaded archive: an ordered sequence of entries, in replay-priority
/// order. Immutable once constructed; a reload builds a fresh one.
pub struct HarFile {
    log: Log,
}

impl View for HarFile {
    type V = Seq<EntryView>;

    closed spec fn view(&self) -> Seq<EntryView> {
        self.log.entries@.map_values(|e: Entry| e@)
    }
}

/// Whether entry `e` answers a request for `method` and `path` once the
/// single prefix `prefix` is (optionally) stripped from the stored path:
/// the stored URL must parse, the stripped stored path must equal the
/// incoming path exactly, and the methods must be equal exactly.
pub open spec fn entry_matches_one(
    e: EntryView,
    method: Seq<char>,
    path: Seq<char>,
    prefix: Seq<char>,
) -> bool {
    &&& url_path(e.url) is Some
    &&& strip_prefix_spec(url_path(e.url)->Some_0, prefix) == path
    &&& e.method == method
}

/// Whether entry `e` answers the request under any prefix of the configured
/// set; an empty set is equivalent to the single empty prefix.
pub open spec fn entry_matches(
    e: EntryView,
    method: Seq<char>,
    path: Seq<char>,
    prefixes: Seq<Seq<char>>,
) -> bool {
    if prefixes.len() == 0 {
        entry_matches_one(e, method, path, Seq::<char>::empty())
    } else {
        exists|k: int| 0 <= k < prefixes.len() && entry_matches_one(e, method, path, prefixes[k])
    }
}

/// The index of the first entry at or after `i` that matches the request,
/// if any.
pub open spec fn first_match_from(
    entries: Seq<EntryView>,
    i: int,
    method: Seq<char>,
    path: Seq<char>,
    prefixes: Seq<Seq<char>>,
) -> Option<int>
    decreases entries.len() - i,
{
    if i < 0 || i >= entries.len() {
        None
    } else if entry_matches(entries[i], method, path, prefixes) {
        Some(i)
    } else {
        first_match_from(entries, i + 1, method, path, prefixes)
    }
}

/// The index of the first matching entry in stored order, if any.
pub open spec fn first_match(
    entries: Seq<EntryView>,
    method: Seq<char>,
    path: Seq<char>,
    prefixes: Seq<Seq<char>>,
) -> Option<int> {
    first_match_from(entries, 0, method, path, prefixes)
}

impl Entry {
    /// Builds an entry from its recorded parts.
    pub fn new(method: String, url: String, status: u16, text: String) -> (e: Entry)
        ensures
            e@ == (EntryView { method: method@, url: url@, status: status, body: text@ }),
    {
        Entry {
            request: Request { method, url },
            response: Response { status, content: Content { text } },
        }
    }

    /// The recorded status code.
    pub fn status(&self) -> (r: u16)
        ensures
            r == self@.status,
    {
        self.response.status
    }

    /// The recorded response payload, replayed verbatim.
    pub fn body_text(&self) -> (r: &String)
        ensures
            r@ == self@.body,
    {
        &self.response.content.text
    }

    /// Whether this entry answers a request for `method` and `path` under
    /// the single prefix `prefix`.
    pub fn matches(&self, method: &str, path: &str, prefix: &str) -> (r: bool)
        ensures
            r == entry_matches_one(self@, method@, path@, prefix@),
    {
        match parse_url_path(self.request.url.as_str()) {
            None => false,
            Some(stored_path) => {
                let stripped = strip_prefix_once(stored_path.as_str(), prefix);
                str_eq(stripped, path) && str_eq(self.request.method.as_str(), method)
            },
        }
    }

    /// Whether this entry answers the request under any prefix of the set;
    /// an empty set counts as the single empty prefix.
    pub fn matches_any(&self, method: &str, path: &str, prefixes: &Vec<String>) -> (r: bool)
        ensures
            r == entry_matches(self@, method@, path@, prefixes.deep_view()),
    {
        if prefixes.len() == 0 {
            let r = self.matches(method, path, "");
            proof {
                reveal_strlit("");
                assert(""@ =~= Seq::<char>::empty());
            }
            r
        } else {
            let mut k: usize = 0;
            while k < prefixes.len()
                invariant
                    k <= prefixes.len(),
                    forall|j: int| 0 <= j < k ==> !entry_matches_one(
                        self@, method@, path@, prefixes.deep_view()[j]),
                decreases prefixes.len() - k,
            {
                if self.matches(method, path, prefixes[k].as_str()) {
                    assert(entry_matches_one(self@, method@, path@, prefixes.deep_view()[k as int]));
                    return true;
                }
                k = k + 1;
            }
            false
        }
    }
}

/// `first_match` from the start agrees with `first_match_from(i)` as long
/// as no entry before `i` matches.
proof fn lemma_first_match_skip(
    entries: Seq<EntryView>,
    method: Seq<char>,
    path: Seq<char>,
    prefixes: Seq<Seq<char>>,
    i: int,
)
    requires
        0 <= i <= entries.len(),
        forall|j: int| 0 <= j < i ==> !entry_matches(entries[j], method, path, prefixes),
    ensures
        first_match(entries, method, path, prefixes) == first_match_from(
            entries, i, method, path, prefixes),
    decreases i,
{
    if i > 0 {
        lemma_first_match_skip(entries, method, path, prefixes, i - 1);
    }
}

impl HarFile {
    /// Builds an archive from its entries, already in replay-priority order.
    pub fn from_entries(entries: Vec<Entry>) -> (f: HarFile)
        ensures
            f@ == entries@.map_values(|e: Entry| e@),
    {
        HarFile { log: Log { entries } }
    }

    /// Finds the first entry, in stored order, that answers a request for
    /// `method` and `path` under any of the configured prefixes.
    pub fn search<'a>(&'a self, method: &str, path: &str, prefixes: &Vec<String>) -> (r: Option<
        &'a Entry,
    >)
        ensures
            r is Some <==> first_match(self@, method@, path@, prefixes.deep_view()) is Some,
            r matches Some(e) ==> e@ == self@[first_match(
                self@, method@, path@, prefixes.deep_view())->Some_0],
    {
        let ghost pviews = prefixes.deep_view();
        let mut idx: usize = 0;
        while idx < self.log.entries.len()
            invariant
                idx <= self.log.entries.len(),
                self@.len() == self.log.entries.len(),
                pviews == prefixes.deep_view(),
                forall|j: int| 0 <= j < idx ==> !entry_matches(self@[j], method@, path@, pviews),
            decreases self.log.entries.len() - idx,
        {
            proof {
                assert(self@[idx as int] == self.log.entries@[idx as int]@);
            }
            let e = &self.log.entries[idx];
            if e.matches_any(method, path, prefixes) {
                proof {
                    lemma_first_match_skip(self@, method@, path@, pviews, idx as int);
                }
                return Some(e);
            }
            idx = idx + 1;
        }
        proof {
            lemma_first_match_skip(self@, method@, path@, pviews, self@.len() as int);
        }
        None
    }
}

/// Law: if entry `i` answers the request, the matcher finds a match, and at
/// an index no later than `i`; the entry it settles on answers the request
/// itself.
pub proof fn lemma_matching_entry_found(
    entries: Seq<EntryView>,
    method: Seq<char>,
    path: Seq<char>,
    prefixes: Seq<Seq<char>>,
    i: int,
)
    requires
        0 <= i < entries.len(),
        entry_matches(entries[i], method, path, prefixes),
    ensures
        first_match(entries, method, path, prefixes) matches Some(j)
            && 0 <= j <= i
            && entry_matches(entries[j], method, path, prefixes),
{
    lemma_first_match_from_le(entries, method, path, prefixes, 0, i);
}

proof fn lemma_first_match_from_le(
    entries: Seq<EntryView>,
    method: Seq<char>,
    path: Seq<char>,
    prefixes: Seq<Seq<char>>,
    s: int,
    i: int,
)
    requires
        0 <= s <= i < entries.len(),
        entry_matches(entries[i], method, path, prefixes),
    ensures
        first_match_from(entries, s, method, path, prefixes) matches Some(j)
            && s <= j <= i
            && entry_matches(entries[j], method, path, prefixes),
    decreases i - s,
{
    if !entry_matches(entries[s], method, path, prefixes) {
        lemma_first_match_from_le(entries, method, path, prefixes, s + 1, i);
    }
}

/// Law: first-match precedence — of two entries that both answer the
/// request, the matcher settles on an index no later than the earlier one.
pub proof fn lemma_first_match_precedence(
    entries: Seq<EntryView>,
    method: Seq<char>,
    path: Seq<char>,
    prefixes: Seq<Seq<char>>,
    i: int,
    j: int,
)
    requires
        0 <= i < j < entries.len(),
        entry_matches(entries[i], method, path, prefixes),
        entry_matches(entries[j], method, path, prefixes),
    ensures
        first_match(entries, method, path, prefixes) matches Some(k) && k <= i,
{
    lemma_matching_entry_found(entries, method, path, prefixes, i);
}

proof fn lemma_first_match_from_characterizes(
    entries: Seq<EntryView>,
    method: Seq<char>,
    path: Seq<char>,
    prefixes: Seq<Seq<char>>,
    s: int,
)
    requires
        0 <= s,
    ensures
        first_match_from(entries, s, method, path, prefixes) matches Some(j) ==> s <= j
            < entries.len() && entry_matches(entries[j], method, path, prefixes) && (forall|i: int|
            s <= i < j ==> !entry_matches(entries[i], method, path, prefixes)),
        first_match_from(entries, s, method, path, prefixes) is None ==> forall|i: int|
            s <= i < entries.len() ==> !entry_matches(entries[i], method, path, prefixes),
    decreases entries.len() - s,
{
    if s < entries.len() && !entry_matches(entries[s], method, path, prefixes) {
        lemma_first_match_from_characterizes(entries, method, path, prefixes, s + 1);
    }
}

/// Law: what the matcher's result means — a hit is a matching entry before
/// which no entry matches, and a miss means no entry matches at all.
pub proof fn lemma_first_match_characterizes(
    entries: Seq<EntryView>,
    method: Seq<char>,
    path: Seq<char>,
    prefixes: Seq<Seq<char>>,
)
    ensures
        first_match(entries, method, path, prefixes) matches Some(j) ==> 0 <= j < entries.len()
            && entry_matches(entries[j], method, path, prefixes) && (forall|i: int|
            0 <= i < j ==> !entry_matches(entries[i], method, path, prefixes)),
        first_match(entries, method, path, prefixes) is None ==> forall|i: int|
            0 <= i < entries.len() ==> !entry_matches(entries[i], method, path, prefixes),
{
    lemma_first_match_from_characterizes(entries, method, path, prefixes, 0);
}

/// Law: prefix stripping is strictly optional — an entry whose stored path
/// does not begin with the configured prefix still answers a request whose
/// path equals the raw stored path.
pub proof fn lemma_prefix_optional(e: EntryView, path: Seq<char>, prefix: Seq<char>)
    requires
        url_path(e.url) == Some(path),
        !(prefix.len() <= path.len() && path.subrange(0, prefix.len() as int) == prefix),
    ensures
        entry_matches_one(e, e.method, path, prefix),
{
}

/// Law: matching is method-sensitive — an entry never answers a request
/// whose method differs from the stored one, whatever the paths and
/// prefixes.
pub proof fn lemma_method_sensitive(
    e: EntryView,
    method: Seq<char>,
    path: Seq<char>,
    prefixes: Seq<Seq<char>>,
)
    requires
        e.method != method,
    ensures
        !entry_matches(e, method, path, prefixes),
{
}

} // verus!
