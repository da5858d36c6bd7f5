use har_replay::structure::{Entry, HarFile};

fn entry(method: &str, url: &str, status: u16, body: &str) -> Entry {
    Entry::new(String::from(method), String::from(url), status, String::from(body))
}

#[test]
fn matching_takes_into_account_prefix() {
    let entry = entry("GET", "http://example.com:9000/prefix/api/v1/users", 200, "");
    assert!(entry.matches("GET", "/api/v1/users", "/prefix"));
}

#[test]
fn matching_compares_the_full_path() {
    let entry = entry("GET", "http://example.com:9000/prefix/api/v1/users/identifier", 200, "");
    assert!(!entry.matches("GET", "/api/v1/users", "/prefix"));
}

#[test]
fn matching_is_method_sensitive() {
    let entry = entry("GET", "http://h/prefix/users", 200, "ok");
    assert!(!entry.matches("POST", "/users", "/prefix"));
}

#[test]
fn matching_discards_query_and_host() {
    let entry = entry("GET", "http://h:1234/api/v1/x?page=2", 200, "ok");
    assert!(entry.matches("GET", "/api/v1/x", ""));
}

#[test]
fn prefix_strip_is_optional_not_a_filter() {
    // The stored path does not begin with the prefix: stripping is a no-op,
    // and the raw stored path still matches the incoming path.
    let entry = entry("GET", "http://h/users", 200, "ok");
    assert!(entry.matches("GET", "/users", "/prefix"));
}

#[test]
fn malformed_stored_url_never_matches() {
    let entry = entry("GET", "not a uri", 200, "ok");
    assert!(!entry.matches("GET", "not a uri", ""));
    assert!(!entry.matches("GET", "/users", "/prefix"));
}

#[test]
fn matches_any_treats_empty_set_as_empty_prefix() {
    let e = entry("GET", "http://h/api/v1/x", 200, "ok");
    let no_prefixes: Vec<String> = Vec::new();
    assert!(e.matches_any("GET", "/api/v1/x", &no_prefixes));
    assert!(!e.matches_any("GET", "/x", &no_prefixes));
}

#[test]
fn matches_any_tries_each_prefix() {
    let e = entry("GET", "http://h/alpha/users", 200, "ok");
    let prefixes = vec![String::from("/beta"), String::from("/alpha")];
    assert!(e.matches_any("GET", "/users", &prefixes));
}

#[test]
fn search_returns_the_first_match_in_stored_order() {
    let entries = vec![
        entry("GET", "http://h/prefix/users", 200, "first"),
        entry("GET", "http://h/prefix/users", 201, "second"),
    ];
    let file = HarFile::from_entries(entries);
    let prefixes = vec![String::from("/prefix")];
    let found = file.search("GET", "/users", &prefixes).expect("must match");
    assert_eq!(found.status(), 200);
    assert_eq!(found.body_text(), "first");
}

#[test]
fn search_skips_non_matching_entries() {
    let entries = vec![
        entry("POST", "http://h/prefix/users", 200, "wrong method"),
        entry("GET", "http://h/prefix/other", 200, "wrong path"),
        entry("GET", "http://h/prefix/users", 204, "right"),
    ];
    let file = HarFile::from_entries(entries);
    let prefixes = vec![String::from("/prefix")];
    let found = file.search("GET", "/users", &prefixes).expect("must match");
    assert_eq!(found.status(), 204);
    assert_eq!(found.body_text(), "right");
}

#[test]
fn search_misses_when_nothing_matches() {
    let file = HarFile::from_entries(vec![entry("GET", "http://h/prefix/users", 200, "ok")]);
    let prefixes = vec![String::from("/prefix")];
    assert!(file.search("GET", "/nothing", &prefixes).is_none());
}
