use har_replay::handler::{handle, Outcome};
use har_replay::hot_reload::{SnapshotCell, WatcherAction, WatcherState};
use har_replay::structure::{Entry, HarFile};

fn scenario_archive() -> HarFile {
    HarFile::from_entries(vec![Entry::new(
        String::from("GET"),
        String::from("http://h/prefix/users"),
        200,
        String::from("ok"),
    )])
}

#[test]
fn get_with_stripped_prefix_replays_the_entry() {
    let file = scenario_archive();
    let prefixes = vec![String::from("/prefix")];
    let outcome = handle(&file, "GET", "/users", &prefixes);
    assert_eq!(outcome, Outcome::Replay { status: 200, body: String::from("ok") });
}

#[test]
fn unstripped_path_misses_and_falls_back() {
    // After stripping "/prefix" the stored path is "/users", which differs
    // from the incoming "/prefix/users": no match, so the request is
    // forwarded to the fallback.
    let file = scenario_archive();
    let prefixes = vec![String::from("/prefix")];
    let outcome = handle(&file, "GET", "/prefix/users", &prefixes);
    assert_eq!(outcome, Outcome::Forward);
}

#[test]
fn non_get_is_not_found_regardless_of_path() {
    let file = scenario_archive();
    let prefixes = vec![String::from("/prefix")];
    let outcome = handle(&file, "POST", "/users", &prefixes);
    assert_eq!(outcome, Outcome::NotFound);
}

#[test]
fn empty_prefix_set_matches_the_raw_path() {
    let file = HarFile::from_entries(vec![Entry::new(
        String::from("GET"),
        String::from("http://h/api/v1/x"),
        200,
        String::from("ok"),
    )]);
    let no_prefixes: Vec<String> = Vec::new();
    let outcome = handle(&file, "GET", "/api/v1/x", &no_prefixes);
    assert_eq!(outcome, Outcome::Replay { status: 200, body: String::from("ok") });
}

#[test]
fn reload_publishes_the_new_archive() {
    // The archive on disk is replaced mid-run: after the watcher observes a
    // newer stamp and the reload parses, a previously-unmatched request
    // matches the newly added entry.
    let no_prefixes: Vec<String> = Vec::new();
    let cell = SnapshotCell::new(HarFile::from_entries(Vec::new()));
    assert_eq!(cell.handle_current("GET", "/fresh", &no_prefixes), Outcome::Forward);

    let state = WatcherState::start(1);
    let (state, action) = state.on_poll(Some(2));
    assert_eq!(action, WatcherAction::Reload);

    let replacement = HarFile::from_entries(vec![Entry::new(
        String::from("GET"),
        String::from("http://h/fresh"),
        200,
        String::from("new"),
    )]);
    let (state, action, to_publish) = state.on_reload(Some(replacement));
    assert_eq!(action, WatcherAction::Sleep);
    assert_eq!(state, WatcherState::Polling { last_modified: 2 });
    cell.publish(to_publish.expect("a successful reload publishes"));

    assert_eq!(
        cell.handle_current("GET", "/fresh", &no_prefixes),
        Outcome::Replay { status: 200, body: String::from("new") },
    );
}

#[test]
fn failed_reload_halts_and_keeps_the_last_snapshot() {
    // A syntactically invalid archive after a valid one: the reload fails,
    // the watcher halts for good, and the last valid snapshot keeps serving.
    let prefixes = vec![String::from("/prefix")];
    let cell = SnapshotCell::new(scenario_archive());

    let state = WatcherState::start(5);
    let (state, action) = state.on_poll(Some(9));
    assert_eq!(action, WatcherAction::Reload);

    let (state, action, to_publish) = state.on_reload(None);
    assert_eq!(state, WatcherState::Failed);
    assert_eq!(action, WatcherAction::Stop);
    assert!(to_publish.is_none());

    // The failed state is terminal: no later observation reloads again.
    let (state, action) = state.on_poll(Some(100));
    assert_eq!(state, WatcherState::Failed);
    assert_eq!(action, WatcherAction::Stop);

    assert_eq!(
        cell.handle_current("GET", "/users", &prefixes),
        Outcome::Replay { status: 200, body: String::from("ok") },
    );
}

#[test]
fn timestamp_ties_never_reload() {
    let state = WatcherState::start(7);
    let (state, action) = state.on_poll(Some(7));
    assert_eq!(state, WatcherState::Polling { last_modified: 7 });
    assert_eq!(action, WatcherAction::Sleep);

    let (state, action) = state.on_poll(Some(3));
    assert_eq!(state, WatcherState::Polling { last_modified: 7 });
    assert_eq!(action, WatcherAction::Sleep);
}

#[test]
fn unreadable_stamp_stops_the_watcher() {
    let state = WatcherState::start(7);
    let (state, action) = state.on_poll(None);
    assert_eq!(state, WatcherState::Failed);
    assert_eq!(action, WatcherAction::Stop);
}
