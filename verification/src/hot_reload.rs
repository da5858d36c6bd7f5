//! The hot-reload watcher's decision logic and the shared snapshot cell.
//!
//! The watcher is a state machine: it polls the archive file's modification
//! stamp at a fixed cadence, triggers a reload only when the stamp is
//! strictly newer than the last one observed, and halts for good on the
//! first read or parse failure, leaving the last valid snapshot in place.
//! The surrounding loop (sleeping, reading the file's metadata and bytes,
//! parsing) performs each action it is told to and reports the outcome back.
//!
//! The snapshot cell holds the archive currently served. It is backed by
//! vstd's verified reader-writer lock: the reload task is the sole writer
//! and swaps the snapshot wholesale, so a reader only ever obtains a fully
//! constructed archive, never a partial one.

use vstd::prelude::*;
use vstd::rwlock::{RwLock, RwLockPredicate};

use crate::handler::{handle, handle_spec, Outcome, OutcomeView};
use crate::structure::{EntryView, HarFile};

verus! {

/// Where the watcher stands: still polling (with the last modification
/// stamp it has observed), or stopped for good after a failure.
#[derive(Clone, Copy, Debug, PartialEq, Eq, Structural)]
pub enum WatcherState {
    Polling { last_modified: u64 },
    Failed,
}

/// What the watcher asks its surrounding loop to do next.
#[derive(Clone, Copy, Debug, PartialEq, Eq, Structural)]
pub enum WatcherAction {
    Sleep,
    Reload,
    Stop,
}

/// The transition taken on one poll of the file's modification stamp;
/// `observed` is `None` when the stamp could not be read.
pub open spec fn poll_step(s: WatcherState, observed: Option<u64>) -> (WatcherState, WatcherAction) {
    match s {
        WatcherState::Failed => (WatcherState::Failed, WatcherAction::Stop),
        WatcherState::Polling { last_modified } => match observed {
            None => (WatcherState::Failed, WatcherAction::Stop),
            Some(t) => if t > last_modified {
                (WatcherState::Polling { last_modified: t }, WatcherAction::Reload)
            } else {
                (WatcherState::Polling { last_modified }, WatcherAction::Sleep)
            },
        },
    }
}

/// The transition taken when a reload finishes; `parsed` is the freshly
/// parsed archive, `None` when reading or parsing failed. The third
/// component is what may be published as the new snapshot.
pub open spec fn reload_step(s: WatcherState, parsed: Option<HarFile>) -> (
    WatcherState,
    WatcherAction,
    Option<HarFile>,
) {
    match parsed {
        None => (WatcherState::Failed, WatcherAction::Stop, None),
        Some(f) => (s, WatcherAction::Sleep, Some(f)),
    }
}

impl WatcherState {
    /// The initial state: polling, with the stamp observed at startup.
    pub fn start(initial_mtime: u64) -> (s: WatcherState)
        ensures
            s == (WatcherState::Polling { last_modified: initial_mtime }),
    {
        WatcherState::Polling { last_modified: initial_mtime }
    }

    /// One poll of the file's modification stamp.
    pub fn on_poll(&self, observed: Option<u64>) -> (r: (WatcherState, WatcherAction))
        ensures
            r == poll_step(*self, observed),
    {
        match self {
            WatcherState::Failed => (WatcherState::Failed, WatcherAction::Stop),
            WatcherState::Polling { last_modified } => match observed {
                None => (WatcherState::Failed, WatcherAction::Stop),
                Some(t) => if t > *last_modified {
                    (WatcherState::Polling { last_modified: t }, WatcherAction::Reload)
                } else {
                    (
                        WatcherState::Polling { last_modified: *last_modified },
                        WatcherAction::Sleep,
                    )
                },
            },
        }
    }

    /// The outcome of the reload the watcher asked for.
    pub fn on_reload(&self, parsed: Option<HarFile>) -> (r: (
        WatcherState,
        WatcherAction,
        Option<HarFile>,
    ))
        ensures
            r == reload_step(*self, parsed),
    {
        match parsed {
            None => (WatcherState::Failed, WatcherAction::Stop, None),
            Some(f) => (*self, WatcherAction::Sleep, Some(f)),
        }
    }
}

/// Law: the failed state is terminal — whatever a later poll observes, the
/// watcher stays failed and only ever asks to stop, never to reload.
pub proof fn lemma_fail_fast_terminal(observed: Option<u64>)
    ensures
        poll_step(WatcherState::Failed, observed).0 == WatcherState::Failed,
        poll_step(WatcherState::Failed, observed).1 == WatcherAction::Stop,
{
}

/// Law: a failed reload publishes nothing — the last valid snapshot stays
/// in place — and halts the watcher for good.
pub proof fn lemma_failed_reload_keeps_snapshot(s: WatcherState)
    ensures
        reload_step(s, None).2 is None,
        reload_step(s, None).0 == WatcherState::Failed,
        reload_step(s, None).1 == WatcherAction::Stop,
{
}

/// Law: only a strictly newer modification stamp triggers a reload; a tie
/// or an older stamp leaves the state unchanged and merely sleeps again.
pub proof fn lemma_reload_only_when_newer(last: u64, t: u64)
    ensures
        t <= last ==> poll_step(WatcherState::Polling { last_modified: last }, Some(t)).0 == (
        WatcherState::Polling { last_modified: last }),
        t <= last ==> poll_step(WatcherState::Polling { last_modified: last }, Some(t)).1
            == WatcherAction::Sleep,
        t > last ==> poll_step(WatcherState::Polling { last_modified: last }, Some(t)).0 == (
        WatcherState::Polling { last_modified: t }),
        t > last ==> poll_step(WatcherState::Polling { last_modified: last }, Some(t)).1
            == WatcherAction::Reload,
{
}

/// The predicate every archive stored in the snapshot cell satisfies: any
/// fully constructed archive may be published.
pub struct SnapshotPred {}

impl RwLockPredicate<HarFile> for SnapshotPred {
    open spec fn inv(self, v: HarFile) -> bool {
        true
    }
}

/// The shared current-archive cell. The reload task is the sole writer and
/// replaces the snapshot wholesale; any number of request handlers read it
/// concurrently. Backed by vstd's verified reader-writer lock, so a swap is
/// atomic with respect to readers: they see the old archive or the new one,
/// never a mixture.
pub struct SnapshotCell {
    lock: RwLock<HarFile, SnapshotPred>,
}

impl SnapshotCell {
    /// Creates the cell holding the archive loaded at startup.
    pub fn new(initial: HarFile) -> SnapshotCell {
        SnapshotCell { lock: RwLock::new(initial, Ghost(SnapshotPred {})) }
    }

    /// Atomically publishes a freshly parsed archive as the current
    /// snapshot; the lock is held only for the swap itself.
    pub fn publish(&self, file: HarFile) {
        let (_stale, write_handle) = self.lock.acquire_write();
        write_handle.release_write(file);
    }

    /// Serves one request against whichever snapshot is current: the result
    /// is the handler's verdict on a single, fully constructed archive, and
    /// a non-`GET` request is answered "not found" whatever that archive
    /// holds.
    pub fn handle_current(&self, method: &str, path: &str, prefixes: &Vec<String>) -> (r: Outcome)
        ensures
            exists|es: Seq<EntryView>| r@ == handle_spec(es, method@, path@, prefixes.deep_view()),
            method@ != "GET"@ ==> r@ == OutcomeView::NotFound,
            method@ == "GET"@ ==> !(r@ is NotFound),
    {
        let read_handle = self.lock.acquire_read();
        let file = read_handle.borrow();
        let r = handle(file, method, path, prefixes);
        proof {
            assert(r@ == handle_spec(file@, method@, path@, prefixes.deep_view()));
        }
        read_handle.release_read();
        r
    }
}

} // verus!
