//! A local HTTP replay server core: an archive of recorded request/response
//! pairs, a first-match request matcher with optional prefix stripping, and
//! the decision logic of a hot-reload watcher that swaps the served archive
//! atomically.

pub mod args;
pub mod handler;
pub mod hot_reload;
pub mod structure;
pub mod text;
