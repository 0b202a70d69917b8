//! Verified core of a `.DS_Store` janitor: a scan cache whose entries are
//! validated against a freshness fingerprint before they are trusted, the
//! matching and exclusion rules shared by one-shot and watch-mode deletion,
//! and the decision logic of the live watch loop.

pub mod cache;
pub mod cli;
pub mod consts;
pub mod git;
pub mod killer;
pub mod paths;
pub mod seqs;
pub mod service;
pub mod text;
pub mod watcher;
