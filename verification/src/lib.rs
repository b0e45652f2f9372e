//! Batch synchronization of a declared set of version-controlled
//! checkouts: for each declared project, clone the repository when its
//! directory is absent, or bring one or more branches up to date when it
//! is present, restoring the originally checked-out branch afterward.
//!
//! The heart of the crate is [`engine::SyncEngine`], a verified decision
//! engine: it holds where one project stands in its protocol and, fed
//! what last happened, says which operation comes next. An unverified
//! driver performs the operations — subprocess invocations and
//! filesystem probes — and reports back. The engine's decision table is
//! the specification [`engine::spec_step`], and the failure-isolation
//! guarantees (one branch's or one project's failure never stops the
//! rest) are proved as laws about that table.

pub mod config;
pub mod engine;
pub mod error;
pub mod git_utils;
pub mod logger;
pub mod paths;
pub mod summary;
pub mod text;
