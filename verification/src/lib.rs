//! Background scan and aggregation core of a replay-snapshot desktop tool.
//!
//! The crate holds the rules of the subsystem as verified code. File access,
//! threads, the query engine that reads the snapshot files and the user
//! interface live outside of it and hand plain values in.
//!
//! - `response`: the envelope around every command result.
//! - `error`: the closed set of failures.
//! - `settings`: the settings document, loading and saving.
//! - `records`, `plan`, `aggregate`, `snapshot`, `engine`: the aggregation of
//!   snapshot rows into the statistics of a snapshot or of a map.
//! - `laws`: what holds of every aggregation.
//! - `dispatch`, `gateway`, `invocation`: what is decided around a dispatched
//!   unit of work, and the state machine of one invocation.
//! - `export`: the plan of an export run.
//! - `scan`, `client`, `display`, `time_ago`: the calling side, from the
//!   table of a directory scan to the words for an age.
//! - `dates`, `decimal`, `text`: calendar dates, decimal notation and literal
//!   search, which the others build on.

pub mod aggregate;
pub mod client;
pub mod dates;
pub mod decimal;
pub mod dispatch;
pub mod display;
pub mod engine;
pub mod error;
pub mod export;
pub mod gateway;
pub mod invocation;
pub mod laws;
pub mod map_stats;
pub mod plan;
pub mod records;
pub mod response;
pub mod scan;
pub mod settings;
pub mod snapshot;
pub mod snapshot_stats;
pub mod text;
pub mod time_ago;
