//! Verified core of a single-speaker command-line controller: the command
//! registries, the configuration record and its on-disk text form, the
//! error taxonomy, and the dispatch state machine that drives one
//! invocation.  A thin driver performs the storage and speaker actions
//! the machine requests and hands their outcomes back as events.

pub mod config;
pub mod dispatch;
pub mod error;
pub mod registry;
pub mod text;
