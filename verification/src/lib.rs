//! A reactive component runtime for a terminal console that browses remote
//! dataspace-connector resources.
//!
//! The crate models the runtime as plain data and verified transition
//! functions: every component exposes `handle_event` (raw input to messages),
//! `update` (one message to a new state plus an update result), and, where it
//! applies, an `init` step.  Asynchronous work (network fetches, notification
//! timers) is represented by command values that an unverified host executes;
//! the host feeds the resulting messages back into `update`.

pub mod app;
pub mod components;
pub mod config;
pub mod input;
pub mod query;
pub mod types;
pub mod util;
pub mod widgets;
