//! Supervision of a setup ceremony coordinator through its log output.
//!
//! The coordinator is an opaque process; what it does is inferred from the
//! lines it prints. This crate holds the part that can be reasoned about:
//!
//! - `patterns`: the fixed table of line patterns;
//! - `matcher`: the calls into the `regex` crate, which searches a line for
//!   a pattern, and what is taken of them on trust;
//! - `machine`: the round state machine, which turns what the patterns find
//!   in a line into ceremony events and the next phase;
//! - `lifecycle`: what holds of the state machine on every line;
//! - `monitor`: the decisions of the monitoring loop, read by read and for a
//!   whole session;
//! - `config`: the run configuration, the paths derived from it and the
//!   configuration record that the coordinator is started with;
//! - `membership`: the check of a round's membership snapshot;
//! - `events`, `identity`: the events and the participants they speak of;
//! - `decimal`, `text`: numbers and paths as text.
//!
//! Reading the coordinator's output, writing files and publishing events is
//! left to the caller: every function here takes and gives plain values.

pub mod config;
pub mod decimal;
pub mod events;
pub mod identity;
pub mod lifecycle;
pub mod machine;
pub mod matcher;
pub mod membership;
pub mod monitor;
pub mod patterns;
pub mod text;
