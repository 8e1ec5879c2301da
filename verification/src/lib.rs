//! An interactive shell core for driving a Lightning node: it tokenizes
//! command lines, validates arguments, decides which node operation to run,
//! renders the replies, and schedules the draining of node events.
//!
//! The shell itself performs no I/O here: a thin front end reads lines,
//! hands them to [`cmd::parse_command`] and [`valid::dispatch_tokens`],
//! carries the resulting [`valid::Action`] out to the node library, and
//! drives the event drain loop as [`drain`] directs.

pub mod cmd;
pub mod laws;
pub mod lex;
pub mod drain;
pub mod num;
pub mod render;
pub mod valid;
