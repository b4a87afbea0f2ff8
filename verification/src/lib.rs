//! Engine logic for a stream-tagging output multiplexer.
//!
//! The engine drains two byte sources (canonically a child process's
//! standard output and standard error) into one destination stream,
//! writing an ANSI marker sequence whenever the active source changes,
//! and relays a third stream unmodified.  This crate holds the decision
//! core of that engine: which bytes are emitted for each readiness
//! event, when a source leaves the candidate set, when the destination
//! is closed, how ties between two ready sources are broken, and when
//! the whole engine shuts down.  The surrounding process plumbing
//! (pipes, descriptors, the readiness wait itself) hands events to this
//! core and performs the writes it returns.

pub mod lifecycle;
pub mod marker;
pub mod mux;
pub mod relay;
pub mod sched;
pub mod tagging;
