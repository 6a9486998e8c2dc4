//! Supervised execution of an external process whose two output streams are
//! split into lines and forwarded, one line per event, to a sink.
//!
//! The library holds the decisions: the argument vector of a job, the
//! splitting of raw stream bytes into lines, the decoding and tagging of each
//! line, and the state machine that says when a run is complete and what it
//! reports. Spawning, reading pipes, threads and the sink itself belong to the
//! caller, which feeds the observed events to [`supervisor::Supervisor`].

pub mod lines;
pub mod output;
pub mod invocation;
pub mod supervisor;
pub mod drain;
