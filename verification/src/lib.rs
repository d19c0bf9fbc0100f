//! Core of a stream-capture launcher: jobs submitted by a producer travel
//! through a FIFO queue to a dispatcher, which turns each job into the
//! argument vector of one external capture-process invocation.
//!
//! The presentation layer (windows, text boxes) and the operating-system
//! facilities (threads, the channel primitive, process creation) live outside
//! this crate; what is verified here is the data model, the queue discipline,
//! the dispatch decisions, and the exact argument and status strings.

pub mod dispatcher;
pub mod job;
pub mod launcher;
pub mod queue;
pub mod status;
