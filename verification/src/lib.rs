//! A minimal, machine-parseable result reporter.
//!
//! The reporter receives a stream of progress and result events and renders at
//! most one line per event: a single success line on the success sink, or a
//! single failure line on the failure sink. Events that are not final results
//! are discarded with no observable effect on either sink.

pub mod handler;
pub mod laws;
pub mod message;
pub mod sink;
pub mod version;
