//! One-shot backup jobs with a verified execute-then-report pipeline.
//!
//! A job copies a file, stores it into an archive, or delegates to an
//! external base-backup tool, and always reports the outcome as a JSON
//! status record to a remote collector over a raw connection.  The rules
//! that make the report unavoidable, the construction of the record, the
//! wire encoding, and the composition of execution and delivery failures
//! into one process result are stated in contracts and proved.

pub mod archive;
pub mod clock;
pub mod executor;
pub mod job;
pub mod json;
pub mod message;
pub mod outcome;
pub mod pipeline;
pub mod report;
pub mod transport;
