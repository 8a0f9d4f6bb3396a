//! Run an external command, capture its combined standard-output and
//! standard-error text, and report a failure with full context.
//!
//! The verified core of the runner lives here: tokenizing a command line,
//! accumulating the drained output, judging the exit status, and rendering
//! the diagnostic message. The process and pipe handling itself is ordinary
//! operating-system work that a thin unverified shell drives by feeding
//! events into [`session::Session`].

pub mod numeral;
pub mod report;
pub mod session;
pub mod tokens;
