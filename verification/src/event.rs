//! The value type stored in the history: a rendered message with a severity.

use vstd::prelude::*;

verus! {

/// Severity of a log event, from most to least severe.
#[derive(Clone, Copy, Debug, PartialEq, Eq, Structural)]
pub enum LogLevel {
    Error,
    Warn,
    Info,
    Debug,
    Trace,
}

/// A single log event: the rendered message text and its severity.
/// Immutable once created.
#[derive(Clone, Debug)]
pub struct LogEvent {
    pub message: String,
    pub level: LogLevel,
}

} // verus!
