//! A bounded, thread-safe log event sink.
//!
//! The sink retains the most recent events in a fixed-capacity history and
//! fans each incoming message out to a dynamic set of live subscribers,
//! pruning any subscriber whose endpoint can no longer accept delivery.

pub mod appender;
pub mod broadcast;
pub mod event;
pub mod history;

pub use appender::LogHistoryAppender;
pub use event::LogEvent;
pub use event::LogLevel;
