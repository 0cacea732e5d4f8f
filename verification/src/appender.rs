//! The unified sink: a fixed-capacity history of the most recent events and
//! a registry of live subscribers, each guarded by its own reader/writer
//! lock so that many threads may record events concurrently.

use vstd::prelude::*;
use vstd::rwlock::RwLock;
use std::collections::VecDeque;
use crate::broadcast::broadcast;
use crate::event::LogEvent;
use crate::event::LogLevel;
use crate::history::DEFAULT_MAX_RETAIN_SIZE;
use crate::history::record_history;

verus! {

/// A bounded, thread-safe log event sink. `record` appends each event to the
/// bounded history, evicting the oldest events when the history is at
/// capacity, and then offers the rendered message to every registered
/// subscriber, pruning the subscribers whose delivery fails.
pub struct LogHistoryAppender {
    max_retain_size: usize,
    log_history: RwLock<VecDeque<LogEvent>, spec_fn(VecDeque<LogEvent>) -> bool>,
    log_subscribers: RwLock<
        Vec<crossbeam_channel::Sender<String>>,
        spec_fn(Vec<crossbeam_channel::Sender<String>>) -> bool,
    >,
}

impl LogHistoryAppender {
    /// The capacity of the history, fixed at construction.
    pub closed spec fn max_retain(self) -> usize {
        self.max_retain_size
    }

    #[verifier::type_invariant]
    spec fn wf(self) -> bool {
        &&& 1 <= self.max_retain_size
        &&& forall|h: VecDeque<LogEvent>|
            #[trigger] self.log_history.inv(h) <==> h@.len() <= self.max_retain_size
        &&& forall|s: Vec<crossbeam_channel::Sender<String>>|
            #[trigger] self.log_subscribers.inv(s)
    }

    /// Construct a sink that retains at most `max_retain_size` events.
    pub fn with_max_retain_size(max_retain_size: usize) -> (sink: Self)
        requires
            1 <= max_retain_size,
        ensures
            sink.max_retain() == max_retain_size,
    {
        let log_history = RwLock::new(
            VecDeque::new(),
            Ghost(|h: VecDeque<LogEvent>| h@.len() <= max_retain_size),
        );
        let log_subscribers = RwLock::new(
            Vec::new(),
            Ghost(|s: Vec<crossbeam_channel::Sender<String>>| true),
        );
        LogHistoryAppender { max_retain_size, log_history, log_subscribers }
    }

    /// Construct a sink with the default capacity.
    pub fn new() -> (sink: Self)
        ensures
            sink.max_retain() == DEFAULT_MAX_RETAIN_SIZE,
    {
        Self::with_max_retain_size(DEFAULT_MAX_RETAIN_SIZE)
    }

    /// Record one event: append it to the bounded history, evicting the
    /// oldest events if the history is at capacity, and then offer the
    /// rendered message to every subscriber, pruning those whose delivery
    /// fails. The message is rendered by the caller and used once for both
    /// steps. This operation never reports a failure to its caller.
    pub fn record(&self, level: LogLevel, message: String) {
        proof {
            use_type_invariant(&*self);
        }
        let event = LogEvent { message: message.clone(), level };
        let (mut history, history_write) = self.log_history.acquire_write();
        record_history(&mut history, self.max_retain_size, event);
        history_write.release_write(history);
        let (mut subscribers, subscriber_write) = self.log_subscribers.acquire_write();
        broadcast(&mut subscribers, &message);
        subscriber_write.release_write(subscribers);
    }

    /// Register a new delivery endpoint; every later `record` call attempts
    /// delivery to it until a delivery fails.
    pub fn add_subscriber(&self, subscriber: crossbeam_channel::Sender<String>) {
        proof {
            use_type_invariant(&*self);
        }
        let (mut subscribers, subscriber_write) = self.log_subscribers.acquire_write();
        subscribers.push(subscriber);
        subscriber_write.release_write(subscribers);
    }

    /// The number of events currently retained, never over the capacity.
    /// The count is always available: the verified lock discipline cannot
    /// enter the corrupted state in which an abnormally terminated writer
    /// would leave an ordinary reader/writer lock.
    pub fn snapshot_len(&self) -> (count: usize)
        ensures
            count <= self.max_retain(),
    {
        proof {
            use_type_invariant(&*self);
        }
        let read_handle = self.log_history.acquire_read();
        let count = read_handle.borrow().len();
        read_handle.release_read();
        count
    }

    /// A copy of the retained history, oldest event first.
    pub fn snapshot(&self) -> (events: Vec<LogEvent>)
        ensures
            events@.len() <= self.max_retain(),
    {
        proof {
            use_type_invariant(&*self);
        }
        let read_handle = self.log_history.acquire_read();
        let history = read_handle.borrow();
        let mut events: Vec<LogEvent> = Vec::new();
        let mut i: usize = 0;
        while i < history.len()
            invariant
                events@.len() == i,
                i <= history@.len(),
                history@.len() <= self.max_retain(),
            decreases history@.len() - i,
        {
            events.push(history[i].clone());
            i = i + 1;
        }
        read_handle.release_read();
        events
    }

    /// The number of currently registered subscribers.
    pub fn subscriber_count(&self) -> usize {
        proof {
            use_type_invariant(&*self);
        }
        let read_handle = self.log_subscribers.acquire_read();
        let count = read_handle.borrow().len();
        read_handle.release_read();
        count
    }

    /// The capacity of the history, fixed at construction.
    pub fn max_retain_size(&self) -> (max_retain_size: usize)
        ensures
            max_retain_size == self.max_retain(),
    {
        self.max_retain_size
    }
}

} // verus!
