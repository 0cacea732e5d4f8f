//! The bounded history store: an ordered sequence of log events whose length
//! never exceeds a fixed capacity, evicting the oldest event to make room.

use vstd::prelude::*;
use std::collections::VecDeque;
use crate::event::LogEvent;

verus! {

/// The default capacity of the bounded history.
pub const DEFAULT_MAX_RETAIN_SIZE: usize = 4096;

/// The history after one `event` is appended under capacity
/// `max_retain_size`: evict from the front until there is room, then push the
/// event at the back.
pub open spec fn push_with_evict(
    history: Seq<LogEvent>,
    max_retain_size: nat,
    event: LogEvent,
) -> Seq<LogEvent> {
    if history.len() >= max_retain_size {
        history.skip(history.len() - (max_retain_size - 1)).push(event)
    } else {
        history.push(event)
    }
}

/// The history retained after the events of `events` are recorded in order
/// into an initially empty history of capacity `max_retain_size`.
pub open spec fn retained_after(events: Seq<LogEvent>, max_retain_size: nat) -> Seq<LogEvent>
    decreases events.len(),
{
    if events.len() == 0 {
        Seq::empty()
    } else {
        push_with_evict(
            retained_after(events.drop_last(), max_retain_size),
            max_retain_size,
            events.last(),
        )
    }
}

/// One append never leaves the history over capacity, whatever state the
/// history was in before it.
pub proof fn lemma_push_with_evict_len(
    history: Seq<LogEvent>,
    max_retain_size: nat,
    event: LogEvent,
)
    requires
        1 <= max_retain_size,
    ensures
        push_with_evict(history, max_retain_size, event).len() <= max_retain_size,
{
}

/// Capacity invariant: after any sequence of recorded events, the retained
/// history holds at most `max_retain_size` events.
pub proof fn lemma_capacity_invariant(events: Seq<LogEvent>, max_retain_size: nat)
    requires
        1 <= max_retain_size,
    ensures
        retained_after(events, max_retain_size).len() <= max_retain_size,
    decreases events.len(),
{
    if events.len() > 0 {
        lemma_capacity_invariant(events.drop_last(), max_retain_size);
        lemma_push_with_evict_len(
            retained_after(events.drop_last(), max_retain_size),
            max_retain_size,
            events.last(),
        );
    }
}

/// Eviction order: recording `events` into an empty history retains exactly
/// the most recent `max_retain_size` of them, in their original relative
/// order; only the earliest events are evicted.
pub proof fn lemma_eviction_order(events: Seq<LogEvent>, max_retain_size: nat)
    requires
        1 <= max_retain_size,
    ensures
        retained_after(events, max_retain_size) == (if events.len() <= max_retain_size {
            events
        } else {
            events.skip(events.len() - max_retain_size)
        }),
    decreases events.len(),
{
    if events.len() == 0 {
        assert(retained_after(events, max_retain_size) =~= events);
    } else {
        let prefix = events.drop_last();
        lemma_eviction_order(prefix, max_retain_size);
        if events.len() <= max_retain_size {
            assert(prefix.push(events.last()) =~= events);
        } else if prefix.len() == max_retain_size {
            assert(prefix.skip(1).push(events.last()) =~= events.skip(
                events.len() - max_retain_size,
            ));
        } else {
            assert(prefix.skip(prefix.len() - max_retain_size).skip(1).push(events.last()) =~= events.skip(
                events.len() - max_retain_size,
            ));
        }
    }
}

/// Append `event` to the bounded history, evicting the oldest events first
/// whenever the history is at (or somehow over) capacity.
pub fn record_history(history: &mut VecDeque<LogEvent>, max_retain_size: usize, event: LogEvent)
    requires
        1 <= max_retain_size,
    ensures
        final(history)@ == push_with_evict(old(history)@, max_retain_size as nat, event),
        final(history)@.len() <= max_retain_size,
        final(history)@.last() == event,
{
    proof {
        lemma_push_with_evict_len(old(history)@, max_retain_size as nat, event);
        assert(old(history)@.skip(0) =~= old(history)@);
    }
    while history.len() >= max_retain_size
        invariant
            1 <= max_retain_size,
            history@.len() <= old(history)@.len(),
            history@ == old(history)@.skip(old(history)@.len() - history@.len()),
            old(history)@.len() >= max_retain_size ==> history@.len() + 1 >= max_retain_size,
            old(history)@.len() < max_retain_size ==> history@.len() == old(history)@.len(),
        decreases history@.len(),
    {
        history.pop_front();
        proof {
            assert(history@ =~= old(history)@.skip(old(history)@.len() - history@.len()));
        }
    }
    proof {
        if old(history)@.len() >= max_retain_size {
            assert(history@.len() == max_retain_size - 1);
            assert(history@ == old(history)@.skip(
                old(history)@.len() - (max_retain_size as nat - 1),
            ));
        } else {
            assert(history@ == old(history)@);
        }
    }
    history.push_back(event);
}

} // verus!
