use log_history_sink::LogEvent;
use log_history_sink::LogHistoryAppender;
use log_history_sink::LogLevel;
use std::collections::VecDeque;

#[test]
fn default_capacity() {
    let sink = LogHistoryAppender::new();
    assert_eq!(sink.max_retain_size(), 4096);
    assert_eq!(sink.snapshot_len(), 0);
}

#[test]
fn capacity_invariant_after_each_call() {
    let sink = LogHistoryAppender::with_max_retain_size(3);
    for i in 0..10 {
        sink.record(LogLevel::Info, format!("event {}", i));
        assert!(sink.snapshot_len() <= 3);
    }
}

#[test]
fn eviction_order_scenario() {
    let sink = LogHistoryAppender::with_max_retain_size(3);
    sink.record(LogLevel::Info, String::from("a"));
    sink.record(LogLevel::Info, String::from("b"));
    sink.record(LogLevel::Info, String::from("c"));
    sink.record(LogLevel::Info, String::from("d"));
    let events = sink.snapshot();
    assert_eq!(events.len(), 3);
    assert_eq!(events[0].message, "b");
    assert_eq!(events[1].message, "c");
    assert_eq!(events[2].message, "d");
    assert_eq!(events[0].level, LogLevel::Info);
}

#[test]
fn eviction_starts_only_at_capacity() {
    let sink = LogHistoryAppender::with_max_retain_size(3);
    sink.record(LogLevel::Warn, String::from("a"));
    sink.record(LogLevel::Error, String::from("b"));
    sink.record(LogLevel::Trace, String::from("c"));
    let full = sink.snapshot();
    assert_eq!(full.len(), 3);
    assert_eq!(full[0].message, "a");
    assert_eq!(full[0].level, LogLevel::Warn);
    assert_eq!(full[2].level, LogLevel::Trace);
    sink.record(LogLevel::Debug, String::from("d"));
    let evicted = sink.snapshot();
    assert_eq!(evicted.len(), 3);
    assert_eq!(evicted[0].message, "b");
    assert_eq!(evicted[2].message, "d");
}

#[test]
fn broadcast_completeness() {
    let sink = LogHistoryAppender::with_max_retain_size(8);
    let (s1, r1) = crossbeam_channel::unbounded::<String>();
    let (s2, r2) = crossbeam_channel::unbounded::<String>();
    let (s3, r3) = crossbeam_channel::unbounded::<String>();
    sink.add_subscriber(s1);
    sink.add_subscriber(s2);
    sink.add_subscriber(s3);
    sink.record(LogLevel::Info, String::from("hello"));
    for receiver in [&r1, &r2, &r3] {
        assert_eq!(receiver.try_recv().unwrap(), "hello");
        assert!(receiver.try_recv().is_err());
    }
}

#[test]
fn pruning_on_failure() {
    let sink = LogHistoryAppender::with_max_retain_size(8);
    let (s1, r1) = crossbeam_channel::unbounded::<String>();
    let (s2, r2) = crossbeam_channel::unbounded::<String>();
    sink.add_subscriber(s1);
    sink.add_subscriber(s2);
    assert_eq!(sink.subscriber_count(), 2);
    drop(r1);
    sink.record(LogLevel::Warn, String::from("first"));
    assert_eq!(sink.subscriber_count(), 1);
    assert_eq!(r2.try_recv().unwrap(), "first");
    sink.record(LogLevel::Warn, String::from("second"));
    assert_eq!(sink.subscriber_count(), 1);
    assert_eq!(r2.try_recv().unwrap(), "second");
}

#[test]
fn record_never_fails_caller() {
    let sink = LogHistoryAppender::with_max_retain_size(1);
    let (s1, r1) = crossbeam_channel::unbounded::<String>();
    sink.add_subscriber(s1);
    drop(r1);
    for i in 0..100 {
        sink.record(LogLevel::Error, format!("event {}", i));
    }
    assert_eq!(sink.snapshot_len(), 1);
    assert_eq!(sink.subscriber_count(), 0);
}

#[test]
fn snapshot_len_matches_snapshot() {
    let sink = LogHistoryAppender::with_max_retain_size(5);
    for i in 0..7 {
        sink.record(LogLevel::Debug, format!("event {}", i));
        assert_eq!(sink.snapshot_len(), sink.snapshot().len());
    }
    assert_eq!(sink.snapshot_len(), 5);
}

#[test]
fn per_subscriber_delivery_order() {
    let sink = LogHistoryAppender::with_max_retain_size(8);
    let (s1, r1) = crossbeam_channel::unbounded::<String>();
    sink.add_subscriber(s1);
    sink.record(LogLevel::Info, String::from("a"));
    sink.record(LogLevel::Info, String::from("b"));
    sink.record(LogLevel::Info, String::from("c"));
    assert_eq!(r1.try_recv().unwrap(), "a");
    assert_eq!(r1.try_recv().unwrap(), "b");
    assert_eq!(r1.try_recv().unwrap(), "c");
    assert!(r1.try_recv().is_err());
}

#[test]
fn record_history_evicts_oldest() {
    let mut history: VecDeque<LogEvent> = VecDeque::new();
    for i in 0..5 {
        let event = LogEvent { message: format!("m{}", i), level: LogLevel::Trace };
        log_history_sink::history::record_history(&mut history, 2, event);
        assert!(history.len() <= 2);
    }
    assert_eq!(history[0].message, "m3");
    assert_eq!(history[1].message, "m4");
}

#[test]
fn broadcast_prunes_disconnected() {
    let (s1, r1) = crossbeam_channel::unbounded::<String>();
    let (s2, r2) = crossbeam_channel::unbounded::<String>();
    let mut subscribers = vec![s1, s2];
    drop(r2);
    log_history_sink::broadcast::broadcast(&mut subscribers, &String::from("x"));
    assert_eq!(subscribers.len(), 1);
    assert_eq!(r1.try_recv().unwrap(), "x");
}

#[test]
fn failed_subscriber_does_not_block_others() {
    let sink = LogHistoryAppender::with_max_retain_size(8);
    let (s1, r1) = crossbeam_channel::unbounded::<String>();
    let (s2, r2) = crossbeam_channel::unbounded::<String>();
    let (s3, r3) = crossbeam_channel::unbounded::<String>();
    sink.add_subscriber(s1);
    sink.add_subscriber(s2);
    sink.add_subscriber(s3);
    drop(r2);
    sink.record(LogLevel::Info, String::from("still here"));
    assert_eq!(r1.try_recv().unwrap(), "still here");
    assert_eq!(r3.try_recv().unwrap(), "still here");
    assert_eq!(sink.subscriber_count(), 2);
}
