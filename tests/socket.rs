use socket_source::event::LogEvent;
use socket_source::internal_events::{
    Counter, CounterIncrement, FieldValue, Severity, SocketEventReceived, SocketEventsSent,
    SocketMode, SocketReceiveError,
};
use socket_source::source::{handle_read, receive_step, tag_event, LoopState, ReadOutcome, SourceContext};
use socket_source::unix::{default_max_length, UnixConfig};
use std::path::PathBuf;

fn record(text: &str) -> LogEvent {
    let mut e = LogEvent::new();
    e.insert("message".to_string(), text.to_string());
    e
}

fn ctx(mode: SocketMode, host_key: Option<&str>) -> SourceContext {
    SourceContext { mode, host_key: host_key.map(|k| k.to_string()) }
}

fn field(e: &LogEvent, k: &str) -> Option<String> {
    e.get(&k.to_string())
}

#[test]
fn default_max_length_is_100_kib() {
    assert_eq!(default_max_length(), 102400);
}

#[test]
fn new_config_uses_defaults() {
    let c = UnixConfig::new(PathBuf::from("/tmp/socket"));
    assert_eq!(c.path, PathBuf::from("/tmp/socket"));
    assert_eq!(c.max_length, 102400);
    assert!(c.host_key.is_none());
    assert!(c.decoding.framing.is_none());
}

#[test]
fn mode_labels() {
    assert_eq!(SocketMode::Tcp.as_str(), "tcp");
    assert_eq!(SocketMode::Udp.as_str(), "udp");
    assert_eq!(SocketMode::Unix.as_str(), "unix");
}

#[test]
fn counter_names() {
    assert_eq!(Counter::ReceivedEventsTotal.name(), "received_events_total");
    assert_eq!(Counter::EventsInTotal.name(), "events_in_total");
    assert_eq!(Counter::ProcessedBytesTotal.name(), "processed_bytes_total");
    assert_eq!(Counter::ConnectionErrorsTotal.name(), "connection_errors_total");
}

#[test]
fn received_increments_three_counters() {
    let o = SocketEventReceived { mode: SocketMode::Udp, byte_size: 42 };
    assert_eq!(
        o.emit_metrics(),
        vec![
            CounterIncrement { counter: Counter::ReceivedEventsTotal, mode: SocketMode::Udp, delta: 1 },
            CounterIncrement { counter: Counter::EventsInTotal, mode: SocketMode::Udp, delta: 1 },
            CounterIncrement { counter: Counter::ProcessedBytesTotal, mode: SocketMode::Udp, delta: 42 },
        ]
    );
    let log = o.emit_logs();
    assert_eq!(log.severity, Severity::Trace);
    assert_eq!(log.message, "Received one event.");
    assert_eq!(log.fields.len(), 2);
    assert_eq!(log.fields[0].0, "byte_size");
    assert!(matches!(log.fields[0].1, FieldValue::Size(42)));
    assert_eq!(log.fields[1].0, "mode");
    assert!(matches!(log.fields[1].1, FieldValue::Mode(SocketMode::Udp)));
}

#[test]
fn sent_adds_processed_bytes_only() {
    let o = SocketEventsSent { mode: SocketMode::Tcp, count: 3, byte_size: 300 };
    assert_eq!(
        o.emit_metrics(),
        vec![CounterIncrement { counter: Counter::ProcessedBytesTotal, mode: SocketMode::Tcp, delta: 300 }]
    );
    let log = o.emit_logs();
    assert_eq!(log.severity, Severity::Trace);
    assert_eq!(log.message, "Events sent.");
    assert!(matches!(log.fields[0].1, FieldValue::Count(3)));
    assert!(matches!(log.fields[1].1, FieldValue::Size(300)));
}

#[test]
fn receive_error_counts_connection_error() {
    let o = SocketReceiveError {
        mode: SocketMode::Unix,
        error: std::io::Error::new(std::io::ErrorKind::Other, "boom"),
    };
    assert_eq!(
        o.emit_metrics(),
        vec![CounterIncrement { counter: Counter::ConnectionErrorsTotal, mode: SocketMode::Unix, delta: 1 }]
    );
    let log = o.emit_logs();
    assert_eq!(log.severity, Severity::Error);
    assert_eq!(log.message, "Error receiving data.");
    assert_eq!(log.fields[0].0, "error");
    match &log.fields[0].1 {
        FieldValue::Text(t) => assert!(t.contains("boom")),
        other => panic!("unexpected field {:?}", other),
    }
    assert!(matches!(log.fields[1].1, FieldValue::Mode(SocketMode::Unix)));
}

#[test]
fn event_insert_replaces_in_place() {
    let mut e = LogEvent::new();
    assert_eq!(e.len(), 0);
    e.insert("a".to_string(), "1".to_string());
    e.insert("b".to_string(), "2".to_string());
    e.insert("a".to_string(), "3".to_string());
    assert_eq!(e.len(), 2);
    assert_eq!(field(&e, "a"), Some("3".to_string()));
    assert_eq!(field(&e, "b"), Some("2".to_string()));
    assert_eq!(field(&e, "c"), None);
}

#[test]
fn tag_sets_source_type_in_every_mode() {
    for mode in [SocketMode::Tcp, SocketMode::Udp, SocketMode::Unix] {
        let mut e = record("x");
        e.insert("source_type".to_string(), "file".to_string());
        let r = tag_event(&ctx(mode, None), &mut e, &None, 7);
        assert_eq!(field(&e, "source_type"), Some("socket".to_string()));
        assert_eq!(field(&e, "message"), Some("x".to_string()));
        assert_eq!(r.mode, mode);
        assert_eq!(r.byte_size, 7);
    }
}

#[test]
fn tag_records_known_peer_under_host_key() {
    let mut e = record("x");
    tag_event(&ctx(SocketMode::Unix, Some("host")), &mut e, &Some("peer-1".to_string()), 2);
    assert_eq!(field(&e, "host"), Some("peer-1".to_string()));
    assert_eq!(field(&e, "source_type"), Some("socket".to_string()));
}

#[test]
fn tag_without_peer_adds_no_host() {
    let mut e = record("x");
    tag_event(&ctx(SocketMode::Udp, Some("host")), &mut e, &None, 2);
    assert_eq!(field(&e, "host"), None);
    assert_eq!(e.len(), 2);
}

#[test]
fn tag_without_host_key_adds_no_host() {
    let mut e = record("x");
    tag_event(&ctx(SocketMode::Unix, None), &mut e, &Some("peer".to_string()), 2);
    assert_eq!(field(&e, "host"), None);
}

#[test]
fn read_forwards_one_event_per_reception() {
    let units = vec![(record("a"), 2), (record("b"), 3), (record("c"), 4)];
    let (forward, received) = handle_read(&ctx(SocketMode::Udp, None), units, &None);
    assert_eq!(forward.len(), 3);
    assert_eq!(received.len(), 3);
    let sizes: Vec<usize> = received.iter().map(|r| r.byte_size).collect();
    assert_eq!(sizes, vec![2, 3, 4]);
    let texts: Vec<Option<String>> = forward.iter().map(|e| field(e, "message")).collect();
    assert_eq!(texts, vec![Some("a".to_string()), Some("b".to_string()), Some("c".to_string())]);
}

#[test]
fn empty_read_forwards_nothing() {
    let (forward, received) = handle_read(&ctx(SocketMode::Tcp, None), Vec::new(), &None);
    assert!(forward.is_empty());
    assert!(received.is_empty());
}

#[test]
fn fifty_connections_of_ten_records() {
    let c = ctx(SocketMode::Unix, Some("host"));
    let mut total = 0;
    for conn in 0..50 {
        let peer = format!("peer-{}", conn);
        let mut seen = Vec::new();
        for rec in 0..10 {
            let text = format!("{}-{}", conn, rec);
            let step = receive_step(
                &c,
                ReadOutcome::Decoded { units: vec![(record(&text), text.len() + 1)], host: Some(peer.clone()) },
            );
            assert_eq!(step.next, LoopState::Receiving);
            assert_eq!(step.forward.len(), step.received.len());
            for e in &step.forward {
                assert_eq!(field(e, "host"), Some(peer.clone()));
                seen.push(field(e, "message").unwrap());
            }
            total += step.forward.len();
        }
        let expected: Vec<String> = (0..10).map(|rec| format!("{}-{}", conn, rec)).collect();
        assert_eq!(seen, expected);
    }
    assert_eq!(total, 500);
}

#[test]
fn read_error_is_reported_and_closes_loop() {
    let step = receive_step(
        &ctx(SocketMode::Unix, None),
        ReadOutcome::Failed(std::io::Error::new(std::io::ErrorKind::ConnectionReset, "reset")),
    );
    assert!(step.forward.is_empty());
    assert!(step.received.is_empty());
    assert_eq!(step.next, LoopState::Closed);
    let err = step.error.expect("error reported");
    assert_eq!(err.mode, SocketMode::Unix);
    assert_eq!(err.error.kind(), std::io::ErrorKind::ConnectionReset);
}

#[test]
fn shutdown_after_decoded_read_keeps_its_events() {
    let c = ctx(SocketMode::Tcp, None);
    let step = receive_step(&c, ReadOutcome::Decoded { units: vec![(record("last"), 5)], host: None });
    assert_eq!(step.forward.len(), 1);
    assert_eq!(step.next, LoopState::Receiving);
    let stop = receive_step(&c, ReadOutcome::Shutdown);
    assert!(stop.forward.is_empty());
    assert!(stop.error.is_none());
    assert_eq!(stop.next, LoopState::Closed);
}
