//! Observable occurrences of the socket sources: each one yields exactly one
//! structured log record and a fixed list of counter increments, as plain
//! values that the embedding program hands to its logger and its metrics
//! recorder.

use vstd::prelude::*;

verus! {

#[verifier::external_type_specification]
#[verifier::external_body]
pub struct ExIoError(std::io::Error);

/// The transport that an occurrence belongs to; used only as a metric label.
#[derive(Debug, Clone, Copy, PartialEq, Eq, Structural)]
pub enum SocketMode {
    Tcp,
    Udp,
    Unix,
}

/// The label text of each mode.
pub open spec fn mode_name(mode: SocketMode) -> Seq<char> {
    match mode {
        SocketMode::Tcp => "tcp"@,
        SocketMode::Udp => "udp"@,
        SocketMode::Unix => "unix"@,
    }
}

impl SocketMode {
    pub fn as_str(self) -> (r: &'static str)
        ensures
            r@ == mode_name(self),
    {
        match self {
            SocketMode::Tcp => "tcp",
            SocketMode::Udp => "udp",
            SocketMode::Unix => "unix",
        }
    }
}

/// Severity of a log record.
#[derive(Debug, Clone, Copy, PartialEq, Eq, Structural)]
pub enum Severity {
    Trace,
    Error,
}

/// The counters that the sources mutate.
#[derive(Debug, Clone, Copy, PartialEq, Eq, Structural)]
pub enum Counter {
    ReceivedEventsTotal,
    EventsInTotal,
    ProcessedBytesTotal,
    ConnectionErrorsTotal,
}

pub open spec fn counter_name(c: Counter) -> Seq<char> {
    match c {
        Counter::ReceivedEventsTotal => "received_events_total"@,
        Counter::EventsInTotal => "events_in_total"@,
        Counter::ProcessedBytesTotal => "processed_bytes_total"@,
        Counter::ConnectionErrorsTotal => "connection_errors_total"@,
    }
}

impl Counter {
    pub fn name(self) -> (r: &'static str)
        ensures
            r@ == counter_name(self),
    {
        match self {
            Counter::ReceivedEventsTotal => "received_events_total",
            Counter::EventsInTotal => "events_in_total",
            Counter::ProcessedBytesTotal => "processed_bytes_total",
            Counter::ConnectionErrorsTotal => "connection_errors_total",
        }
    }
}

/// One counter mutation: `counter{mode} += delta`.
#[derive(Debug, Clone, Copy, PartialEq, Eq, Structural)]
pub struct CounterIncrement {
    pub counter: Counter,
    pub mode: SocketMode,
    pub delta: u64,
}

/// The value of one field of a log record.
#[derive(Debug)]
pub enum FieldValue {
    Size(usize),
    Count(u64),
    Mode(SocketMode),
    Text(String),
}

/// One structured log line.
#[derive(Debug)]
pub struct LogRecord {
    pub severity: Severity,
    pub message: &'static str,
    pub fields: Vec<(&'static str, FieldValue)>,
}

/// Rendering of an I/O error for a log record.
/// Relies on `<std::io::Error as Debug>::fmt`; the text depends on the
/// platform's error messages, so nothing is stated of it.
#[verifier::external_body]
fn io_error_text(e: &std::io::Error) -> String {
    format!("{:?}", e)
}

/// One decoded unit was received.
#[derive(Debug, Clone, Copy)]
pub struct SocketEventReceived {
    pub mode: SocketMode,
    pub byte_size: usize,
}

impl SocketEventReceived {
    pub fn emit_logs(&self) -> (r: LogRecord)
        ensures
            r.severity == Severity::Trace,
            r.message@ == "Received one event."@,
            r.fields@.len() == 2,
            r.fields@[0].0@ == "byte_size"@,
            r.fields@[0].1 == FieldValue::Size(self.byte_size),
            r.fields@[1].0@ == "mode"@,
            r.fields@[1].1 == FieldValue::Mode(self.mode),
    {
        LogRecord {
            severity: Severity::Trace,
            message: "Received one event.",
            fields: vec![("byte_size", FieldValue::Size(self.byte_size)), ("mode", FieldValue::Mode(self.mode))],
        }
    }

    pub fn emit_metrics(&self) -> (r: Vec<CounterIncrement>)
        ensures
            r@ == seq![
                CounterIncrement { counter: Counter::ReceivedEventsTotal, mode: self.mode, delta: 1 },
                CounterIncrement { counter: Counter::EventsInTotal, mode: self.mode, delta: 1 },
                CounterIncrement {
                    counter: Counter::ProcessedBytesTotal,
                    mode: self.mode,
                    delta: self.byte_size as u64,
                },
            ],
    {
        vec![
            CounterIncrement { counter: Counter::ReceivedEventsTotal, mode: self.mode, delta: 1 },
            CounterIncrement { counter: Counter::EventsInTotal, mode: self.mode, delta: 1 },
            CounterIncrement {
                counter: Counter::ProcessedBytesTotal,
                mode: self.mode,
                delta: self.byte_size as u64,
            },
        ]
    }
}

/// A batch of events was sent.
#[derive(Debug, Clone, Copy)]
pub struct SocketEventsSent {
    pub mode: SocketMode,
    pub count: u64,
    pub byte_size: usize,
}

impl SocketEventsSent {
    pub fn emit_logs(&self) -> (r: LogRecord)
        ensures
            r.severity == Severity::Trace,
            r.message@ == "Events sent."@,
            r.fields@.len() == 2,
            r.fields@[0].0@ == "count"@,
            r.fields@[0].1 == FieldValue::Count(self.count),
            r.fields@[1].0@ == "byte_size"@,
            r.fields@[1].1 == FieldValue::Size(self.byte_size),
    {
        LogRecord {
            severity: Severity::Trace,
            message: "Events sent.",
            fields: vec![("count", FieldValue::Count(self.count)), ("byte_size", FieldValue::Size(self.byte_size))],
        }
    }

    pub fn emit_metrics(&self) -> (r: Vec<CounterIncrement>)
        ensures
            r@ == seq![
                CounterIncrement {
                    counter: Counter::ProcessedBytesTotal,
                    mode: self.mode,
                    delta: self.byte_size as u64,
                },
            ],
    {
        vec![
            CounterIncrement {
                counter: Counter::ProcessedBytesTotal,
                mode: self.mode,
                delta: self.byte_size as u64,
            },
        ]
    }
}

/// Reading from a socket failed.
#[derive(Debug)]
pub struct SocketReceiveError {
    pub mode: SocketMode,
    pub error: std::io::Error,
}

impl SocketReceiveError {
    /// The `error` field carries the error's debug rendering.
    pub fn emit_logs(&self) -> (r: LogRecord)
        ensures
            r.severity == Severity::Error,
            r.message@ == "Error receiving data."@,
            r.fields@.len() == 2,
            r.fields@[0].0@ == "error"@,
            r.fields@[0].1 is Text,
            r.fields@[1].0@ == "mode"@,
            r.fields@[1].1 == FieldValue::Mode(self.mode),
    {
        let text = io_error_text(&self.error);
        LogRecord {
            severity: Severity::Error,
            message: "Error receiving data.",
            fields: vec![("error", FieldValue::Text(text)), ("mode", FieldValue::Mode(self.mode))],
        }
    }

    pub fn emit_metrics(&self) -> (r: Vec<CounterIncrement>)
        ensures
            r@ == seq![
                CounterIncrement { counter: Counter::ConnectionErrorsTotal, mode: self.mode, delta: 1 },
            ],
    {
        vec![CounterIncrement { counter: Counter::ConnectionErrorsTotal, mode: self.mode, delta: 1 }]
    }
}

} // verus!
