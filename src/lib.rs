//! A socket ingestion core: decoded records from datagram and stream sockets
//! are tagged with transport metadata and accounted for in logs and counters.

pub mod event;
pub mod internal_events;
pub mod source;
pub mod unix;

pub use event::LogEvent;
pub use internal_events::{
    Counter, CounterIncrement, FieldValue, LogRecord, Severity, SocketEventReceived,
    SocketEventsSent, SocketMode, SocketReceiveError,
};
