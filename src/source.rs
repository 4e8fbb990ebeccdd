//! The decisions of the socket receive loops. The embedding program owns the
//! sockets, the decoders and the output channel; for each thing that happens
//! on a loop (a read decoded into units, a read error, shutdown) it asks
//! `receive_step` what to forward, what to report and whether to go on.

use crate::event::LogEvent;
use crate::internal_events::{SocketEventReceived, SocketMode, SocketReceiveError};
use vstd::prelude::*;

verus! {

/// The field that names the kind of source an event came from.
pub open spec fn source_type_key() -> Seq<char> {
    "source_type"@
}

/// The value of that field for every event of these sources.
pub open spec fn source_type_value() -> Seq<char> {
    "socket"@
}

/// An event's fields after tagging: the source type, then, when a host key is
/// configured and the peer is known, the peer's identity under that key.
pub open spec fn tagged(
    event: Map<Seq<char>, Seq<char>>,
    host: Option<Seq<char>>,
    host_key: Option<Seq<char>>,
) -> Map<Seq<char>, Seq<char>> {
    let e = event.insert(source_type_key(), source_type_value());
    match (host_key, host) {
        (Some(k), Some(h)) => e.insert(k, h),
        _ => e,
    }
}

pub open spec fn opt_view(o: Option<String>) -> Option<Seq<char>> {
    match o {
        Some(s) => Some(s@),
        None => None,
    }
}

/// What a receive loop is configured with: its transport and the optional
/// field name for the peer's identity.
#[derive(Debug, Clone)]
pub struct SourceContext {
    pub mode: SocketMode,
    pub host_key: Option<String>,
}

/// Tags one decoded event and returns the occurrence to report for it.
pub fn tag_event(
    ctx: &SourceContext,
    event: &mut LogEvent,
    host: &Option<String>,
    byte_size: usize,
) -> (r: SocketEventReceived)
    requires
        old(event).wf(),
    ensures
        final(event).wf(),
        final(event)@ == tagged(old(event)@, opt_view(*host), opt_view(ctx.host_key)),
        r.mode == ctx.mode,
        r.byte_size == byte_size,
{
    event.insert("source_type".to_owned(), "socket".to_owned());
    match (&ctx.host_key, host) {
        (Some(k), Some(h)) => {
            event.insert(k.clone(), h.clone());
        },
        _ => {},
    }
    SocketEventReceived { mode: ctx.mode, byte_size }
}

/// What the loop does with every unit of one read.
pub open spec fn read_handled(
    ctx: SourceContext,
    units: Seq<(LogEvent, usize)>,
    host: Option<String>,
    forward: Seq<LogEvent>,
    received: Seq<SocketEventReceived>,
) -> bool {
    &&& forward.len() == units.len()
    &&& received.len() == units.len()
    &&& forall|i: int|
        0 <= i < units.len() ==> {
            &&& (#[trigger] forward[i]).wf()
            &&& forward[i]@ == tagged(units[i].0@, opt_view(host), opt_view(ctx.host_key))
            &&& received[i] == SocketEventReceived { mode: ctx.mode, byte_size: units[i].1 }
        }
}

/// Tags every unit decoded from one read, in order, with one occurrence each.
pub fn handle_read(ctx: &SourceContext, units: Vec<(LogEvent, usize)>, host: &Option<String>) -> (r: (
    Vec<LogEvent>,
    Vec<SocketEventReceived>,
))
    requires
        forall|i: int| 0 <= i < units@.len() ==> (#[trigger] units@[i]).0.wf(),
    ensures
        read_handled(*ctx, units@, *host, r.0@, r.1@),
{
    let ghost all = units@;
    let mut units = units;
    let mut forward: Vec<LogEvent> = Vec::new();
    let mut received: Vec<SocketEventReceived> = Vec::new();
    while units.len() > 0
        invariant
            forall|i: int| 0 <= i < all.len() ==> (#[trigger] all[i]).0.wf(),
            forward@.len() + units@.len() == all.len(),
            units@ == all.subrange(forward@.len() as int, all.len() as int),
            read_handled(*ctx, all.subrange(0, forward@.len() as int), *host, forward@, received@),
        decreases units@.len(),
    {
        let ghost k = forward@.len() as int;
        let (mut event, byte_size) = units.remove(0);
        assert(all[k] == (event, byte_size));
        let occurrence = tag_event(ctx, &mut event, host, byte_size);
        forward.push(event);
        received.push(occurrence);
        assert forall|i: int| 0 <= i < k + 1 implies #[trigger] all.subrange(0, k + 1)[i] == all[i] by {}
        assert forall|i: int| 0 <= i < k implies #[trigger] all.subrange(0, k)[i] == all[i] by {}
    }
    assert(all.subrange(0, all.len() as int) =~= all);
    (forward, received)
}

/// What happened on a receive loop since the last step.
#[derive(Debug)]
pub enum ReadOutcome {
    /// A read was decoded into these units (those decoded before a decode
    /// error, if there was one); `host` is the peer's identity, if known.
    Decoded { units: Vec<(LogEvent, usize)>, host: Option<String> },
    /// Reading from the socket failed.
    Failed(std::io::Error),
    /// Shutdown was signalled.
    Shutdown,
}

#[derive(Debug, Clone, Copy, PartialEq, Eq, Structural)]
pub enum LoopState {
    Receiving,
    Closed,
}

/// The loop's orders after one step: forward `forward` in order, report each
/// of `received` and `error`, then go on if `next` is `Receiving`.
#[derive(Debug)]
pub struct Step {
    pub forward: Vec<LogEvent>,
    pub received: Vec<SocketEventReceived>,
    pub error: Option<SocketReceiveError>,
    pub next: LoopState,
}

/// One step of a datagram loop or of a stream connection's loop. Decoded
/// units are all forwarded and the loop goes on; a read error is reported and
/// ends the loop (the datagram source, or that one connection); shutdown ends
/// it with nothing more to forward.
pub fn receive_step(ctx: &SourceContext, outcome: ReadOutcome) -> (r: Step)
    requires
        outcome matches ReadOutcome::Decoded { units, .. } ==> forall|i: int|
            0 <= i < units@.len() ==> (#[trigger] units@[i]).0.wf(),
    ensures
        match outcome {
            ReadOutcome::Decoded { units, host } => {
                &&& read_handled(*ctx, units@, host, r.forward@, r.received@)
                &&& r.error.is_none()
                &&& r.next == LoopState::Receiving
            },
            ReadOutcome::Failed(e) => {
                &&& r.forward@.len() == 0
                &&& r.received@.len() == 0
                &&& r.error matches Some(err) && err.mode == ctx.mode && err.error == e
                &&& r.next == LoopState::Closed
            },
            ReadOutcome::Shutdown => {
                &&& r.forward@.len() == 0
                &&& r.received@.len() == 0
                &&& r.error.is_none()
                &&& r.next == LoopState::Closed
            },
        },
{
    match outcome {
        ReadOutcome::Decoded { units, host } => {
            let (forward, received) = handle_read(ctx, units, &host);
            Step { forward, received, error: None, next: LoopState::Receiving }
        },
        ReadOutcome::Failed(e) => Step {
            forward: Vec::new(),
            received: Vec::new(),
            error: Some(SocketReceiveError { mode: ctx.mode, error: e }),
            next: LoopState::Closed,
        },
        ReadOutcome::Shutdown => Step {
            forward: Vec::new(),
            received: Vec::new(),
            error: None,
            next: LoopState::Closed,
        },
    }
}

/// Every tagged event carries the source type `socket`, unless the host key
/// is that same field and a peer identity was recorded over it.
pub proof fn lemma_source_type_set(
    event: Map<Seq<char>, Seq<char>>,
    host: Option<Seq<char>>,
    host_key: Option<Seq<char>>,
)
    requires
        host is None || host_key != Some(source_type_key()),
    ensures
        tagged(event, host, host_key).contains_key(source_type_key()),
        tagged(event, host, host_key)[source_type_key()] == source_type_value(),
{
}

/// With a host key configured and a known peer, the tagged event records the
/// peer's identity under that key.
pub proof fn lemma_host_recorded(event: Map<Seq<char>, Seq<char>>, host: Seq<char>, host_key: Seq<char>)
    ensures
        tagged(event, Some(host), Some(host_key)).contains_key(host_key),
        tagged(event, Some(host), Some(host_key))[host_key] == host,
{
}

/// Without a peer identity no host field is added: the tagged event has the
/// host key only where the decoded event already had it (or where it is the
/// source type field).
pub proof fn lemma_no_host_without_peer(event: Map<Seq<char>, Seq<char>>, host_key: Option<Seq<char>>, k: Seq<char>)
    requires
        !event.contains_key(k),
        k != source_type_key(),
    ensures
        !tagged(event, None, host_key).contains_key(k),
{
}

/// Each read yields as many forwarded events as reported receptions, one of
/// each per decoded unit, whatever the transport.
pub proof fn lemma_one_report_per_event(
    ctx: SourceContext,
    units: Seq<(LogEvent, usize)>,
    host: Option<String>,
    forward: Seq<LogEvent>,
    received: Seq<SocketEventReceived>,
)
    requires
        read_handled(ctx, units, host, forward, received),
    ensures
        forward.len() == received.len(),
        received.len() == units.len(),
        forall|i: int| 0 <= i < received.len() ==> (#[trigger] received[i]).byte_size == units[i].1,
{
    assert forall|i: int| 0 <= i < received.len() implies (#[trigger] received[i]).byte_size == units[i].1 by {
        assert(forward[i].wf());
    }
}

} // verus!
