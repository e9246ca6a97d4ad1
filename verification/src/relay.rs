//! The relay state machine.
//!
//! After startup the bridge does exactly one thing: it forwards bytes
//! between the serial endpoint and the socket endpoint. The I/O itself
//! happens outside this crate; the relay is the decision core. Each
//! iteration the surrounding loop races a read on both endpoints, turns
//! whatever completed first into an [`Event`], and asks [`Relay::step`]
//! what to do. The answer is an [`Action`]: write these exact bytes to
//! the other endpoint, or do nothing. No event ever stops the relay:
//! zero-length reads, read errors and write failures are all absorbed,
//! and `step` always reports that the loop goes on.
//!
//! The relay carries a ghost record of the two byte streams it has
//! forwarded, so its contract can say that what flows toward one
//! endpoint is exactly the concatenation, in order, of what was read
//! from the other.

use vstd::prelude::*;

verus! {

/// Largest number of bytes a single read may hand the relay: the size
/// of each staging buffer in the surrounding loop.
pub const CHUNK_SIZE: usize = 1024;

/// What one read attempt on an endpoint produced: some bytes (possibly
/// none), or an I/O error.
#[derive(Debug, Clone, PartialEq, Eq)]
pub enum ReadOutcome {
    Bytes(Vec<u8>),
    Failed,
}

/// One completed I/O outcome, fed to the relay by the surrounding loop:
/// a finished read attempt on either endpoint, or a failed forwarding
/// write to either endpoint.
#[derive(Debug, Clone, PartialEq, Eq)]
pub enum Event {
    SerialRead(ReadOutcome),
    SocketRead(ReadOutcome),
    SerialWriteFailed,
    SocketWriteFailed,
}

/// What the surrounding loop must do next: forward these exact bytes as
/// one write to the named endpoint, or nothing this iteration.
#[derive(Debug, Clone, PartialEq, Eq)]
pub enum Action {
    WriteToSocket(Vec<u8>),
    WriteToSerial(Vec<u8>),
    Idle,
}

/// The outcome of one relay iteration: the action to perform, and
/// whether the loop keeps running (it always does; no event is fatal).
#[derive(Debug, Clone, PartialEq, Eq)]
pub struct StepResult {
    pub action: Action,
    pub running: bool,
}

/// Mathematical image of a `ReadOutcome`.
pub enum ReadOutcomeView {
    Bytes(Seq<u8>),
    Failed,
}

/// Mathematical image of an `Event`.
pub enum EventView {
    SerialRead(ReadOutcomeView),
    SocketRead(ReadOutcomeView),
    SerialWriteFailed,
    SocketWriteFailed,
}

/// Mathematical image of an `Action`.
pub enum ActionView {
    WriteToSocket(Seq<u8>),
    WriteToSerial(Seq<u8>),
    Idle,
}

impl View for ReadOutcome {
    type V = ReadOutcomeView;

    open spec fn view(&self) -> ReadOutcomeView {
        match self {
            ReadOutcome::Bytes(b) => ReadOutcomeView::Bytes(b@),
            ReadOutcome::Failed => ReadOutcomeView::Failed,
        }
    }
}

impl View for Event {
    type V = EventView;

    open spec fn view(&self) -> EventView {
        match self {
            Event::SerialRead(o) => EventView::SerialRead(o@),
            Event::SocketRead(o) => EventView::SocketRead(o@),
            Event::SerialWriteFailed => EventView::SerialWriteFailed,
            Event::SocketWriteFailed => EventView::SocketWriteFailed,
        }
    }
}

impl View for Action {
    type V = ActionView;

    open spec fn view(&self) -> ActionView {
        match self {
            Action::WriteToSocket(b) => ActionView::WriteToSocket(b@),
            Action::WriteToSerial(b) => ActionView::WriteToSerial(b@),
            Action::Idle => ActionView::Idle,
        }
    }
}

/// The two byte streams a relay has forwarded so far, one per
/// direction: every byte successfully read from one endpoint and handed
/// to a forwarding write toward the other, in order.
pub struct RelayView {
    pub serial_to_socket: Seq<u8>,
    pub socket_to_serial: Seq<u8>,
}

/// Whether an event is a read that completed with one or more bytes
/// from the serial endpoint.
pub open spec fn is_serial_data(ev: EventView) -> bool {
    match ev {
        EventView::SerialRead(ReadOutcomeView::Bytes(d)) => d.len() > 0,
        _ => false,
    }
}

/// Whether an event is a read that completed with one or more bytes
/// from the socket endpoint.
pub open spec fn is_socket_data(ev: EventView) -> bool {
    match ev {
        EventView::SocketRead(ReadOutcomeView::Bytes(d)) => d.len() > 0,
        _ => false,
    }
}

/// Whether an event is a read that completed with zero bytes, on either
/// endpoint.
pub open spec fn is_zero_read(ev: EventView) -> bool {
    match ev {
        EventView::SerialRead(ReadOutcomeView::Bytes(d)) => d.len() == 0,
        EventView::SocketRead(ReadOutcomeView::Bytes(d)) => d.len() == 0,
        _ => false,
    }
}

/// Whether an event is a failed read, on either endpoint.
pub open spec fn is_read_error(ev: EventView) -> bool {
    match ev {
        EventView::SerialRead(ReadOutcomeView::Failed) => true,
        EventView::SocketRead(ReadOutcomeView::Failed) => true,
        _ => false,
    }
}

/// Whether an event reports a failed forwarding write, to either
/// endpoint.
pub open spec fn is_write_failure(ev: EventView) -> bool {
    ev is SerialWriteFailed || ev is SocketWriteFailed
}

/// The bytes carried by a data event; empty for every other event.
pub open spec fn event_data(ev: EventView) -> Seq<u8> {
    match ev {
        EventView::SerialRead(ReadOutcomeView::Bytes(d)) => d,
        EventView::SocketRead(ReadOutcomeView::Bytes(d)) => d,
        _ => Seq::empty(),
    }
}

/// The action an event calls for: a data read is forwarded verbatim to
/// the opposite endpoint; everything else — a zero-length read, a read
/// error, a write failure — calls for nothing.
pub open spec fn action_of(ev: EventView) -> ActionView {
    if is_serial_data(ev) {
        ActionView::WriteToSocket(event_data(ev))
    } else if is_socket_data(ev) {
        ActionView::WriteToSerial(event_data(ev))
    } else {
        ActionView::Idle
    }
}

/// How one event advances the forwarded streams: a data read appends
/// its bytes to the stream toward the opposite endpoint; every other
/// event leaves the relay exactly as it was.
pub open spec fn next_view(v: RelayView, ev: EventView) -> RelayView {
    if is_serial_data(ev) {
        RelayView {
            serial_to_socket: v.serial_to_socket + event_data(ev),
            socket_to_serial: v.socket_to_serial,
        }
    } else if is_socket_data(ev) {
        RelayView {
            serial_to_socket: v.serial_to_socket,
            socket_to_serial: v.socket_to_serial + event_data(ev),
        }
    } else {
        v
    }
}

/// The relay. It holds no run-time state — each event is decided on its
/// own — but carries the ghost record of both forwarded streams that
/// its contracts are stated over.
pub struct Relay {
    streams: Ghost<RelayView>,
}

impl View for Relay {
    type V = RelayView;

    closed spec fn view(&self) -> RelayView {
        self.streams@
    }
}

impl Relay {
    /// A fresh relay: nothing forwarded yet in either direction.
    pub fn new() -> (r: Relay)
        ensures
            r@.serial_to_socket == Seq::<u8>::empty(),
            r@.socket_to_serial == Seq::<u8>::empty(),
    {
        Relay {
            streams: Ghost(
                RelayView { serial_to_socket: Seq::empty(), socket_to_serial: Seq::empty() },
            ),
        }
    }

    /// Decides one iteration. A read that produced bytes is turned into
    /// a single write of exactly those bytes, in order, to the opposite
    /// endpoint, and the matching forwarded stream grows by them; a
    /// zero-length read, a read error and a write failure all produce
    /// no write and change nothing. Whatever the event, the relay keeps
    /// running.
    pub fn step(&mut self, ev: Event) -> (r: StepResult)
        ensures
            r.running,
            r.action@ == action_of(ev@),
            final(self)@ == next_view(old(self)@, ev@),
    {
        let ghost pre: RelayView = self.streams@;
        let ghost evv: EventView = ev@;
        self.streams = Ghost(next_view(pre, evv));
        match ev {
            Event::SerialRead(ReadOutcome::Bytes(b)) => {
                if b.len() > 0 {
                    StepResult { action: Action::WriteToSocket(b), running: true }
                } else {
                    StepResult { action: Action::Idle, running: true }
                }
            },
            Event::SocketRead(ReadOutcome::Bytes(b)) => {
                if b.len() > 0 {
                    StepResult { action: Action::WriteToSerial(b), running: true }
                } else {
                    StepResult { action: Action::Idle, running: true }
                }
            },
            Event::SerialRead(ReadOutcome::Failed) => {
                StepResult { action: Action::Idle, running: true }
            },
            Event::SocketRead(ReadOutcome::Failed) => {
                StepResult { action: Action::Idle, running: true }
            },
            Event::SerialWriteFailed => {
                StepResult { action: Action::Idle, running: true }
            },
            Event::SocketWriteFailed => {
                StepResult { action: Action::Idle, running: true }
            },
        }
    }
}

/// Law: bytes read from the serial endpoint are forwarded to the socket
/// verbatim. A serial read of one or more bytes makes the relay emit
/// one write to the socket carrying exactly those bytes, and extends
/// the serial-to-socket stream by exactly those bytes, in order, while
/// the opposite stream is untouched.
pub proof fn lemma_serial_data_forwarded_verbatim(v: RelayView, data: Seq<u8>)
    requires
        data.len() > 0,
    ensures
        action_of(EventView::SerialRead(ReadOutcomeView::Bytes(data)))
            == ActionView::WriteToSocket(data),
        next_view(v, EventView::SerialRead(ReadOutcomeView::Bytes(data))).serial_to_socket
            == v.serial_to_socket + data,
        next_view(v, EventView::SerialRead(ReadOutcomeView::Bytes(data))).socket_to_serial
            == v.socket_to_serial,
{
}

/// Law: bytes read from the socket endpoint are forwarded to the serial
/// device verbatim, symmetrically to
/// [`lemma_serial_data_forwarded_verbatim`].
pub proof fn lemma_socket_data_forwarded_verbatim(v: RelayView, data: Seq<u8>)
    requires
        data.len() > 0,
    ensures
        action_of(EventView::SocketRead(ReadOutcomeView::Bytes(data)))
            == ActionView::WriteToSerial(data),
        next_view(v, EventView::SocketRead(ReadOutcomeView::Bytes(data))).socket_to_serial
            == v.socket_to_serial + data,
        next_view(v, EventView::SocketRead(ReadOutcomeView::Bytes(data))).serial_to_socket
            == v.serial_to_socket,
{
}

/// Law: a zero-length read from either endpoint produces no write and
/// is transparent — the relay is left exactly as it was, so every later
/// event is handled as if the zero-length read had never happened.
pub proof fn lemma_zero_read_transparent(v: RelayView, z: EventView, later: EventView)
    requires
        is_zero_read(z),
    ensures
        action_of(z) == ActionView::Idle,
        next_view(v, z) == v,
        next_view(next_view(v, z), later) == next_view(v, later),
{
}

/// Law: a read error on either endpoint produces no write and is
/// transparent — the relay is left exactly as it was, so a later
/// successful read is forwarded exactly as it would have been without
/// the error.
pub proof fn lemma_read_error_transparent(v: RelayView, e: EventView, later: EventView)
    requires
        is_read_error(e),
    ensures
        action_of(e) == ActionView::Idle,
        next_view(v, e) == v,
        next_view(next_view(v, e), later) == next_view(v, later),
{
}

/// Law: a failed forwarding write to either endpoint produces no
/// further write and is transparent — it neither ends the relay nor
/// disturbs how any later read is forwarded.
pub proof fn lemma_write_failure_transparent(v: RelayView, w: EventView, later: EventView)
    requires
        is_write_failure(w),
    ensures
        action_of(w) == ActionView::Idle,
        next_view(v, w) == v,
        next_view(next_view(v, w), later) == next_view(v, later),
{
}

/// Law: a source that produces more than one chunk is forwarded in
/// order across iterations. Two consecutive serial reads append the
/// concatenation of their bytes to the serial-to-socket stream, first
/// read first.
pub proof fn lemma_consecutive_serial_reads_concatenate(
    v: RelayView,
    first: Seq<u8>,
    second: Seq<u8>,
)
    ensures
        next_view(
            next_view(v, EventView::SerialRead(ReadOutcomeView::Bytes(first))),
            EventView::SerialRead(ReadOutcomeView::Bytes(second)),
        ).serial_to_socket == v.serial_to_socket + first + second,
{
}

} // verus!
