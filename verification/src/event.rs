//! Events that a session reports to whoever consumes its output.

use vstd::prelude::*;
use crate::codec::{decoded, Unsupported};
use crate::record::TelemetryRecord;

verus! {

/// One event of a session.
#[derive(Clone, Debug, PartialEq, Eq)]
pub enum ListenEvent {
    /// The session listens: its sockets are ready.
    Opened,
    /// The session is over. Nothing follows this event.
    Closed,
    /// The session cannot go on.
    Error { reason: String },
    /// One datagram could not be decoded or forwarded; the session goes on.
    MessageError { reason: String },
    /// The bytes of a datagram, as received.
    RawData { bytes: Vec<u8> },
    /// What a datagram says.
    Decoded { record: TelemetryRecord },
}

/// An event as a mathematical value.
pub enum EventView {
    Opened,
    Closed,
    Error { reason: Seq<char> },
    MessageError { reason: Seq<char> },
    RawData { bytes: Seq<u8> },
    Decoded { record: TelemetryRecord },
}

impl View for ListenEvent {
    type V = EventView;

    open spec fn view(&self) -> EventView {
        match *self {
            ListenEvent::Opened => EventView::Opened,
            ListenEvent::Closed => EventView::Closed,
            ListenEvent::Error { reason } => EventView::Error { reason: reason@ },
            ListenEvent::MessageError { reason } => EventView::MessageError { reason: reason@ },
            ListenEvent::RawData { bytes } => EventView::RawData { bytes: bytes@ },
            ListenEvent::Decoded { record } => EventView::Decoded { record },
        }
    }
}

/// The events of a list, each as a mathematical value.
pub open spec fn event_views(events: Seq<ListenEvent>) -> Seq<EventView> {
    events.map_values(|e: ListenEvent| e@)
}

impl EventView {
    /// An event about one datagram: its bytes, its record, or what went
    /// wrong with it.
    pub open spec fn is_message(self) -> bool {
        self is RawData || self is Decoded || self is MessageError
    }
}

/// Reason of the error that ends a session whose sockets could not be set
/// up: the listening socket could not be bound, or the forward socket could
/// not be connected, which is reported in the same way.
pub open spec fn bind_failed_text(detail: Seq<char>) -> Seq<char> {
    "listen bind failed: "@ + detail
}

/// Reason of the error that ends a session whose socket could not receive.
pub open spec fn recv_failed_text(detail: Seq<char>) -> Seq<char> {
    "recv failed: "@ + detail
}

/// Reason of the error about a datagram that could not be forwarded.
pub open spec fn forward_failed_text(detail: Seq<char>) -> Seq<char> {
    "forward failed: "@ + detail
}

/// What decoding says about a datagram: its record, or why it has none.
pub open spec fn decode_event(bytes: Seq<u8>) -> EventView {
    match decoded(bytes) {
        Ok(record) => EventView::Decoded { record },
        Err(e) => EventView::MessageError { reason: e.reason_text() },
    }
}

impl ListenEvent {
    /// The error that ends a session whose sockets could not be set up.
    pub fn bind_failed(detail: &str) -> (e: ListenEvent)
        ensures
            e@ == (EventView::Error { reason: bind_failed_text(detail@) }),
    {
        ListenEvent::Error { reason: String::from_str("listen bind failed: ").concat(detail) }
    }

    /// The error that ends a session whose socket could not receive.
    pub fn recv_failed(detail: &str) -> (e: ListenEvent)
        ensures
            e@ == (EventView::Error { reason: recv_failed_text(detail@) }),
    {
        ListenEvent::Error { reason: String::from_str("recv failed: ").concat(detail) }
    }

    /// The error about a datagram that could not be forwarded.
    pub fn forward_failed(detail: &str) -> (e: ListenEvent)
        ensures
            e@ == (EventView::MessageError { reason: forward_failed_text(detail@) }),
    {
        ListenEvent::MessageError { reason: String::from_str("forward failed: ").concat(detail) }
    }

    /// The outcome of decoding, as an event.
    pub fn from_decoding(r: Result<TelemetryRecord, Unsupported>) -> (e: ListenEvent)
        ensures
            e@ == match r {
                Ok(record) => EventView::Decoded { record },
                Err(u) => EventView::MessageError { reason: u.reason_text() },
            },
    {
        match r {
            Ok(record) => ListenEvent::Decoded { record },
            Err(u) => ListenEvent::MessageError { reason: u.reason() },
        }
    }
}

} // verus!
