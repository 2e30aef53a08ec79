//! The ingest loop of one session, as a machine that decides.
//!
//! The loop itself touches no socket. A runtime carries out one [`Command`]
//! at a time and reports what came of it as an [`Outcome`]; [`IngestLoop::step`]
//! answers with the events to emit and the next command. The runtime emits a
//! step's events, in order, before it carries out the step's command.

use vstd::prelude::*;
use crate::codec::decode;
use crate::event::{
    bind_failed_text, decode_event, event_views, forward_failed_text, recv_failed_text, EventView,
    ListenEvent,
};

verus! {

/// Size of the buffer that a datagram is received into. It is larger than
/// every supported datagram, so that a datagram of an unknown length is told
/// by its own length and not by the buffer's.
pub const RECEIVE_BUFFER_LEN: usize = 1500;

/// How long a session waits, after closing its socket, before it gives the
/// slot up: the system may take that long to let go of the address.
pub const GRACE_PERIOD_MS: u64 = 500;

/// Where a session listens and where it relays what it hears.
#[derive(Clone, Debug, PartialEq, Eq)]
pub struct ListenerConfig {
    /// Socket address to bind, such as `127.0.0.1:5300`.
    pub bind_address: String,
    /// Socket address that each datagram is relayed to, if any.
    pub forward_address: Option<String>,
}

/// A configuration as a mathematical value.
pub struct ConfigView {
    pub bind_address: Seq<char>,
    pub forward_address: Option<Seq<char>>,
}

impl View for ListenerConfig {
    type V = ConfigView;

    open spec fn view(&self) -> ConfigView {
        ConfigView {
            bind_address: self.bind_address@,
            forward_address: match self.forward_address {
                Some(a) => Some(a@),
                None => None,
            },
        }
    }
}

/// How far a session has come.
#[derive(Clone, Copy, Debug, PartialEq, Eq, Structural)]
pub enum Phase {
    /// The listening socket is being bound.
    Binding,
    /// The listening socket is bound; the forward socket is being connected.
    Connecting,
    /// The session listens and waits for a datagram or for its cancellation.
    Receiving,
    /// A datagram is being relayed.
    Forwarding,
    /// The session was cancelled: its socket is being closed and the grace
    /// period runs.
    Draining,
    /// The session is over.
    Finished,
}

/// What the runtime has to do next.
#[derive(Clone, Debug, PartialEq, Eq)]
pub enum Command {
    /// Bind the listening socket to `address`.
    Bind { address: String },
    /// Open the forward socket and connect it to `address`.
    ConnectForward { address: String },
    /// Wait for whichever comes first: a datagram, received into a buffer of
    /// `buffer_len` bytes, or the cancellation of this session.
    Receive { buffer_len: usize },
    /// Send `bytes` on the forward socket.
    Forward { bytes: Vec<u8> },
    /// Close the listening socket, then wait `grace_ms` milliseconds.
    Drain { grace_ms: u64 },
    /// Close what is still open and give the slot up. The session is over.
    Release,
}

/// A command as a mathematical value.
pub enum CommandView {
    Bind { address: Seq<char> },
    ConnectForward { address: Seq<char> },
    Receive { buffer_len: nat },
    Forward { bytes: Seq<u8> },
    Drain { grace_ms: nat },
    Release,
}

impl View for Command {
    type V = CommandView;

    open spec fn view(&self) -> CommandView {
        match *self {
            Command::Bind { address } => CommandView::Bind { address: address@ },
            Command::ConnectForward { address } => CommandView::ConnectForward { address: address@ },
            Command::Receive { buffer_len } => CommandView::Receive { buffer_len: buffer_len as nat },
            Command::Forward { bytes } => CommandView::Forward { bytes: bytes@ },
            Command::Drain { grace_ms } => CommandView::Drain { grace_ms: grace_ms as nat },
            Command::Release => CommandView::Release,
        }
    }
}

/// What came of the last command.
#[derive(Clone, Debug, PartialEq, Eq)]
pub enum Outcome {
    /// The listening socket is bound.
    Bound,
    /// The listening socket could not be bound.
    BindFailed { detail: String },
    /// The forward socket is connected.
    ForwardConnected,
    /// The forward socket could not be opened or connected.
    ForwardConnectFailed { detail: String },
    /// A datagram arrived.
    Datagram { bytes: Vec<u8> },
    /// Receiving failed.
    ReceiveFailed { detail: String },
    /// The session's cancellation was seen before a datagram arrived.
    Cancelled,
    /// The datagram was relayed.
    Forwarded,
    /// The datagram could not be relayed.
    ForwardFailed { detail: String },
    /// The socket is closed and the grace period is over.
    Drained,
}

/// An outcome as a mathematical value.
pub enum OutcomeView {
    Bound,
    BindFailed { detail: Seq<char> },
    ForwardConnected,
    ForwardConnectFailed { detail: Seq<char> },
    Datagram { bytes: Seq<u8> },
    ReceiveFailed { detail: Seq<char> },
    Cancelled,
    Forwarded,
    ForwardFailed { detail: Seq<char> },
    Drained,
}

impl View for Outcome {
    type V = OutcomeView;

    open spec fn view(&self) -> OutcomeView {
        match *self {
            Outcome::Bound => OutcomeView::Bound,
            Outcome::BindFailed { detail } => OutcomeView::BindFailed { detail: detail@ },
            Outcome::ForwardConnected => OutcomeView::ForwardConnected,
            Outcome::ForwardConnectFailed { detail } => OutcomeView::ForwardConnectFailed {
                detail: detail@,
            },
            Outcome::Datagram { bytes } => OutcomeView::Datagram { bytes: bytes@ },
            Outcome::ReceiveFailed { detail } => OutcomeView::ReceiveFailed { detail: detail@ },
            Outcome::Cancelled => OutcomeView::Cancelled,
            Outcome::Forwarded => OutcomeView::Forwarded,
            Outcome::ForwardFailed { detail } => OutcomeView::ForwardFailed { detail: detail@ },
            Outcome::Drained => OutcomeView::Drained,
        }
    }
}

/// The state of a loop as a mathematical value.
pub struct LoopView {
    pub config: ConfigView,
    pub phase: Phase,
}

/// What one accepted outcome leads to.
pub struct Transition {
    /// The phase after the step.
    pub phase: Phase,
    /// The events to emit, in order.
    pub events: Seq<EventView>,
    /// What the runtime has to do next.
    pub command: CommandView,
}

/// A loop that has not done anything yet.
pub open spec fn initial(config: ConfigView) -> LoopView {
    LoopView { config, phase: Phase::Binding }
}

/// Whether `outcome` answers the command that a loop in `phase` waits on.
pub open spec fn accepts(phase: Phase, outcome: OutcomeView) -> bool {
    match phase {
        Phase::Binding => outcome is Bound || outcome is BindFailed,
        Phase::Connecting => outcome is ForwardConnected || outcome is ForwardConnectFailed,
        Phase::Receiving => outcome is Datagram || outcome is ReceiveFailed || outcome is Cancelled,
        Phase::Forwarding => outcome is Forwarded || outcome is ForwardFailed,
        Phase::Draining => outcome is Drained,
        Phase::Finished => false,
    }
}

/// The command to listen for the next datagram.
pub open spec fn receive_command() -> CommandView {
    CommandView::Receive { buffer_len: RECEIVE_BUFFER_LEN as nat }
}

/// What a loop does on an outcome that it accepts.
///
/// - Bound, and a forward address is set: connect the forward socket.
/// - Bound without forward address, or the forward socket connected: emit
///   `Opened` and listen.
/// - Either socket failed: emit one `Error` and end, without `Opened` or
///   `Closed`.
/// - A datagram: emit `RawData`, then `Decoded` or the `MessageError` that
///   says why not; relay the bytes if a forward address is set, else listen.
/// - Relayed: listen. Not relayed: emit a `MessageError` and listen.
/// - Receiving failed: emit `Error`, then `Closed`, and end.
/// - Cancelled: drain. Drained: emit `Closed` and end.
pub open spec fn transition(state: LoopView, outcome: OutcomeView) -> Transition {
    match outcome {
        OutcomeView::Bound => match state.config.forward_address {
            Some(address) => Transition {
                phase: Phase::Connecting,
                events: seq![],
                command: CommandView::ConnectForward { address },
            },
            None => Transition {
                phase: Phase::Receiving,
                events: seq![EventView::Opened],
                command: receive_command(),
            },
        },
        OutcomeView::BindFailed { detail } => Transition {
            phase: Phase::Finished,
            events: seq![EventView::Error { reason: bind_failed_text(detail) }],
            command: CommandView::Release,
        },
        OutcomeView::ForwardConnected => Transition {
            phase: Phase::Receiving,
            events: seq![EventView::Opened],
            command: receive_command(),
        },
        OutcomeView::ForwardConnectFailed { detail } => Transition {
            phase: Phase::Finished,
            events: seq![EventView::Error { reason: bind_failed_text(detail) }],
            command: CommandView::Release,
        },
        OutcomeView::Datagram { bytes } => Transition {
            phase: if state.config.forward_address is Some {
                Phase::Forwarding
            } else {
                Phase::Receiving
            },
            events: seq![EventView::RawData { bytes }, decode_event(bytes)],
            command: if state.config.forward_address is Some {
                CommandView::Forward { bytes }
            } else {
                receive_command()
            },
        },
        OutcomeView::ReceiveFailed { detail } => Transition {
            phase: Phase::Finished,
            events: seq![EventView::Error { reason: recv_failed_text(detail) }, EventView::Closed],
            command: CommandView::Release,
        },
        OutcomeView::Cancelled => Transition {
            phase: Phase::Draining,
            events: seq![],
            command: CommandView::Drain { grace_ms: GRACE_PERIOD_MS as nat },
        },
        OutcomeView::Forwarded => Transition {
            phase: Phase::Receiving,
            events: seq![],
            command: receive_command(),
        },
        OutcomeView::ForwardFailed { detail } => Transition {
            phase: Phase::Receiving,
            events: seq![EventView::MessageError { reason: forward_failed_text(detail) }],
            command: receive_command(),
        },
        OutcomeView::Drained => Transition {
            phase: Phase::Finished,
            events: seq![EventView::Closed],
            command: CommandView::Release,
        },
    }
}

/// The answer to one outcome.
#[derive(Clone, Debug, PartialEq, Eq)]
pub struct Step {
    /// The events to emit, in order, before the command is carried out.
    pub events: Vec<ListenEvent>,
    /// What the runtime has to do next.
    pub command: Command,
}

/// An outcome was reported that the loop did not wait for.
#[derive(Clone, Copy, Debug, PartialEq, Eq, Structural)]
pub struct Unexpected {
    /// The phase in which the loop stood, and still stands.
    pub phase: Phase,
}

/// The ingest loop of one session.
pub struct IngestLoop {
    config: ListenerConfig,
    phase: Phase,
}

impl View for IngestLoop {
    type V = LoopView;

    closed spec fn view(&self) -> LoopView {
        LoopView { config: self.config@, phase: self.phase }
    }
}

impl IngestLoop {
    /// A new loop for `config`, with its first command: to bind the
    /// listening socket.
    pub fn start(config: ListenerConfig) -> (r: (IngestLoop, Command))
        ensures
            r.0@ == initial(config@),
            r.1@ == (CommandView::Bind { address: config@.bind_address }),
    {
        let address = config.bind_address.clone();
        (IngestLoop { config, phase: Phase::Binding }, Command::Bind { address })
    }

    /// The phase in which the loop stands.
    pub fn phase(&self) -> (p: Phase)
        ensures
            p == self@.phase,
    {
        self.phase
    }

    /// Whether the session is over.
    pub fn is_finished(&self) -> (b: bool)
        ensures
            b == (self@.phase is Finished),
    {
        match self.phase {
            Phase::Finished => true,
            _ => false,
        }
    }

    /// The configuration that the loop was started with.
    pub fn config(&self) -> (c: &ListenerConfig)
        ensures
            c@ == self@.config,
    {
        &self.config
    }

    /// Whether `outcome` answers the command that a loop in `phase` waits on.
    pub fn expects(phase: Phase, outcome: &Outcome) -> (b: bool)
        ensures
            b == accepts(phase, outcome@),
    {
        match phase {
            Phase::Binding => match outcome {
                Outcome::Bound => true,
                Outcome::BindFailed { .. } => true,
                _ => false,
            },
            Phase::Connecting => match outcome {
                Outcome::ForwardConnected => true,
                Outcome::ForwardConnectFailed { .. } => true,
                _ => false,
            },
            Phase::Receiving => match outcome {
                Outcome::Datagram { .. } => true,
                Outcome::ReceiveFailed { .. } => true,
                Outcome::Cancelled => true,
                _ => false,
            },
            Phase::Forwarding => match outcome {
                Outcome::Forwarded => true,
                Outcome::ForwardFailed { .. } => true,
                _ => false,
            },
            Phase::Draining => match outcome {
                Outcome::Drained => true,
                _ => false,
            },
            Phase::Finished => false,
        }
    }

    /// Takes the outcome of the last command and says what to emit and what
    /// to do next.
    ///
    /// An outcome that does not answer the pending command is refused: the
    /// loop stays as it is and nothing is emitted. A finished loop refuses
    /// every outcome.
    pub fn step(&mut self, outcome: Outcome) -> (r: Result<Step, Unexpected>)
        ensures
            final(self)@.config == old(self)@.config,
            match r {
                Ok(step) => {
                    let t = transition(old(self)@, outcome@);
                    &&& accepts(old(self)@.phase, outcome@)
                    &&& final(self)@.phase == t.phase
                    &&& event_views(step.events@) == t.events
                    &&& step.command@ == t.command
                },
                Err(e) => {
                    &&& !accepts(old(self)@.phase, outcome@)
                    &&& final(self)@ == old(self)@
                    &&& e.phase == old(self)@.phase
                },
            },
    {
        if !Self::expects(self.phase, &outcome) {
            return Err(Unexpected { phase: self.phase });
        }
        let ghost t = transition(self@, outcome@);
        let mut events: Vec<ListenEvent> = Vec::new();
        let listen = Command::Receive { buffer_len: RECEIVE_BUFFER_LEN };
        let command = match outcome {
            Outcome::Bound => match &self.config.forward_address {
                Some(address) => {
                    self.phase = Phase::Connecting;
                    Command::ConnectForward { address: address.clone() }
                },
                None => {
                    self.phase = Phase::Receiving;
                    events.push(ListenEvent::Opened);
                    listen
                },
            },
            Outcome::BindFailed { detail } => {
                self.phase = Phase::Finished;
                events.push(ListenEvent::bind_failed(detail.as_str()));
                Command::Release
            },
            Outcome::ForwardConnected => {
                self.phase = Phase::Receiving;
                events.push(ListenEvent::Opened);
                listen
            },
            Outcome::ForwardConnectFailed { detail } => {
                self.phase = Phase::Finished;
                events.push(ListenEvent::bind_failed(detail.as_str()));
                Command::Release
            },
            Outcome::Datagram { bytes } => {
                let about = ListenEvent::from_decoding(decode(bytes.as_slice()));
                if self.config.forward_address.is_some() {
                    let copy = bytes.clone();
                    self.phase = Phase::Forwarding;
                    events.push(ListenEvent::RawData { bytes });
                    events.push(about);
                    Command::Forward { bytes: copy }
                } else {
                    self.phase = Phase::Receiving;
                    events.push(ListenEvent::RawData { bytes });
                    events.push(about);
                    listen
                }
            },
            Outcome::ReceiveFailed { detail } => {
                self.phase = Phase::Finished;
                events.push(ListenEvent::recv_failed(detail.as_str()));
                events.push(ListenEvent::Closed);
                Command::Release
            },
            Outcome::Cancelled => {
                self.phase = Phase::Draining;
                Command::Drain { grace_ms: GRACE_PERIOD_MS }
            },
            Outcome::Forwarded => {
                self.phase = Phase::Receiving;
                listen
            },
            Outcome::ForwardFailed { detail } => {
                self.phase = Phase::Receiving;
                events.push(ListenEvent::forward_failed(detail.as_str()));
                listen
            },
            Outcome::Drained => {
                self.phase = Phase::Finished;
                events.push(ListenEvent::Closed);
                Command::Release
            },
        };
        assert(event_views(events@) =~= t.events);
        Ok(Step { events, command })
    }
}

} // verus!
