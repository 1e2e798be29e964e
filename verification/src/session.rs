//! The life of one client connection: upgrade, relay frames, close.
//!
//! A session performs no input or output. Its owner reports each thing that
//! happened on the connection as an [`Event`] and carries out the [`Action`]
//! that comes back.

use vstd::prelude::*;
use crate::command::Command;
use crate::envelope::{command_kind, decide, decoded, request_in, Request};

verus! {

/// Where a session stands.
#[derive(Clone, Copy, Debug, PartialEq, Eq, Structural)]
pub enum SessionState {
    /// The connection is being upgraded to the framed transport.
    Handshaking,
    /// Frames are being relayed.
    Open,
    /// The session is over; this state is never left.
    Closed,
}

/// A frame received from the peer.
#[derive(Debug, PartialEq, Eq)]
pub enum Frame {
    Text(String),
    Binary(Vec<u8>),
    Ping(Vec<u8>),
    Pong(Vec<u8>),
    Close,
}

/// Something that happened on the connection.
#[derive(Debug, PartialEq, Eq)]
pub enum Event {
    /// The upgrade succeeded.
    Upgraded,
    /// The upgrade failed.
    UpgradeFailed,
    /// A frame arrived.
    Received(Frame),
    /// Reading from the transport failed.
    ReadFailed,
    /// Writing a frame to the transport failed.
    WriteFailed,
    /// The peer is gone: no more frames will arrive.
    PeerGone,
}

/// What the owner of the session is to do next.
#[derive(Debug, PartialEq, Eq)]
pub enum Action {
    /// Wait for the next event.
    Await,
    /// Carry out the command of `request`, if it has one, then send `echo` back
    /// as a text frame.
    Relay { request: Request, echo: String },
    /// Send these bytes back as a binary frame.
    EchoBinary(Vec<u8>),
    /// Release the connection.
    Release,
}

/// An action, with what is sent back as characters or as bytes.
pub enum ActionView {
    Await,
    Relay { request: Request, echo: Seq<char> },
    EchoBinary(Seq<u8>),
    Release,
}

impl View for Action {
    type V = ActionView;

    open spec fn view(&self) -> ActionView {
        match self {
            Action::Await => ActionView::Await,
            Action::Relay { request, echo } => ActionView::Relay { request: *request, echo: echo@ },
            Action::EchoBinary(bytes) => ActionView::EchoBinary(bytes@),
            Action::Release => ActionView::Release,
        }
    }
}

/// The answer to a text frame: what it asks of the actuator, and the frame's
/// own text as the echo.
pub open spec fn relay_of(text: Seq<char>) -> ActionView {
    ActionView::Relay { request: request_in(text), echo: text }
}

impl ActionView {
    /// The command that the action asks to carry out, if it asks for one. Only
    /// the relay of a text frame can.
    pub open spec fn command(self) -> Option<Command> {
        match self {
            ActionView::Relay { request, echo } => request.spec_command(),
            _ => None,
        }
    }
}

/// The transition function of a session: the next state and the action.
///
/// A closed session stays closed. A session that is handshaking opens when the
/// upgrade succeeds and closes on anything else. An open session answers a text
/// frame with its relay and a binary frame with the same bytes, lets ping and
/// pong frames pass, and closes on a close frame, a failed read or write, or
/// the loss of the peer.
pub open spec fn react(state: SessionState, event: Event) -> (SessionState, ActionView) {
    match state {
        SessionState::Closed => (SessionState::Closed, ActionView::Release),
        SessionState::Handshaking => match event {
            Event::Upgraded => (SessionState::Open, ActionView::Await),
            _ => (SessionState::Closed, ActionView::Release),
        },
        SessionState::Open => match event {
            Event::Received(Frame::Text(text)) => (SessionState::Open, relay_of(text@)),
            Event::Received(Frame::Binary(bytes)) => (
                SessionState::Open,
                ActionView::EchoBinary(bytes@),
            ),
            Event::Received(Frame::Ping(_)) => (SessionState::Open, ActionView::Await),
            Event::Received(Frame::Pong(_)) => (SessionState::Open, ActionView::Await),
            Event::Upgraded => (SessionState::Open, ActionView::Await),
            _ => (SessionState::Closed, ActionView::Release),
        },
    }
}

/// The state of a session after a sequence of events.
pub open spec fn state_after(state: SessionState, events: Seq<Event>) -> SessionState
    decreases events.len(),
{
    if events.len() == 0 {
        state
    } else {
        react(state_after(state, events.drop_last()), events.last()).0
    }
}

/// The action that answers the event at `index` of a sequence of events.
pub open spec fn action_at(state: SessionState, events: Seq<Event>, index: int) -> ActionView {
    react(state_after(state, events.take(index)), events[index]).1
}

/// Whether an event is the arrival of a frame other than a close frame.
pub open spec fn keeps_open(event: Event) -> bool {
    event matches Event::Received(frame) && !(frame is Close)
}

/// One client session.
#[derive(Debug)]
pub struct Session {
    state: SessionState,
}

impl View for Session {
    type V = SessionState;

    closed spec fn view(&self) -> SessionState {
        self.state
    }
}

impl Session {
    /// Begins a session on a connection that was just accepted.
    pub fn new() -> (session: Session)
        ensures
            session@ == SessionState::Handshaking,
    {
        Session { state: SessionState::Handshaking }
    }

    /// Where the session stands.
    pub fn state(&self) -> (state: SessionState)
        ensures
            state == self@,
    {
        self.state
    }

    /// Whether the session is over.
    pub fn is_closed(&self) -> (closed: bool)
        ensures
            closed == (self@ == SessionState::Closed),
    {
        self.state == SessionState::Closed
    }

    /// Takes one event and says what to do next.
    pub fn step(&mut self, event: Event) -> (action: Action)
        ensures
            (final(self)@, action@) == react(old(self)@, event),
    {
        match self.state {
            SessionState::Closed => Action::Release,
            SessionState::Handshaking => match event {
                Event::Upgraded => {
                    self.state = SessionState::Open;
                    Action::Await
                },
                _ => {
                    self.state = SessionState::Closed;
                    Action::Release
                },
            },
            SessionState::Open => match event {
                Event::Received(Frame::Text(text)) => {
                    let request = decide(text.as_str());
                    Action::Relay { request, echo: text }
                },
                Event::Received(Frame::Binary(bytes)) => Action::EchoBinary(bytes),
                Event::Received(Frame::Ping(_)) => Action::Await,
                Event::Received(Frame::Pong(_)) => Action::Await,
                Event::Upgraded => Action::Await,
                _ => {
                    self.state = SessionState::Closed;
                    Action::Release
                },
            },
        }
    }
}

/// A closed session stays closed and asks only for release, whatever happens.
pub proof fn lemma_closed_is_terminal(events: Seq<Event>)
    ensures
        state_after(SessionState::Closed, events) == SessionState::Closed,
        forall|index: int|
            0 <= index < events.len() ==> #[trigger] action_at(
                SessionState::Closed,
                events,
                index,
            ) == ActionView::Release,
    decreases events.len(),
{
    if events.len() > 0 {
        lemma_closed_is_terminal(events.drop_last());
    }
    assert forall|index: int| 0 <= index < events.len() implies #[trigger] action_at(
        SessionState::Closed,
        events,
        index,
    ) == ActionView::Release by {
        lemma_closed_is_terminal(events.take(index));
    }
}

/// While frames other than close frames arrive, an open session stays open.
pub proof fn lemma_frames_keep_open(events: Seq<Event>)
    requires
        forall|index: int| 0 <= index < events.len() ==> keeps_open(#[trigger] events[index]),
    ensures
        state_after(SessionState::Open, events) == SessionState::Open,
    decreases events.len(),
{
    if events.len() > 0 {
        lemma_frames_keep_open(events.drop_last());
        assert(keeps_open(events[events.len() - 1]));
    }
}

/// Echo is total and keeps the order: while frames other than close frames
/// arrive on an open session, the answer to each text frame is the relay of
/// that very frame, with its text as the echo, whether or not the text asks for
/// a command; the answer to each binary frame sends the frame's own bytes back
/// and asks for no command; the answer to a ping or a pong sends nothing.
pub proof fn lemma_echo_is_total_and_ordered(events: Seq<Event>, index: int)
    requires
        forall|other: int| 0 <= other < events.len() ==> keeps_open(#[trigger] events[other]),
        0 <= index < events.len(),
    ensures
        action_at(SessionState::Open, events, index) == match events[index] {
            Event::Received(Frame::Text(text)) => relay_of(text@),
            Event::Received(Frame::Binary(bytes)) => ActionView::EchoBinary(bytes@),
            _ => ActionView::Await,
        },
        !(events[index] matches Event::Received(Frame::Text(_))) ==> action_at(
            SessionState::Open,
            events,
            index,
        ).command() is None,
{
    lemma_frames_keep_open(events.take(index));
    assert(keeps_open(events[index]));
}

/// A binary frame is echoed byte for byte and causes no command, whatever its
/// bytes are, the bytes of a command envelope included.
pub proof fn lemma_binary_is_only_echoed(bytes: Vec<u8>)
    ensures
        react(SessionState::Open, Event::Received(Frame::Binary(bytes))) == (
            SessionState::Open,
            ActionView::EchoBinary(bytes@),
        ),
        ActionView::EchoBinary(bytes@).command() is None,
{
}

/// A text frame that carries no envelope causes no command and is echoed.
pub proof fn lemma_undecodable_text_is_only_echoed(frame: String)
    requires
        decoded(frame@) is None,
    ensures
        react(SessionState::Open, Event::Received(Frame::Text(frame))) == (
            SessionState::Open,
            ActionView::Relay { request: Request::NotAnEnvelope, echo: frame@ },
        ),
        Request::NotAnEnvelope.spec_command() is None,
{
}

/// A text frame whose envelope is not of the command kind causes no command
/// and is echoed.
pub proof fn lemma_other_kind_is_only_echoed(frame: String)
    requires
        decoded(frame@) matches Some(envelope) && envelope.kind != command_kind(),
    ensures
        react(SessionState::Open, Event::Received(Frame::Text(frame))) == (
            SessionState::Open,
            ActionView::Relay { request: Request::OtherKind, echo: frame@ },
        ),
        Request::OtherKind.spec_command() is None,
{
}

/// A text frame whose envelope is of the command kind, with a payload that is
/// none of `W`, `S`, `A`, `D` and `STOP`, causes no command and is echoed.
pub proof fn lemma_unknown_payload_is_only_echoed(frame: String)
    requires
        decoded(frame@) matches Some(envelope) && envelope.kind == command_kind()
            && envelope.payload != "W"@ && envelope.payload != "S"@ && envelope.payload != "A"@
            && envelope.payload != "D"@ && envelope.payload != "STOP"@,
    ensures
        react(SessionState::Open, Event::Received(Frame::Text(frame))) == (
            SessionState::Open,
            ActionView::Relay { request: Request::UnknownPayload, echo: frame@ },
        ),
        Request::UnknownPayload.spec_command() is None,
{
}

/// A text frame whose envelope is of the command kind, with a payload that
/// names a command, causes that command and is echoed.
pub proof fn lemma_command_is_relayed_and_echoed(frame: String, command: Command)
    requires
        decoded(frame@) matches Some(envelope) && envelope.kind == command_kind()
            && Command::named_by(envelope.payload) == Some(command),
    ensures
        react(SessionState::Open, Event::Received(Frame::Text(frame))) == (
            SessionState::Open,
            ActionView::Relay { request: Request::Run(command), echo: frame@ },
        ),
        Request::Run(command).spec_command() == Some(command),
{
}

} // verus!
