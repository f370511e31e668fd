//! One connection: the cycle of reading a frame, decoding it, replying and
//! reading again, until the peer leaves or the socket fails.

use crate::message::{dispatch, reply, Request, RequestView, Response, ResponseView, MAX_MESSAGE_SIZE};
use vstd::prelude::*;

verus! {

/// The codec's verdict on one frame.
#[derive(Debug, Clone, PartialEq, Eq)]
pub enum Decoded {
    /// The frame is a well-formed request.
    Request(Request),
    /// The frame is well formed but names no request this server knows.
    Unrecognized,
    /// The frame is no well-formed encoding at all.
    Malformed,
}

/// Mathematical content of a `Decoded`.
pub enum DecodedView {
    Request(RequestView),
    Unrecognized,
    Malformed,
}

impl View for Decoded {
    type V = DecodedView;

    open spec fn view(&self) -> DecodedView {
        match *self {
            Decoded::Request(request) => DecodedView::Request(request@),
            Decoded::Unrecognized => DecodedView::Unrecognized,
            Decoded::Malformed => DecodedView::Malformed,
        }
    }
}

/// Why a frame got no response. None of these ends the connection.
#[derive(Debug, Clone, Copy, PartialEq, Eq, Structural)]
pub enum Fault {
    /// The frame did not decode.
    Decode,
    /// The frame decoded to a request of no supported kind.
    UnsupportedRequest,
    /// The read reported more bytes than one frame may hold.
    Oversized,
}

/// The socket operation whose failure ended the connection.
#[derive(Debug, Clone, Copy, PartialEq, Eq, Structural)]
pub enum ConnectionIoError {
    Read,
    Write,
}

/// What a connection is waiting for.
#[derive(Debug, Clone, Copy, PartialEq, Eq)]
pub enum Phase {
    /// A read is pending.
    Reading,
    /// The first `len` bytes of the buffer are with the codec.
    Decoding { len: usize },
    /// A response is being written.
    Replying,
    /// The handler has ended: cleanly, or on the error given.
    Closed { outcome: Result<(), ConnectionIoError> },
}

/// What happened on the socket, or in the codec, since the last action.
#[derive(Debug, Clone, PartialEq, Eq)]
pub enum Event {
    /// A read returned `len` bytes. Zero means that the peer has closed.
    Read { len: usize },
    /// A read failed.
    ReadFailed,
    /// The codec has judged the frame handed to it.
    Decoded(Decoded),
    /// The response was written in full.
    Written,
    /// Writing the response failed.
    WriteFailed,
}

/// Mathematical content of an `Event`.
pub enum EventView {
    Read { len: usize },
    ReadFailed,
    Decoded(DecodedView),
    Written,
    WriteFailed,
}

impl View for Event {
    type V = EventView;

    open spec fn view(&self) -> EventView {
        match *self {
            Event::Read { len } => EventView::Read { len },
            Event::ReadFailed => EventView::ReadFailed,
            Event::Decoded(decoded) => EventView::Decoded(decoded@),
            Event::Written => EventView::Written,
            Event::WriteFailed => EventView::WriteFailed,
        }
    }
}

/// What the handler's caller does next.
#[derive(Debug, PartialEq, Eq)]
pub enum Action {
    /// Read at most `MAX_MESSAGE_SIZE` bytes into the buffer.
    Read,
    /// Hand the first `len` bytes of the buffer to the codec.
    Decode { len: usize },
    /// Encode this response and write all of it.
    Reply(Response),
    /// Report the fault, send nothing, and read again.
    Skip(Fault),
    /// End the handler with this outcome.
    Close(Result<(), ConnectionIoError>),
    /// The event answers no pending action: nothing changes, and the
    /// pending action stands.
    Ignore,
}

/// Mathematical content of an `Action`.
pub enum ActionView {
    Read,
    Decode { len: usize },
    Reply(ResponseView),
    Skip(Fault),
    Close(Result<(), ConnectionIoError>),
    Ignore,
}

impl View for Action {
    type V = ActionView;

    open spec fn view(&self) -> ActionView {
        match *self {
            Action::Read => ActionView::Read,
            Action::Decode { len } => ActionView::Decode { len },
            Action::Reply(response) => ActionView::Reply(response@),
            Action::Skip(fault) => ActionView::Skip(fault),
            Action::Close(outcome) => ActionView::Close(outcome),
            Action::Ignore => ActionView::Ignore,
        }
    }
}

/// What a completed read of `len` bytes leads to: a clean end when the peer
/// has closed, a skipped frame when the read overran the bound, a decode
/// otherwise.
pub open spec fn after_read(len: usize) -> (Phase, ActionView) {
    if len == 0 {
        (Phase::Closed { outcome: Ok(()) }, ActionView::Close(Ok(())))
    } else if len > MAX_MESSAGE_SIZE {
        (Phase::Reading, ActionView::Skip(Fault::Oversized))
    } else {
        (Phase::Decoding { len }, ActionView::Decode { len })
    }
}

/// What the codec's verdict leads to: exactly one reply for a request, a
/// skipped frame for anything else.
pub open spec fn after_decode(decoded: DecodedView) -> (Phase, ActionView) {
    match decoded {
        DecodedView::Request(request) => (Phase::Replying, ActionView::Reply(reply(request))),
        DecodedView::Unrecognized => (Phase::Reading, ActionView::Skip(Fault::UnsupportedRequest)),
        DecodedView::Malformed => (Phase::Reading, ActionView::Skip(Fault::Decode)),
    }
}

/// The handler's transition: the phase after `event` and the action owed.
///
/// A closed handler answers every event with its outcome. A live one
/// takes the event that its phase waits for and ignores any other.
pub open spec fn step(phase: Phase, event: EventView) -> (Phase, ActionView) {
    match (phase, event) {
        (Phase::Closed { outcome }, _) => (phase, ActionView::Close(outcome)),
        (Phase::Reading, EventView::Read { len }) => after_read(len),
        (Phase::Reading, EventView::ReadFailed) => (
            Phase::Closed { outcome: Err(ConnectionIoError::Read) },
            ActionView::Close(Err(ConnectionIoError::Read)),
        ),
        (Phase::Decoding { .. }, EventView::Decoded(decoded)) => after_decode(decoded),
        (Phase::Replying, EventView::Written) => (Phase::Reading, ActionView::Read),
        (Phase::Replying, EventView::WriteFailed) => (
            Phase::Closed { outcome: Err(ConnectionIoError::Write) },
            ActionView::Close(Err(ConnectionIoError::Write)),
        ),
        _ => (phase, ActionView::Ignore),
    }
}

/// The handler of one connection.
pub struct Client {
    phase: Phase,
}

impl View for Client {
    type V = Phase;

    closed spec fn view(&self) -> Phase {
        self.phase
    }
}

impl Client {
    /// The handler of a connection just accepted: its first read is pending.
    pub fn new() -> (client: Client)
        ensures
            client@ == Phase::Reading,
    {
        Client { phase: Phase::Reading }
    }

    /// What the handler is waiting for.
    pub fn phase(&self) -> (phase: Phase)
        ensures
            phase == self@,
    {
        self.phase
    }

    /// Takes one event of the connection and says what is done next.
    pub fn handle(&mut self, event: Event) -> (action: Action)
        ensures
            (final(self)@, action@) == step(old(self)@, event@),
    {
        match self.phase {
            Phase::Closed { outcome } => Action::Close(outcome),
            Phase::Reading => match event {
                Event::Read { len } => {
                    if len == 0 {
                        self.phase = Phase::Closed { outcome: Ok(()) };
                        Action::Close(Ok(()))
                    } else if len > MAX_MESSAGE_SIZE {
                        Action::Skip(Fault::Oversized)
                    } else {
                        self.phase = Phase::Decoding { len };
                        Action::Decode { len }
                    }
                },
                Event::ReadFailed => {
                    self.phase = Phase::Closed { outcome: Err(ConnectionIoError::Read) };
                    Action::Close(Err(ConnectionIoError::Read))
                },
                _ => Action::Ignore,
            },
            Phase::Decoding { .. } => match event {
                Event::Decoded(Decoded::Request(request)) => {
                    self.phase = Phase::Replying;
                    Action::Reply(dispatch(request))
                },
                Event::Decoded(Decoded::Unrecognized) => {
                    self.phase = Phase::Reading;
                    Action::Skip(Fault::UnsupportedRequest)
                },
                Event::Decoded(Decoded::Malformed) => {
                    self.phase = Phase::Reading;
                    Action::Skip(Fault::Decode)
                },
                _ => Action::Ignore,
            },
            Phase::Replying => match event {
                Event::Written => {
                    self.phase = Phase::Reading;
                    Action::Read
                },
                Event::WriteFailed => {
                    self.phase = Phase::Closed { outcome: Err(ConnectionIoError::Write) };
                    Action::Close(Err(ConnectionIoError::Write))
                },
                _ => Action::Ignore,
            },
        }
    }
}

} // verus!
