//! What a handshake asks of the code that owns the sockets, and what it hears
//! back.
//!
//! A handshake never touches a socket. Each step hands out one [`Action`]; the
//! driver performs it and reports how it ended as one [`Event`].

use vstd::prelude::*;
use crate::address::{Request, RequestView};
use crate::bytes::ByteBuf;
use crate::error::{Error, IoFailure};
use crate::socks5::AuthResult;
use crate::upstream::{Target, TargetView};

verus! {

/// A user name and password as a client sent them.
#[derive(Debug, PartialEq, Eq)]
pub struct Credentials {
    pub username: ByteBuf,
    pub password: ByteBuf,
}

/// Credentials as a mathematical value.
pub struct CredentialsView {
    pub username: Seq<u8>,
    pub password: Seq<u8>,
}

impl View for Credentials {
    type V = CredentialsView;

    open spec fn view(&self) -> CredentialsView {
        CredentialsView { username: self.username@, password: self.password@ }
    }
}

/// The next thing for the driver to do.
#[derive(Debug, PartialEq, Eq)]
pub enum Action {
    /// Read exactly this many bytes from the client.
    ReadExact(usize),
    /// Read from the client up to and including the next NUL byte. If the
    /// stream ends first, the report holds what came, without a NUL at its end,
    /// and the handshake takes it for the cut-short string that it is.
    ReadUntilNul,
    /// Write all of these bytes to the client.
    Write(Vec<u8>),
    /// Open the upstream connection.
    Connect(Target),
    /// Ask the authentication policy about these credentials, or about a client
    /// that presents none.
    Authenticate(Option<Credentials>),
    /// The handshake is over. On `Ok` the upstream connection is open and the
    /// relay can start; on `Err` the connection is to be closed.
    Done(Result<Request, Error>),
}

/// How a handshake ends, as a mathematical value.
pub open spec fn outcome_view(result: Result<Request, Error>) -> Result<RequestView, Error> {
    match result {
        Ok(request) => Ok(request@),
        Err(e) => Err(e),
    }
}

/// An action as a mathematical value.
pub enum ActionView {
    ReadExact(usize),
    ReadUntilNul,
    Write(Seq<u8>),
    Connect(TargetView),
    Authenticate(Option<CredentialsView>),
    Done(Result<RequestView, Error>),
}

impl View for Action {
    type V = ActionView;

    open spec fn view(&self) -> ActionView {
        match self {
            Action::ReadExact(n) => ActionView::ReadExact(*n),
            Action::ReadUntilNul => ActionView::ReadUntilNul,
            Action::Write(bytes) => ActionView::Write(bytes@),
            Action::Connect(target) => ActionView::Connect(target@),
            Action::Authenticate(credentials) => ActionView::Authenticate(
                match credentials {
                    Some(c) => Some(c@),
                    None => None,
                },
            ),
            Action::Done(result) => ActionView::Done(outcome_view(*result)),
        }
    }
}

/// How an action ended.
#[derive(Debug, PartialEq, Eq)]
pub enum Event {
    /// The read is complete; these are the bytes.
    Data(Vec<u8>),
    /// The write is complete.
    Sent,
    /// The upstream connection is open.
    Connected,
    /// The authentication policy has decided.
    Decided(AuthResult),
    /// The read, write or connect failed.
    Failed(IoFailure),
}

/// A step of a handshake as a mathematical value: the state that it leads to
/// and the action that it hands out, or nothing where the event was refused.
pub open spec fn step_view<S: View>(step: Option<(S, Action)>) -> Option<(S::V, ActionView)> {
    match step {
        Some((state, action)) => Some((state@, action@)),
        None => None,
    }
}

/// An event as a mathematical value.
pub enum EventView {
    Data(Seq<u8>),
    Sent,
    Connected,
    Decided(AuthResult),
    Failed(IoFailure),
}

impl View for Event {
    type V = EventView;

    open spec fn view(&self) -> EventView {
        match self {
            Event::Data(bytes) => EventView::Data(bytes@),
            Event::Sent => EventView::Sent,
            Event::Connected => EventView::Connected,
            Event::Decided(decision) => EventView::Decided(*decision),
            Event::Failed(failure) => EventView::Failed(*failure),
        }
    }
}

/// What a handshake is waiting for.
pub enum Awaits {
    /// The bytes of a read of this length.
    Bytes(usize),
    /// A string read up to its NUL terminator.
    Line,
    /// The end of a write.
    Sent,
    /// The upstream connection.
    Connection,
    /// The decision of the authentication policy.
    Decision,
    /// Nothing: the handshake is over.
    Nothing,
}

impl ActionView {
    /// What the driver reports once it has performed the action.
    pub open spec fn awaits(self) -> Awaits {
        match self {
            ActionView::ReadExact(n) => Awaits::Bytes(n),
            ActionView::ReadUntilNul => Awaits::Line,
            ActionView::Write(_) => Awaits::Sent,
            ActionView::Connect(_) => Awaits::Connection,
            ActionView::Authenticate(_) => Awaits::Decision,
            ActionView::Done(_) => Awaits::Nothing,
        }
    }
}

/// Whether an event is a report that a waiting handshake can take: the bytes of
/// the read in the length asked for, the end of the write, the connection, the
/// decision, or the failure of a read, write or connect.
pub open spec fn answers(wait: Awaits, event: EventView) -> bool {
    match (wait, event) {
        (Awaits::Bytes(n), EventView::Data(bytes)) => bytes.len() == n,
        (Awaits::Line, EventView::Data(_)) => true,
        (Awaits::Sent, EventView::Sent) => true,
        (Awaits::Connection, EventView::Connected) => true,
        (Awaits::Decision, EventView::Decided(_)) => true,
        (Awaits::Bytes(_), EventView::Failed(_)) => true,
        (Awaits::Line, EventView::Failed(_)) => true,
        (Awaits::Sent, EventView::Failed(_)) => true,
        (Awaits::Connection, EventView::Failed(_)) => true,
        _ => false,
    }
}

} // verus!
