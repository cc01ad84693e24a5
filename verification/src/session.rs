//! One client connection from its first byte to the end of the handshake.
//!
//! The first two bytes of a connection are the protocol version and a byte
//! whose meaning depends on it: the command in SOCKS4, the number of offered
//! authentication methods in SOCKS5. The version picks one of the two
//! handshakes, once, and the connection stays with it.

use vstd::prelude::*;
use crate::driver::{step_view, Action, ActionView, Event, EventView};
use crate::error::{Error, ProtocolError};
use crate::socks4;
use crate::socks5;

verus! {

/// The version byte of SOCKS4 and SOCKS4a.
pub const SOCKS4: u8 = 4;

/// The version byte of SOCKS5.
pub const SOCKS5: u8 = 5;

/// Where a connection stands.
#[derive(Debug, PartialEq, Eq)]
pub enum Session {
    /// Reading the first two bytes.
    Preamble,
    /// In a SOCKS4 handshake.
    Socks4(socks4::Handshake),
    /// In a SOCKS5 handshake.
    Socks5(socks5::Handshake),
    /// Turned away for its version.
    Finished,
}

/// The state of a connection as a mathematical value.
pub enum SessionView {
    Preamble,
    Socks4(socks4::HandshakeView),
    Socks5(socks5::HandshakeView),
    Finished,
}

impl View for Session {
    type V = SessionView;

    open spec fn view(&self) -> SessionView {
        match self {
            Session::Preamble => SessionView::Preamble,
            Session::Socks4(handshake) => SessionView::Socks4(handshake@),
            Session::Socks5(handshake) => SessionView::Socks5(handshake@),
            Session::Finished => SessionView::Finished,
        }
    }
}

impl SessionView {
    /// What happens once the first two bytes are read: version 4 starts a
    /// SOCKS4 handshake with the second byte as its command, version 5 a SOCKS5
    /// handshake with the second byte as its number of methods, and any other
    /// version ends the connection with nothing written.
    pub open spec fn dispatch(version: u8, second: u8) -> (SessionView, ActionView) {
        if version == SOCKS4 {
            (
                SessionView::Socks4(socks4::HandshakeView::Header { cmd: second }),
                ActionView::ReadExact(6),
            )
        } else if version == SOCKS5 {
            (
                SessionView::Socks5(socks5::HandshakeView::Methods { n_auth: second }),
                ActionView::ReadExact(second as usize),
            )
        } else {
            (
                SessionView::Finished,
                ActionView::Done(Err(Error::ProtocolError(ProtocolError::UnsupportedVersion))),
            )
        }
    }

    /// The transition of the connection: that of its handshake once the version
    /// is known; before, the dispatch on the first two bytes, or the end of the
    /// connection if they cannot be read.
    pub open spec fn step(self, event: EventView) -> Option<(SessionView, ActionView)> {
        match self {
            SessionView::Preamble => match event {
                EventView::Data(bytes) => if bytes.len() == 2 {
                    Some(Self::dispatch(bytes[0], bytes[1]))
                } else {
                    None
                },
                EventView::Failed(failure) => Some(
                    (SessionView::Finished, ActionView::Done(Err(Error::IoError(failure)))),
                ),
                _ => None,
            },
            SessionView::Socks4(handshake) => match handshake.step(event) {
                Some((next, action)) => Some((SessionView::Socks4(next), action)),
                None => None,
            },
            SessionView::Socks5(handshake) => match handshake.step(event) {
                Some((next, action)) => Some((SessionView::Socks5(next), action)),
                None => None,
            },
            SessionView::Finished => None,
        }
    }
}

impl Session {
    /// A connection that has just been accepted. The first thing to read is its
    /// first two bytes.
    pub fn start() -> (start: (Session, Action))
        ensures
            start.0@ == SessionView::Preamble,
            start.1@ == ActionView::ReadExact(2),
    {
        (Session::Preamble, Action::ReadExact(2))
    }

    /// Picks the handshake by the version byte.
    fn dispatch(version: u8, second: u8) -> (next: (Session, Action))
        ensures
            (next.0@, next.1@) == SessionView::dispatch(version, second),
    {
        if version == SOCKS4 {
            let (handshake, action) = socks4::handshake(second);
            (Session::Socks4(handshake), action)
        } else if version == SOCKS5 {
            let (handshake, action) = socks5::handshake(second);
            (Session::Socks5(handshake), action)
        } else {
            (
                Session::Finished,
                Action::Done(Err(Error::ProtocolError(ProtocolError::UnsupportedVersion))),
            )
        }
    }

    /// Takes the connection one step further: consumes the report of the last
    /// action and hands out the next one. `None` means that the event was no
    /// answer to what the connection was waiting for.
    pub fn step(self, event: Event) -> (next: Option<(Session, Action)>)
        ensures
            step_view(next) == self@.step(event@),
    {
        match self {
            Session::Preamble => match event {
                Event::Data(bytes) => {
                    if bytes.len() == 2 {
                        Some(Session::dispatch(bytes[0], bytes[1]))
                    } else {
                        None
                    }
                },
                Event::Failed(failure) => Some(
                    (Session::Finished, Action::Done(Err(Error::IoError(failure)))),
                ),
                _ => None,
            },
            Session::Socks4(handshake) => match handshake.step(event) {
                Some((next, action)) => Some((Session::Socks4(next), action)),
                None => None,
            },
            Session::Socks5(handshake) => match handshake.step(event) {
                Some((next, action)) => Some((Session::Socks5(next), action)),
                None => None,
            },
            Session::Finished => None,
        }
    }
}

/// The version is looked at once: a connection that is in one of the two
/// handshakes stays in it, whatever comes.
pub proof fn law_version_is_picked_once(session: SessionView, event: EventView)
    requires
        session.step(event) is Some,
    ensures
        session.step(event) matches Some((next, _)) && (session is Socks4 ==> next is Socks4) && (
        session is Socks5 ==> next is Socks5),
{
}

/// A connection that opens with a version other than 4 or 5 is closed with
/// `UnsupportedVersion`, and nothing is written to it.
pub proof fn law_other_versions_are_turned_away(version: u8, second: u8)
    requires
        version != SOCKS4,
        version != SOCKS5,
    ensures
        SessionView::Preamble.step(EventView::Data(seq![version, second])) == Some(
            (
                SessionView::Finished,
                ActionView::Done(Err(Error::ProtocolError(ProtocolError::UnsupportedVersion))),
            ),
        ),
{
}

} // verus!
