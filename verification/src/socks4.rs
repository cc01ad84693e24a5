//! SOCKS4 and SOCKS4a CONNECT handshake.
//!
//! The request is `VN=4, CMD, DSTPORT(2), DSTIP(4), USERID, NUL`, and with
//! SOCKS4a a host name and another NUL after it. The first two bytes are read
//! before the protocol version is known; the handshake starts after them.

use vstd::prelude::*;
use crate::address::{
    spec_strip_terminator,
    strip_terminator,
    Address,
    AddressView,
    Request,
    RequestView,
    COMMAND_CONNECT,
};
use crate::bytes::{spec_be16, spec_be16_bytes};
use crate::driver::{
    answers,
    outcome_view,
    step_view,
    Action,
    ActionView,
    Awaits,
    Event,
    EventView,
};
use crate::error::{Error, IoFailure, ProtocolError};
use crate::upstream::{connect_target, spec_connect_target, TargetView};

verus! {

/// The status byte of a SOCKS4 reply.
#[derive(Clone, Copy, Debug, PartialEq, Eq)]
pub enum Status {
    Granted,
    RejectedOrFailed,
}

impl Status {
    /// The byte that stands for the status on the wire.
    pub open spec fn spec_code(self) -> u8 {
        match self {
            Status::Granted => 0x5a,
            Status::RejectedOrFailed => 0x5b,
        }
    }

    /// The byte that stands for the status on the wire.
    pub fn code(self) -> (byte: u8)
        ensures
            byte == self.spec_code(),
    {
        match self {
            Status::Granted => 0x5a,
            Status::RejectedOrFailed => 0x5b,
        }
    }
}

/// The reply to a request: a zero version byte, the status, and a port and an
/// address that are always zero.
pub open spec fn spec_reply(status: Status) -> Seq<u8> {
    seq![0u8, status.spec_code(), 0u8, 0u8, 0u8, 0u8, 0u8, 0u8]
}

/// Builds the eight bytes of a reply.
pub fn reply(status: Status) -> (wire: Vec<u8>)
    ensures
        wire@ == spec_reply(status),
{
    let wire = vec![0u8, status.code(), 0u8, 0u8, 0u8, 0u8, 0u8, 0u8];
    assert(wire@ =~= spec_reply(status));
    wire
}

/// The SOCKS4a rule on the destination field of a request: the four bytes read
/// `0.0.0.x` with `x` not zero. Such a field is no address: it announces that a
/// host name follows the user id.
pub open spec fn spec_is_socks4a(dst_addr: Seq<u8>) -> bool {
    dst_addr.len() == 4 && dst_addr[0] == 0 && dst_addr[1] == 0 && dst_addr[2] == 0
        && dst_addr[3] != 0
}

/// Decides whether the destination field of a request announces a host name.
pub fn is_socks4a(dst_addr: [u8; 4]) -> (announces: bool)
    ensures
        announces == spec_is_socks4a(dst_addr@),
{
    dst_addr[0] == 0 && dst_addr[1] == 0 && dst_addr[2] == 0 && dst_addr[3] != 0
}

/// Where a SOCKS4 handshake stands.
#[derive(Debug, PartialEq, Eq)]
pub enum Handshake {
    /// Reading the port and the destination field.
    Header { cmd: u8 },
    /// Reading the user id, which is not looked at.
    UserId { cmd: u8, port: u16, dst_addr: [u8; 4] },
    /// Reading the host name that a SOCKS4a request carries.
    HostName { cmd: u8, port: u16 },
    /// Waiting for the upstream connection.
    Connecting { request: Request },
    /// Writing the reply; `result` is how the handshake ends once it is out.
    Replying { result: Result<Request, Error> },
    /// Over.
    Finished,
}

/// The state of a SOCKS4 handshake as a mathematical value.
pub enum HandshakeView {
    Header { cmd: u8 },
    UserId { cmd: u8, port: u16, dst_addr: Seq<u8> },
    HostName { cmd: u8, port: u16 },
    Connecting { request: RequestView },
    Replying { result: Result<RequestView, Error> },
    Finished,
}

impl View for Handshake {
    type V = HandshakeView;

    open spec fn view(&self) -> HandshakeView {
        match self {
            Handshake::Header { cmd } => HandshakeView::Header { cmd: *cmd },
            Handshake::UserId { cmd, port, dst_addr } => HandshakeView::UserId {
                cmd: *cmd,
                port: *port,
                dst_addr: dst_addr@,
            },
            Handshake::HostName { cmd, port } => HandshakeView::HostName {
                cmd: *cmd,
                port: *port,
            },
            Handshake::Connecting { request } => HandshakeView::Connecting { request: request@ },
            Handshake::Replying { result } => HandshakeView::Replying {
                result: outcome_view(*result),
            },
            Handshake::Finished => HandshakeView::Finished,
        }
    }
}

impl HandshakeView {
    /// What the handshake is waiting for in this state.
    pub open spec fn awaiting(self) -> Awaits {
        match self {
            HandshakeView::Header { .. } => Awaits::Bytes(6),
            HandshakeView::UserId { .. } => Awaits::Line,
            HandshakeView::HostName { .. } => Awaits::Line,
            HandshakeView::Connecting { .. } => Awaits::Connection,
            HandshakeView::Replying { .. } => Awaits::Sent,
            HandshakeView::Finished => Awaits::Nothing,
        }
    }

    /// What happens once the request is read. Any command but CONNECT is
    /// rejected, and no connection is tried. A destination that cannot be
    /// connected to at all is answered like a connection that failed.
    pub open spec fn on_request(request: RequestView) -> (HandshakeView, ActionView) {
        if request.command != COMMAND_CONNECT {
            (
                HandshakeView::Replying {
                    result: Err(Error::ProtocolError(ProtocolError::CommandNotSupported)),
                },
                ActionView::Write(spec_reply(Status::RejectedOrFailed)),
            )
        } else {
            match spec_connect_target(request.address, request.port) {
                Ok(target) => (HandshakeView::Connecting { request }, ActionView::Connect(target)),
                Err(failure) => (
                    HandshakeView::Replying { result: Err(Error::IoError(failure)) },
                    ActionView::Write(spec_reply(Status::RejectedOrFailed)),
                ),
            }
        }
    }

    /// What happens when the stream ends inside the user id or the host name,
    /// before the NUL byte that ends it: the handshake is over with that
    /// failure, with nothing written and no connection asked for.
    pub open spec fn on_cut_short() -> (HandshakeView, ActionView) {
        (
            HandshakeView::Finished,
            ActionView::Done(Err(Error::IoError(IoFailure::UnexpectedEof))),
        )
    }

    /// The transition of the handshake: the state after an event and the action
    /// that goes to the driver, or `None` for an event that is no answer to
    /// what the state waits for.
    ///
    /// The port and the destination field come first, then the user id. Both
    /// strings must end in NUL: one that the stream cut short ends the
    /// handshake as a failed read does. A
    /// destination field under the SOCKS4a rule makes the handshake read a host
    /// name and go by that; any other is the IPv4 address to connect to. The
    /// connection is tried before anything is written. The reply says whether
    /// it was made, and the handshake ends when the reply is out: well after
    /// `Granted`, with the failure of the connection otherwise. A failed read
    /// or write ends the handshake at once with that failure.
    pub open spec fn step(self, event: EventView) -> Option<(HandshakeView, ActionView)> {
        match (self, event) {
            (HandshakeView::Header { cmd }, EventView::Data(bytes)) => if bytes.len() == 6 {
                Some(
                    (
                        HandshakeView::UserId {
                            cmd,
                            port: spec_be16(bytes.subrange(0, 2)),
                            dst_addr: bytes.subrange(2, 6),
                        },
                        ActionView::ReadUntilNul,
                    ),
                )
            } else {
                None
            },
            (HandshakeView::UserId { cmd, port, dst_addr }, EventView::Data(line)) => Some(
                match spec_strip_terminator(line) {
                    None => Self::on_cut_short(),
                    Some(_) => if spec_is_socks4a(dst_addr) {
                        (HandshakeView::HostName { cmd, port }, ActionView::ReadUntilNul)
                    } else {
                        Self::on_request(
                            RequestView {
                                command: cmd,
                                address: AddressView::IPv4(dst_addr),
                                port,
                            },
                        )
                    },
                },
            ),
            (HandshakeView::HostName { cmd, port }, EventView::Data(line)) => Some(
                match spec_strip_terminator(line) {
                    None => Self::on_cut_short(),
                    Some(name) => Self::on_request(
                        RequestView { command: cmd, address: AddressView::Domain(name), port },
                    ),
                },
            ),
            (HandshakeView::Connecting { request }, EventView::Connected) => Some(
                (
                    HandshakeView::Replying { result: Ok(request) },
                    ActionView::Write(spec_reply(Status::Granted)),
                ),
            ),
            (HandshakeView::Connecting { .. }, EventView::Failed(failure)) => Some(
                (
                    HandshakeView::Replying { result: Err(Error::IoError(failure)) },
                    ActionView::Write(spec_reply(Status::RejectedOrFailed)),
                ),
            ),
            (HandshakeView::Replying { result }, EventView::Sent) => Some(
                (HandshakeView::Finished, ActionView::Done(result)),
            ),
            (HandshakeView::Finished, _) => None,
            (_, EventView::Failed(failure)) => Some(
                (HandshakeView::Finished, ActionView::Done(Err(Error::IoError(failure)))),
            ),
            _ => None,
        }
    }
}

/// Starts the handshake of a connection whose first two bytes were the version
/// 4 and `cmd`. The first thing to read is the port and the destination field.
pub fn handshake(cmd: u8) -> (start: (Handshake, Action))
    ensures
        start.0@ == (HandshakeView::Header { cmd }),
        start.1@ == ActionView::ReadExact(6),
{
    (Handshake::Header { cmd }, Action::ReadExact(6))
}

impl Handshake {
    /// Decides what to do with a request that has been read.
    fn on_request(request: Request) -> (next: (Handshake, Action))
        ensures
            (next.0@, next.1@) == HandshakeView::on_request(request@),
    {
        if request.command != COMMAND_CONNECT {
            (
                Handshake::Replying {
                    result: Err(Error::ProtocolError(ProtocolError::CommandNotSupported)),
                },
                Action::Write(reply(Status::RejectedOrFailed)),
            )
        } else {
            match connect_target(&request.address, request.port) {
                Ok(target) => (Handshake::Connecting { request }, Action::Connect(target)),
                Err(failure) => (
                    Handshake::Replying { result: Err(Error::IoError(failure)) },
                    Action::Write(reply(Status::RejectedOrFailed)),
                ),
            }
        }
    }

    /// Ends the handshake on a string that the stream cut short.
    fn on_cut_short() -> (next: (Handshake, Action))
        ensures
            (next.0@, next.1@) == HandshakeView::on_cut_short(),
    {
        (Handshake::Finished, Action::Done(Err(Error::IoError(IoFailure::UnexpectedEof))))
    }

    /// Takes the handshake one step further: consumes the report of the last
    /// action and hands out the next one. `None` means that the event was no
    /// answer to what the handshake was waiting for.
    pub fn step(self, event: Event) -> (next: Option<(Handshake, Action)>)
        ensures
            step_view(next) == self@.step(event@),
    {
        match (self, event) {
            (Handshake::Header { cmd }, Event::Data(bytes)) => {
                if bytes.len() == 6 {
                    let port = (bytes[0] as u16) * 256 + (bytes[1] as u16);
                    let dst_addr = [bytes[2], bytes[3], bytes[4], bytes[5]];
                    assert(dst_addr@ =~= bytes@.subrange(2, 6));
                    Some((Handshake::UserId { cmd, port, dst_addr }, Action::ReadUntilNul))
                } else {
                    None
                }
            },
            (Handshake::UserId { cmd, port, dst_addr }, Event::Data(line)) => {
                match strip_terminator(line) {
                    None => Some(Handshake::on_cut_short()),
                    Some(_) => {
                        if is_socks4a(dst_addr) {
                            Some((Handshake::HostName { cmd, port }, Action::ReadUntilNul))
                        } else {
                            Some(
                                Handshake::on_request(
                                    Request {
                                        command: cmd,
                                        address: Address::IPv4(dst_addr),
                                        port,
                                    },
                                ),
                            )
                        }
                    },
                }
            },
            (Handshake::HostName { cmd, port }, Event::Data(line)) => {
                match Address::decode_domain(line, false) {
                    None => Some(Handshake::on_cut_short()),
                    Some(address) => Some(
                        Handshake::on_request(Request { command: cmd, address, port }),
                    ),
                }
            },
            (Handshake::Connecting { request }, Event::Connected) => Some(
                (Handshake::Replying { result: Ok(request) }, Action::Write(reply(Status::Granted))),
            ),
            (Handshake::Connecting { .. }, Event::Failed(failure)) => Some(
                (
                    Handshake::Replying { result: Err(Error::IoError(failure)) },
                    Action::Write(reply(Status::RejectedOrFailed)),
                ),
            ),
            (Handshake::Replying { result }, Event::Sent) => Some(
                (Handshake::Finished, Action::Done(result)),
            ),
            (Handshake::Finished, _) => None,
            (_, Event::Failed(failure)) => Some(
                (Handshake::Finished, Action::Done(Err(Error::IoError(failure)))),
            ),
            _ => None,
        }
    }
}

/// An event is taken exactly when it answers what the state waits for.
pub proof fn law_step_takes_answers(state: HandshakeView, event: EventView)
    ensures
        state.step(event) is Some <==> answers(state.awaiting(), event),
{
}

/// The action that a step hands out is the one whose report the next state
/// waits for, so that a driver which performs each action and reports how it
/// ended is never refused. After `Done` the handshake waits for nothing.
pub proof fn law_next_state_awaits_action(state: HandshakeView, event: EventView)
    requires
        state.step(event) is Some,
    ensures
        state.step(event) matches Some((next, action)) && next.awaiting() == action.awaits() && (
        action is Done <==> next is Finished),
{
}

/// A connection is only ever asked for when the command is CONNECT.
pub proof fn law_connects_only_on_connect(state: HandshakeView, event: EventView)
    requires
        state.step(event) matches Some((_, action)) && action is Connect,
    ensures
        state.step(event) matches Some((HandshakeView::Connecting { request }, _))
            && request.command == COMMAND_CONNECT,
{
}

/// A request for a literal IPv4 address: whatever the user id before its
/// terminator, the handshake asks for a connection to exactly that address and
/// port, writes nothing before the connection is made, then writes the
/// `Granted` reply and ends well.
pub proof fn law_literal_ipv4_request(port: u16, ip: Seq<u8>, user_id: Seq<u8>)
    requires
        ip.len() == 4,
        !spec_is_socks4a(ip),
    ensures
        ({
            let start = HandshakeView::Header { cmd: COMMAND_CONNECT };
            let request = RequestView {
                command: COMMAND_CONNECT,
                address: AddressView::IPv4(ip),
                port,
            };
            &&& start.step(EventView::Data(spec_be16_bytes(port) + ip)) matches Some((s1, a1))
            &&& a1 == ActionView::ReadUntilNul
            &&& s1.step(EventView::Data(user_id.push(0u8))) matches Some((s2, a2))
            &&& a2 == ActionView::Connect(TargetView::V4(ip, port))
            &&& s2.step(EventView::Connected) matches Some((s3, a3))
            &&& a3 == ActionView::Write(seq![0u8, 0x5au8, 0u8, 0u8, 0u8, 0u8, 0u8, 0u8])
            &&& s3.step(EventView::Sent) matches Some((s4, a4))
            &&& a4 == ActionView::Done(Ok(request))
        }),
{
    let header = spec_be16_bytes(port) + ip;
    assert(header.subrange(0, 2) =~= spec_be16_bytes(port));
    assert(header.subrange(2, 6) =~= ip);
    assert(spec_strip_terminator(user_id.push(0u8)) is Some);
    assert(spec_reply(Status::Granted) =~= seq![0u8, 0x5au8, 0u8, 0u8, 0u8, 0u8, 0u8, 0u8]);
}

/// The destination field `0.0.0.0` is a literal address, not an announcement
/// of a host name: its last byte is zero.
pub proof fn law_zero_address_is_literal(port: u16, user_id: Seq<u8>)
    ensures
        !spec_is_socks4a(seq![0u8, 0u8, 0u8, 0u8]),
        ({
            let start = HandshakeView::Header { cmd: COMMAND_CONNECT };
            let ip = seq![0u8, 0u8, 0u8, 0u8];
            &&& start.step(EventView::Data(spec_be16_bytes(port) + ip)) matches Some((s1, a1))
            &&& s1.step(EventView::Data(user_id.push(0u8))) matches Some((s2, a2))
            &&& a2 == ActionView::Connect(TargetView::V4(ip, port))
        }),
{
    let ip = seq![0u8, 0u8, 0u8, 0u8];
    let header = spec_be16_bytes(port) + ip;
    assert(header.subrange(0, 2) =~= spec_be16_bytes(port));
    assert(header.subrange(2, 6) =~= ip);
    assert(spec_strip_terminator(user_id.push(0u8)) is Some);
}

/// A SOCKS4a request: with a destination field `0.0.0.x`, `x` not zero, the
/// handshake reads a second string after the user id and goes by the host name
/// in it, never by the four bytes. A name that is text is what the connection
/// is asked for; one that is not is rejected without a connection.
pub proof fn law_socks4a_goes_by_host_name(port: u16, x: u8, user_id: Seq<u8>, name: Seq<u8>)
    requires
        x != 0,
    ensures
        spec_is_socks4a(seq![0u8, 0u8, 0u8, x]),
        ({
            let start = HandshakeView::Header { cmd: COMMAND_CONNECT };
            let header = spec_be16_bytes(port) + seq![0u8, 0u8, 0u8, x];
            let request = RequestView {
                command: COMMAND_CONNECT,
                address: AddressView::Domain(name),
                port,
            };
            &&& start.step(EventView::Data(header)) matches Some((s1, a1))
            &&& a1 == ActionView::ReadUntilNul
            &&& s1.step(EventView::Data(user_id.push(0u8))) matches Some((s2, a2))
            &&& a2 == ActionView::ReadUntilNul
            &&& s2.step(EventView::Data(name.push(0u8))) matches Some((s3, a3))
            &&& vstd::utf8::valid_utf8(name) ==> s3 == (HandshakeView::Connecting { request })
                && a3 == ActionView::Connect(
                TargetView::Host(vstd::utf8::decode_utf8(name), port),
            )
            &&& !vstd::utf8::valid_utf8(name) ==> s3 == (HandshakeView::Replying {
                result: Err(Error::IoError(IoFailure::DomainNotUtf8)),
            }) && a3 == ActionView::Write(spec_reply(Status::RejectedOrFailed))
        }),
{
    let header = spec_be16_bytes(port) + seq![0u8, 0u8, 0u8, x];
    assert(header.subrange(0, 2) =~= spec_be16_bytes(port));
    assert(header.subrange(2, 6) =~= seq![0u8, 0u8, 0u8, x]);
    assert(spec_strip_terminator(user_id.push(0u8)) is Some);
    assert(name.push(0u8).drop_last() =~= name);
    assert(spec_strip_terminator(name.push(0u8)) == Some(name));
}

/// A string that the stream cut short is never taken for a whole one. Where
/// the user id or the host name does not end in NUL, the handshake is over at
/// once with `UnexpectedEof`: nothing is written, no connection is asked for,
/// and no request is made of the bytes that did come.
pub proof fn law_cut_short_string_ends_handshake(state: HandshakeView, line: Seq<u8>)
    requires
        state is UserId || state is HostName,
        line.len() == 0 || line.last() != 0u8,
    ensures
        state.step(EventView::Data(line)) == Some(
            (
                HandshakeView::Finished,
                ActionView::Done(Err(Error::IoError(IoFailure::UnexpectedEof))),
            ),
        ),
{
}

/// The host name of a SOCKS4a request is the string as it came, less the NUL
/// byte that ends it and less nothing else.
pub proof fn law_host_name_is_kept_whole(cmd: u8, port: u16, line: Seq<u8>)
    ensures
        (HandshakeView::HostName { cmd, port }).step(EventView::Data(line)) matches Some(
            (HandshakeView::Connecting { request }, _),
        ) ==> request.address == AddressView::Domain(line.drop_last()) && line.last() == 0u8
            && line == line.drop_last().push(0u8),
{
    if line.len() > 0 {
        assert(line =~= line.drop_last().push(line.last()));
    }
}

/// Any command but CONNECT is rejected once the request is read: the reply
/// carries `RejectedOrFailed`, no connection is asked for, and the handshake
/// ends with `CommandNotSupported`.
pub proof fn law_other_commands_are_rejected(request: RequestView)
    requires
        request.command != COMMAND_CONNECT,
    ensures
        ({
            let (s1, a1) = HandshakeView::on_request(request);
            &&& a1 == ActionView::Write(seq![0u8, 0x5bu8, 0u8, 0u8, 0u8, 0u8, 0u8, 0u8])
            &&& s1.step(EventView::Sent) == Some(
                (
                    HandshakeView::Finished,
                    ActionView::Done(
                        Err(Error::ProtocolError(ProtocolError::CommandNotSupported)),
                    ),
                ),
            )
        }),
{
    assert(spec_reply(Status::RejectedOrFailed) =~= seq![
        0u8,
        0x5bu8,
        0u8,
        0u8,
        0u8,
        0u8,
        0u8,
        0u8,
    ]);
}

/// A connection that cannot be made is answered with `RejectedOrFailed`,
/// whatever the cause, and the handshake ends with that cause.
pub proof fn law_failed_connection_is_reported(request: RequestView, cause: IoFailure)
    ensures
        ({
            let connecting = HandshakeView::Connecting { request };
            &&& connecting.step(EventView::Failed(cause)) matches Some((s1, a1))
            &&& a1 == ActionView::Write(seq![0u8, 0x5bu8, 0u8, 0u8, 0u8, 0u8, 0u8, 0u8])
            &&& s1.step(EventView::Sent) == Some(
                (HandshakeView::Finished, ActionView::Done(Err(Error::IoError(cause)))),
            )
        }),
{
    assert(spec_reply(Status::RejectedOrFailed) =~= seq![
        0u8,
        0x5bu8,
        0u8,
        0u8,
        0u8,
        0u8,
        0u8,
        0u8,
    ]);
}

impl HandshakeView {
    /// The state after a run of events, or `None` if one of them was refused.
    pub open spec fn after(self, events: Seq<EventView>) -> Option<HandshakeView>
        decreases events.len(),
    {
        if events.len() == 0 {
            Some(self)
        } else {
            match self.after(events.drop_last()) {
                Some(state) => match state.step(events.last()) {
                    Some((next, _)) => Some(next),
                    None => None,
                },
                None => None,
            }
        }
    }

    /// An upper bound on the number of events that the handshake still takes.
    pub open spec fn steps_left(self) -> nat {
        match self {
            HandshakeView::Header { .. } => 5,
            HandshakeView::UserId { .. } => 4,
            HandshakeView::HostName { .. } => 3,
            HandshakeView::Connecting { .. } => 2,
            HandshakeView::Replying { .. } => 1,
            HandshakeView::Finished => 0,
        }
    }
}

/// The handshake only ends well after the upstream connection was made: the
/// reply that grants the request is the answer to the `Connected` event.
pub proof fn law_success_needs_connection(cmd: u8, events: Seq<EventView>, event: EventView)
    requires
        (HandshakeView::Header { cmd }).after(events) matches Some(state) && state.step(
            event,
        ) matches Some((_, ActionView::Done(Ok(_)))),
    ensures
        events.len() > 0 && events.last() == EventView::Connected,
{
}

/// Every event that is taken brings the handshake nearer to its end, so that a
/// handshake is over after five events at most.
pub proof fn law_every_step_is_progress(state: HandshakeView, event: EventView)
    requires
        state.step(event) is Some,
    ensures
        state.step(event) matches Some((next, _)) && next.steps_left() < state.steps_left(),
{
}

} // verus!
