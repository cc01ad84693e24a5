//! SOCKS5 handshake: method negotiation, authentication, CONNECT request.
//!
//! The client opens with `VER=5, NMETHODS, METHODS`. The first two bytes are
//! read before the protocol version is known; the handshake starts after them.

use vstd::prelude::*;
use crate::address::{
    spec_address_type,
    address_type,
    Address,
    AddressType,
    AddressView,
    Request,
    RequestView,
    COMMAND_CONNECT,
};
use crate::bytes::{be16, contains, spec_be16, spec_be16_bytes, ByteBuf};
use crate::driver::{
    answers,
    outcome_view,
    step_view,
    Action,
    ActionView,
    Awaits,
    Credentials,
    CredentialsView,
    Event,
    EventView,
};
use crate::error::{Error, IoFailure, ProtocolError};
use crate::upstream::{connect_target, spec_connect_target, TargetView};

verus! {

/// The protocol version byte of every SOCKS5 message.
pub const VERSION: u8 = 0x05;

/// The version byte of the reply that ends the user name and password exchange.
pub const AUTH_VERSION: u8 = 0x01;

/// What the authentication policy is asked about.
pub enum Auth<'a> {
    /// A client that presents no credentials.
    NoAuth,
    /// A client that presents a user name and a password.
    UsernamePassword { username: &'a [u8], password: &'a [u8] },
}

/// The question to the authentication policy as a mathematical value.
pub enum AuthView {
    NoAuth,
    UsernamePassword { username: Seq<u8>, password: Seq<u8> },
}

impl<'a> View for Auth<'a> {
    type V = AuthView;

    open spec fn view(&self) -> AuthView {
        match self {
            Auth::NoAuth => AuthView::NoAuth,
            Auth::UsernamePassword { username, password } => AuthView::UsernamePassword {
                username: username@,
                password: password@,
            },
        }
    }
}

/// The verdict of the authentication policy.
#[derive(Clone, Copy, Debug, PartialEq, Eq)]
pub enum AuthResult {
    Accept,
    Deny,
}

/// The policy of a proxy without a credential store: whoever presents no
/// credentials is let in, whoever presents some is turned away.
pub open spec fn spec_do_authenticate(auth: AuthView) -> AuthResult {
    match auth {
        AuthView::NoAuth => AuthResult::Accept,
        AuthView::UsernamePassword { .. } => AuthResult::Deny,
    }
}

/// Decides by the policy of a proxy without a credential store.
pub fn do_authenticate(auth: Auth) -> (verdict: AuthResult)
    ensures
        verdict == spec_do_authenticate(auth@),
{
    match auth {
        Auth::NoAuth => AuthResult::Accept,
        Auth::UsernamePassword { .. } => AuthResult::Deny,
    }
}

/// The question that the `Authenticate` action puts to the policy.
pub open spec fn spec_auth_of(credentials: Option<CredentialsView>) -> AuthView {
    match credentials {
        None => AuthView::NoAuth,
        Some(c) => AuthView::UsernamePassword { username: c.username, password: c.password },
    }
}

/// Puts the payload of an `Authenticate` action in the form that a policy
/// takes.
pub fn auth_of<'a>(credentials: &'a Option<Credentials>) -> (auth: Auth<'a>)
    ensures
        auth@ == spec_auth_of(
            match *credentials {
                Some(c) => Some(c@),
                None => None,
            },
        ),
{
    match credentials {
        None => Auth::NoAuth,
        Some(c) => Auth::UsernamePassword {
            username: c.username.as_slice(),
            password: c.password.as_slice(),
        },
    }
}

/// An authentication method, as the server names it in its choice.
#[derive(Clone, Copy, Debug, PartialEq, Eq)]
pub enum AuthMethod {
    NoAuth,
    UsernamePassword,
    /// None of the offered methods will do. Only the server says so.
    NoAcceptableMethods,
}

impl AuthMethod {
    /// The byte that stands for the method on the wire.
    pub open spec fn spec_code(self) -> u8 {
        match self {
            AuthMethod::NoAuth => 0x00,
            AuthMethod::UsernamePassword => 0x02,
            AuthMethod::NoAcceptableMethods => 0xff,
        }
    }

    /// The byte that stands for the method on the wire.
    pub fn code(self) -> (byte: u8)
        ensures
            byte == self.spec_code(),
    {
        match self {
            AuthMethod::NoAuth => 0x00,
            AuthMethod::UsernamePassword => 0x02,
            AuthMethod::NoAcceptableMethods => 0xff,
        }
    }
}

/// How the user name and password exchange ended.
#[derive(Clone, Copy, Debug, PartialEq, Eq)]
pub enum AuthStatus {
    Success,
    Failure,
}

impl AuthStatus {
    /// The byte that stands for the status on the wire.
    pub open spec fn spec_code(self) -> u8 {
        match self {
            AuthStatus::Success => 0x00,
            AuthStatus::Failure => 0xff,
        }
    }

    /// The byte that stands for the status on the wire.
    pub fn code(self) -> (byte: u8)
        ensures
            byte == self.spec_code(),
    {
        match self {
            AuthStatus::Success => 0x00,
            AuthStatus::Failure => 0xff,
        }
    }
}

/// The status byte of a SOCKS5 reply.
#[derive(Clone, Copy, Debug, PartialEq, Eq)]
pub enum Status {
    Granted,
    GeneralFailure,
    NetworkUnreachable,
    HostUnreachable,
    ConnectionRefused,
    CommandNotSupported,
    AddressTypeNotSupported,
}

impl Status {
    /// The byte that stands for the status on the wire.
    pub open spec fn spec_code(self) -> u8 {
        match self {
            Status::Granted => 0x00,
            Status::GeneralFailure => 0x01,
            Status::NetworkUnreachable => 0x03,
            Status::HostUnreachable => 0x04,
            Status::ConnectionRefused => 0x05,
            Status::CommandNotSupported => 0x07,
            Status::AddressTypeNotSupported => 0x08,
        }
    }

    /// The byte that stands for the status on the wire.
    pub fn code(self) -> (byte: u8)
        ensures
            byte == self.spec_code(),
    {
        match self {
            Status::Granted => 0x00,
            Status::GeneralFailure => 0x01,
            Status::NetworkUnreachable => 0x03,
            Status::HostUnreachable => 0x04,
            Status::ConnectionRefused => 0x05,
            Status::CommandNotSupported => 0x07,
            Status::AddressTypeNotSupported => 0x08,
        }
    }
}

/// Error number of Linux for an unreachable network.
pub const ENETUNREACH: i32 = 101;

/// Error number of Linux for a refused connection.
pub const ECONNREFUSED: i32 = 111;

/// Error number of Linux for an unreachable host.
pub const EHOSTUNREACH: i32 = 113;

/// The status that tells a client why the upstream connection failed: the
/// three causes that SOCKS5 has a status for are told apart by the error
/// number of the operating system, and every other failure is a general one.
pub open spec fn spec_io_error_to_status(e: IoFailure) -> Status {
    match e.spec_raw_os_error() {
        Some(code) => if code == ENETUNREACH {
            Status::NetworkUnreachable
        } else if code == ECONNREFUSED {
            Status::ConnectionRefused
        } else if code == EHOSTUNREACH {
            Status::HostUnreachable
        } else {
            Status::GeneralFailure
        },
        None => Status::GeneralFailure,
    }
}

/// Classifies a failed upstream connection for the reply to the client.
pub fn io_error_to_status(e: &IoFailure) -> (status: Status)
    ensures
        status == spec_io_error_to_status(*e),
{
    match e.raw_os_error() {
        Some(101) => Status::NetworkUnreachable,
        Some(111) => Status::ConnectionRefused,
        Some(113) => Status::HostUnreachable,
        _ => Status::GeneralFailure,
    }
}

/// The method that the server picks from those that a client offers: user name
/// and password wherever it is offered, else no authentication where that is
/// offered, else none.
pub open spec fn spec_select_method(methods: Seq<u8>) -> AuthMethod {
    if methods.contains(AuthMethod::UsernamePassword.spec_code()) {
        AuthMethod::UsernamePassword
    } else if methods.contains(AuthMethod::NoAuth.spec_code()) {
        AuthMethod::NoAuth
    } else {
        AuthMethod::NoAcceptableMethods
    }
}

/// Picks the authentication method from those that a client offers.
pub fn select_method(methods: &[u8]) -> (method: AuthMethod)
    ensures
        method == spec_select_method(methods@),
{
    if contains(methods, AuthMethod::UsernamePassword.code()) {
        AuthMethod::UsernamePassword
    } else if contains(methods, AuthMethod::NoAuth.code()) {
        AuthMethod::NoAuth
    } else {
        AuthMethod::NoAcceptableMethods
    }
}

/// The message that tells the client which method the server picked.
pub open spec fn spec_server_choice(method: AuthMethod) -> Seq<u8> {
    seq![VERSION, method.spec_code()]
}

/// Builds the two bytes of the server's choice of method.
pub fn server_choice(method: AuthMethod) -> (wire: Vec<u8>)
    ensures
        wire@ == spec_server_choice(method),
{
    let wire = vec![VERSION, method.code()];
    assert(wire@ =~= spec_server_choice(method));
    wire
}

/// The message that ends the user name and password exchange.
pub open spec fn spec_auth_response(status: AuthStatus) -> Seq<u8> {
    seq![AUTH_VERSION, status.spec_code()]
}

/// Builds the two bytes that end the user name and password exchange.
pub fn auth_response(status: AuthStatus) -> (wire: Vec<u8>)
    ensures
        wire@ == spec_auth_response(status),
{
    let wire = vec![AUTH_VERSION, status.code()];
    assert(wire@ =~= spec_auth_response(status));
    wire
}

/// The reply to a request: version, status, a reserved zero, and as bound
/// address always the IPv4 address `0.0.0.0` with port 0.
pub open spec fn spec_reply(status: Status) -> Seq<u8> {
    seq![VERSION, status.spec_code(), 0u8, 0x01u8, 0u8, 0u8, 0u8, 0u8, 0u8, 0u8]
}

/// Builds the ten bytes of a reply.
pub fn reply(status: Status) -> (wire: Vec<u8>)
    ensures
        wire@ == spec_reply(status),
{
    let wire = vec![VERSION, status.code(), 0u8, 0x01u8, 0u8, 0u8, 0u8, 0u8, 0u8, 0u8];
    assert(wire@ =~= spec_reply(status));
    wire
}

/// Where a SOCKS5 handshake stands.
#[derive(Debug, PartialEq, Eq)]
pub enum Handshake {
    /// Reading the methods that the client offers.
    Methods { n_auth: u8 },
    /// Writing the choice of the user name and password method.
    ChoosingPassword,
    /// Reading the version byte of the user name and password exchange, which
    /// is not looked at.
    AuthVersion,
    /// Reading the length of the user name.
    UsernameLen,
    /// Reading the user name.
    Username { len: u8 },
    /// Reading the length of the password.
    PasswordLen { username: ByteBuf },
    /// Reading the password.
    Password { username: ByteBuf, len: u8 },
    /// Waiting for the policy's verdict on the credentials.
    JudgingPassword,
    /// Waiting for the policy's verdict on a client without credentials.
    JudgingNoAuth,
    /// Writing the message that lets the client in.
    Admitting,
    /// Reading version, command, reserved byte and address type of the request.
    RequestHeader,
    /// Reading an IPv4 address.
    Ipv4 { command: u8 },
    /// Reading an IPv6 address.
    Ipv6 { command: u8 },
    /// Reading the length of a domain name.
    DomainLen { command: u8 },
    /// Reading a domain name.
    Domain { command: u8, len: u8 },
    /// Reading the port.
    Port { command: u8, address: Address },
    /// Waiting for the upstream connection.
    Connecting { request: Request },
    /// Writing the last message; `result` is how the handshake ends once it is
    /// out.
    Replying { result: Result<Request, Error> },
    /// Over.
    Finished,
}

/// The state of a SOCKS5 handshake as a mathematical value.
pub enum HandshakeView {
    Methods { n_auth: u8 },
    ChoosingPassword,
    AuthVersion,
    UsernameLen,
    Username { len: u8 },
    PasswordLen { username: Seq<u8> },
    Password { username: Seq<u8>, len: u8 },
    JudgingPassword,
    JudgingNoAuth,
    Admitting,
    RequestHeader,
    Ipv4 { command: u8 },
    Ipv6 { command: u8 },
    DomainLen { command: u8 },
    Domain { command: u8, len: u8 },
    Port { command: u8, address: AddressView },
    Connecting { request: RequestView },
    Replying { result: Result<RequestView, Error> },
    Finished,
}

impl View for Handshake {
    type V = HandshakeView;

    open spec fn view(&self) -> HandshakeView {
        match self {
            Handshake::Methods { n_auth } => HandshakeView::Methods { n_auth: *n_auth },
            Handshake::ChoosingPassword => HandshakeView::ChoosingPassword,
            Handshake::AuthVersion => HandshakeView::AuthVersion,
            Handshake::UsernameLen => HandshakeView::UsernameLen,
            Handshake::Username { len } => HandshakeView::Username { len: *len },
            Handshake::PasswordLen { username } => HandshakeView::PasswordLen {
                username: username@,
            },
            Handshake::Password { username, len } => HandshakeView::Password {
                username: username@,
                len: *len,
            },
            Handshake::JudgingPassword => HandshakeView::JudgingPassword,
            Handshake::JudgingNoAuth => HandshakeView::JudgingNoAuth,
            Handshake::Admitting => HandshakeView::Admitting,
            Handshake::RequestHeader => HandshakeView::RequestHeader,
            Handshake::Ipv4 { command } => HandshakeView::Ipv4 { command: *command },
            Handshake::Ipv6 { command } => HandshakeView::Ipv6 { command: *command },
            Handshake::DomainLen { command } => HandshakeView::DomainLen { command: *command },
            Handshake::Domain { command, len } => HandshakeView::Domain {
                command: *command,
                len: *len,
            },
            Handshake::Port { command, address } => HandshakeView::Port {
                command: *command,
                address: address@,
            },
            Handshake::Connecting { request } => HandshakeView::Connecting { request: request@ },
            Handshake::Replying { result } => HandshakeView::Replying {
                result: outcome_view(*result),
            },
            Handshake::Finished => HandshakeView::Finished,
        }
    }
}

impl HandshakeView {
    /// What the handshake is waiting for in this state.
    pub open spec fn awaiting(self) -> Awaits {
        match self {
            HandshakeView::Methods { n_auth } => Awaits::Bytes(n_auth as usize),
            HandshakeView::ChoosingPassword => Awaits::Sent,
            HandshakeView::AuthVersion => Awaits::Bytes(1),
            HandshakeView::UsernameLen => Awaits::Bytes(1),
            HandshakeView::Username { len } => Awaits::Bytes(len as usize),
            HandshakeView::PasswordLen { .. } => Awaits::Bytes(1),
            HandshakeView::Password { len, .. } => Awaits::Bytes(len as usize),
            HandshakeView::JudgingPassword => Awaits::Decision,
            HandshakeView::JudgingNoAuth => Awaits::Decision,
            HandshakeView::Admitting => Awaits::Sent,
            HandshakeView::RequestHeader => Awaits::Bytes(4),
            HandshakeView::Ipv4 { .. } => Awaits::Bytes(4),
            HandshakeView::Ipv6 { .. } => Awaits::Bytes(16),
            HandshakeView::DomainLen { .. } => Awaits::Bytes(1),
            HandshakeView::Domain { len, .. } => Awaits::Bytes(len as usize),
            HandshakeView::Port { .. } => Awaits::Bytes(2),
            HandshakeView::Connecting { .. } => Awaits::Connection,
            HandshakeView::Replying { .. } => Awaits::Sent,
            HandshakeView::Finished => Awaits::Nothing,
        }
    }

    /// What happens once the methods that the client offers are read. With user
    /// name and password the server says so and goes on to read them. Without
    /// authentication the policy is asked first. With neither, the server says
    /// that no method will do, and that ends the handshake.
    pub open spec fn on_methods(methods: Seq<u8>) -> (HandshakeView, ActionView) {
        match spec_select_method(methods) {
            AuthMethod::UsernamePassword => (
                HandshakeView::ChoosingPassword,
                ActionView::Write(spec_server_choice(AuthMethod::UsernamePassword)),
            ),
            AuthMethod::NoAuth => (HandshakeView::JudgingNoAuth, ActionView::Authenticate(None)),
            AuthMethod::NoAcceptableMethods => (
                HandshakeView::Replying {
                    result: Err(Error::ProtocolError(ProtocolError::NoAcceptableAuthMethods)),
                },
                ActionView::Write(spec_server_choice(AuthMethod::NoAcceptableMethods)),
            ),
        }
    }

    /// What happens once the policy has decided on the credentials: the client
    /// is told, and a client that was denied is not heard any further.
    pub open spec fn on_password_verdict(verdict: AuthResult) -> (HandshakeView, ActionView) {
        match verdict {
            AuthResult::Accept => (
                HandshakeView::Admitting,
                ActionView::Write(spec_auth_response(AuthStatus::Success)),
            ),
            AuthResult::Deny => (
                HandshakeView::Replying {
                    result: Err(Error::ProtocolError(ProtocolError::AuthenticationFailure)),
                },
                ActionView::Write(spec_auth_response(AuthStatus::Failure)),
            ),
        }
    }

    /// What happens once the policy has decided on a client without
    /// credentials: the server picks the method, or says that none will do.
    pub open spec fn on_no_auth_verdict(verdict: AuthResult) -> (HandshakeView, ActionView) {
        match verdict {
            AuthResult::Accept => (
                HandshakeView::Admitting,
                ActionView::Write(spec_server_choice(AuthMethod::NoAuth)),
            ),
            AuthResult::Deny => (
                HandshakeView::Replying {
                    result: Err(Error::ProtocolError(ProtocolError::NoAcceptableAuthMethods)),
                },
                ActionView::Write(spec_server_choice(AuthMethod::NoAcceptableMethods)),
            ),
        }
    }

    /// What happens once the first four bytes of the request are read. A
    /// version other than 5 ends the handshake without a reply. The address
    /// type says what to read next; an unknown one is answered with
    /// `AddressTypeNotSupported`.
    pub open spec fn on_request_header(header: Seq<u8>) -> (HandshakeView, ActionView)
        recommends
            header.len() == 4,
    {
        let command = header[1];
        if header[0] != VERSION {
            (
                HandshakeView::Finished,
                ActionView::Done(Err(Error::ProtocolError(ProtocolError::RequestNotSocks5))),
            )
        } else {
            match spec_address_type(header[3]) {
                Some(AddressType::IPv4) => (
                    HandshakeView::Ipv4 { command },
                    ActionView::ReadExact(4),
                ),
                Some(AddressType::IPv6) => (
                    HandshakeView::Ipv6 { command },
                    ActionView::ReadExact(16),
                ),
                Some(AddressType::Domain) => (
                    HandshakeView::DomainLen { command },
                    ActionView::ReadExact(1),
                ),
                None => (
                    HandshakeView::Replying {
                        result: Err(Error::ProtocolError(ProtocolError::UnknownAddressType)),
                    },
                    ActionView::Write(spec_reply(Status::AddressTypeNotSupported)),
                ),
            }
        }
    }

    /// What happens once the request is read. Any command but CONNECT is
    /// answered with `CommandNotSupported`, and no connection is tried. A
    /// destination that cannot be connected to at all is answered like a
    /// connection that failed.
    pub open spec fn on_request(request: RequestView) -> (HandshakeView, ActionView) {
        if request.command != COMMAND_CONNECT {
            (
                HandshakeView::Replying {
                    result: Err(Error::ProtocolError(ProtocolError::CommandNotSupported)),
                },
                ActionView::Write(spec_reply(Status::CommandNotSupported)),
            )
        } else {
            match spec_connect_target(request.address, request.port) {
                Ok(target) => (HandshakeView::Connecting { request }, ActionView::Connect(target)),
                Err(failure) => Self::on_connect_failure(failure),
            }
        }
    }

    /// What happens when the upstream connection cannot be made: the reply
    /// carries the status that the failure is classified as, and the handshake
    /// ends with the failure.
    pub open spec fn on_connect_failure(failure: IoFailure) -> (HandshakeView, ActionView) {
        (
            HandshakeView::Replying { result: Err(Error::IoError(failure)) },
            ActionView::Write(spec_reply(spec_io_error_to_status(failure))),
        )
    }

    /// The transition of the handshake: the state after an event and the action
    /// that goes to the driver, or `None` for an event that is no answer to
    /// what the state waits for.
    ///
    /// The handshake runs in this order: the offered methods; with user name
    /// and password, the exchange of them; the verdict of the policy; the
    /// message that lets the client in; the request, read as header, address
    /// and port; the upstream connection; the reply. A failed read or write
    /// ends the handshake at once with that failure.
    pub open spec fn step(self, event: EventView) -> Option<(HandshakeView, ActionView)> {
        match (self, event) {
            (HandshakeView::Methods { n_auth }, EventView::Data(methods)) => if methods.len()
                == n_auth {
                Some(Self::on_methods(methods))
            } else {
                None
            },
            (HandshakeView::ChoosingPassword, EventView::Sent) => Some(
                (HandshakeView::AuthVersion, ActionView::ReadExact(1)),
            ),
            (HandshakeView::AuthVersion, EventView::Data(bytes)) => if bytes.len() == 1 {
                Some((HandshakeView::UsernameLen, ActionView::ReadExact(1)))
            } else {
                None
            },
            (HandshakeView::UsernameLen, EventView::Data(bytes)) => if bytes.len() == 1 {
                Some(
                    (
                        HandshakeView::Username { len: bytes[0] },
                        ActionView::ReadExact(bytes[0] as usize),
                    ),
                )
            } else {
                None
            },
            (HandshakeView::Username { len }, EventView::Data(bytes)) => if bytes.len() == len {
                Some((HandshakeView::PasswordLen { username: bytes }, ActionView::ReadExact(1)))
            } else {
                None
            },
            (HandshakeView::PasswordLen { username }, EventView::Data(bytes)) => if bytes.len()
                == 1 {
                Some(
                    (
                        HandshakeView::Password { username, len: bytes[0] },
                        ActionView::ReadExact(bytes[0] as usize),
                    ),
                )
            } else {
                None
            },
            (HandshakeView::Password { username, len }, EventView::Data(bytes)) => if bytes.len()
                == len {
                Some(
                    (
                        HandshakeView::JudgingPassword,
                        ActionView::Authenticate(
                            Some(CredentialsView { username, password: bytes }),
                        ),
                    ),
                )
            } else {
                None
            },
            (HandshakeView::JudgingPassword, EventView::Decided(verdict)) => Some(
                Self::on_password_verdict(verdict),
            ),
            (HandshakeView::JudgingNoAuth, EventView::Decided(verdict)) => Some(
                Self::on_no_auth_verdict(verdict),
            ),
            (HandshakeView::Admitting, EventView::Sent) => Some(
                (HandshakeView::RequestHeader, ActionView::ReadExact(4)),
            ),
            (HandshakeView::RequestHeader, EventView::Data(header)) => if header.len() == 4 {
                Some(Self::on_request_header(header))
            } else {
                None
            },
            (HandshakeView::Ipv4 { command }, EventView::Data(bytes)) => if bytes.len() == 4 {
                Some(
                    (
                        HandshakeView::Port { command, address: AddressView::IPv4(bytes) },
                        ActionView::ReadExact(2),
                    ),
                )
            } else {
                None
            },
            (HandshakeView::Ipv6 { command }, EventView::Data(bytes)) => if bytes.len() == 16 {
                Some(
                    (
                        HandshakeView::Port { command, address: AddressView::IPv6(bytes) },
                        ActionView::ReadExact(2),
                    ),
                )
            } else {
                None
            },
            (HandshakeView::DomainLen { command }, EventView::Data(bytes)) => if bytes.len()
                == 1 {
                Some(
                    (
                        HandshakeView::Domain { command, len: bytes[0] },
                        ActionView::ReadExact(bytes[0] as usize),
                    ),
                )
            } else {
                None
            },
            (HandshakeView::Domain { command, len }, EventView::Data(bytes)) => if bytes.len()
                == len {
                Some(
                    (
                        HandshakeView::Port { command, address: AddressView::Domain(bytes) },
                        ActionView::ReadExact(2),
                    ),
                )
            } else {
                None
            },
            (HandshakeView::Port { command, address }, EventView::Data(bytes)) => if bytes.len()
                == 2 {
                Some(Self::on_request(RequestView { command, address, port: spec_be16(bytes) }))
            } else {
                None
            },
            (HandshakeView::Connecting { request }, EventView::Connected) => Some(
                (
                    HandshakeView::Replying { result: Ok(request) },
                    ActionView::Write(spec_reply(Status::Granted)),
                ),
            ),
            (HandshakeView::Connecting { .. }, EventView::Failed(failure)) => Some(
                Self::on_connect_failure(failure),
            ),
            (HandshakeView::Replying { result }, EventView::Sent) => Some(
                (HandshakeView::Finished, ActionView::Done(result)),
            ),
            (HandshakeView::Finished, _) => None,
            (HandshakeView::JudgingPassword, _) => None,
            (HandshakeView::JudgingNoAuth, _) => None,
            (_, EventView::Failed(failure)) => Some(
                (HandshakeView::Finished, ActionView::Done(Err(Error::IoError(failure)))),
            ),
            _ => None,
        }
    }
}

/// Starts the handshake of a connection whose first two bytes were the version
/// 5 and `n_auth`. The first thing to read is the `n_auth` methods that the
/// client offers.
pub fn handshake(n_auth: u8) -> (start: (Handshake, Action))
    ensures
        start.0@ == (HandshakeView::Methods { n_auth }),
        start.1@ == ActionView::ReadExact(n_auth as usize),
{
    (Handshake::Methods { n_auth }, Action::ReadExact(n_auth as usize))
}

impl Handshake {
    /// Answers the methods that the client offers.
    fn on_methods(methods: &[u8]) -> (next: (Handshake, Action))
        ensures
            (next.0@, next.1@) == HandshakeView::on_methods(methods@),
    {
        match select_method(methods) {
            AuthMethod::UsernamePassword => (
                Handshake::ChoosingPassword,
                Action::Write(server_choice(AuthMethod::UsernamePassword)),
            ),
            AuthMethod::NoAuth => (Handshake::JudgingNoAuth, Action::Authenticate(None)),
            AuthMethod::NoAcceptableMethods => (
                Handshake::Replying {
                    result: Err(Error::ProtocolError(ProtocolError::NoAcceptableAuthMethods)),
                },
                Action::Write(server_choice(AuthMethod::NoAcceptableMethods)),
            ),
        }
    }

    /// Tells the client the verdict on its credentials.
    fn on_password_verdict(verdict: AuthResult) -> (next: (Handshake, Action))
        ensures
            (next.0@, next.1@) == HandshakeView::on_password_verdict(verdict),
    {
        match verdict {
            AuthResult::Accept => (
                Handshake::Admitting,
                Action::Write(auth_response(AuthStatus::Success)),
            ),
            AuthResult::Deny => (
                Handshake::Replying {
                    result: Err(Error::ProtocolError(ProtocolError::AuthenticationFailure)),
                },
                Action::Write(auth_response(AuthStatus::Failure)),
            ),
        }
    }

    /// Tells a client without credentials the verdict on it.
    fn on_no_auth_verdict(verdict: AuthResult) -> (next: (Handshake, Action))
        ensures
            (next.0@, next.1@) == HandshakeView::on_no_auth_verdict(verdict),
    {
        match verdict {
            AuthResult::Accept => (
                Handshake::Admitting,
                Action::Write(server_choice(AuthMethod::NoAuth)),
            ),
            AuthResult::Deny => (
                Handshake::Replying {
                    result: Err(Error::ProtocolError(ProtocolError::NoAcceptableAuthMethods)),
                },
                Action::Write(server_choice(AuthMethod::NoAcceptableMethods)),
            ),
        }
    }

    /// Reads the first four bytes of the request.
    fn on_request_header(header: &[u8]) -> (next: (Handshake, Action))
        requires
            header@.len() == 4,
        ensures
            (next.0@, next.1@) == HandshakeView::on_request_header(header@),
    {
        let command = header[1];
        if header[0] != VERSION {
            (
                Handshake::Finished,
                Action::Done(Err(Error::ProtocolError(ProtocolError::RequestNotSocks5))),
            )
        } else {
            match address_type(header[3]) {
                Some(AddressType::IPv4) => (Handshake::Ipv4 { command }, Action::ReadExact(4)),
                Some(AddressType::IPv6) => (Handshake::Ipv6 { command }, Action::ReadExact(16)),
                Some(AddressType::Domain) => (
                    Handshake::DomainLen { command },
                    Action::ReadExact(1),
                ),
                None => (
                    Handshake::Replying {
                        result: Err(Error::ProtocolError(ProtocolError::UnknownAddressType)),
                    },
                    Action::Write(reply(Status::AddressTypeNotSupported)),
                ),
            }
        }
    }

    /// Decides what to do with a request that has been read.
    fn on_request(request: Request) -> (next: (Handshake, Action))
        ensures
            (next.0@, next.1@) == HandshakeView::on_request(request@),
    {
        if request.command != COMMAND_CONNECT {
            (
                Handshake::Replying {
                    result: Err(Error::ProtocolError(ProtocolError::CommandNotSupported)),
                },
                Action::Write(reply(Status::CommandNotSupported)),
            )
        } else {
            match connect_target(&request.address, request.port) {
                Ok(target) => (Handshake::Connecting { request }, Action::Connect(target)),
                Err(failure) => Handshake::on_connect_failure(failure),
            }
        }
    }

    /// Tells the client that the upstream connection could not be made.
    fn on_connect_failure(failure: IoFailure) -> (next: (Handshake, Action))
        ensures
            (next.0@, next.1@) == HandshakeView::on_connect_failure(failure),
    {
        let status = io_error_to_status(&failure);
        (Handshake::Replying { result: Err(Error::IoError(failure)) }, Action::Write(reply(status)))
    }

    /// Takes the handshake one step further: consumes the report of the last
    /// action and hands out the next one. `None` means that the event was no
    /// answer to what the handshake was waiting for.
    pub fn step(self, event: Event) -> (next: Option<(Handshake, Action)>)
        ensures
            step_view(next) == self@.step(event@),
    {
        match (self, event) {
            (Handshake::Methods { n_auth }, Event::Data(methods)) => {
                if methods.len() == n_auth as usize {
                    Some(Handshake::on_methods(methods.as_slice()))
                } else {
                    None
                }
            },
            (Handshake::ChoosingPassword, Event::Sent) => Some(
                (Handshake::AuthVersion, Action::ReadExact(1)),
            ),
            (Handshake::AuthVersion, Event::Data(bytes)) => {
                if bytes.len() == 1 {
                    Some((Handshake::UsernameLen, Action::ReadExact(1)))
                } else {
                    None
                }
            },
            (Handshake::UsernameLen, Event::Data(bytes)) => {
                if bytes.len() == 1 {
                    let len = bytes[0];
                    Some((Handshake::Username { len }, Action::ReadExact(len as usize)))
                } else {
                    None
                }
            },
            (Handshake::Username { len }, Event::Data(bytes)) => {
                if bytes.len() == len as usize {
                    Some(
                        (
                            Handshake::PasswordLen { username: ByteBuf::from_vec(bytes) },
                            Action::ReadExact(1),
                        ),
                    )
                } else {
                    None
                }
            },
            (Handshake::PasswordLen { username }, Event::Data(bytes)) => {
                if bytes.len() == 1 {
                    let len = bytes[0];
                    Some((Handshake::Password { username, len }, Action::ReadExact(len as usize)))
                } else {
                    None
                }
            },
            (Handshake::Password { username, len }, Event::Data(bytes)) => {
                if bytes.len() == len as usize {
                    let credentials = Credentials { username, password: ByteBuf::from_vec(bytes) };
                    Some((Handshake::JudgingPassword, Action::Authenticate(Some(credentials))))
                } else {
                    None
                }
            },
            (Handshake::JudgingPassword, Event::Decided(verdict)) => Some(
                Handshake::on_password_verdict(verdict),
            ),
            (Handshake::JudgingNoAuth, Event::Decided(verdict)) => Some(
                Handshake::on_no_auth_verdict(verdict),
            ),
            (Handshake::Admitting, Event::Sent) => Some(
                (Handshake::RequestHeader, Action::ReadExact(4)),
            ),
            (Handshake::RequestHeader, Event::Data(header)) => {
                if header.len() == 4 {
                    Some(Handshake::on_request_header(header.as_slice()))
                } else {
                    None
                }
            },
            (Handshake::Ipv4 { command }, Event::Data(bytes)) => {
                match Address::decode_ipv4(bytes.as_slice()) {
                    Some(address) => Some(
                        (Handshake::Port { command, address }, Action::ReadExact(2)),
                    ),
                    None => None,
                }
            },
            (Handshake::Ipv6 { command }, Event::Data(bytes)) => {
                match Address::decode_ipv6(bytes.as_slice()) {
                    Some(address) => Some(
                        (Handshake::Port { command, address }, Action::ReadExact(2)),
                    ),
                    None => None,
                }
            },
            (Handshake::DomainLen { command }, Event::Data(bytes)) => {
                if bytes.len() == 1 {
                    let len = bytes[0];
                    Some((Handshake::Domain { command, len }, Action::ReadExact(len as usize)))
                } else {
                    None
                }
            },
            (Handshake::Domain { command, len }, Event::Data(bytes)) => {
                if bytes.len() == len as usize {
                    match Address::decode_domain(bytes, true) {
                        Some(address) => Some(
                            (Handshake::Port { command, address }, Action::ReadExact(2)),
                        ),
                        None => None,
                    }
                } else {
                    None
                }
            },
            (Handshake::Port { command, address }, Event::Data(bytes)) => {
                match be16(bytes.as_slice()) {
                    Some(port) => Some(Handshake::on_request(Request { command, address, port })),
                    None => None,
                }
            },
            (Handshake::Connecting { request }, Event::Connected) => Some(
                (Handshake::Replying { result: Ok(request) }, Action::Write(reply(Status::Granted))),
            ),
            (Handshake::Connecting { .. }, Event::Failed(failure)) => Some(
                Handshake::on_connect_failure(failure),
            ),
            (Handshake::Replying { result }, Event::Sent) => Some(
                (Handshake::Finished, Action::Done(result)),
            ),
            (Handshake::Finished, _) => None,
            (Handshake::JudgingPassword, _) => None,
            (Handshake::JudgingNoAuth, _) => None,
            (_, Event::Failed(failure)) => Some(
                (Handshake::Finished, Action::Done(Err(Error::IoError(failure)))),
            ),
            _ => None,
        }
    }
}

impl HandshakeView {
    /// The state after a run of events, or `None` if one of them was refused.
    pub open spec fn after(self, events: Seq<EventView>) -> Option<HandshakeView>
        decreases events.len(),
    {
        if events.len() == 0 {
            Some(self)
        } else {
            match self.after(events.drop_last()) {
                Some(state) => match state.step(events.last()) {
                    Some((next, _)) => Some(next),
                    None => None,
                },
                None => None,
            }
        }
    }

    /// The states in which the client has been let in: from the message that
    /// says so up to a reply that grants the request.
    pub open spec fn admitted(self) -> bool {
        match self {
            HandshakeView::Admitting => true,
            HandshakeView::RequestHeader => true,
            HandshakeView::Ipv4 { .. } => true,
            HandshakeView::Ipv6 { .. } => true,
            HandshakeView::DomainLen { .. } => true,
            HandshakeView::Domain { .. } => true,
            HandshakeView::Port { .. } => true,
            HandshakeView::Connecting { .. } => true,
            HandshakeView::Replying { result } => result is Ok,
            _ => false,
        }
    }
}

/// An event is taken exactly when it answers what the state waits for.
pub proof fn law_step_takes_answers(state: HandshakeView, event: EventView)
    ensures
        state.step(event) is Some <==> answers(state.awaiting(), event),
{
}

/// The action that a step hands out is the one whose report the next state
/// waits for, so that a driver which performs each action and reports how it
/// ended is never refused. After `Done` the handshake waits for nothing.
pub proof fn law_next_state_awaits_action(state: HandshakeView, event: EventView)
    requires
        state.step(event) is Some,
    ensures
        state.step(event) matches Some((next, action)) && next.awaiting() == action.awaits() && (
        action is Done <==> next is Finished),
{
}

/// Whatever else a client offers and in whatever order, where it offers user
/// name and password, that method is the one picked, and the server's answer
/// to the offer says so.
pub proof fn law_prefers_username_password(n_auth: u8, methods: Seq<u8>)
    requires
        methods.len() == n_auth,
        methods.contains(0x02u8),
    ensures
        spec_select_method(methods) == AuthMethod::UsernamePassword,
        (HandshakeView::Methods { n_auth }).step(EventView::Data(methods)) == Some(
            (HandshakeView::ChoosingPassword, ActionView::Write(seq![0x05u8, 0x02u8])),
        ),
{
    assert(spec_server_choice(AuthMethod::UsernamePassword) =~= seq![0x05u8, 0x02u8]);
}

/// A client that offers neither method is told `05 FF`, and the handshake ends
/// with `NoAcceptableAuthMethods` when that is out.
pub proof fn law_no_acceptable_method(n_auth: u8, methods: Seq<u8>)
    requires
        methods.len() == n_auth,
        !methods.contains(0x00u8),
        !methods.contains(0x02u8),
    ensures
        ({
            let start = HandshakeView::Methods { n_auth };
            &&& start.step(EventView::Data(methods)) matches Some((s1, a1))
            &&& a1 == ActionView::Write(seq![0x05u8, 0xffu8])
            &&& s1.step(EventView::Sent) == Some(
                (
                    HandshakeView::Finished,
                    ActionView::Done(
                        Err(Error::ProtocolError(ProtocolError::NoAcceptableAuthMethods)),
                    ),
                ),
            )
        }),
{
    assert(spec_server_choice(AuthMethod::NoAcceptableMethods) =~= seq![0x05u8, 0xffu8]);
}

/// The user name and password exchange: whatever the version byte, the two
/// strings reach the policy as they were sent.
pub proof fn law_credentials_reach_policy(version: u8, username: Seq<u8>, password: Seq<u8>)
    requires
        username.len() <= 255,
        password.len() <= 255,
    ensures
        ({
            &&& (HandshakeView::ChoosingPassword).step(EventView::Sent) matches Some((s1, a1))
            &&& a1 == ActionView::ReadExact(1)
            &&& s1.step(EventView::Data(seq![version])) matches Some((s2, a2))
            &&& a2 == ActionView::ReadExact(1)
            &&& s2.step(EventView::Data(seq![username.len() as u8])) matches Some((s3, a3))
            &&& a3 == ActionView::ReadExact(username.len() as usize)
            &&& s3.step(EventView::Data(username)) matches Some((s4, a4))
            &&& a4 == ActionView::ReadExact(1)
            &&& s4.step(EventView::Data(seq![password.len() as u8])) matches Some((s5, a5))
            &&& a5 == ActionView::ReadExact(password.len() as usize)
            &&& s5.step(EventView::Data(password)) matches Some((s6, a6))
            &&& a6 == ActionView::Authenticate(Some(CredentialsView { username, password }))
        }),
{
}

/// A client whose credentials are denied is told `01 FF`, and the handshake
/// ends with `AuthenticationFailure` when that is out: no request is read.
pub proof fn law_denied_credentials_end_handshake()
    ensures
        ({
            let judging = HandshakeView::JudgingPassword;
            &&& judging.step(EventView::Decided(AuthResult::Deny)) matches Some((s1, a1))
            &&& a1 == ActionView::Write(seq![0x01u8, 0xffu8])
            &&& s1.step(EventView::Sent) == Some(
                (
                    HandshakeView::Finished,
                    ActionView::Done(
                        Err(Error::ProtocolError(ProtocolError::AuthenticationFailure)),
                    ),
                ),
            )
        }),
{
    assert(spec_auth_response(AuthStatus::Failure) =~= seq![0x01u8, 0xffu8]);
}

/// A state in which the client has been let in is only reached through a
/// verdict of the policy that accepts it.
pub proof fn law_admission_needs_acceptance(start: HandshakeView, events: Seq<EventView>)
    requires
        !start.admitted(),
        start.after(events) matches Some(state) && state.admitted(),
    ensures
        events.contains(EventView::Decided(AuthResult::Accept)),
    decreases events.len(),
{
    if events.len() > 0 {
        let before = start.after(events.drop_last())->0;
        if before.admitted() {
            law_admission_needs_acceptance(start, events.drop_last());
            let i = choose|i: int|
                0 <= i < events.drop_last().len() && events.drop_last()[i] == EventView::Decided(
                    AuthResult::Accept,
                );
            assert(events[i] == EventView::Decided(AuthResult::Accept));
        } else {
            assert(events[events.len() - 1] == EventView::Decided(AuthResult::Accept));
        }
    }
}

/// Authentication gates the upstream connection: from the start of a
/// handshake, a connection is only ever asked for after the policy has
/// accepted the client.
pub proof fn law_connection_needs_acceptance(
    n_auth: u8,
    events: Seq<EventView>,
    event: EventView,
)
    requires
        (HandshakeView::Methods { n_auth }).after(events) matches Some(state) && state.step(
            event,
        ) matches Some((_, action)) && action is Connect,
    ensures
        events.contains(EventView::Decided(AuthResult::Accept)),
{
    law_admission_needs_acceptance(HandshakeView::Methods { n_auth }, events);
}

/// The handshake only ends well after the upstream connection was made: the
/// reply that grants the request is the answer to the `Connected` event.
pub proof fn law_success_needs_connection(
    n_auth: u8,
    events: Seq<EventView>,
    event: EventView,
)
    requires
        (HandshakeView::Methods { n_auth }).after(events) matches Some(state) && state.step(
            event,
        ) matches Some((_, ActionView::Done(Ok(_)))),
    ensures
        events.len() > 0 && events.last() == EventView::Connected,
        events.contains(EventView::Decided(AuthResult::Accept)),
{
    law_admission_needs_acceptance(HandshakeView::Methods { n_auth }, events);
}

/// A request travels the wire as version, command, a reserved byte, the
/// encoded address and the port. Read back piece by piece as the handshake
/// asks for them, a CONNECT request for an IPv4 or IPv6 address, or for a
/// domain name that fits the length byte, gives the address and the port that
/// were encoded: the connection is asked for them, and they are what the
/// handshake ends with once the connection is made and the reply is out.
pub proof fn law_request_round_trip(request: RequestView)
    requires
        request.command == COMMAND_CONNECT,
        request.address.encodable(),
    ensures
        ({
            let header = seq![VERSION, request.command, 0u8, request.address.atyp()];
            let port = spec_be16_bytes(request.port);
            let (s1, a1) = HandshakeView::on_request_header(header);
            let (s2, a2) = match request.address {
                AddressView::Domain(name) => {
                    let (s, a) = s1.step(EventView::Data(seq![name.len() as u8]))->0;
                    s.step(EventView::Data(name))->0
                },
                AddressView::IPv4(bytes) => s1.step(EventView::Data(bytes))->0,
                AddressView::IPv6(bytes) => s1.step(EventView::Data(bytes))->0,
            };
            &&& a2 == ActionView::ReadExact(2)
            &&& s2.step(EventView::Data(port)) == Some(
                HandshakeView::on_request(request),
            )
            &&& HandshakeView::on_request(request).0 is Connecting ==> (
            HandshakeView::on_request(request).0.step(EventView::Connected) matches Some((s4, a4))
                && a4 == ActionView::Write(spec_reply(Status::Granted)) && s4.step(
                EventView::Sent,
            ) == Some((HandshakeView::Finished, ActionView::Done(Ok(request)))))
        }),
{
    crate::bytes::law_be16_round_trip(request.port);
}

/// A literal address is connected to as it was sent: the four or sixteen bytes
/// and the port of the request are those of the connection that is asked for.
pub proof fn law_literal_address_is_connected_to(request: RequestView)
    requires
        request.command == COMMAND_CONNECT,
        request.address.wf(),
    ensures
        request.address matches AddressView::IPv4(bytes) ==> HandshakeView::on_request(request)
            == (
            HandshakeView::Connecting { request },
            ActionView::Connect(TargetView::V4(bytes, request.port)),
        ),
        request.address matches AddressView::IPv6(bytes) ==> HandshakeView::on_request(request)
            == (
            HandshakeView::Connecting { request },
            ActionView::Connect(TargetView::V6(bytes, request.port)),
        ),
{
}

/// A domain name of length zero is no malformed request. It is read as the
/// empty name, and the connection is asked for under that name. When the
/// connection fails, the client gets the status that the failure is classified
/// as, and the handshake ends with that failure, not with a protocol error.
pub proof fn law_empty_domain_is_connected_to(command: u8, port: Seq<u8>, cause: IoFailure)
    requires
        command == COMMAND_CONNECT,
        port.len() == 2,
    ensures
        ({
            let header = seq![VERSION, command, 0u8, 0x03u8];
            let request = RequestView {
                command,
                address: AddressView::Domain(Seq::<u8>::empty()),
                port: spec_be16(port),
            };
            let (s1, a1) = HandshakeView::on_request_header(header);
            &&& a1 == ActionView::ReadExact(1)
            &&& s1.step(EventView::Data(seq![0u8])) matches Some((s2, a2))
            &&& a2 == ActionView::ReadExact(0)
            &&& s2.step(EventView::Data(Seq::<u8>::empty())) matches Some((s3, a3))
            &&& a3 == ActionView::ReadExact(2)
            &&& s3.step(EventView::Data(port)) matches Some((s4, a4))
            &&& s4 == (HandshakeView::Connecting { request })
            &&& a4 == ActionView::Connect(TargetView::Host(Seq::<char>::empty(), spec_be16(port)))
            &&& s4.step(EventView::Failed(cause)) matches Some((s5, a5))
            &&& a5 == ActionView::Write(spec_reply(spec_io_error_to_status(cause)))
            &&& s5.step(EventView::Sent) == Some(
                (HandshakeView::Finished, ActionView::Done(Err(Error::IoError(cause)))),
            )
        }),
{
    let empty = Seq::<u8>::empty();
    assert(vstd::utf8::valid_utf8(empty) && vstd::utf8::decode_utf8(empty) =~= Seq::<
        char,
    >::empty()) by {
        reveal_with_fuel(vstd::utf8::valid_utf8, 1);
        reveal_with_fuel(vstd::utf8::decode_utf8, 1);
    }
}

/// A connection that is refused is answered with the status 5, an unreachable
/// network with 3, an unreachable host with 4, and any other failure with 1.
pub proof fn law_failure_status(failure: IoFailure)
    ensures
        spec_reply(spec_io_error_to_status(failure)) == seq![
            0x05u8,
            match failure.spec_raw_os_error() {
                Some(111) => 0x05u8,
                Some(101) => 0x03u8,
                Some(113) => 0x04u8,
                _ => 0x01u8,
            },
            0u8,
            0x01u8,
            0u8,
            0u8,
            0u8,
            0u8,
            0u8,
            0u8,
        ],
{
}

/// Under the policy of a proxy without a credential store no user name and
/// password pass, whatever they are: the exchange ends with `01 FF`. A client
/// without credentials is let in with `05 00`.
pub proof fn law_default_policy(credentials: CredentialsView)
    ensures
        (HandshakeView::JudgingPassword).step(
            EventView::Decided(spec_do_authenticate(spec_auth_of(Some(credentials)))),
        ) == Some(
            (
                HandshakeView::Replying {
                    result: Err(Error::ProtocolError(ProtocolError::AuthenticationFailure)),
                },
                ActionView::Write(seq![0x01u8, 0xffu8]),
            ),
        ),
        (HandshakeView::JudgingNoAuth).step(
            EventView::Decided(spec_do_authenticate(spec_auth_of(None))),
        ) == Some((HandshakeView::Admitting, ActionView::Write(seq![0x05u8, 0x00u8]))),
{
    assert(spec_auth_response(AuthStatus::Failure) =~= seq![0x01u8, 0xffu8]);
    assert(spec_server_choice(AuthMethod::NoAuth) =~= seq![0x05u8, 0x00u8]);
}

impl HandshakeView {
    /// An upper bound on the number of events that the handshake still takes.
    pub open spec fn steps_left(self) -> nat {
        match self {
            HandshakeView::Methods { .. } => 18,
            HandshakeView::ChoosingPassword => 17,
            HandshakeView::AuthVersion => 16,
            HandshakeView::UsernameLen => 15,
            HandshakeView::Username { .. } => 14,
            HandshakeView::PasswordLen { .. } => 13,
            HandshakeView::Password { .. } => 12,
            HandshakeView::JudgingPassword => 11,
            HandshakeView::JudgingNoAuth => 11,
            HandshakeView::Admitting => 10,
            HandshakeView::RequestHeader => 9,
            HandshakeView::DomainLen { .. } => 8,
            HandshakeView::Ipv4 { .. } => 7,
            HandshakeView::Ipv6 { .. } => 7,
            HandshakeView::Domain { .. } => 7,
            HandshakeView::Port { .. } => 6,
            HandshakeView::Connecting { .. } => 2,
            HandshakeView::Replying { .. } => 1,
            HandshakeView::Finished => 0,
        }
    }
}

/// Every event that is taken brings the handshake nearer to its end, so that a
/// handshake is over after eighteen events at most.
pub proof fn law_every_step_is_progress(state: HandshakeView, event: EventView)
    requires
        state.step(event) is Some,
    ensures
        state.step(event) matches Some((next, _)) && next.steps_left() < state.steps_left(),
{
}

} // verus!
