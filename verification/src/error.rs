//! What can end a connection early.

use vstd::prelude::*;

verus! {

/// A failed read, write or connect, reduced to what the proxy decides on.
///
/// The driver keeps the transport's own error for its log; the handshake only
/// ever asks for the operating system's error number.
#[derive(Clone, Copy, Debug, PartialEq, Eq)]
pub enum IoFailure {
    /// The transport reported an error, with the error number of the operating
    /// system where there is one.
    Transport { raw_os_error: Option<i32> },
    /// The requested host name is not UTF-8, so that no connection was tried.
    DomainNotUtf8,
    /// The stream ended inside a string, before the NUL byte that ends it.
    UnexpectedEof,
}

impl IoFailure {
    /// The error number of the operating system behind this failure, if any.
    pub open spec fn spec_raw_os_error(self) -> Option<i32> {
        match self {
            IoFailure::Transport { raw_os_error } => raw_os_error,
            IoFailure::DomainNotUtf8 => None,
            IoFailure::UnexpectedEof => None,
        }
    }

    /// The error number of the operating system behind this failure, if any.
    pub fn raw_os_error(&self) -> (code: Option<i32>)
        ensures
            code == self.spec_raw_os_error(),
    {
        match self {
            IoFailure::Transport { raw_os_error } => *raw_os_error,
            IoFailure::DomainNotUtf8 => None,
            IoFailure::UnexpectedEof => None,
        }
    }
}

/// A request that the proxy refuses, or an exchange that broke the protocol.
#[derive(Clone, Copy, Debug, PartialEq, Eq)]
pub enum ProtocolError {
    /// The first byte of the connection names neither SOCKS4 nor SOCKS5.
    UnsupportedVersion,
    /// The request asks for something else than CONNECT.
    CommandNotSupported,
    /// A SOCKS5 request that does not start with the version byte 5.
    RequestNotSocks5,
    /// A SOCKS5 request with an address type other than IPv4, IPv6 or domain.
    UnknownAddressType,
    /// The credentials were denied.
    AuthenticationFailure,
    /// The client offered no authentication method that the proxy accepts.
    NoAcceptableAuthMethods,
}

impl ProtocolError {
    /// The text that describes the error in a log.
    pub open spec fn spec_message(self) -> Seq<char> {
        match self {
            ProtocolError::UnsupportedVersion => "unsupported SOCKS version"@,
            ProtocolError::CommandNotSupported => "command not supported"@,
            ProtocolError::RequestNotSocks5 => "request is not SOCKS5"@,
            ProtocolError::UnknownAddressType => "unknown address type"@,
            ProtocolError::AuthenticationFailure => "authentication failure"@,
            ProtocolError::NoAcceptableAuthMethods => "no acceptable auth methods"@,
        }
    }

    /// The text that describes the error in a log.
    pub fn message(&self) -> (text: &'static str)
        ensures
            text@ == self.spec_message(),
    {
        match self {
            ProtocolError::UnsupportedVersion => "unsupported SOCKS version",
            ProtocolError::CommandNotSupported => "command not supported",
            ProtocolError::RequestNotSocks5 => "request is not SOCKS5",
            ProtocolError::UnknownAddressType => "unknown address type",
            ProtocolError::AuthenticationFailure => "authentication failure",
            ProtocolError::NoAcceptableAuthMethods => "no acceptable auth methods",
        }
    }
}

/// Why a connection ended without a relay, or why the relay broke off.
#[derive(Clone, Copy, Debug, PartialEq, Eq)]
pub enum Error {
    /// The transport failed.
    IoError(IoFailure),
    /// The client's input was malformed or refused.
    ProtocolError(ProtocolError),
}

} // verus!
