//! Destination addresses and their encodings on the wire.

use vstd::prelude::*;
use crate::bytes::ByteBuf;

verus! {

/// Address type byte of an IPv4 address in a SOCKS5 message.
pub const ATYP_IPV4: u8 = 0x01;

/// Address type byte of a domain name in a SOCKS5 message.
pub const ATYP_DOMAIN: u8 = 0x03;

/// Address type byte of an IPv6 address in a SOCKS5 message.
pub const ATYP_IPV6: u8 = 0x04;

/// The only command that the proxy serves.
pub const COMMAND_CONNECT: u8 = 0x01;

/// Where a client wants to be connected to.
///
/// A domain name holds the bytes as they came: whether they are text is only
/// looked at when a connection is made.
#[derive(Debug, PartialEq, Eq)]
pub enum Address {
    IPv4([u8; 4]),
    IPv6([u8; 16]),
    Domain(ByteBuf),
}

/// An address as a mathematical value: the variant and its bytes.
pub enum AddressView {
    IPv4(Seq<u8>),
    IPv6(Seq<u8>),
    Domain(Seq<u8>),
}

impl AddressView {
    /// The byte counts that the two numeric variants have by their type.
    pub open spec fn wf(self) -> bool {
        match self {
            AddressView::IPv4(a) => a.len() == 4,
            AddressView::IPv6(a) => a.len() == 16,
            AddressView::Domain(_) => true,
        }
    }

    /// The address type byte that announces this address in a SOCKS5 message.
    pub open spec fn atyp(self) -> u8 {
        match self {
            AddressView::IPv4(_) => ATYP_IPV4,
            AddressView::IPv6(_) => ATYP_IPV6,
            AddressView::Domain(_) => ATYP_DOMAIN,
        }
    }

    /// Whether the address has a SOCKS5 encoding: a domain name must fit its
    /// one-byte length prefix.
    pub open spec fn encodable(self) -> bool {
        self.wf() && (self matches AddressView::Domain(d) ==> d.len() <= 255)
    }

    /// What follows the address type byte: the raw bytes of a numeric address,
    /// or the length of a domain name in one byte and then the name.
    pub open spec fn payload(self) -> Seq<u8> {
        match self {
            AddressView::IPv4(a) => a,
            AddressView::IPv6(a) => a,
            AddressView::Domain(d) => seq![d.len() as u8] + d,
        }
    }

    /// The SOCKS5 encoding: the address type byte, then the payload.
    pub open spec fn encoding(self) -> Seq<u8> {
        seq![self.atyp()] + self.payload()
    }
}

impl View for Address {
    type V = AddressView;

    open spec fn view(&self) -> AddressView {
        match self {
            Address::IPv4(a) => AddressView::IPv4(a@),
            Address::IPv6(a) => AddressView::IPv6(a@),
            Address::Domain(d) => AddressView::Domain(d@),
        }
    }
}

/// How the address of a SOCKS5 request is laid out, by its address type byte.
#[derive(Clone, Copy, Debug, PartialEq, Eq)]
pub enum AddressType {
    IPv4,
    Domain,
    IPv6,
}

/// The layout that an address type byte stands for, if it stands for one.
pub open spec fn spec_address_type(atyp: u8) -> Option<AddressType> {
    if atyp == ATYP_IPV4 {
        Some(AddressType::IPv4)
    } else if atyp == ATYP_DOMAIN {
        Some(AddressType::Domain)
    } else if atyp == ATYP_IPV6 {
        Some(AddressType::IPv6)
    } else {
        None
    }
}

/// Reads an address type byte.
pub fn address_type(atyp: u8) -> (kind: Option<AddressType>)
    ensures
        kind == spec_address_type(atyp),
{
    if atyp == ATYP_IPV4 {
        Some(AddressType::IPv4)
    } else if atyp == ATYP_DOMAIN {
        Some(AddressType::Domain)
    } else if atyp == ATYP_IPV6 {
        Some(AddressType::IPv6)
    } else {
        None
    }
}

/// The bytes of a NUL-terminated string without the terminator, which is the
/// last byte of what was read. What does not end in NUL is a string that the
/// stream cut short, and has no such bytes.
pub open spec fn spec_strip_terminator(line: Seq<u8>) -> Option<Seq<u8>> {
    if line.len() > 0 && line.last() == 0u8 {
        Some(line.drop_last())
    } else {
        None
    }
}

/// Takes the terminator off a string that was read up to its NUL byte, if the
/// NUL byte is there.
pub fn strip_terminator(line: Vec<u8>) -> (bytes: Option<Vec<u8>>)
    ensures
        bytes is Some <==> spec_strip_terminator(line@) is Some,
        bytes matches Some(b) ==> Some(b@) == spec_strip_terminator(line@),
{
    let mut line = line;
    match line.pop() {
        Some(0) => Some(line),
        _ => None,
    }
}

/// The domain name in the bytes read off the wire: with `length_prefixed` the
/// bytes that followed the length byte, which are the name as it is; without, a
/// string read up to its NUL terminator, which is dropped, and no name at all
/// where the terminator is missing.
pub open spec fn spec_decode_domain(bytes: Seq<u8>, length_prefixed: bool) -> Option<AddressView> {
    if length_prefixed {
        Some(AddressView::Domain(bytes))
    } else {
        match spec_strip_terminator(bytes) {
            Some(name) => Some(AddressView::Domain(name)),
            None => None,
        }
    }
}

impl Address {
    /// An IPv4 address from the four bytes read off the wire.
    pub fn decode_ipv4(bytes: &[u8]) -> (address: Option<Address>)
        ensures
            address is Some <==> bytes@.len() == 4,
            address matches Some(a) ==> a@ == AddressView::IPv4(bytes@),
    {
        if bytes.len() == 4 {
            let a = [bytes[0], bytes[1], bytes[2], bytes[3]];
            assert(a@ =~= bytes@);
            Some(Address::IPv4(a))
        } else {
            None
        }
    }

    /// An IPv6 address from the sixteen bytes read off the wire.
    pub fn decode_ipv6(bytes: &[u8]) -> (address: Option<Address>)
        ensures
            address is Some <==> bytes@.len() == 16,
            address matches Some(a) ==> a@ == AddressView::IPv6(bytes@),
    {
        if bytes.len() == 16 {
            let a = [
                bytes[0], bytes[1], bytes[2], bytes[3], bytes[4], bytes[5], bytes[6], bytes[7],
                bytes[8], bytes[9], bytes[10], bytes[11], bytes[12], bytes[13], bytes[14],
                bytes[15],
            ];
            assert(a@ =~= bytes@);
            Some(Address::IPv6(a))
        } else {
            None
        }
    }

    /// A domain name from the bytes read off the wire, length-prefixed or
    /// NUL-terminated. A terminated string that the stream cut short gives
    /// `None`.
    pub fn decode_domain(bytes: Vec<u8>, length_prefixed: bool) -> (address: Option<Address>)
        ensures
            address is Some <==> spec_decode_domain(bytes@, length_prefixed) is Some,
            address matches Some(a) ==> Some(a@) == spec_decode_domain(bytes@, length_prefixed),
    {
        if length_prefixed {
            Some(Address::Domain(ByteBuf::from_vec(bytes)))
        } else {
            match strip_terminator(bytes) {
                Some(name) => Some(Address::Domain(ByteBuf::from_vec(name))),
                None => None,
            }
        }
    }

    /// The SOCKS5 encoding of the address, unless it is a domain name too long
    /// for the length byte.
    pub fn encode(&self) -> (wire: Option<Vec<u8>>)
        ensures
            wire is Some <==> self@.encodable(),
            wire matches Some(w) ==> w@ == self@.encoding(),
    {
        let mut wire: Vec<u8> = Vec::new();
        match self {
            Address::IPv4(a) => {
                wire.push(ATYP_IPV4);
                wire.extend_from_slice(a.as_slice());
            },
            Address::IPv6(a) => {
                wire.push(ATYP_IPV6);
                wire.extend_from_slice(a.as_slice());
            },
            Address::Domain(d) => {
                let name = d.as_slice();
                if name.len() > 255 {
                    return None;
                }
                wire.push(ATYP_DOMAIN);
                wire.push(name.len() as u8);
                wire.extend_from_slice(name);
            },
        }
        assert(wire@ =~= self@.encoding());
        Some(wire)
    }
}

/// What a client asks for: a command, and the address and port it applies to.
#[derive(Debug, PartialEq, Eq)]
pub struct Request {
    pub command: u8,
    pub address: Address,
    pub port: u16,
}

/// A request as a mathematical value.
pub struct RequestView {
    pub command: u8,
    pub address: AddressView,
    pub port: u16,
}

impl View for Request {
    type V = RequestView;

    open spec fn view(&self) -> RequestView {
        RequestView { command: self.command, address: self.address@, port: self.port }
    }
}

} // verus!
