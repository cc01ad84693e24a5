//! Where the upstream connection of a request goes.

use vstd::prelude::*;
use vstd::string::StringSliceAdditionalSpecFns;
use vstd::utf8::{decode_utf8, encode_utf8, valid_utf8};
use crate::address::{Address, AddressView};
use crate::error::IoFailure;

verus! {

#[verifier::external_type_specification]
#[verifier::external_body]
pub struct ExUtf8Error(core::str::Utf8Error);

/// `core::str::from_utf8` succeeds exactly on well-formed UTF-8, and the text
/// that it returns is made of the very bytes that it was given.
pub assume_specification[ core::str::from_utf8 ](v: &[u8]) -> (r: Result<
    &str,
    core::str::Utf8Error,
>)
    ensures
        r is Ok <==> valid_utf8(v@),
        r matches Ok(s) ==> s.spec_bytes() == v@,
;

/// The endpoint of one connection attempt: a literal address, or a host name
/// for the platform to resolve, each with the port.
#[derive(Debug, PartialEq, Eq)]
pub enum Target {
    V4([u8; 4], u16),
    V6([u8; 16], u16),
    Host(String, u16),
}

/// An endpoint as a mathematical value.
pub enum TargetView {
    V4(Seq<u8>, u16),
    V6(Seq<u8>, u16),
    Host(Seq<char>, u16),
}

impl View for Target {
    type V = TargetView;

    open spec fn view(&self) -> TargetView {
        match self {
            Target::V4(a, port) => TargetView::V4(a@, *port),
            Target::V6(a, port) => TargetView::V6(a@, *port),
            Target::Host(name, port) => TargetView::Host(name@, *port),
        }
    }
}

/// The endpoint that a requested address and port stand for. A literal address
/// is taken as it is. A domain name must be UTF-8 text to be resolved at all;
/// one that is not fails like a connection that could not be made.
pub open spec fn spec_connect_target(address: AddressView, port: u16) -> Result<
    TargetView,
    IoFailure,
> {
    match address {
        AddressView::IPv4(a) => Ok(TargetView::V4(a, port)),
        AddressView::IPv6(a) => Ok(TargetView::V6(a, port)),
        AddressView::Domain(d) => if valid_utf8(d) {
            Ok(TargetView::Host(decode_utf8(d), port))
        } else {
            Err(IoFailure::DomainNotUtf8)
        },
    }
}

/// The outcome of working out an endpoint, as a mathematical value.
pub open spec fn target_view(target: Result<Target, IoFailure>) -> Result<TargetView, IoFailure> {
    match target {
        Ok(t) => Ok(t@),
        Err(e) => Err(e),
    }
}

/// Works out the endpoint to connect to for a requested address and port.
pub fn connect_target(address: &Address, port: u16) -> (target: Result<Target, IoFailure>)
    ensures
        target_view(target) == spec_connect_target(address@, port),
{
    match address {
        Address::IPv4(a) => Ok(Target::V4(*a, port)),
        Address::IPv6(a) => Ok(Target::V6(*a, port)),
        Address::Domain(d) => match core::str::from_utf8(d.as_slice()) {
            Ok(name) => {
                proof {
                    vstd::utf8::encode_utf8_decode_utf8(name@);
                }
                Ok(Target::Host(name.to_owned(), port))
            },
            Err(_) => Err(IoFailure::DomainNotUtf8),
        },
    }
}

/// A host name among the endpoints is the text that the domain's bytes spell.
pub proof fn law_host_name_spells_domain(domain: Seq<u8>, port: u16)
    requires
        valid_utf8(domain),
    ensures
        spec_connect_target(AddressView::Domain(domain), port) matches Ok(
            TargetView::Host(name, p),
        ) && encode_utf8(name) == domain && p == port,
{
    vstd::utf8::decode_utf8_encode_utf8(domain);
}

} // verus!
