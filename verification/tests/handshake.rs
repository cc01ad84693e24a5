//! Whole handshakes, run against a client script and a scripted upstream.

use socks_proxy::address::{Address, Request};
use socks_proxy::bytes::ByteBuf;
use socks_proxy::driver::{Action, Event};
use socks_proxy::error::{Error, IoFailure, ProtocolError};
use socks_proxy::session::Session;
use socks_proxy::socks5::{auth_of, do_authenticate, Auth, AuthResult};
use socks_proxy::upstream::Target;

/// What a run of a session left behind.
struct Transcript {
    /// Every write, in order.
    writes: Vec<Vec<u8>>,
    /// Every connection that was asked for.
    connects: Vec<Target>,
    /// How many bytes of the client's input were read.
    consumed: usize,
    /// How the handshake ended.
    result: Result<Request, Error>,
}

fn end_of_stream() -> IoFailure {
    IoFailure::Transport { raw_os_error: None }
}

/// Runs a session as a driver would: reads are served from `input`, writes
/// always succeed, the upstream answers with `upstream`, and `policy` judges
/// the credentials.
fn run(input: &[u8], upstream: Result<(), IoFailure>, policy: fn(Auth) -> AuthResult) -> Transcript {
    let mut writes = Vec::new();
    let mut connects = Vec::new();
    let mut consumed = 0;
    let (mut session, mut action) = Session::start();
    loop {
        let event = match action {
            Action::ReadExact(n) => {
                if input.len() - consumed < n {
                    consumed = input.len();
                    Event::Failed(end_of_stream())
                } else {
                    let bytes = input[consumed..consumed + n].to_vec();
                    consumed += n;
                    Event::Data(bytes)
                }
            }
            Action::ReadUntilNul => {
                let rest = &input[consumed..];
                let n = match rest.iter().position(|b| *b == 0) {
                    Some(i) => i + 1,
                    None => rest.len(),
                };
                let bytes = rest[..n].to_vec();
                consumed += n;
                Event::Data(bytes)
            }
            Action::Write(bytes) => {
                writes.push(bytes);
                Event::Sent
            }
            Action::Connect(target) => {
                connects.push(target);
                match upstream {
                    Ok(()) => Event::Connected,
                    Err(failure) => Event::Failed(failure),
                }
            }
            Action::Authenticate(credentials) => Event::Decided(policy(auth_of(&credentials))),
            Action::Done(result) => {
                return Transcript { writes, connects, consumed, result };
            }
        };
        let (next, then) = session.step(event).expect("the session refused the driver's report");
        session = next;
        action = then;
    }
}

fn accept_all(_: Auth) -> AuthResult {
    AuthResult::Accept
}

fn deny_all(_: Auth) -> AuthResult {
    AuthResult::Deny
}

fn accept_alice(auth: Auth) -> AuthResult {
    match auth {
        Auth::UsernamePassword { username: b"alice", password: b"secret" } => AuthResult::Accept,
        _ => AuthResult::Deny,
    }
}

fn accept_empty(auth: Auth) -> AuthResult {
    match auth {
        Auth::UsernamePassword { username: b"", password: b"" } => AuthResult::Accept,
        _ => AuthResult::Deny,
    }
}

fn domain(name: &[u8]) -> Address {
    Address::Domain(ByteBuf::from_vec(name.to_vec()))
}

const GRANTED_4: [u8; 8] = [0x00, 0x5A, 0, 0, 0, 0, 0, 0];
const REJECTED_4: [u8; 8] = [0x00, 0x5B, 0, 0, 0, 0, 0, 0];

fn reply_5(status: u8) -> Vec<u8> {
    vec![0x05, status, 0x00, 0x01, 0, 0, 0, 0, 0, 0]
}

#[test]
fn socks4_connects_to_literal_address_and_grants() {
    let t = run(&[0x04, 0x01, 0x00, 0x50, 0x7F, 0x00, 0x00, 0x01, 0x00], Ok(()), do_authenticate);
    assert_eq!(t.connects, vec![Target::V4([127, 0, 0, 1], 80)]);
    assert_eq!(t.writes, vec![GRANTED_4.to_vec()]);
    assert_eq!(t.consumed, 9);
    assert_eq!(
        t.result,
        Ok(Request { command: 1, address: Address::IPv4([127, 0, 0, 1]), port: 80 })
    );
}

#[test]
fn socks4_reads_and_drops_the_user_id() {
    let t = run(
        &[0x04, 0x01, 0x1F, 0x90, 10, 1, 2, 3, b'r', b'o', b'o', b't', 0x00, 0xAA],
        Ok(()),
        do_authenticate,
    );
    assert_eq!(t.connects, vec![Target::V4([10, 1, 2, 3], 8080)]);
    assert_eq!(t.writes, vec![GRANTED_4.to_vec()]);
    assert_eq!(t.consumed, 13);
    assert!(t.result.is_ok());
}

#[test]
fn socks4a_goes_by_the_host_name() {
    let mut input = vec![0x04, 0x01, 0x01, 0xBB, 0, 0, 0, 1, b'u', 0x00];
    input.extend_from_slice(b"example.com\0");
    let t = run(&input, Ok(()), do_authenticate);
    assert_eq!(t.connects, vec![Target::Host("example.com".to_string(), 443)]);
    assert_eq!(t.writes, vec![GRANTED_4.to_vec()]);
    assert_eq!(t.consumed, input.len());
    assert_eq!(t.result, Ok(Request { command: 1, address: domain(b"example.com"), port: 443 }));
}

#[test]
fn socks4a_rule_holds_for_the_highest_last_byte() {
    let mut input = vec![0x04, 0x01, 0x00, 0x50, 0, 0, 0, 0xFF, 0x00];
    input.extend_from_slice(b"a.example\0");
    let t = run(&input, Ok(()), do_authenticate);
    assert_eq!(t.connects, vec![Target::Host("a.example".to_string(), 80)]);
}

#[test]
fn socks4_zero_address_is_a_literal() {
    let mut input = vec![0x04, 0x01, 0x00, 0x50, 0, 0, 0, 0, 0x00];
    input.extend_from_slice(b"example.com\0");
    let t = run(&input, Ok(()), do_authenticate);
    assert_eq!(t.connects, vec![Target::V4([0, 0, 0, 0], 80)]);
    assert_eq!(t.consumed, 9);
    assert_eq!(t.result, Ok(Request { command: 1, address: Address::IPv4([0, 0, 0, 0]), port: 80 }));
}

#[test]
fn socks4_rejects_other_commands_without_connecting() {
    let t = run(&[0x04, 0x02, 0x00, 0x50, 127, 0, 0, 1, 0x00], Ok(()), do_authenticate);
    assert!(t.connects.is_empty());
    assert_eq!(t.writes, vec![REJECTED_4.to_vec()]);
    assert_eq!(t.result, Err(Error::ProtocolError(ProtocolError::CommandNotSupported)));
}

#[test]
fn socks4_reports_a_failed_connection() {
    let refused = IoFailure::Transport { raw_os_error: Some(111) };
    let t = run(&[0x04, 0x01, 0x00, 0x50, 127, 0, 0, 1, 0x00], Err(refused), do_authenticate);
    assert_eq!(t.connects, vec![Target::V4([127, 0, 0, 1], 80)]);
    assert_eq!(t.writes, vec![REJECTED_4.to_vec()]);
    assert_eq!(t.result, Err(Error::IoError(refused)));
}

#[test]
fn socks4a_host_name_that_is_not_text_fails_like_a_connection() {
    let input = [0x04, 0x01, 0x00, 0x50, 0, 0, 0, 1, 0x00, 0xFF, 0xFE, 0x00];
    let t = run(&input, Ok(()), do_authenticate);
    assert!(t.connects.is_empty());
    assert_eq!(t.writes, vec![REJECTED_4.to_vec()]);
    assert_eq!(t.result, Err(Error::IoError(IoFailure::DomainNotUtf8)));
}

#[test]
fn socks4_stream_that_ends_in_the_header_is_an_io_error() {
    let t = run(&[0x04, 0x01, 0x00, 0x50, 127], Ok(()), do_authenticate);
    assert!(t.connects.is_empty());
    assert!(t.writes.is_empty());
    assert_eq!(t.result, Err(Error::IoError(end_of_stream())));
}

#[test]
fn socks4a_host_name_cut_short_is_an_io_error() {
    let mut input = vec![0x04, 0x01, 0x00, 0x50, 0, 0, 0, 7, 0x00];
    input.extend_from_slice(b"example.com");
    let t = run(&input, Ok(()), do_authenticate);
    assert!(t.connects.is_empty());
    assert!(t.writes.is_empty());
    assert_eq!(t.consumed, input.len());
    assert_eq!(t.result, Err(Error::IoError(IoFailure::UnexpectedEof)));
}

#[test]
fn socks4a_host_name_that_never_starts_is_an_io_error() {
    let t = run(&[0x04, 0x01, 0x00, 0x50, 0, 0, 0, 7, b'u', 0x00], Ok(()), do_authenticate);
    assert!(t.connects.is_empty());
    assert!(t.writes.is_empty());
    assert_eq!(t.result, Err(Error::IoError(IoFailure::UnexpectedEof)));
}

#[test]
fn socks4_user_id_cut_short_is_an_io_error() {
    for input in [
        vec![0x04, 0x01, 0x00, 0x50, 127, 0, 0, 1],
        vec![0x04, 0x01, 0x00, 0x50, 127, 0, 0, 1, b'r', b'o', b'o', b't'],
        vec![0x04, 0x01, 0x00, 0x50, 0, 0, 0, 1, b'r'],
    ] {
        let t = run(&input, Ok(()), do_authenticate);
        assert!(t.connects.is_empty());
        assert!(t.writes.is_empty());
        assert_eq!(t.consumed, input.len());
        assert_eq!(t.result, Err(Error::IoError(IoFailure::UnexpectedEof)));
    }
}

#[test]
fn socks4a_empty_host_name_is_kept_as_it_is() {
    let input = [0x04, 0x01, 0x00, 0x50, 0, 0, 0, 1, 0x00, 0x00];
    let t = run(&input, Ok(()), do_authenticate);
    assert_eq!(t.connects, vec![Target::Host(String::new(), 80)]);
    assert_eq!(t.result, Ok(Request { command: 1, address: domain(b""), port: 80 }));
}

#[test]
fn socks5_picks_username_password_in_any_order() {
    for offer in [vec![0x00, 0x02], vec![0x02, 0x00], vec![0x01, 0x00, 0x03, 0x02]] {
        let mut input = vec![0x05, offer.len() as u8];
        input.extend_from_slice(&offer);
        let t = run(&input, Ok(()), accept_all);
        assert_eq!(t.writes[0], vec![0x05, 0x02]);
    }
}

#[test]
fn socks5_default_policy_turns_credentials_away() {
    let mut input = vec![0x05, 0x01, 0x02];
    input.extend_from_slice(&[0x01, 5]);
    input.extend_from_slice(b"alice");
    input.push(6);
    input.extend_from_slice(b"secret");
    let before_request = input.len();
    input.extend_from_slice(&[0x05, 0x01, 0x00, 0x01, 127, 0, 0, 1, 0x00, 0x50]);
    let t = run(&input, Ok(()), do_authenticate);
    assert_eq!(t.writes, vec![vec![0x05, 0x02], vec![0x01, 0xFF]]);
    assert_eq!(t.writes.last().unwrap()[1], 0xFF);
    assert_eq!(t.consumed, before_request);
    assert!(t.connects.is_empty());
    assert_eq!(t.result, Err(Error::ProtocolError(ProtocolError::AuthenticationFailure)));
}

#[test]
fn socks5_accepted_credentials_lead_to_the_request() {
    let mut input = vec![0x05, 0x02, 0x00, 0x02];
    input.extend_from_slice(&[0x01, 5]);
    input.extend_from_slice(b"alice");
    input.push(6);
    input.extend_from_slice(b"secret");
    input.extend_from_slice(&[0x05, 0x01, 0x00, 0x01, 192, 168, 0, 9, 0x01, 0xBB]);
    let t = run(&input, Ok(()), accept_alice);
    assert_eq!(t.writes, vec![vec![0x05, 0x02], vec![0x01, 0x00], reply_5(0x00)]);
    assert_eq!(t.connects, vec![Target::V4([192, 168, 0, 9], 443)]);
    assert_eq!(
        t.result,
        Ok(Request { command: 1, address: Address::IPv4([192, 168, 0, 9]), port: 443 })
    );
}

#[test]
fn socks5_wrong_password_is_denied() {
    let mut input = vec![0x05, 0x01, 0x02];
    input.extend_from_slice(&[0x01, 5]);
    input.extend_from_slice(b"alice");
    input.push(5);
    input.extend_from_slice(b"guess");
    let t = run(&input, Ok(()), accept_alice);
    assert_eq!(t.writes, vec![vec![0x05, 0x02], vec![0x01, 0xFF]]);
    assert_eq!(t.result, Err(Error::ProtocolError(ProtocolError::AuthenticationFailure)));
}

#[test]
fn socks5_empty_credentials_reach_the_policy() {
    let input = [0x05, 0x01, 0x02, 0x01, 0, 0];
    let t = run(&input, Ok(()), accept_empty);
    assert_eq!(t.writes, vec![vec![0x05, 0x02], vec![0x01, 0x00]]);
    assert_eq!(t.consumed, 6);
    assert_eq!(t.result, Err(Error::IoError(end_of_stream())));
}

#[test]
fn socks5_without_a_known_method_says_so() {
    let t = run(&[0x05, 0x02, 0x01, 0x03], Ok(()), accept_all);
    assert_eq!(t.writes, vec![vec![0x05, 0xFF]]);
    assert_eq!(t.result, Err(Error::ProtocolError(ProtocolError::NoAcceptableAuthMethods)));
}

#[test]
fn socks5_without_any_method_says_so() {
    let t = run(&[0x05, 0x00], Ok(()), accept_all);
    assert_eq!(t.writes, vec![vec![0x05, 0xFF]]);
    assert_eq!(t.result, Err(Error::ProtocolError(ProtocolError::NoAcceptableAuthMethods)));
}

#[test]
fn socks5_policy_can_deny_clients_without_credentials() {
    let t = run(&[0x05, 0x01, 0x00, 0x05, 0x01, 0x00, 0x01], Ok(()), deny_all);
    assert_eq!(t.writes, vec![vec![0x05, 0xFF]]);
    assert_eq!(t.consumed, 3);
    assert_eq!(t.result, Err(Error::ProtocolError(ProtocolError::NoAcceptableAuthMethods)));
}

#[test]
fn socks5_refused_connection_is_told_as_status_5() {
    let refused = IoFailure::Transport { raw_os_error: Some(111) };
    let input = [0x05, 0x01, 0x00, 0x05, 0x01, 0x00, 0x01, 0, 0, 0, 0, 0x00, 0x50];
    let t = run(&input, Err(refused), do_authenticate);
    assert_eq!(t.connects, vec![Target::V4([0, 0, 0, 0], 80)]);
    assert_eq!(
        t.writes,
        vec![vec![0x05, 0x00], vec![0x05, 0x05, 0x00, 0x01, 0x00, 0x00, 0x00, 0x00, 0x00, 0x00]]
    );
    assert_eq!(t.result, Err(Error::IoError(refused)));
}

#[test]
fn socks5_failures_are_classified() {
    let input = [0x05, 0x01, 0x00, 0x05, 0x01, 0x00, 0x01, 10, 0, 0, 1, 0x00, 0x50];
    for (code, status) in [
        (Some(101), 0x03),
        (Some(111), 0x05),
        (Some(113), 0x04),
        (Some(110), 0x01),
        (Some(0), 0x01),
        (None, 0x01),
    ] {
        let failure = IoFailure::Transport { raw_os_error: code };
        let t = run(&input, Err(failure), do_authenticate);
        assert_eq!(t.writes, vec![vec![0x05, 0x00], reply_5(status)]);
        assert_eq!(t.result, Err(Error::IoError(failure)));
    }
}

#[test]
fn socks5_connects_to_ipv6_address() {
    let ip: [u8; 16] = [0x20, 0x01, 0x0d, 0xb8, 0, 0, 0, 0, 0, 0, 0, 0, 0, 0, 0, 1];
    let mut input = vec![0x05, 0x01, 0x00, 0x05, 0x01, 0x00, 0x04];
    input.extend_from_slice(&ip);
    input.extend_from_slice(&[0x20, 0xFB]);
    let t = run(&input, Ok(()), do_authenticate);
    assert_eq!(t.connects, vec![Target::V6(ip, 8443)]);
    assert_eq!(t.writes, vec![vec![0x05, 0x00], reply_5(0x00)]);
    assert_eq!(t.result, Ok(Request { command: 1, address: Address::IPv6(ip), port: 8443 }));
}

#[test]
fn socks5_connects_to_domain() {
    let mut input = vec![0x05, 0x01, 0x00, 0x05, 0x01, 0x00, 0x03, 11];
    input.extend_from_slice(b"example.com");
    input.extend_from_slice(&[0x00, 0x50]);
    let t = run(&input, Ok(()), do_authenticate);
    assert_eq!(t.connects, vec![Target::Host("example.com".to_string(), 80)]);
    assert_eq!(t.writes, vec![vec![0x05, 0x00], reply_5(0x00)]);
    assert_eq!(t.consumed, input.len());
    assert_eq!(t.result, Ok(Request { command: 1, address: domain(b"example.com"), port: 80 }));
}

#[test]
fn socks5_empty_domain_is_read_and_fails_at_the_connection() {
    let input = [0x05, 0x01, 0x00, 0x05, 0x01, 0x00, 0x03, 0, 0x00, 0x50];
    let failure = IoFailure::Transport { raw_os_error: None };
    let t = run(&input, Err(failure), do_authenticate);
    assert_eq!(t.connects, vec![Target::Host(String::new(), 80)]);
    assert_eq!(t.writes, vec![vec![0x05, 0x00], reply_5(0x01)]);
    assert_eq!(t.result, Err(Error::IoError(failure)));
}

#[test]
fn socks5_domain_that_is_not_text_is_a_general_failure() {
    let input = [0x05, 0x01, 0x00, 0x05, 0x01, 0x00, 0x03, 2, 0xC3, 0x28, 0x00, 0x50];
    let t = run(&input, Ok(()), do_authenticate);
    assert!(t.connects.is_empty());
    assert_eq!(t.writes, vec![vec![0x05, 0x00], reply_5(0x01)]);
    assert_eq!(t.result, Err(Error::IoError(IoFailure::DomainNotUtf8)));
}

#[test]
fn socks5_unknown_address_type_is_told_as_status_8() {
    let input = [0x05, 0x01, 0x00, 0x05, 0x01, 0x00, 0x02, 1, 2, 3, 4, 0, 80];
    let t = run(&input, Ok(()), do_authenticate);
    assert!(t.connects.is_empty());
    assert_eq!(t.writes, vec![vec![0x05, 0x00], reply_5(0x08)]);
    assert_eq!(t.consumed, 7);
    assert_eq!(t.result, Err(Error::ProtocolError(ProtocolError::UnknownAddressType)));
}

#[test]
fn socks5_other_commands_are_told_as_status_7() {
    let input = [0x05, 0x01, 0x00, 0x05, 0x03, 0x00, 0x01, 127, 0, 0, 1, 0, 80];
    let t = run(&input, Ok(()), do_authenticate);
    assert!(t.connects.is_empty());
    assert_eq!(t.writes, vec![vec![0x05, 0x00], reply_5(0x07)]);
    assert_eq!(t.result, Err(Error::ProtocolError(ProtocolError::CommandNotSupported)));
}

#[test]
fn socks5_request_of_another_version_gets_no_reply() {
    let input = [0x05, 0x01, 0x00, 0x04, 0x01, 0x00, 0x01, 127, 0, 0, 1, 0, 80];
    let t = run(&input, Ok(()), do_authenticate);
    assert!(t.connects.is_empty());
    assert_eq!(t.writes, vec![vec![0x05, 0x00]]);
    assert_eq!(t.consumed, 7);
    assert_eq!(t.result, Err(Error::ProtocolError(ProtocolError::RequestNotSocks5)));
}

#[test]
fn socks5_stream_that_ends_in_the_request_is_an_io_error() {
    let input = [0x05, 0x01, 0x00, 0x05, 0x01, 0x00, 0x01, 127, 0];
    let t = run(&input, Ok(()), do_authenticate);
    assert!(t.connects.is_empty());
    assert_eq!(t.writes, vec![vec![0x05, 0x00]]);
    assert_eq!(t.result, Err(Error::IoError(end_of_stream())));
}

#[test]
fn other_versions_are_turned_away_in_silence() {
    for version in [0x00, 0x03, 0x06, 0x47] {
        let t = run(&[version, 0x01, 0x00, 0x50], Ok(()), do_authenticate);
        assert!(t.writes.is_empty());
        assert!(t.connects.is_empty());
        assert_eq!(t.consumed, 2);
        assert_eq!(t.result, Err(Error::ProtocolError(ProtocolError::UnsupportedVersion)));
    }
}

#[test]
fn connection_that_ends_at_once_is_an_io_error() {
    let t = run(&[0x05], Ok(()), do_authenticate);
    assert_eq!(t.result, Err(Error::IoError(end_of_stream())));
}

#[test]
fn failed_write_ends_the_handshake_with_that_failure() {
    let broken = IoFailure::Transport { raw_os_error: Some(32) };
    let (session, _) = Session::start();
    let (session, _) = session.step(Event::Data(vec![0x04, 0x01])).unwrap();
    let (session, _) = session.step(Event::Data(vec![0, 80, 127, 0, 0, 1])).unwrap();
    let (session, action) = session.step(Event::Data(vec![0])).unwrap();
    assert_eq!(action, Action::Connect(Target::V4([127, 0, 0, 1], 80)));
    let (session, action) = session.step(Event::Connected).unwrap();
    assert_eq!(action, Action::Write(GRANTED_4.to_vec()));
    let (session, action) = session.step(Event::Failed(broken)).unwrap();
    assert_eq!(action, Action::Done(Err(Error::IoError(broken))));
    assert_eq!(session.step(Event::Sent), None);
}

#[test]
fn reports_that_answer_nothing_are_refused() {
    let (session, action) = Session::start();
    assert_eq!(action, Action::ReadExact(2));
    assert_eq!(session.step(Event::Sent), None);
    let (session, _) = Session::start();
    assert_eq!(session.step(Event::Data(vec![0x05])), None);
    let (session, _) = Session::start();
    assert_eq!(session.step(Event::Connected), None);
    let (session, _) = Session::start();
    assert_eq!(session.step(Event::Decided(AuthResult::Accept)), None);
    let (session, _) = Session::start();
    let (session, action) = session.step(Event::Data(vec![0x05, 0x01])).unwrap();
    assert_eq!(action, Action::ReadExact(1));
    let (session, action) = session.step(Event::Data(vec![0x00])).unwrap();
    assert_eq!(action, Action::Authenticate(None));
    assert_eq!(session.step(Event::Failed(end_of_stream())), None);
}
