use socks5_rs::error::SocksError;
use socks5_rs::protocol::Endpoint;
use socks5_rs::protocol::SocksAddr;
use socks5_rs::server::check_credentials;
use socks5_rs::server::dial_failure_reply;
use socks5_rs::server::handle_client;
use socks5_rs::server::handle_connect;
use socks5_rs::server::ConnectEvent;
use socks5_rs::server::DialFailure;
use socks5_rs::server::Server;
use socks5_rs::server::ServerAction;
use socks5_rs::server::ServerOptions;
use socks5_rs::server::ServerState;
use socks5_rs::server::ServerStep;

fn logins() -> Option<Vec<(String, String)>> {
    Some(vec![
        ("alice".to_string(), "wonder".to_string()),
        ("u".to_string(), "p".to_string()),
    ])
}

fn refused(reply: Vec<u8>, consumed: usize, e: SocksError) -> ServerStep {
    ServerStep { state: ServerState::Closed, reply, consumed, action: ServerAction::Abort(e) }
}

fn asks(state: ServerState, action: ServerAction) -> ServerStep {
    ServerStep { state, reply: vec![], consumed: 0, action }
}

#[test]
fn default_options_listen_locally_without_login() {
    let options = ServerOptions::default();
    assert_eq!(options.bind_addr, "127.0.0.1:1080");
    assert!(!options.auth_required);
    assert_eq!(options.credentials, None);
}

#[test]
fn new_server_asks_for_no_login() {
    let server = Server::new("0.0.0.0:9050".to_string());
    assert_eq!(server.bind_addr(), "0.0.0.0:9050");
    assert_eq!(
        server.handle_client(ServerState::AwaitingGreeting, &[5, 1, 0]),
        ServerStep {
            state: ServerState::AwaitingRequest,
            reply: vec![5, 0],
            consumed: 3,
            action: ServerAction::Continue,
        }
    );
}

#[test]
fn server_from_options_keeps_them() {
    let server = Server::from_options(ServerOptions {
        bind_addr: "[::1]:1080".to_string(),
        auth_required: true,
        credentials: logins(),
    });
    assert_eq!(server.bind_addr(), "[::1]:1080");
    assert_eq!(
        server.handle_client(ServerState::AwaitingGreeting, &[5, 2, 0, 2]).reply,
        vec![5, 2]
    );
    assert_eq!(
        server.handle_client(ServerState::AwaitingAuthChoice, &[1, 1, b'u', 1, b'p']).reply,
        vec![1, 0]
    );
    assert_eq!(
        server.handle_client(ServerState::AwaitingAuthChoice, &[1, 1, b'u', 1, b'q']).reply,
        vec![1, 1]
    );
}

#[test]
fn open_server_echoes_no_auth_choice() {
    assert_eq!(
        handle_client(ServerState::AwaitingGreeting, false, &None, &[5, 1, 0]),
        ServerStep {
            state: ServerState::AwaitingRequest,
            reply: vec![0x05, 0x00],
            consumed: 3,
            action: ServerAction::Continue,
        }
    );
}

#[test]
fn open_server_prefers_no_auth_even_if_login_is_offered() {
    assert_eq!(
        handle_client(ServerState::AwaitingGreeting, false, &logins(), &[5, 2, 2, 0]),
        ServerStep {
            state: ServerState::AwaitingRequest,
            reply: vec![5, 0],
            consumed: 4,
            action: ServerAction::Continue,
        }
    );
}

#[test]
fn open_server_turns_down_a_client_that_offers_only_login() {
    assert_eq!(
        handle_client(ServerState::AwaitingGreeting, false, &logins(), &[5, 1, 2]),
        refused(vec![5, 0xff], 3, SocksError::NoAcceptableAuthMethod)
    );
    assert_eq!(
        handle_client(ServerState::AwaitingGreeting, false, &None, &[5, 0]),
        refused(vec![5, 0xff], 2, SocksError::NoAcceptableAuthMethod)
    );
}

#[test]
fn guarded_server_chooses_login() {
    assert_eq!(
        handle_client(ServerState::AwaitingGreeting, true, &logins(), &[5, 2, 0, 2]),
        ServerStep {
            state: ServerState::AwaitingAuthChoice,
            reply: vec![5, 2],
            consumed: 4,
            action: ServerAction::Continue,
        }
    );
}

#[test]
fn guarded_server_turns_down_a_client_without_login() {
    assert_eq!(
        handle_client(ServerState::AwaitingGreeting, true, &logins(), &[5, 1, 0]),
        refused(vec![5, 0xff], 3, SocksError::NoAcceptableAuthMethod)
    );
}

#[test]
fn bad_greeting_ends_the_session_without_a_word() {
    assert_eq!(
        handle_client(ServerState::AwaitingGreeting, false, &None, &[4, 1, 0]),
        refused(vec![], 0, SocksError::ProtocolMismatch)
    );
}

#[test]
fn partial_greeting_asks_for_the_rest() {
    assert_eq!(
        handle_client(ServerState::AwaitingGreeting, false, &None, &[]),
        asks(ServerState::AwaitingGreeting, ServerAction::Read(1))
    );
    assert_eq!(
        handle_client(ServerState::AwaitingGreeting, false, &None, &[5, 4, 0]),
        asks(ServerState::AwaitingGreeting, ServerAction::Read(3))
    );
}

#[test]
fn listed_login_is_let_in() {
    assert_eq!(
        handle_client(ServerState::AwaitingAuthChoice, true, &logins(), &[1, 1, b'u', 1, b'p', 5]),
        ServerStep {
            state: ServerState::AwaitingRequest,
            reply: vec![1, 0],
            consumed: 5,
            action: ServerAction::Continue,
        }
    );
}

#[test]
fn wrong_password_is_turned_down() {
    let mut login = vec![1, 1, b'u', 5];
    login.extend_from_slice(b"wrong");
    assert_eq!(
        handle_client(ServerState::AwaitingAuthChoice, true, &logins(), &login),
        refused(vec![0x01, 0x01], 9, SocksError::AuthenticationFailed)
    );
}

#[test]
fn nobody_is_let_in_without_a_list() {
    assert_eq!(
        handle_client(ServerState::AwaitingAuthChoice, true, &None, &[1, 1, b'u', 1, b'p']),
        refused(vec![1, 1], 5, SocksError::AuthenticationFailed)
    );
    assert_eq!(
        handle_client(ServerState::AwaitingAuthChoice, true, &Some(vec![]), &[1, 0, 0]),
        refused(vec![1, 1], 3, SocksError::AuthenticationFailed)
    );
}

#[test]
fn malformed_login_ends_the_session_without_a_word() {
    assert_eq!(
        handle_client(ServerState::AwaitingAuthChoice, true, &logins(), &[5, 1, b'u', 1, b'p']),
        refused(vec![], 0, SocksError::ProtocolMismatch)
    );
    assert_eq!(
        handle_client(ServerState::AwaitingAuthChoice, true, &logins(), &[1, 1, 0xff, 1, b'p']),
        refused(vec![], 0, SocksError::InvalidEncoding)
    );
    assert_eq!(
        handle_client(ServerState::AwaitingAuthChoice, true, &logins(), &[1, 1, b'u']),
        asks(ServerState::AwaitingAuthChoice, ServerAction::Read(1))
    );
}

#[test]
fn credentials_match_exactly() {
    let list = logins();
    let check = |u: &str, p: &str| check_credentials(&list, &u.to_string(), &p.to_string());
    assert!(check("alice", "wonder"));
    assert!(check("u", "p"));
    assert!(!check("alice", "p"));
    assert!(!check("u", "wonder"));
    assert!(!check("U", "p"));
    assert!(!check("u", "p "));
    assert!(!check("", ""));
    assert!(!check_credentials(&None, &"u".to_string(), &"p".to_string()));
}

#[test]
fn connect_request_is_handed_on() {
    let mut request = vec![5, 1, 0, 3, 11];
    request.extend_from_slice(b"example.com");
    request.extend_from_slice(&[0, 80]);
    request.extend_from_slice(b"GET /");
    assert_eq!(
        handle_client(ServerState::AwaitingRequest, false, &None, &request),
        ServerStep {
            state: ServerState::Connecting,
            reply: vec![],
            consumed: 18,
            action: ServerAction::Connect(SocksAddr::Domain("example.com".to_string(), 80)),
        }
    );
}

#[test]
fn bind_is_not_supported() {
    assert_eq!(
        handle_client(ServerState::AwaitingRequest, false, &None, &[5, 2, 0, 1, 10, 0, 0, 1, 0, 80]),
        refused(vec![5, 7, 0, 1, 10, 0, 0, 1, 0, 80], 10, SocksError::CommandNotSupported)
    );
}

#[test]
fn udp_associate_is_not_supported() {
    let mut request = vec![5, 3, 0, 3, 4];
    request.extend_from_slice(b"host");
    request.extend_from_slice(&[0, 53]);
    let mut reply = vec![5, 7, 0, 3, 4];
    reply.extend_from_slice(b"host");
    reply.extend_from_slice(&[0, 53]);
    assert_eq!(
        handle_client(ServerState::AwaitingRequest, true, &logins(), &request),
        refused(reply, 11, SocksError::CommandNotSupported)
    );
}

#[test]
fn every_command_but_connect_is_refused_with_code_seven() {
    for command in 0u8..=255 {
        let step = handle_client(
            ServerState::AwaitingRequest,
            false,
            &None,
            &[5, command, 0, 1, 1, 2, 3, 4, 0, 80],
        );
        if command == 1 {
            assert_eq!(step.state, ServerState::Connecting);
            assert_eq!(step.action, ServerAction::Connect(SocksAddr::Ipv4([1, 2, 3, 4], 80)));
        } else {
            assert_eq!(step.state, ServerState::Closed);
            assert_eq!(step.reply[1], 7);
            assert_eq!(step.action, ServerAction::Abort(SocksError::CommandNotSupported));
        }
    }
}

#[test]
fn request_that_cannot_be_decoded_is_answered_before_closing() {
    assert_eq!(
        handle_client(ServerState::AwaitingRequest, false, &None, &[5, 1, 0, 9, 1, 2]),
        refused(vec![5, 8, 0, 1, 0, 0, 0, 0, 0, 0], 0, SocksError::UnsupportedAddressType)
    );
    assert_eq!(
        handle_client(ServerState::AwaitingRequest, false, &None, &[4, 1, 0]),
        refused(vec![5, 1, 0, 1, 0, 0, 0, 0, 0, 0], 0, SocksError::ProtocolMismatch)
    );
    assert_eq!(
        handle_client(ServerState::AwaitingRequest, false, &None, &[5, 1, 0, 3, 1, 0xff]),
        refused(vec![5, 1, 0, 1, 0, 0, 0, 0, 0, 0], 0, SocksError::InvalidEncoding)
    );
}

#[test]
fn partial_request_asks_for_the_rest() {
    assert_eq!(
        handle_client(ServerState::AwaitingRequest, false, &None, &[]),
        asks(ServerState::AwaitingRequest, ServerAction::Read(1))
    );
    assert_eq!(
        handle_client(ServerState::AwaitingRequest, false, &None, &[5, 1, 0, 4]),
        asks(ServerState::AwaitingRequest, ServerAction::Read(18))
    );
}

#[test]
fn client_bytes_are_not_awaited_in_later_states() {
    for state in [
        ServerState::Connecting,
        ServerState::Resolving,
        ServerState::Dialing,
        ServerState::Relaying,
        ServerState::Closed,
    ] {
        assert_eq!(
            handle_client(state, false, &None, &[5, 1, 0]),
            asks(ServerState::Closed, ServerAction::Close)
        );
    }
}

#[test]
fn domain_target_is_looked_up_first() {
    let addr = SocksAddr::Domain("example.com".to_string(), 443);
    assert_eq!(
        handle_connect(ServerState::Connecting, &addr, ConnectEvent::Begin),
        asks(ServerState::Resolving, ServerAction::Resolve("example.com".to_string(), 443))
    );
}

#[test]
fn ip_target_is_dialled_directly() {
    assert_eq!(
        handle_connect(ServerState::Connecting, &SocksAddr::Ipv4([127, 0, 0, 1], 7), ConnectEvent::Begin),
        asks(ServerState::Dialing, ServerAction::Dial(Endpoint::V4([127, 0, 0, 1], 7)))
    );
    assert_eq!(
        handle_connect(ServerState::Connecting, &SocksAddr::Ipv6([3; 16], 7), ConnectEvent::Begin),
        asks(ServerState::Dialing, ServerAction::Dial(Endpoint::V6([3; 16], 7)))
    );
}

#[test]
fn first_resolved_address_is_dialled() {
    let addr = SocksAddr::Domain("example.com".to_string(), 443);
    assert_eq!(
        handle_connect(
            ServerState::Resolving,
            &addr,
            ConnectEvent::Resolved(vec![
                Endpoint::V4([93, 184, 216, 34], 443),
                Endpoint::V6([1; 16], 443),
            ])
        ),
        asks(ServerState::Dialing, ServerAction::Dial(Endpoint::V4([93, 184, 216, 34], 443)))
    );
}

#[test]
fn failed_lookup_is_host_unreachable() {
    let addr = SocksAddr::Domain("nx.invalid".to_string(), 80);
    let mut reply = vec![5, 4, 0, 3, 10];
    reply.extend_from_slice(b"nx.invalid");
    reply.extend_from_slice(&[0, 80]);
    assert_eq!(
        handle_connect(ServerState::Resolving, &addr, ConnectEvent::Resolved(vec![])),
        refused(reply, 0, SocksError::HostUnreachable)
    );
}

#[test]
fn refused_connection_is_reported_with_code_five() {
    let addr = SocksAddr::Ipv4([127, 0, 0, 1], 1);
    assert_eq!(
        handle_connect(
            ServerState::Dialing,
            &addr,
            ConnectEvent::DialFailed(DialFailure::ConnectionRefused)
        ),
        refused(vec![5, 5, 0, 1, 127, 0, 0, 1, 0, 1], 0, SocksError::ConnectionRefused)
    );
}

#[test]
fn each_dial_failure_has_its_code() {
    assert_eq!(
        dial_failure_reply(DialFailure::ConnectionRefused),
        (5, SocksError::ConnectionRefused)
    );
    assert_eq!(
        dial_failure_reply(DialFailure::NetworkUnreachable),
        (3, SocksError::NetworkUnreachable)
    );
    assert_eq!(dial_failure_reply(DialFailure::HostUnreachable), (4, SocksError::HostUnreachable));
    assert_eq!(dial_failure_reply(DialFailure::Other), (3, SocksError::NetworkUnreachable));
    let addr = SocksAddr::Ipv4([10, 9, 8, 7], 6);
    for (failure, code) in [
        (DialFailure::ConnectionRefused, 5u8),
        (DialFailure::NetworkUnreachable, 3),
        (DialFailure::HostUnreachable, 4),
        (DialFailure::Other, 3),
    ] {
        let step = handle_connect(ServerState::Dialing, &addr, ConnectEvent::DialFailed(failure));
        assert_eq!(step.state, ServerState::Closed);
        assert_eq!(step.reply, vec![5, code, 0, 1, 10, 9, 8, 7, 0, 6]);
        assert!(matches!(step.action, ServerAction::Abort(_)));
    }
}

#[test]
fn open_connection_is_answered_with_its_local_address_and_relayed() {
    let addr = SocksAddr::Domain("example.com".to_string(), 80);
    assert_eq!(
        handle_connect(
            ServerState::Dialing,
            &addr,
            ConnectEvent::Connected(Some(Endpoint::V4([192, 168, 1, 5], 50000)))
        ),
        ServerStep {
            state: ServerState::Relaying,
            reply: vec![5, 0, 0, 1, 192, 168, 1, 5, 0xc3, 0x50],
            consumed: 0,
            action: ServerAction::Relay,
        }
    );
    let mut reply = vec![5, 0, 0, 4];
    reply.extend_from_slice(&[7; 16]);
    reply.extend_from_slice(&[0, 9]);
    assert_eq!(
        handle_connect(
            ServerState::Dialing,
            &addr,
            ConnectEvent::Connected(Some(Endpoint::V6([7; 16], 9)))
        )
        .reply,
        reply
    );
}

#[test]
fn unknown_local_address_falls_back_to_the_target() {
    let addr = SocksAddr::Ipv4([1, 2, 3, 4], 80);
    assert_eq!(
        handle_connect(ServerState::Dialing, &addr, ConnectEvent::Connected(None)),
        ServerStep {
            state: ServerState::Relaying,
            reply: vec![5, 0, 0, 1, 1, 2, 3, 4, 0, 80],
            consumed: 0,
            action: ServerAction::Relay,
        }
    );
}

#[test]
fn target_without_wire_form_is_replaced_in_replies() {
    let addr = SocksAddr::Domain("x".repeat(300), 80);
    assert_eq!(
        handle_connect(ServerState::Resolving, &addr, ConnectEvent::Resolved(vec![])),
        refused(vec![5, 4, 0, 1, 0, 0, 0, 0, 0, 0], 0, SocksError::HostUnreachable)
    );
}

#[test]
fn end_of_relay_closes_the_session() {
    let addr = SocksAddr::Ipv4([1, 2, 3, 4], 80);
    assert_eq!(
        handle_connect(ServerState::Relaying, &addr, ConnectEvent::RelayEnded),
        asks(ServerState::Closed, ServerAction::Close)
    );
}

#[test]
fn event_out_of_turn_closes_the_session() {
    let addr = SocksAddr::Ipv4([1, 2, 3, 4], 80);
    let closed = asks(ServerState::Closed, ServerAction::Close);
    assert_eq!(handle_connect(ServerState::Connecting, &addr, ConnectEvent::Connected(None)), closed);
    assert_eq!(handle_connect(ServerState::Dialing, &addr, ConnectEvent::Begin), closed);
    assert_eq!(handle_connect(ServerState::Dialing, &addr, ConnectEvent::Resolved(vec![])), closed);
    assert_eq!(handle_connect(ServerState::AwaitingRequest, &addr, ConnectEvent::Begin), closed);
    assert_eq!(handle_connect(ServerState::Closed, &addr, ConnectEvent::Begin), closed);
    assert_eq!(
        handle_connect(
            ServerState::Relaying,
            &addr,
            ConnectEvent::DialFailed(DialFailure::Other)
        ),
        closed
    );
}

#[test]
fn request_with_unknown_address_type_is_answered_with_code_eight() {
    let greeted = handle_client(ServerState::AwaitingGreeting, false, &None, &[0x05, 0x01, 0x00]);
    assert_eq!(greeted.state, ServerState::AwaitingRequest);
    assert_eq!(greeted.reply, vec![0x05, 0x00]);
    assert_eq!(greeted.consumed, 3);
    for kind in [0u8, 2, 5, 0x7f, 0xff] {
        let request = [0x05, 0x01, 0x00, kind, 10, 0, 0, 1, 0, 80];
        let step = handle_client(greeted.state, false, &None, &request);
        assert_eq!(
            step,
            refused(vec![0x05, 0x08, 0x00, 1, 0, 0, 0, 0, 0, 0], 0, SocksError::UnsupportedAddressType)
        );
    }
    // The type byte decides as soon as it is there.
    assert_eq!(
        handle_client(ServerState::AwaitingRequest, false, &None, &[5, 1, 0, 2]),
        refused(vec![5, 8, 0, 1, 0, 0, 0, 0, 0, 0], 0, SocksError::UnsupportedAddressType)
    );
}
