use std::sync::Arc;
use std::sync::Mutex;

use socks5_rs::client::Client;
use socks5_rs::client::ClientState;
use socks5_rs::error::SocksError;
use socks5_rs::protocol::Endpoint;
use socks5_rs::protocol::SocksAddr;
use socks5_rs::relay::Relay;
use socks5_rs::relay::RelayAction;
use socks5_rs::relay::RelayEvent;
use socks5_rs::server::handle_client;
use socks5_rs::server::handle_connect;
use socks5_rs::server::ConnectEvent;
use socks5_rs::server::DialFailure;
use socks5_rs::server::ServerAction;
use socks5_rs::server::ServerState;
use tokio::io::duplex;
use tokio::io::split;
use tokio::io::AsyncReadExt;
use tokio::io::AsyncWriteExt;
use tokio::io::DuplexStream;
use tokio::io::ReadHalf;
use tokio::io::WriteHalf;
use tokio::sync::mpsc::unbounded_channel;
use tokio::sync::mpsc::UnboundedSender;

/// How one proxied connection ended, as the proxy saw it.
#[derive(Debug, PartialEq)]
struct Served {
    state: ServerState,
    error: Option<SocksError>,
    dialled: Vec<Endpoint>,
    to_upstream: u64,
    to_client: u64,
}

async fn read_more(stream: &mut DuplexStream, pending: &mut Vec<u8>, missing: usize) -> bool {
    let have = pending.len();
    pending.resize(have + missing, 0);
    stream.read_exact(&mut pending[have..]).await.is_ok()
}

/// One direction of the relay: reads from one stream, asks the relay what to
/// do, and writes to the other.
async fn pump(
    mut from: ReadHalf<DuplexStream>,
    mut to: WriteHalf<DuplexStream>,
    relay: Arc<Mutex<Relay>>,
    from_client: bool,
    done: UnboundedSender<()>,
) {
    let mut chunk = vec![0u8; 4096];
    loop {
        let event = match from.read(&mut chunk).await {
            Ok(n) if from_client => RelayEvent::FromClient(&chunk[..n]),
            Ok(n) => RelayEvent::FromUpstream(&chunk[..n]),
            Err(_) => RelayEvent::Failed,
        };
        let action = relay.lock().unwrap().on_event(event);
        let bytes = match action {
            RelayAction::ToUpstream(bytes) => bytes,
            RelayAction::ToClient(bytes) => bytes,
            RelayAction::Stop => break,
        };
        if to.write_all(bytes).await.is_err() {
            relay.lock().unwrap().on_event(RelayEvent::Failed);
            break;
        }
    }
    let _ = done.send(());
}

/// Serves one client of the proxy over `client`. A dial opens `upstream`, or
/// fails as `upstream` says.
async fn serve_one(
    mut client: DuplexStream,
    auth_required: bool,
    credentials: Option<Vec<(String, String)>>,
    upstream: Result<DuplexStream, DialFailure>,
) -> Served {
    let mut state = ServerState::AwaitingGreeting;
    let mut pending: Vec<u8> = Vec::new();
    let mut dialled: Vec<Endpoint> = Vec::new();
    let addr = loop {
        let step = handle_client(state, auth_required, &credentials, &pending);
        client.write_all(&step.reply).await.unwrap();
        pending.drain(..step.consumed);
        state = step.state;
        let error = match step.action {
            ServerAction::Read(missing) => {
                if read_more(&mut client, &mut pending, missing).await {
                    continue;
                }
                None
            }
            ServerAction::Continue => continue,
            ServerAction::Connect(addr) => break addr,
            ServerAction::Abort(e) => Some(e),
            _ => None,
        };
        return Served { state, error, dialled, to_upstream: 0, to_client: 0 };
    };
    let mut upstream = Some(upstream);
    let mut open: Option<DuplexStream> = None;
    let mut event = ConnectEvent::Begin;
    loop {
        let step = handle_connect(state, &addr, event);
        client.write_all(&step.reply).await.unwrap();
        state = step.state;
        event = match step.action {
            ServerAction::Resolve(_, _) => ConnectEvent::Resolved(vec![]),
            ServerAction::Dial(target) => {
                dialled.push(target);
                match upstream.take().unwrap() {
                    Ok(stream) => {
                        open = Some(stream);
                        ConnectEvent::Connected(Some(Endpoint::V4([127, 0, 0, 1], 50123)))
                    }
                    Err(failure) => ConnectEvent::DialFailed(failure),
                }
            }
            ServerAction::Relay => {
                let (from_client, to_client) = split(client);
                let (from_upstream, to_upstream) = split(open.take().unwrap());
                let relay = Arc::new(Mutex::new(Relay::new()));
                let (done, mut ended) = unbounded_channel();
                let up =
                    tokio::spawn(pump(from_client, to_upstream, relay.clone(), true, done.clone()));
                let down = tokio::spawn(pump(from_upstream, to_client, relay.clone(), false, done));
                ended.recv().await;
                up.abort();
                down.abort();
                let _ = up.await;
                let _ = down.await;
                let step = handle_connect(state, &addr, ConnectEvent::RelayEnded);
                let (to_upstream, to_client) = relay.lock().unwrap().totals();
                return Served { state: step.state, error: None, dialled, to_upstream, to_client };
            }
            ServerAction::Abort(e) => {
                return Served { state, error: Some(e), dialled, to_upstream: 0, to_client: 0 };
            }
            _ => return Served { state, error: None, dialled, to_upstream: 0, to_client: 0 },
        };
    }
}

/// Runs a client session over `stream` until it is established or fails.
async fn establish(
    client: &Client,
    stream: &mut DuplexStream,
    target: &SocksAddr,
) -> Result<(), SocksError> {
    let mut state = ClientState::Connecting;
    let mut pending: Vec<u8> = Vec::new();
    while state != ClientState::Established {
        match client.connect(state, &pending, target) {
            Ok(step) => {
                stream.write_all(&step.output).await.unwrap();
                pending.drain(..step.consumed);
                state = step.state;
            }
            Err(SocksError::Incomplete(missing)) => {
                assert!(read_more(stream, &mut pending, missing).await);
            }
            Err(e) => return Err(e),
        }
    }
    assert!(pending.is_empty());
    Ok(())
}

/// Answers with what it receives, until the peer ends.
async fn echo(mut stream: DuplexStream) {
    let mut chunk = vec![0u8; 1024];
    loop {
        match stream.read(&mut chunk).await {
            Ok(0) | Err(_) => break,
            Ok(n) => stream.write_all(&chunk[..n]).await.unwrap(),
        }
    }
}

fn runtime() -> tokio::runtime::Runtime {
    tokio::runtime::Builder::new_current_thread().enable_all().build().unwrap()
}

#[test]
fn connect_to_an_echoing_upstream_relays_both_ways() {
    runtime().block_on(async {
        let (mut stream, proxy_side) = duplex(64);
        let (upstream, echo_side) = duplex(64);
        let echoing = tokio::spawn(echo(echo_side));
        let serving = tokio::spawn(serve_one(proxy_side, false, None, Ok(upstream)));

        let client = Client::new("127.0.0.1".to_string(), 1080);
        let target = SocksAddr::Ipv4([127, 0, 0, 1], 7);
        assert_eq!(establish(&client, &mut stream, &target).await, Ok(()));

        stream.write_all(b"hello through the proxy").await.unwrap();
        let mut back = [0u8; 23];
        stream.read_exact(&mut back).await.unwrap();
        assert_eq!(&back, b"hello through the proxy");
        stream.write_all(&[0, 255, 5, 1, 0]).await.unwrap();
        let mut back = [9u8; 5];
        stream.read_exact(&mut back).await.unwrap();
        assert_eq!(back, [0, 255, 5, 1, 0]);

        stream.shutdown().await.unwrap();
        let served = serving.await.unwrap();
        assert_eq!(
            served,
            Served {
                state: ServerState::Closed,
                error: None,
                dialled: vec![Endpoint::V4([127, 0, 0, 1], 7)],
                to_upstream: 28,
                to_client: 28,
            }
        );
        echoing.await.unwrap();
    });
}

#[test]
fn name_that_is_not_found_is_host_unreachable_over_a_stream() {
    runtime().block_on(async {
        let (mut stream, proxy_side) = duplex(256);
        let (upstream, _echo_side) = duplex(256);
        let serving = tokio::spawn(serve_one(proxy_side, false, None, Ok(upstream)));

        let client = Client::new("127.0.0.1".to_string(), 1080);
        let target = SocksAddr::Domain("echo.test".to_string(), 7);
        assert_eq!(
            establish(&client, &mut stream, &target).await,
            Err(SocksError::ProxyRejected(4))
        );
        let served = serving.await.unwrap();
        assert_eq!(served.error, Some(SocksError::HostUnreachable));
        assert_eq!(served.state, ServerState::Closed);
        assert!(served.dialled.is_empty());
    });
}

#[test]
fn large_payload_comes_back_byte_for_byte() {
    runtime().block_on(async {
        let (mut stream, proxy_side) = duplex(256);
        let (upstream, echo_side) = duplex(256);
        let echoing = tokio::spawn(echo(echo_side));
        let serving = tokio::spawn(serve_one(proxy_side, false, None, Ok(upstream)));

        let client = Client::new("127.0.0.1".to_string(), 1080);
        let target = SocksAddr::Ipv6([0, 0, 0, 0, 0, 0, 0, 0, 0, 0, 0, 0, 0, 0, 0, 1], 7);
        assert_eq!(establish(&client, &mut stream, &target).await, Ok(()));
        let payload: Vec<u8> = (0..20000u32).map(|i| (i % 251) as u8).collect();
        let (mut from_proxy, mut to_proxy) = split(stream);
        let sent = payload.clone();
        let writing = tokio::spawn(async move {
            to_proxy.write_all(&sent).await.unwrap();
            to_proxy
        });
        let mut back = vec![0u8; payload.len()];
        from_proxy.read_exact(&mut back).await.unwrap();
        assert_eq!(back, payload);
        let mut to_proxy = writing.await.unwrap();
        to_proxy.shutdown().await.unwrap();
        let served = serving.await.unwrap();
        assert_eq!(served.state, ServerState::Closed);
        assert_eq!((served.to_upstream, served.to_client), (20000, 20000));
        echoing.await.unwrap();
    });
}

#[test]
fn connect_with_login_to_an_echoing_upstream() {
    runtime().block_on(async {
        let (mut stream, proxy_side) = duplex(64);
        let (upstream, echo_side) = duplex(64);
        let echoing = tokio::spawn(echo(echo_side));
        let credentials = Some(vec![("u".to_string(), "p".to_string())]);
        let serving = tokio::spawn(serve_one(proxy_side, true, credentials, Ok(upstream)));

        let client =
            Client::with_auth("127.0.0.1".to_string(), 1080, "u".to_string(), "p".to_string());
        let target = SocksAddr::Ipv4([127, 0, 0, 1], 7);
        assert_eq!(establish(&client, &mut stream, &target).await, Ok(()));
        stream.write_all(b"ping").await.unwrap();
        let mut back = [0u8; 4];
        stream.read_exact(&mut back).await.unwrap();
        assert_eq!(&back, b"ping");
        drop(stream);
        let served = serving.await.unwrap();
        assert_eq!(served.state, ServerState::Closed);
        assert_eq!((served.to_upstream, served.to_client), (4, 4));
        echoing.await.unwrap();
    });
}

#[test]
fn connect_with_wrong_password_is_closed_before_any_request() {
    runtime().block_on(async {
        let (mut stream, proxy_side) = duplex(64);
        let credentials = Some(vec![("u".to_string(), "p".to_string())]);
        let serving =
            tokio::spawn(serve_one(proxy_side, true, credentials, Err(DialFailure::Other)));

        let client = Client::with_auth(
            "127.0.0.1".to_string(),
            1080,
            "u".to_string(),
            "wrong".to_string(),
        );
        let target = SocksAddr::Ipv4([127, 0, 0, 1], 9);
        assert_eq!(
            establish(&client, &mut stream, &target).await,
            Err(SocksError::AuthenticationFailed)
        );
        let served = serving.await.unwrap();
        assert_eq!(
            served,
            Served {
                state: ServerState::Closed,
                error: Some(SocksError::AuthenticationFailed),
                dialled: vec![],
                to_upstream: 0,
                to_client: 0,
            }
        );
        let mut rest = Vec::new();
        assert_eq!(stream.read_to_end(&mut rest).await.unwrap(), 0);
    });
}

#[test]
fn refused_upstream_is_reported_and_the_connection_closed() {
    runtime().block_on(async {
        let (mut stream, proxy_side) = duplex(64);
        let serving = tokio::spawn(serve_one(
            proxy_side,
            false,
            None,
            Err(DialFailure::ConnectionRefused),
        ));

        let client = Client::new("127.0.0.1".to_string(), 1080);
        let target = SocksAddr::Ipv4([127, 0, 0, 1], 1);
        assert_eq!(
            establish(&client, &mut stream, &target).await,
            Err(SocksError::ProxyRejected(5))
        );
        let served = serving.await.unwrap();
        assert_eq!(
            served,
            Served {
                state: ServerState::Closed,
                error: Some(SocksError::ConnectionRefused),
                dialled: vec![Endpoint::V4([127, 0, 0, 1], 1)],
                to_upstream: 0,
                to_client: 0,
            }
        );
        let mut rest = Vec::new();
        stream.read_to_end(&mut rest).await.unwrap();
        assert_eq!(rest, vec![1, 127, 0, 0, 1, 0, 1]);
    });
}

#[test]
fn bind_over_a_stream_is_answered_with_code_seven() {
    runtime().block_on(async {
        let (mut stream, proxy_side) = duplex(64);
        let (upstream, _echo_side) = duplex(64);
        let serving = tokio::spawn(serve_one(proxy_side, false, None, Ok(upstream)));

        stream.write_all(&[5, 1, 0]).await.unwrap();
        let mut choice = [0u8; 2];
        stream.read_exact(&mut choice).await.unwrap();
        assert_eq!(choice, [5, 0]);
        stream.write_all(&[5, 2, 0, 1, 127, 0, 0, 1, 0, 80]).await.unwrap();
        let mut reply = Vec::new();
        stream.read_to_end(&mut reply).await.unwrap();
        assert_eq!(reply, vec![5, 7, 0, 1, 127, 0, 0, 1, 0, 80]);
        let served = serving.await.unwrap();
        assert_eq!(served.error, Some(SocksError::CommandNotSupported));
        assert_eq!(served.state, ServerState::Closed);
        assert!(served.dialled.is_empty());
    });
}

#[test]
fn request_with_unknown_address_type_over_a_stream() {
    runtime().block_on(async {
        let (mut stream, proxy_side) = duplex(64);
        let (upstream, _echo_side) = duplex(64);
        let serving = tokio::spawn(serve_one(proxy_side, false, None, Ok(upstream)));

        stream.write_all(&[0x05, 0x01, 0x00]).await.unwrap();
        let mut choice = [0u8; 2];
        stream.read_exact(&mut choice).await.unwrap();
        assert_eq!(choice, [0x05, 0x00]);
        stream.write_all(&[0x05, 0x01, 0x00, 0x02, 1, 2, 3, 4, 0, 80]).await.unwrap();
        let mut reply = Vec::new();
        stream.read_to_end(&mut reply).await.unwrap();
        assert_eq!(reply, vec![0x05, 0x08, 0x00, 1, 0, 0, 0, 0, 0, 0]);
        let served = serving.await.unwrap();
        assert_eq!(
            served,
            Served {
                state: ServerState::Closed,
                error: Some(SocksError::UnsupportedAddressType),
                dialled: vec![],
                to_upstream: 0,
                to_client: 0,
            }
        );
    });
}
