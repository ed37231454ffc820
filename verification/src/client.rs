use vstd::prelude::*;
use vstd::slice::slice_subrange;
use crate::error::SocksError;
use crate::protocol::decode_choice;
use crate::protocol::decode_status;
use crate::protocol::parse_addr;
use crate::protocol::parse_choice;
use crate::protocol::parse_status;
use crate::protocol::AddrModel;
use crate::protocol::AuthModel;
use crate::protocol::Endpoint;
use crate::protocol::HandshakeRequest;
use crate::protocol::Request;
use crate::protocol::RequestModel;
use crate::protocol::SocksAddr;
use crate::protocol::UserPassAuth;
use crate::protocol::AUTH_NONE;
use crate::protocol::AUTH_PASSWORD;
use crate::protocol::CMD_CONNECT;
use crate::protocol::REP_SUCCEEDED;
use crate::protocol::SOCKS_VERSION;

verus! {

/// How far a client session has come.
#[derive(Clone, Copy, Debug, PartialEq, Eq, Structural)]
pub enum ClientState {
    /// The transport to the proxy is open and nothing has been sent.
    Connecting,
    /// The greeting is out; the proxy's choice of method is awaited.
    Handshaking,
    /// User name and password are out; the proxy's verdict is awaited.
    Authenticating,
    /// A method is agreed; the connection request is to be sent.
    Requesting,
    /// The connection request is out; the proxy's reply is awaited.
    AwaitingReply,
    /// The proxy relays: what follows on the transport is the target's.
    Established,
}

/// What one step of a client session leads to.
#[derive(Debug, PartialEq, Eq)]
pub struct ClientStep {
    /// The state the session is in after the step.
    pub state: ClientState,
    /// What is to be written to the proxy before anything else is done.
    pub output: Vec<u8>,
    /// How many of the received bytes the step has used up.
    pub consumed: usize,
}

/// What a `ClientStep` stands for.
pub struct ClientStepModel {
    pub state: ClientState,
    pub output: Seq<u8>,
    pub consumed: nat,
}

impl View for ClientStep {
    type V = ClientStepModel;

    open spec fn view(&self) -> ClientStepModel {
        ClientStepModel {
            state: self.state,
            output: self.output@,
            consumed: self.consumed as nat,
        }
    }
}

/// The outcome of a step as its contract speaks of it.
pub open spec fn stepped(r: Result<ClientStep, SocksError>) -> Result<ClientStepModel, SocksError> {
    match r {
        Ok(step) => Ok(step@),
        Err(e) => Err(e),
    }
}

/// A step that changes nothing: no output, nothing used up, the state as it was.
pub open spec fn idle(state: ClientState) -> ClientStepModel {
    ClientStepModel { state, output: Seq::empty(), consumed: 0 }
}

/// The client side of a proxy: where the proxy is, and what to log in with.
pub struct Client {
    proxy_addr: String,
    proxy_port: u16,
    auth: Option<(String, String)>,
}

/// What a `Client` stands for.
pub struct ClientModel {
    pub proxy_addr: Seq<char>,
    pub proxy_port: u16,
    pub auth: Option<(Seq<char>, Seq<char>)>,
}

impl View for Client {
    type V = ClientModel;

    closed spec fn view(&self) -> ClientModel {
        ClientModel {
            proxy_addr: self.proxy_addr@,
            proxy_port: self.proxy_port,
            auth: match self.auth {
                Some((username, password)) => Some((username@, password@)),
                None => None,
            },
        }
    }
}

impl ClientModel {
    /// The greeting: no authentication is always offered, user name and
    /// password only by a client that has them.
    pub open spec fn greeting(self) -> Seq<u8> {
        if self.auth is Some {
            seq![SOCKS_VERSION, 2u8, AUTH_NONE, AUTH_PASSWORD]
        } else {
            seq![SOCKS_VERSION, 1u8, AUTH_NONE]
        }
    }

    /// What the client does about the method the proxy chose.
    pub open spec fn on_choice(self, method: u8, used: nat) -> Result<ClientStepModel, SocksError> {
        if method == AUTH_NONE {
            Ok(ClientStepModel { state: ClientState::Requesting, output: Seq::empty(), consumed: used })
        } else if method == AUTH_PASSWORD {
            match self.auth {
                None => Err(SocksError::AuthenticationRequired),
                Some((username, password)) => {
                    let credentials = AuthModel { username, password };
                    if credentials.encodable() {
                        Ok(
                            ClientStepModel {
                                state: ClientState::Authenticating,
                                output: credentials.wire(),
                                consumed: used,
                            },
                        )
                    } else {
                        Err(SocksError::ValueTooLarge)
                    }
                },
            }
        } else {
            Err(SocksError::NoAcceptableAuthMethod)
        }
    }

    /// One step of the negotiation, given the bytes received and not yet used
    /// up. From `Connecting` the greeting goes out. In `Handshaking` the
    /// proxy's choice decides; in `Authenticating` its verdict does. In any
    /// later state there is nothing left to negotiate.
    pub open spec fn handshake(self, state: ClientState, received: Seq<u8>) -> Result<
        ClientStepModel,
        SocksError,
    > {
        match state {
            ClientState::Connecting => Ok(
                ClientStepModel {
                    state: ClientState::Handshaking,
                    output: self.greeting(),
                    consumed: 0,
                },
            ),
            ClientState::Handshaking => match parse_choice(received) {
                Ok((method, used)) => self.on_choice(method, used),
                Err(e) => Err(e),
            },
            ClientState::Authenticating => match parse_status(received) {
                Ok((success, used)) => if success {
                    Ok(
                        ClientStepModel {
                            state: ClientState::Requesting,
                            output: Seq::empty(),
                            consumed: used,
                        },
                    )
                } else {
                    Err(SocksError::AuthenticationFailed)
                },
                Err(e) => Err(e),
            },
            _ => Ok(idle(state)),
        }
    }
}

/// The connection request for a target: version, CONNECT, target.
pub open spec fn connect_request(target: AddrModel) -> Seq<u8> {
    RequestModel { version: SOCKS_VERSION, command: CMD_CONNECT, addr: target }.wire()
}

/// How many bytes the reply to a connection request takes up at the front of
/// `s`, or why the request failed. The three bytes before the bound address
/// are taken in together; then the version is judged, then the reply code,
/// and only then is the bound address decoded.
pub open spec fn parse_connect_reply(s: Seq<u8>) -> Result<nat, SocksError> {
    if s.len() < 3 {
        Err(SocksError::Incomplete((3 - s.len()) as usize))
    } else if s[0] != SOCKS_VERSION {
        Err(SocksError::ProtocolMismatch)
    } else if s[1] != REP_SUCCEEDED {
        Err(SocksError::ProxyRejected(s[1]))
    } else {
        match parse_addr(s.skip(3)) {
            Ok((_, used)) => Ok(3 + used),
            Err(e) => Err(e),
        }
    }
}

/// One step of the connection request. In `Requesting` the request goes out,
/// unless the target has no wire form. In `AwaitingReply` the proxy's reply
/// decides. In any other state nothing is done.
pub open spec fn request_connection(state: ClientState, received: Seq<u8>, target: AddrModel)
    -> Result<ClientStepModel, SocksError> {
    match state {
        ClientState::Requesting => if target.encodable() {
            Ok(
                ClientStepModel {
                    state: ClientState::AwaitingReply,
                    output: connect_request(target),
                    consumed: 0,
                },
            )
        } else {
            Err(SocksError::ValueTooLarge)
        },
        ClientState::AwaitingReply => match parse_connect_reply(received) {
            Ok(used) => Ok(
                ClientStepModel {
                    state: ClientState::Established,
                    output: Seq::empty(),
                    consumed: used,
                },
            ),
            Err(e) => Err(e),
        },
        _ => Ok(idle(state)),
    }
}

/// True of the states in which the negotiation is still going on.
pub open spec fn negotiating(state: ClientState) -> bool {
    state is Connecting || state is Handshaking || state is Authenticating
}

impl ClientModel {
    /// One step of a whole session: of the negotiation while it lasts, of the
    /// connection request after it.
    pub open spec fn connect(self, state: ClientState, received: Seq<u8>, target: AddrModel)
        -> Result<ClientStepModel, SocksError> {
        if negotiating(state) {
            self.handshake(state, received)
        } else {
            request_connection(state, received, target)
        }
    }
}

impl Client {
    /// A client of the proxy at `proxy_addr`, `proxy_port` that logs in with nothing.
    pub fn new(proxy_addr: String, proxy_port: u16) -> (client: Self)
        ensures
            client@ == (ClientModel { proxy_addr: proxy_addr@, proxy_port, auth: None }),
    {
        Client { proxy_addr, proxy_port, auth: None }
    }

    /// A client of the proxy at `proxy_addr`, `proxy_port` that can log in
    /// with a user name and password.
    pub fn with_auth(proxy_addr: String, proxy_port: u16, username: String, password: String) -> (client:
        Self)
        ensures
            client@ == (ClientModel {
                proxy_addr: proxy_addr@,
                proxy_port,
                auth: Some((username@, password@)),
            }),
    {
        Client { proxy_addr, proxy_port, auth: Some((username, password)) }
    }

    /// The proxy's host.
    pub fn proxy_addr(&self) -> (host: &str)
        ensures
            host@ == self@.proxy_addr,
    {
        self.proxy_addr.as_str()
    }

    /// The proxy's port.
    pub fn proxy_port(&self) -> (port: u16)
        ensures
            port == self@.proxy_port,
    {
        self.proxy_port
    }

    /// One step of the negotiation of a method, and of logging in where the
    /// proxy asks for it. `received` holds the bytes that came from the proxy
    /// and that no earlier step has used up. `Incomplete` asks for more bytes
    /// in the same state; any other error ends the session.
    pub fn handshake(&self, state: ClientState, received: &[u8]) -> (r: Result<
        ClientStep,
        SocksError,
    >)
        ensures
            stepped(r) == self@.handshake(state, received@),
    {
        match state {
            ClientState::Connecting => {
                let mut methods: Vec<u8> = Vec::new();
                methods.push(AUTH_NONE);
                if self.auth.is_some() {
                    methods.push(AUTH_PASSWORD);
                }
                let greeting = HandshakeRequest { version: SOCKS_VERSION, methods };
                let mut output: Vec<u8> = Vec::new();
                match greeting.write_to(&mut output) {
                    Err(e) => Err(e),
                    Ok(()) => {
                        assert(output@ =~= self@.greeting());
                        Ok(ClientStep { state: ClientState::Handshaking, output, consumed: 0 })
                    },
                }
            },
            ClientState::Handshaking => {
                let (method, used) = match decode_choice(received) {
                    Ok(choice) => choice,
                    Err(e) => { return Err(e); },
                };
                if method == AUTH_NONE {
                    Ok(
                        ClientStep {
                            state: ClientState::Requesting,
                            output: Vec::new(),
                            consumed: used,
                        },
                    )
                } else if method == AUTH_PASSWORD {
                    match &self.auth {
                        None => Err(SocksError::AuthenticationRequired),
                        Some((username, password)) => {
                            let credentials = UserPassAuth::new(username.clone(), password.clone());
                            let mut output: Vec<u8> = Vec::new();
                            match credentials.write_to(&mut output) {
                                Err(e) => Err(e),
                                Ok(()) => {
                                    assert(output@ =~= credentials@.wire());
                                    Ok(
                                        ClientStep {
                                            state: ClientState::Authenticating,
                                            output,
                                            consumed: used,
                                        },
                                    )
                                },
                            }
                        },
                    }
                } else {
                    Err(SocksError::NoAcceptableAuthMethod)
                }
            },
            ClientState::Authenticating => {
                match decode_status(received) {
                    Err(e) => Err(e),
                    Ok((success, used)) => {
                        if success {
                            Ok(
                                ClientStep {
                                    state: ClientState::Requesting,
                                    output: Vec::new(),
                                    consumed: used,
                                },
                            )
                        } else {
                            Err(SocksError::AuthenticationFailed)
                        }
                    },
                }
            },
            _ => Ok(ClientStep { state, output: Vec::new(), consumed: 0 }),
        }
    }

    /// One step of the connection request for the target `addr`. `received`
    /// holds the bytes that came from the proxy and that no earlier step has
    /// used up. `Incomplete` asks for more bytes in the same state; any other
    /// error ends the session. Once the state is `Established`, the bytes
    /// behind those used up are the target's.
    pub fn request_connection(&self, state: ClientState, received: &[u8], addr: &SocksAddr) -> (r:
        Result<ClientStep, SocksError>)
        ensures
            stepped(r) == request_connection(state, received@, addr@),
    {
        match state {
            ClientState::Requesting => {
                let request = Request {
                    version: SOCKS_VERSION,
                    command: CMD_CONNECT,
                    addr: addr.clone(),
                };
                let mut output: Vec<u8> = Vec::new();
                match request.write_to(&mut output) {
                    Err(e) => Err(e),
                    Ok(()) => {
                        assert(output@ =~= connect_request(addr@));
                        Ok(ClientStep { state: ClientState::AwaitingReply, output, consumed: 0 })
                    },
                }
            },
            ClientState::AwaitingReply => {
                let len: usize = received.len();
                if len < 3 {
                    return Err(SocksError::Incomplete(3 - len));
                }
                if received[0] != SOCKS_VERSION {
                    return Err(SocksError::ProtocolMismatch);
                }
                let status: u8 = received[1];
                if status != REP_SUCCEEDED {
                    return Err(SocksError::ProxyRejected(status));
                }
                assert(received@.subrange(3, len as int) == received@.skip(3));
                match SocksAddr::read_from(slice_subrange(received, 3, len)) {
                    Err(e) => Err(e),
                    Ok((_, used)) => Ok(
                        ClientStep {
                            state: ClientState::Established,
                            output: Vec::new(),
                            consumed: 3 + used,
                        },
                    ),
                }
            },
            _ => Ok(ClientStep { state, output: Vec::new(), consumed: 0 }),
        }
    }

    /// One step of a whole session with the target `target`: of the
    /// negotiation while it lasts, of the connection request after it.
    pub fn connect(&self, state: ClientState, received: &[u8], target: &SocksAddr) -> (r: Result<
        ClientStep,
        SocksError,
    >)
        ensures
            stepped(r) == self@.connect(state, received@, target@),
    {
        match state {
            ClientState::Connecting | ClientState::Handshaking | ClientState::Authenticating => {
                self.handshake(state, received)
            },
            _ => self.request_connection(state, received, target),
        }
    }

    /// One step of a session whose target is the name `domain` with `port`:
    /// the proxy is to look the name up.
    pub fn connect_to_domain(&self, state: ClientState, received: &[u8], domain: &str, port: u16)
        -> (r: Result<ClientStep, SocksError>)
        ensures
            stepped(r) == self@.connect(state, received@, AddrModel::Domain(domain@, port)),
    {
        let target = SocksAddr::Domain(domain.to_owned(), port);
        self.connect(state, received, &target)
    }

    /// One step of a session whose target is an address that needs no lookup.
    pub fn connect_to_target(&self, state: ClientState, received: &[u8], target: Endpoint) -> (r:
        Result<ClientStep, SocksError>)
        ensures
            stepped(r) == self@.connect(state, received@, target.addr()),
    {
        let target = target.to_socks_addr();
        self.connect(state, received, &target)
    }
}

/// The client decides on a reply on the shortest prefix that can bear the
/// decision: it asks for no byte behind the reply, and a reply that is
/// understood leaves what follows it alone.
pub proof fn lemma_reply_decided_on_prefix(s: Seq<u8>, t: Seq<u8>)
    ensures
        match parse_connect_reply(s) {
            Ok(used) => used <= s.len() && parse_connect_reply(s + t) == parse_connect_reply(s)
                && parse_connect_reply(s.take(used as int)) == parse_connect_reply(s),
            Err(SocksError::Incomplete(missing)) => missing > 0 && (t.len() < missing
                ==> parse_connect_reply(s + t) == Err::<nat, SocksError>(
                SocksError::Incomplete((missing - t.len()) as usize),
            )),
            Err(_) => parse_connect_reply(s + t) == parse_connect_reply(s),
        },
{
    if s.len() >= 3 {
        crate::protocol::lemma_addr_decided_on_prefix(s.skip(3), t);
        assert((s + t).skip(3) =~= s.skip(3) + t);
        if parse_connect_reply(s) is Ok {
            let used = parse_addr(s.skip(3))->Ok_0.1 as int;
            assert(s.take(3 + used).skip(3) =~= s.skip(3).take(used));
        }
    }
}

/// A client session only moves forward: a step that succeeds leads to a
/// later state, but for the last, in which nothing is done any more; and it
/// uses up no more bytes than it was given.
pub proof fn lemma_client_moves_forward(
    client: ClientModel,
    state: ClientState,
    received: Seq<u8>,
    target: AddrModel,
)
    ensures
        client.connect(state, received, target) is Ok ==> {
            let next = client.connect(state, received, target)->Ok_0;
            &&& rank(state) <= rank(next.state)
            &&& next.state == state <==> state == ClientState::Established
            &&& next.consumed <= received.len()
            &&& state == ClientState::Established ==> next.output.len() == 0 && next.consumed == 0
        },
{
    lemma_reply_decided_on_prefix(received, Seq::empty());
}

/// The place of a state in the order in which a session passes through them.
pub open spec fn rank(state: ClientState) -> nat {
    match state {
        ClientState::Connecting => 0,
        ClientState::Handshaking => 1,
        ClientState::Authenticating => 2,
        ClientState::Requesting => 3,
        ClientState::AwaitingReply => 4,
        ClientState::Established => 5,
    }
}

} // verus!
