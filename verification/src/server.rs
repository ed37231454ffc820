use vstd::prelude::*;
use crate::error::SocksError;
use crate::protocol::choice_wire;
use crate::protocol::encode_choice;
use crate::protocol::encode_status;
use crate::protocol::parse_auth;
use crate::protocol::parse_greeting;
use crate::protocol::parse_request;
use crate::protocol::status_wire;
use crate::protocol::AddrModel;
use crate::protocol::Endpoint;
use crate::protocol::HandshakeRequest;
use crate::protocol::Reply;
use crate::protocol::ReplyModel;
use crate::protocol::Request;
use crate::protocol::SocksAddr;
use crate::protocol::UserPassAuth;
use crate::protocol::AUTH_NONE;
use crate::protocol::AUTH_NOT_ACCEPTABLE;
use crate::protocol::AUTH_PASSWORD;
use crate::protocol::CMD_CONNECT;
use crate::protocol::REP_ADDRESS_TYPE_NOT_SUPPORTED;
use crate::protocol::REP_COMMAND_NOT_SUPPORTED;
use crate::protocol::REP_CONNECTION_REFUSED;
use crate::protocol::REP_GENERAL_FAILURE;
use crate::protocol::REP_HOST_UNREACHABLE;
use crate::protocol::REP_NETWORK_UNREACHABLE;
use crate::protocol::REP_SUCCEEDED;
use crate::protocol::SOCKS_VERSION;

verus! {

/// How far the session with one accepted client has come.
#[derive(Clone, Copy, Debug, PartialEq, Eq, Structural)]
pub enum ServerState {
    /// The client's greeting is awaited.
    AwaitingGreeting,
    /// User name and password were asked for and are awaited.
    AwaitingAuthChoice,
    /// A method is agreed; the connection request is awaited.
    AwaitingRequest,
    /// A CONNECT request was taken in; nothing has been done about its target.
    Connecting,
    /// The target's name is being looked up.
    Resolving,
    /// The upstream connection is being opened.
    Dialing,
    /// Bytes are copied between the client and the target.
    Relaying,
    /// The session is over.
    Closed,
}

/// Why an upstream connection could not be opened.
#[derive(Clone, Copy, Debug, PartialEq, Eq, Structural)]
pub enum DialFailure {
    ConnectionRefused,
    NetworkUnreachable,
    HostUnreachable,
    /// Any other failure.
    Other,
}

/// What the world reports back while a CONNECT request is carried out.
#[derive(Clone, Debug, PartialEq, Eq)]
pub enum ConnectEvent {
    /// The request is to be acted on.
    Begin,
    /// The lookup is over: the addresses it gave, in its order; none if it
    /// failed.
    Resolved(Vec<Endpoint>),
    /// The upstream connection is open: its local address, if that could be found out.
    Connected(Option<Endpoint>),
    /// The upstream connection could not be opened.
    DialFailed(DialFailure),
    /// Copying has ended in either direction.
    RelayEnded,
}

/// What a `ConnectEvent` stands for.
pub enum EventModel {
    Begin,
    Resolved(Seq<Endpoint>),
    Connected(Option<Endpoint>),
    DialFailed(DialFailure),
    RelayEnded,
}

impl View for ConnectEvent {
    type V = EventModel;

    open spec fn view(&self) -> EventModel {
        match *self {
            ConnectEvent::Begin => EventModel::Begin,
            ConnectEvent::Resolved(found) => EventModel::Resolved(found@),
            ConnectEvent::Connected(local) => EventModel::Connected(local),
            ConnectEvent::DialFailed(failure) => EventModel::DialFailed(failure),
            ConnectEvent::RelayEnded => EventModel::RelayEnded,
        }
    }
}

/// What is to be done after a step, once its reply is written.
#[derive(Debug, PartialEq, Eq)]
pub enum ServerAction {
    /// Read so many more bytes from the client, then step again in the same state.
    Read(usize),
    /// Step again in the new state, with the bytes not yet used up.
    Continue,
    /// Carry out a CONNECT request for this target.
    Connect(SocksAddr),
    /// Look this name up for this port, and report `Resolved`.
    Resolve(String, u16),
    /// Open a connection to this address, and report `Connected` or `DialFailed`.
    Dial(Endpoint),
    /// Copy bytes both ways until either side ends, and report `RelayEnded`.
    Relay,
    /// Close both connections: the session ended in good order.
    Close,
    /// Close both connections: the session failed.
    Abort(SocksError),
}

/// What a `ServerAction` stands for.
pub enum ActionModel {
    Read(nat),
    Continue,
    Connect(AddrModel),
    Resolve(Seq<char>, u16),
    Dial(Endpoint),
    Relay,
    Close,
    Abort(SocksError),
}

impl View for ServerAction {
    type V = ActionModel;

    open spec fn view(&self) -> ActionModel {
        match *self {
            ServerAction::Read(n) => ActionModel::Read(n as nat),
            ServerAction::Continue => ActionModel::Continue,
            ServerAction::Connect(addr) => ActionModel::Connect(addr@),
            ServerAction::Resolve(name, port) => ActionModel::Resolve(name@, port),
            ServerAction::Dial(target) => ActionModel::Dial(target),
            ServerAction::Relay => ActionModel::Relay,
            ServerAction::Close => ActionModel::Close,
            ServerAction::Abort(e) => ActionModel::Abort(e),
        }
    }
}

/// What one step of a server session leads to.
#[derive(Debug, PartialEq, Eq)]
pub struct ServerStep {
    /// The state the session is in after the step.
    pub state: ServerState,
    /// What is to be written to the client before anything else is done.
    pub reply: Vec<u8>,
    /// How many of the received bytes the step has used up.
    pub consumed: usize,
    /// What is to be done once the reply is written.
    pub action: ServerAction,
}

/// What a `ServerStep` stands for.
pub struct StepModel {
    pub state: ServerState,
    pub reply: Seq<u8>,
    pub consumed: nat,
    pub action: ActionModel,
}

impl View for ServerStep {
    type V = StepModel;

    open spec fn view(&self) -> StepModel {
        StepModel {
            state: self.state,
            reply: self.reply@,
            consumed: self.consumed as nat,
            action: self.action@,
        }
    }
}

/// A list of the logins that are let in: pairs of user name and password.
pub type AllowList = Option<Seq<(Seq<char>, Seq<char>)>>;

/// What a list of logins stands for.
pub open spec fn allow_list(credentials: Option<Vec<(String, String)>>) -> AllowList {
    match credentials {
        Some(list) => Some(list@.map_values(|login: (String, String)| (login.0@, login.1@))),
        None => None,
    }
}

/// True if the list holds the pair of exactly this user name and password.
/// Where no list is kept nobody is let in.
pub open spec fn allows(credentials: AllowList, username: Seq<char>, password: Seq<char>) -> bool {
    match credentials {
        Some(list) => list.contains((username, password)),
        None => false,
    }
}

/// The address that a reply carries where it has no other to give: 0.0.0.0, port 0.
pub open spec fn unspecified() -> AddrModel {
    AddrModel::Ipv4([0u8, 0u8, 0u8, 0u8], 0)
}

/// The wire form of a reply with this code that echoes this address, or the
/// unspecified address in place of one that has no wire form.
pub open spec fn reply_wire(code: u8, addr: AddrModel) -> Seq<u8> {
    ReplyModel {
        version: SOCKS_VERSION,
        reply: code,
        addr: if addr.encodable() {
            addr
        } else {
            unspecified()
        },
    }.wire()
}

/// A step that ends the session in failure after a last word to the client.
pub open spec fn refusal(reply: Seq<u8>, consumed: nat, e: SocksError) -> StepModel {
    StepModel { state: ServerState::Closed, reply, consumed, action: ActionModel::Abort(e) }
}

/// A step that only asks the client for more bytes.
pub open spec fn awaiting(state: ServerState, missing: usize) -> StepModel {
    StepModel { state, reply: Seq::empty(), consumed: 0, action: ActionModel::Read(missing as nat) }
}

/// What a decoding error leads to before a method is agreed: more bytes are
/// asked for, or the session ends without a word.
pub open spec fn on_early_error(state: ServerState, e: SocksError) -> StepModel {
    match e {
        SocksError::Incomplete(missing) => awaiting(state, missing),
        _ => refusal(Seq::empty(), 0, e),
    }
}

/// The reply code that tells a client why its request could not be decoded:
/// "address type not supported" for a target of a type that the protocol
/// does not know, "general failure" for any other fault.
pub open spec fn code_of_bad_request(e: SocksError) -> u8 {
    if e is UnsupportedAddressType {
        REP_ADDRESS_TYPE_NOT_SUPPORTED
    } else {
        REP_GENERAL_FAILURE
    }
}

/// What a request that cannot be decoded leads to: the client is told why,
/// with the unspecified address in place of the one that could not be read,
/// and the session ends with the error that decoding gave.
pub open spec fn on_bad_request(e: SocksError) -> StepModel {
    refusal(reply_wire(code_of_bad_request(e), unspecified()), 0, e)
}

/// What the server does about a greeting. Where a login is required, user
/// name and password are chosen if the client offers them. Where none is
/// required, no authentication is chosen if the client offers it. Otherwise
/// every method is turned down and the session ends.
pub open spec fn on_greeting(auth_required: bool, methods: Seq<u8>, used: nat) -> StepModel {
    if auth_required && methods.contains(AUTH_PASSWORD) {
        StepModel {
            state: ServerState::AwaitingAuthChoice,
            reply: choice_wire(AUTH_PASSWORD),
            consumed: used,
            action: ActionModel::Continue,
        }
    } else if !auth_required && methods.contains(AUTH_NONE) {
        StepModel {
            state: ServerState::AwaitingRequest,
            reply: choice_wire(AUTH_NONE),
            consumed: used,
            action: ActionModel::Continue,
        }
    } else {
        refusal(choice_wire(AUTH_NOT_ACCEPTABLE), used, SocksError::NoAcceptableAuthMethod)
    }
}

/// What the server does about a decoded request: CONNECT is handed on to be
/// carried out, any other command is answered with "command not supported"
/// and the session ends.
pub open spec fn on_request(command: u8, addr: AddrModel, used: nat) -> StepModel {
    if command == CMD_CONNECT {
        StepModel {
            state: ServerState::Connecting,
            reply: Seq::empty(),
            consumed: used,
            action: ActionModel::Connect(addr),
        }
    } else {
        refusal(
            reply_wire(REP_COMMAND_NOT_SUPPORTED, addr),
            used,
            SocksError::CommandNotSupported,
        )
    }
}

/// One step of the exchange with a client up to the point where its request
/// is taken in, given the bytes received and not yet used up. A state that
/// awaits no bytes from the client ends the session.
pub open spec fn client_step(
    state: ServerState,
    auth_required: bool,
    credentials: AllowList,
    received: Seq<u8>,
) -> StepModel {
    match state {
        ServerState::AwaitingGreeting => match parse_greeting(received) {
            Ok((greeting, used)) => on_greeting(auth_required, greeting.methods, used),
            Err(e) => on_early_error(state, e),
        },
        ServerState::AwaitingAuthChoice => match parse_auth(received) {
            Ok((login, used)) => if allows(credentials, login.username, login.password) {
                StepModel {
                    state: ServerState::AwaitingRequest,
                    reply: status_wire(true),
                    consumed: used,
                    action: ActionModel::Continue,
                }
            } else {
                refusal(status_wire(false), used, SocksError::AuthenticationFailed)
            },
            Err(e) => on_early_error(state, e),
        },
        ServerState::AwaitingRequest => match parse_request(received) {
            Ok((request, used)) => on_request(request.command, request.addr, used),
            Err(SocksError::Incomplete(missing)) => awaiting(state, missing),
            Err(e) => on_bad_request(e),
        },
        _ => StepModel {
            state: ServerState::Closed,
            reply: Seq::empty(),
            consumed: 0,
            action: ActionModel::Close,
        },
    }
}

/// The reply code that stands for a failure to open the upstream connection.
pub open spec fn code_of_dial_failure(failure: DialFailure) -> u8 {
    match failure {
        DialFailure::ConnectionRefused => REP_CONNECTION_REFUSED,
        DialFailure::NetworkUnreachable => REP_NETWORK_UNREACHABLE,
        DialFailure::HostUnreachable => REP_HOST_UNREACHABLE,
        DialFailure::Other => REP_NETWORK_UNREACHABLE,
    }
}

/// The error with which a session ends after such a failure.
pub open spec fn error_of_dial_failure(failure: DialFailure) -> SocksError {
    match failure {
        DialFailure::ConnectionRefused => SocksError::ConnectionRefused,
        DialFailure::NetworkUnreachable => SocksError::NetworkUnreachable,
        DialFailure::HostUnreachable => SocksError::HostUnreachable,
        DialFailure::Other => SocksError::NetworkUnreachable,
    }
}

/// A step that asks the world for something and sends the client nothing.
pub open spec fn asking(state: ServerState, action: ActionModel) -> StepModel {
    StepModel { state, reply: Seq::empty(), consumed: 0, action }
}

/// One step of carrying out a CONNECT request for the target `addr`.
///
/// At the beginning a name is sent to be looked up and an IP address to be
/// dialled. A lookup that gave addresses leads to dialling the first; one
/// that gave none is answered with "host unreachable". An open upstream
/// connection is answered with "succeeded" and its local address, or the
/// target itself where that is not known, and then relayed. A failed one is
/// answered with the code of its failure. A failure reply echoes the target.
/// When copying ends the session is over. An event that the state does not
/// await ends the session without a word.
pub open spec fn connect_step(state: ServerState, addr: AddrModel, event: EventModel)
    -> StepModel {
    match (state, event) {
        (ServerState::Connecting, EventModel::Begin) => match addr {
            AddrModel::Domain(name, port) => asking(
                ServerState::Resolving,
                ActionModel::Resolve(name, port),
            ),
            _ => asking(ServerState::Dialing, ActionModel::Dial(addr.endpoint()->0)),
        },
        (ServerState::Resolving, EventModel::Resolved(found)) => if found.len() > 0 {
            asking(ServerState::Dialing, ActionModel::Dial(found[0]))
        } else {
            refusal(reply_wire(REP_HOST_UNREACHABLE, addr), 0, SocksError::HostUnreachable)
        },
        (ServerState::Dialing, EventModel::Connected(local)) => StepModel {
            state: ServerState::Relaying,
            reply: reply_wire(
                REP_SUCCEEDED,
                match local {
                    Some(local) => local.addr(),
                    None => addr,
                },
            ),
            consumed: 0,
            action: ActionModel::Relay,
        },
        (ServerState::Dialing, EventModel::DialFailed(failure)) => refusal(
            reply_wire(code_of_dial_failure(failure), addr),
            0,
            error_of_dial_failure(failure),
        ),
        _ => asking(ServerState::Closed, ActionModel::Close),
    }
}

/// The settings a server is made from.
pub struct ServerOptions {
    /// The address to listen on, as host and port.
    pub bind_addr: String,
    /// Whether clients must log in with a user name and password.
    pub auth_required: bool,
    /// The logins that are let in.
    pub credentials: Option<Vec<(String, String)>>,
}

impl Default for ServerOptions {
    /// Port 1080 of the local host, no login.
    fn default() -> (options: Self)
        ensures
            options.bind_addr@ == "127.0.0.1:1080"@,
            !options.auth_required,
            options.credentials is None,
    {
        ServerOptions {
            bind_addr: "127.0.0.1:1080".to_owned(),
            auth_required: false,
            credentials: None,
        }
    }
}

/// The server side: where to listen, and whom to let in.
pub struct Server {
    bind_addr: String,
    auth_required: bool,
    credentials: Option<Vec<(String, String)>>,
}

/// What a `Server` stands for.
pub struct ServerModel {
    pub bind_addr: Seq<char>,
    pub auth_required: bool,
    pub credentials: AllowList,
}

impl View for Server {
    type V = ServerModel;

    closed spec fn view(&self) -> ServerModel {
        ServerModel {
            bind_addr: self.bind_addr@,
            auth_required: self.auth_required,
            credentials: allow_list(self.credentials),
        }
    }
}

impl Server {
    /// A server on `bind_addr` that asks for no login.
    pub fn new(bind_addr: String) -> (server: Self)
        ensures
            server@ == (ServerModel {
                bind_addr: bind_addr@,
                auth_required: false,
                credentials: None,
            }),
    {
        Server { bind_addr, auth_required: false, credentials: None }
    }

    /// A server with these settings.
    pub fn from_options(options: ServerOptions) -> (server: Self)
        ensures
            server@ == (ServerModel {
                bind_addr: options.bind_addr@,
                auth_required: options.auth_required,
                credentials: allow_list(options.credentials),
            }),
    {
        Server {
            bind_addr: options.bind_addr,
            auth_required: options.auth_required,
            credentials: options.credentials,
        }
    }

    /// The address to listen on.
    pub fn bind_addr(&self) -> (addr: &str)
        ensures
            addr@ == self@.bind_addr,
    {
        self.bind_addr.as_str()
    }

    /// One step of the exchange with an accepted client, under this server's
    /// settings.
    pub fn handle_client(&self, state: ServerState, received: &[u8]) -> (step: ServerStep)
        ensures
            step@ == client_step(state, self@.auth_required, self@.credentials, received@),
    {
        handle_client(state, self.auth_required, &self.credentials, received)
    }
}

/// Whether the method is among those offered.
fn offers(methods: &Vec<u8>, method: u8) -> (found: bool)
    ensures
        found == methods@.contains(method),
{
    let mut i: usize = 0;
    while i < methods.len()
        invariant
            i <= methods@.len(),
            forall|j: int| 0 <= j < i ==> methods@[j] != method,
        decreases methods@.len() - i,
    {
        if methods[i] == method {
            return true;
        }
        i = i + 1;
    }
    false
}

/// Whether the list lets this user name and password in: whether it holds
/// exactly this pair.
pub fn check_credentials(
    credentials: &Option<Vec<(String, String)>>,
    username: &String,
    password: &String,
) -> (allowed: bool)
    ensures
        allowed == allows(allow_list(*credentials), username@, password@),
{
    match credentials {
        None => false,
        Some(list) => {
            let ghost logins = allow_list(*credentials)->0;
            let mut i: usize = 0;
            while i < list.len()
                invariant
                    i <= list@.len(),
                    allow_list(*credentials) == Some(logins),
                    logins.len() == list@.len(),
                    forall|j: int|
                        0 <= j < list@.len() ==> #[trigger] logins[j] == (list@[j].0@, list@[j].1@),
                    forall|j: int| 0 <= j < i ==> logins[j] != (username@, password@),
                decreases list@.len() - i,
            {
                if list[i].0 == *username && list[i].1 == *password {
                    assert(logins[i as int] == (username@, password@));
                    assert(logins.contains((username@, password@)));
                    return true;
                }
                i = i + 1;
            }
            false
        },
    }
}

/// The bytes of a reply with this code that echoes this address, or the
/// unspecified address in place of one that has no wire form.
fn reply_bytes(code: u8, addr: &SocksAddr) -> (bytes: Vec<u8>)
    ensures
        bytes@ == reply_wire(code, addr@),
{
    let mut bytes: Vec<u8> = Vec::new();
    let reply = Reply::new(code, addr.clone());
    match reply.write_to(&mut bytes) {
        Ok(()) => {
            assert(bytes@ =~= reply_wire(code, addr@));
        },
        Err(_) => {
            let fallback = Reply::new(code, SocksAddr::Ipv4([0, 0, 0, 0], 0));
            let _ = fallback.write_to(&mut bytes);
            assert(bytes@ =~= reply_wire(code, addr@));
        },
    }
    bytes
}

/// A step that ends the session in failure after a last word to the client.
fn refuse(reply: Vec<u8>, consumed: usize, e: SocksError) -> (step: ServerStep)
    ensures
        step@ == refusal(reply@, consumed as nat, e),
{
    ServerStep { state: ServerState::Closed, reply, consumed, action: ServerAction::Abort(e) }
}

/// A step that sends the client nothing and uses up nothing.
fn ask(state: ServerState, action: ServerAction) -> (step: ServerStep)
    ensures
        step@ == asking(state, action@),
{
    ServerStep { state, reply: Vec::new(), consumed: 0, action }
}

/// One step of the exchange with an accepted client, up to the point where
/// its request is taken in. `received` holds the bytes that came from the
/// client and that no earlier step has used up. The reply is to be written
/// first; then the action says how to go on.
pub fn handle_client(
    state: ServerState,
    auth_required: bool,
    credentials: &Option<Vec<(String, String)>>,
    received: &[u8],
) -> (step: ServerStep)
    ensures
        step@ == client_step(state, auth_required, allow_list(*credentials), received@),
{
    match state {
        ServerState::AwaitingGreeting => {
            match HandshakeRequest::read_from(received) {
                Err(SocksError::Incomplete(missing)) => ask(state, ServerAction::Read(missing)),
                Err(e) => refuse(Vec::new(), 0, e),
                Ok((greeting, used)) => {
                    let mut reply: Vec<u8> = Vec::new();
                    if auth_required && offers(&greeting.methods, AUTH_PASSWORD) {
                        encode_choice(AUTH_PASSWORD, &mut reply);
                        ServerStep {
                            state: ServerState::AwaitingAuthChoice,
                            reply,
                            consumed: used,
                            action: ServerAction::Continue,
                        }
                    } else if !auth_required && offers(&greeting.methods, AUTH_NONE) {
                        encode_choice(AUTH_NONE, &mut reply);
                        ServerStep {
                            state: ServerState::AwaitingRequest,
                            reply,
                            consumed: used,
                            action: ServerAction::Continue,
                        }
                    } else {
                        encode_choice(AUTH_NOT_ACCEPTABLE, &mut reply);
                        refuse(reply, used, SocksError::NoAcceptableAuthMethod)
                    }
                },
            }
        },
        ServerState::AwaitingAuthChoice => {
            match UserPassAuth::read_from(received) {
                Err(SocksError::Incomplete(missing)) => ask(state, ServerAction::Read(missing)),
                Err(e) => refuse(Vec::new(), 0, e),
                Ok((login, used)) => {
                    let mut reply: Vec<u8> = Vec::new();
                    if check_credentials(credentials, &login.username, &login.password) {
                        encode_status(true, &mut reply);
                        ServerStep {
                            state: ServerState::AwaitingRequest,
                            reply,
                            consumed: used,
                            action: ServerAction::Continue,
                        }
                    } else {
                        encode_status(false, &mut reply);
                        refuse(reply, used, SocksError::AuthenticationFailed)
                    }
                },
            }
        },
        ServerState::AwaitingRequest => {
            match Request::read_from(received) {
                Err(SocksError::Incomplete(missing)) => ask(state, ServerAction::Read(missing)),
                Err(e) => {
                    let code: u8 = match e {
                        SocksError::UnsupportedAddressType => REP_ADDRESS_TYPE_NOT_SUPPORTED,
                        _ => REP_GENERAL_FAILURE,
                    };
                    refuse(reply_bytes(code, &SocksAddr::Ipv4([0, 0, 0, 0], 0)), 0, e)
                },
                Ok((request, used)) => {
                    if request.command == CMD_CONNECT {
                        ServerStep {
                            state: ServerState::Connecting,
                            reply: Vec::new(),
                            consumed: used,
                            action: ServerAction::Connect(request.addr),
                        }
                    } else {
                        refuse(
                            reply_bytes(REP_COMMAND_NOT_SUPPORTED, &request.addr),
                            used,
                            SocksError::CommandNotSupported,
                        )
                    }
                },
            }
        },
        _ => ask(ServerState::Closed, ServerAction::Close),
    }
}

/// One step of carrying out a CONNECT request for the target `addr`, on the
/// event that the world reports. The reply is to be written to the client
/// first; then the action says how to go on.
pub fn handle_connect(state: ServerState, addr: &SocksAddr, event: ConnectEvent) -> (step:
    ServerStep)
    ensures
        step@ == connect_step(state, addr@, event@),
{
    match (state, event) {
        (ServerState::Connecting, ConnectEvent::Begin) => {
            match addr {
                SocksAddr::Domain(name, port) => ask(
                    ServerState::Resolving,
                    ServerAction::Resolve(name.clone(), *port),
                ),
                SocksAddr::Ipv4(a, port) => ask(
                    ServerState::Dialing,
                    ServerAction::Dial(Endpoint::V4(*a, *port)),
                ),
                SocksAddr::Ipv6(a, port) => ask(
                    ServerState::Dialing,
                    ServerAction::Dial(Endpoint::V6(*a, *port)),
                ),
            }
        },
        (ServerState::Resolving, ConnectEvent::Resolved(found)) => {
            if found.len() > 0 {
                ask(ServerState::Dialing, ServerAction::Dial(found[0]))
            } else {
                refuse(reply_bytes(REP_HOST_UNREACHABLE, addr), 0, SocksError::HostUnreachable)
            }
        },
        (ServerState::Dialing, ConnectEvent::Connected(local)) => {
            let reply: Vec<u8> = match local {
                Some(local) => reply_bytes(REP_SUCCEEDED, &local.to_socks_addr()),
                None => reply_bytes(REP_SUCCEEDED, addr),
            };
            ServerStep {
                state: ServerState::Relaying,
                reply,
                consumed: 0,
                action: ServerAction::Relay,
            }
        },
        (ServerState::Dialing, ConnectEvent::DialFailed(failure)) => {
            let (code, e) = dial_failure_reply(failure);
            refuse(reply_bytes(code, addr), 0, e)
        },
        _ => ask(ServerState::Closed, ServerAction::Close),
    }
}

/// The reply code that stands for a failure to open the upstream connection,
/// and the error with which the session ends.
pub fn dial_failure_reply(failure: DialFailure) -> (r: (u8, SocksError))
    ensures
        r.0 == code_of_dial_failure(failure),
        r.1 == error_of_dial_failure(failure),
{
    match failure {
        DialFailure::ConnectionRefused => (REP_CONNECTION_REFUSED, SocksError::ConnectionRefused),
        DialFailure::NetworkUnreachable => (
            REP_NETWORK_UNREACHABLE,
            SocksError::NetworkUnreachable,
        ),
        DialFailure::HostUnreachable => (REP_HOST_UNREACHABLE, SocksError::HostUnreachable),
        DialFailure::Other => (REP_NETWORK_UNREACHABLE, SocksError::NetworkUnreachable),
    }
}

/// A request for any command but CONNECT is answered with "command not
/// supported", echoing its target, and ends the session: nothing is looked
/// up, dialled or relayed for it.
pub proof fn lemma_other_commands_refused(
    auth_required: bool,
    credentials: AllowList,
    received: Seq<u8>,
)
    requires
        parse_request(received) is Ok,
        parse_request(received)->Ok_0.0.command != CMD_CONNECT,
    ensures
        ({
            let request = parse_request(received)->Ok_0.0;
            let step = client_step(
                ServerState::AwaitingRequest,
                auth_required,
                credentials,
                received,
            );
            &&& step.state == ServerState::Closed
            &&& step.action == ActionModel::Abort(SocksError::CommandNotSupported)
            &&& step.reply == reply_wire(REP_COMMAND_NOT_SUPPORTED, request.addr)
            &&& step.reply[0] == SOCKS_VERSION
            &&& step.reply[1] == REP_COMMAND_NOT_SUPPORTED
        }),
{
}

/// A request that cannot be decoded ends the session with the error that
/// decoding gave, after a reply that tells the client why: "address type not
/// supported" exactly for a target of an unknown type. Nothing is used up,
/// and nothing is looked up, dialled or relayed.
pub proof fn lemma_bad_request_answered(
    auth_required: bool,
    credentials: AllowList,
    received: Seq<u8>,
)
    requires
        parse_request(received) is Err,
        !(parse_request(received)->Err_0 is Incomplete),
    ensures
        ({
            let e = parse_request(received)->Err_0;
            let step = client_step(
                ServerState::AwaitingRequest,
                auth_required,
                credentials,
                received,
            );
            &&& step.state == ServerState::Closed
            &&& step.action == ActionModel::Abort(e)
            &&& step.consumed == 0
            &&& step.reply == reply_wire(code_of_bad_request(e), unspecified())
            &&& step.reply[0] == SOCKS_VERSION
            &&& step.reply[1] == REP_ADDRESS_TYPE_NOT_SUPPORTED <==> e
                == SocksError::UnsupportedAddressType
            &&& e == SocksError::UnsupportedAddressType <==> received.len() >= 4 && received[0]
                == SOCKS_VERSION && received[3] != 1 && received[3] != 3 && received[3] != 4
        }),
{
    if received.len() >= 3 {
        assert(received.skip(3).len() == received.len() - 3);
        if received.len() >= 4 {
            assert(received.skip(3)[0] == received[3]);
        }
    }
}

/// The exchange with the client never asks for a lookup, a dial or a relay
/// itself. It hands a target on only for a CONNECT request, in the state that
/// awaits the request, and only then does the session come to `Connecting`.
pub proof fn lemma_connect_only_on_request(
    state: ServerState,
    auth_required: bool,
    credentials: AllowList,
    received: Seq<u8>,
)
    ensures
        ({
            let step = client_step(state, auth_required, credentials, received);
            &&& !(step.action is Resolve) && !(step.action is Dial) && !(step.action is Relay)
            &&& step.state == ServerState::Connecting <==> step.action is Connect
            &&& step.action is Connect ==> {
                &&& state == ServerState::AwaitingRequest
                &&& parse_request(received) is Ok
                &&& parse_request(received)->Ok_0.0.command == CMD_CONNECT
                &&& step.action == ActionModel::Connect(parse_request(received)->Ok_0.0.addr)
            }
        }),
{
}

/// A client is never asked for bytes that it did not have to send: a step
/// uses up no more than it was given, and only a step that decoded a whole
/// message uses up anything.
pub proof fn lemma_step_uses_what_it_decoded(
    state: ServerState,
    auth_required: bool,
    credentials: AllowList,
    received: Seq<u8>,
)
    ensures
        ({
            let step = client_step(state, auth_required, credentials, received);
            &&& step.consumed <= received.len()
            &&& step.action is Read ==> step.state == state && step.consumed == 0
                && step.reply.len() == 0 && step.action->Read_0 > 0
        }),
{
}

/// Relaying begins only on an open upstream connection, after a reply that
/// says "succeeded". A failed dial is answered with the code of its failure,
/// which is never "succeeded", and ends the session; a refused connection is
/// answered with "connection refused".
pub proof fn lemma_relay_only_after_success(state: ServerState, addr: AddrModel, event: EventModel)
    ensures
        ({
            let step = connect_step(state, addr, event);
            &&& step.action is Relay <==> state == ServerState::Dialing && event is Connected
            &&& step.action is Relay ==> step.state == ServerState::Relaying && step.reply[1]
                == REP_SUCCEEDED
            &&& state == ServerState::Dialing && event is DialFailed ==> {
                &&& step.state == ServerState::Closed
                &&& step.action is Abort
                &&& step.reply[1] == code_of_dial_failure(event->DialFailed_0)
                &&& step.reply[1] != REP_SUCCEEDED
            }
            &&& state == ServerState::Dialing && event == EventModel::DialFailed(
                DialFailure::ConnectionRefused,
            ) ==> step.reply[1] == REP_CONNECTION_REFUSED
        }),
{
}

/// The place of a state in the order in which a session passes through them.
pub open spec fn rank(state: ServerState) -> nat {
    match state {
        ServerState::AwaitingGreeting => 0,
        ServerState::AwaitingAuthChoice => 1,
        ServerState::AwaitingRequest => 2,
        ServerState::Connecting => 3,
        ServerState::Resolving => 4,
        ServerState::Dialing => 5,
        ServerState::Relaying => 6,
        ServerState::Closed => 7,
    }
}

/// A session only moves forward: no step leads to an earlier state, a step
/// that stays in its state only asks for more bytes, and nothing leads out
/// of `Closed`.
pub proof fn lemma_session_moves_forward(
    state: ServerState,
    auth_required: bool,
    credentials: AllowList,
    received: Seq<u8>,
    addr: AddrModel,
    event: EventModel,
)
    ensures
        rank(state) <= rank(client_step(state, auth_required, credentials, received).state),
        rank(state) <= rank(connect_step(state, addr, event).state),
        client_step(state, auth_required, credentials, received).state == state ==> state
            == ServerState::Closed || client_step(
            state,
            auth_required,
            credentials,
            received,
        ).action is Read,
        connect_step(state, addr, event).state == state ==> state == ServerState::Closed,
        client_step(state, auth_required, credentials, received).action is Abort
            || client_step(state, auth_required, credentials, received).action is Close
            <==> client_step(state, auth_required, credentials, received).state
            == ServerState::Closed,
{
}

} // verus!
