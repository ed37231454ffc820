//! What holds when the two roles of this crate talk to each other.

use vstd::prelude::*;
use crate::client::connect_request;
use crate::client::request_connection;
use crate::client::ClientModel;
use crate::client::ClientState;
use crate::client::ClientStepModel;
use crate::error::SocksError;
use crate::protocol::choice_wire;
use crate::protocol::lemma_addr_roundtrip;
use crate::protocol::lemma_auth_roundtrip;
use crate::protocol::lemma_request_roundtrip;
use crate::protocol::parse_greeting;
use crate::protocol::status_wire;
use crate::protocol::AddrModel;
use crate::protocol::AuthModel;
use crate::protocol::RequestModel;
use crate::protocol::AUTH_NONE;
use crate::protocol::AUTH_PASSWORD;
use crate::protocol::CMD_CONNECT;
use crate::protocol::REP_SUCCEEDED;
use crate::protocol::SOCKS_VERSION;
use crate::server::allows;
use crate::server::client_step;
use crate::server::refusal;
use crate::server::reply_wire;
use crate::server::ActionModel;
use crate::server::AllowList;
use crate::server::ServerState;
use crate::server::StepModel;

verus! {

/// Every client's greeting is well formed and offers no authentication; it
/// offers user name and password exactly if the client has them.
pub proof fn lemma_greeting_offers(client: ClientModel)
    ensures
        parse_greeting(client.greeting()) is Ok,
        parse_greeting(client.greeting())->Ok_0.1 == client.greeting().len(),
        parse_greeting(client.greeting())->Ok_0.0.methods.contains(AUTH_NONE),
        parse_greeting(client.greeting())->Ok_0.0.methods.contains(AUTH_PASSWORD)
            <==> client.auth is Some,
{
    let g = client.greeting();
    let methods = parse_greeting(g)->Ok_0.0.methods;
    if client.auth is Some {
        assert(methods =~= seq![AUTH_NONE, AUTH_PASSWORD]);
        assert(methods[0] == AUTH_NONE);
        assert(methods[1] == AUTH_PASSWORD);
    } else {
        assert(methods =~= seq![AUTH_NONE]);
        assert(methods[0] == AUTH_NONE);
    }
}

/// A server that asks for no login answers any client's greeting with the
/// choice of no authentication, and on that answer the client goes on to its
/// request.
pub proof fn lemma_open_server_accepts(client: ClientModel, credentials: AllowList)
    ensures
        client_step(ServerState::AwaitingGreeting, false, credentials, client.greeting())
            == (StepModel {
            state: ServerState::AwaitingRequest,
            reply: choice_wire(AUTH_NONE),
            consumed: client.greeting().len(),
            action: ActionModel::Continue,
        }),
        choice_wire(AUTH_NONE) == seq![5u8, 0u8],
        client.handshake(ClientState::Handshaking, choice_wire(AUTH_NONE)) == Ok::<
            ClientStepModel,
            SocksError,
        >(ClientStepModel { state: ClientState::Requesting, output: Seq::empty(), consumed: 2 }),
{
    lemma_greeting_offers(client);
}

/// A server that asks for a login turns down a client that has none: it
/// answers the greeting with "no acceptable method" and ends the session, and
/// on that answer the client gives up.
pub proof fn lemma_login_required(client: ClientModel, credentials: AllowList)
    requires
        client.auth is None,
    ensures
        client_step(ServerState::AwaitingGreeting, true, credentials, client.greeting())
            == refusal(
            seq![5u8, 0xFFu8],
            client.greeting().len(),
            SocksError::NoAcceptableAuthMethod,
        ),
        client.handshake(ClientState::Handshaking, seq![5u8, 0xFFu8]) == Err::<
            ClientStepModel,
            SocksError,
        >(SocksError::NoAcceptableAuthMethod),
{
    lemma_greeting_offers(client);
}

/// A client that has a user name and password is asked for them by a server
/// that asks for a login, and sends them. If the server's list holds the pair
/// the server says so and awaits the request, and the client goes on to send
/// it. If not, the server says so and ends the session, and the client gives
/// up with `AuthenticationFailed`: no request is sent.
pub proof fn lemma_login(
    client: ClientModel,
    credentials: AllowList,
    username: Seq<char>,
    password: Seq<char>,
)
    requires
        client.auth == Some((username, password)),
        (AuthModel { username, password }).encodable(),
    ensures
        ({
            let login = AuthModel { username, password }.wire();
            let asked = client_step(
                ServerState::AwaitingGreeting,
                true,
                credentials,
                client.greeting(),
            );
            let sent = client.handshake(ClientState::Handshaking, asked.reply);
            let verdict = client_step(ServerState::AwaitingAuthChoice, true, credentials, login);
            let end = client.handshake(ClientState::Authenticating, verdict.reply);
            &&& asked.state == ServerState::AwaitingAuthChoice
            &&& asked.reply == choice_wire(AUTH_PASSWORD)
            &&& sent == Ok::<ClientStepModel, SocksError>(
                ClientStepModel { state: ClientState::Authenticating, output: login, consumed: 2 },
            )
            &&& verdict.consumed == login.len()
            &&& allows(credentials, username, password) ==> {
                &&& verdict.state == ServerState::AwaitingRequest
                &&& verdict.reply == seq![1u8, 0u8]
                &&& verdict.action == ActionModel::Continue
                &&& end == Ok::<ClientStepModel, SocksError>(
                    ClientStepModel {
                        state: ClientState::Requesting,
                        output: Seq::empty(),
                        consumed: 2,
                    },
                )
            }
            &&& !allows(credentials, username, password) ==> {
                &&& verdict.state == ServerState::Closed
                &&& verdict.reply == seq![1u8, 1u8]
                &&& verdict.action == ActionModel::Abort(SocksError::AuthenticationFailed)
                &&& end == Err::<ClientStepModel, SocksError>(SocksError::AuthenticationFailed)
            }
        }),
{
    lemma_greeting_offers(client);
    lemma_auth_roundtrip(AuthModel { username, password }, Seq::empty());
    let login = AuthModel { username, password }.wire();
    assert(login + Seq::<u8>::empty() =~= login);
    assert(status_wire(true) =~= seq![1u8, 0u8]);
    assert(status_wire(false) =~= seq![1u8, 1u8]);
}

/// The request that a client sends for a target reaches the server as a
/// CONNECT request for that target, all of whose bytes are used up.
pub proof fn lemma_request_understood(
    target: AddrModel,
    auth_required: bool,
    credentials: AllowList,
)
    requires
        target.encodable(),
    ensures
        request_connection(ClientState::Requesting, Seq::empty(), target) == Ok::<
            ClientStepModel,
            SocksError,
        >(
            ClientStepModel {
                state: ClientState::AwaitingReply,
                output: connect_request(target),
                consumed: 0,
            },
        ),
        client_step(
            ServerState::AwaitingRequest,
            auth_required,
            credentials,
            connect_request(target),
        ) == (StepModel {
            state: ServerState::Connecting,
            reply: Seq::empty(),
            consumed: connect_request(target).len(),
            action: ActionModel::Connect(target),
        }),
{
    let request = RequestModel { version: SOCKS_VERSION, command: CMD_CONNECT, addr: target };
    lemma_request_roundtrip(request, Seq::empty());
    assert(request.wire() + Seq::<u8>::empty() =~= request.wire());
}

/// On a server's reply the client does what the reply code says. After
/// "succeeded" the session is established and exactly the reply is used up:
/// the bytes behind it are the target's, untouched. After any other code the
/// client gives up with `ProxyRejected` and that code.
pub proof fn lemma_reply_understood(code: u8, addr: AddrModel, target: AddrModel, payload: Seq<u8>)
    ensures
        code == REP_SUCCEEDED ==> request_connection(
            ClientState::AwaitingReply,
            reply_wire(code, addr) + payload,
            target,
        ) == Ok::<ClientStepModel, SocksError>(
            ClientStepModel {
                state: ClientState::Established,
                output: Seq::empty(),
                consumed: reply_wire(code, addr).len(),
            },
        ),
        code != REP_SUCCEEDED ==> request_connection(
            ClientState::AwaitingReply,
            reply_wire(code, addr) + payload,
            target,
        ) == Err::<ClientStepModel, SocksError>(SocksError::ProxyRejected(code)),
{
    let echoed = if addr.encodable() {
        addr
    } else {
        crate::server::unspecified()
    };
    let s = reply_wire(code, addr) + payload;
    lemma_addr_roundtrip(echoed, payload);
    assert(s.skip(3) =~= echoed.wire() + payload);
}

} // verus!
