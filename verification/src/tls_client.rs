use std::sync::Arc;
use vstd::prelude::*;
use crate::client::stepped;
use crate::client::Client;
use crate::client::ClientModel;
use crate::client::ClientState;
use crate::client::ClientStep;
use crate::create_insecure_client_config;
use crate::error::SocksError;
use crate::protocol::AddrModel;
use crate::protocol::Endpoint;

verus! {

/// The name by which a TLS server is known, as `rustls` holds it. Nothing in
/// this crate looks inside.
#[verifier::external_type_specification]
#[verifier::external_body]
pub struct ExServerName(rustls::ServerName);

/// Whether `rustls::ServerName::try_from` takes a text as the name of a
/// server: whether it is a DNS name or an IP address in that library's eyes.
pub uninterp spec fn is_server_name(host: Seq<char>) -> bool;

/// `rustls::ServerName::try_from` on a text: the server name that it makes
/// of the text, or nothing where it turns the text down.
#[verifier::external_body]
fn server_name_of(host: &str) -> (name: Option<rustls::ServerName>)
    ensures
        name is Some <==> is_server_name(host@),
{
    match rustls::ServerName::try_from(host) {
        Ok(name) => Some(name),
        Err(_) => None,
    }
}

/// The client side of a proxy that is reached over TLS.
pub struct TlsClient {
    proxy_host: String,
    proxy_port: u16,
    auth: Option<(String, String)>,
    tls_config: Arc<rustls::ClientConfig>,
}

impl View for TlsClient {
    type V = ClientModel;

    /// The client that speaks to the proxy once the TLS transport is up.
    closed spec fn view(&self) -> ClientModel {
        ClientModel {
            proxy_addr: self.proxy_host@,
            proxy_port: self.proxy_port,
            auth: match self.auth {
                Some((username, password)) => Some((username@, password@)),
                None => None,
            },
        }
    }
}

/// The TLS settings with which the proxy is reached: those that trust no
/// root and present no certificate. They offer no protocol by ALPN.
fn create_tls_config() -> (config: Arc<rustls::ClientConfig>)
    ensures
        crate::client_alpn_protocols(*config) == Seq::<Seq<u8>>::empty(),
{
    create_insecure_client_config()
}

impl TlsClient {
    /// A client of the proxy at `proxy_host`, `proxy_port` that logs in with nothing.
    pub fn new(proxy_host: String, proxy_port: u16) -> (client: Self)
        ensures
            client@ == (ClientModel { proxy_addr: proxy_host@, proxy_port, auth: None }),
            crate::client_alpn_protocols(*client.tls_settings()) == Seq::<Seq<u8>>::empty(),
    {
        let tls_config = create_tls_config();
        TlsClient { proxy_host, proxy_port, auth: None, tls_config }
    }

    /// A client of the proxy at `proxy_host`, `proxy_port` that can log in
    /// with a user name and password.
    pub fn with_auth(proxy_host: String, proxy_port: u16, username: String, password: String) -> (client:
        Self)
        ensures
            client@ == (ClientModel {
                proxy_addr: proxy_host@,
                proxy_port,
                auth: Some((username@, password@)),
            }),
            crate::client_alpn_protocols(*client.tls_settings()) == Seq::<Seq<u8>>::empty(),
    {
        let tls_config = create_tls_config();
        TlsClient { proxy_host, proxy_port, auth: Some((username, password)), tls_config }
    }

    /// The proxy's host, which is also the name its certificate must bear.
    pub fn proxy_host(&self) -> (host: &str)
        ensures
            host@ == self@.proxy_addr,
    {
        self.proxy_host.as_str()
    }

    /// The proxy's port.
    pub fn proxy_port(&self) -> (port: u16)
        ensures
            port == self@.proxy_port,
    {
        self.proxy_port
    }

    /// The TLS settings with which the proxy is reached: those that the
    /// client was made with.
    pub fn tls_config(&self) -> (config: &Arc<rustls::ClientConfig>)
        ensures
            *config == self.tls_settings(),
    {
        &self.tls_config
    }

    /// The TLS settings, as contracts speak of them.
    pub closed spec fn tls_settings(&self) -> Arc<rustls::ClientConfig> {
        self.tls_config
    }

    /// The name that the proxy's certificate must bear: the proxy's host, if
    /// the TLS library takes it for a server's name.
    pub fn server_name(&self) -> (name: Option<rustls::ServerName>)
        ensures
            name is Some <==> is_server_name(self@.proxy_addr),
    {
        server_name_of(self.proxy_host.as_str())
    }

    /// The client that speaks to the proxy over the TLS transport: the same
    /// proxy, the same login.
    pub fn client(&self) -> (client: Client)
        ensures
            client@ == self@,
    {
        match &self.auth {
            Some((username, password)) => Client::with_auth(
                self.proxy_host.clone(),
                self.proxy_port,
                username.clone(),
                password.clone(),
            ),
            None => Client::new(self.proxy_host.clone(), self.proxy_port),
        }
    }

    /// One step of a session over TLS whose target is the name `domain` with
    /// `port`: the proxy is to look the name up.
    pub fn connect_to_domain(&self, state: ClientState, received: &[u8], domain: &str, port: u16)
        -> (r: Result<ClientStep, SocksError>)
        ensures
            stepped(r) == self@.connect(state, received@, AddrModel::Domain(domain@, port)),
    {
        self.client().connect_to_domain(state, received, domain, port)
    }

    /// One step of a session over TLS whose target is an address that needs
    /// no lookup.
    pub fn connect_to_target(&self, state: ClientState, received: &[u8], target: Endpoint) -> (r:
        Result<ClientStep, SocksError>)
        ensures
            stepped(r) == self@.connect(state, received@, target.addr()),
    {
        self.client().connect_to_target(state, received, target)
    }
}

} // verus!
