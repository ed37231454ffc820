use std::sync::Arc;
use vstd::prelude::*;
use crate::server::client_step;
use crate::server::Server;
use crate::server::ServerModel;
use crate::server::ServerOptions;
use crate::server::ServerState;
use crate::server::ServerStep;

verus! {

/// The TLS settings of a server, as `rustls` holds them. Nothing in this
/// crate looks inside but for the list of ALPN protocols.
#[verifier::external_type_specification]
#[verifier::external_body]
pub struct ExServerConfig(rustls::ServerConfig);

/// The DER forms of the certificates that `rustls_pemfile::certs` finds in a
/// PEM text, in their order; nothing where the text is malformed.
pub uninterp spec fn pem_certificates(pem: Seq<u8>) -> Option<Seq<Seq<u8>>>;

/// The DER forms of the PKCS#8 private keys that
/// `rustls_pemfile::pkcs8_private_keys` finds in a PEM text, in their order;
/// nothing where the text is malformed.
pub uninterp spec fn pem_private_keys(pem: Seq<u8>) -> Option<Seq<Seq<u8>>>;

/// The ALPN protocols that the settings offer: the field `alpn_protocols`.
pub uninterp spec fn alpn_protocols(config: rustls::ServerConfig) -> Seq<Seq<u8>>;

/// What a list of byte strings stands for.
pub open spec fn byte_strings(list: Vec<Vec<u8>>) -> Seq<Seq<u8>> {
    list@.map_values(|item: Vec<u8>| item@)
}

/// What an optional list of byte strings stands for.
pub open spec fn found(list: Option<Vec<Vec<u8>>>) -> Option<Seq<Seq<u8>>> {
    match list {
        Some(list) => Some(byte_strings(list)),
        None => None,
    }
}

/// `rustls_pemfile::certs` on a reader over `pem`: the certificates of the
/// text, or nothing where the call reports an error.
#[verifier::external_body]
fn read_certs(pem: &[u8]) -> (certs: Option<Vec<Vec<u8>>>)
    ensures
        found(certs) == pem_certificates(pem@),
{
    let mut reader = pem;
    match rustls_pemfile::certs(&mut reader) {
        Ok(certs) => Some(certs),
        Err(_) => None,
    }
}

/// `rustls_pemfile::pkcs8_private_keys` on a reader over `pem`: the PKCS#8
/// keys of the text, or nothing where the call reports an error.
#[verifier::external_body]
fn read_private_keys(pem: &[u8]) -> (keys: Option<Vec<Vec<u8>>>)
    ensures
        found(keys) == pem_private_keys(pem@),
{
    let mut reader = pem;
    match rustls_pemfile::pkcs8_private_keys(&mut reader) {
        Ok(keys) => Some(keys),
        Err(_) => None,
    }
}

/// The builder of `rustls::ServerConfig` with the library's default suites,
/// groups and versions, no client authentication and, through
/// `with_single_cert`, this certificate chain and private key. Nothing comes
/// back where the library turns the key down; whether it does is not said
/// here.
#[verifier::external_body]
fn single_cert_config(chain: Vec<Vec<u8>>, key: Vec<u8>) -> Option<rustls::ServerConfig> {
    let chain: Vec<rustls::Certificate> = chain.into_iter().map(rustls::Certificate).collect();
    let built = rustls::ServerConfig::builder()
        .with_safe_defaults()
        .with_no_client_auth()
        .with_single_cert(chain, rustls::PrivateKey(key));
    match built {
        Ok(config) => Some(config),
        Err(_) => None,
    }
}

/// Sets the field `alpn_protocols` of the settings to this list.
#[verifier::external_body]
fn set_alpn_protocols(config: &mut rustls::ServerConfig, protocols: Vec<Vec<u8>>)
    ensures
        alpn_protocols(*final(config)) == byte_strings(protocols),
{
    config.alpn_protocols = protocols;
}

/// Why TLS settings could not be made from a certificate file and a key file.
#[derive(Clone, Copy, Debug, PartialEq, Eq, Structural)]
pub enum TlsConfigError {
    /// The certificate file is not well-formed PEM.
    BadCertificates,
    /// The key file is not well-formed PEM.
    BadKeys,
    /// The key file holds no PKCS#8 private key.
    NoPrivateKey,
    /// The TLS library turned the private key down.
    KeyRejected,
}

/// The name of the one protocol that the server offers by ALPN.
pub open spec fn http_1_1() -> Seq<u8> {
    seq![0x68u8, 0x74u8, 0x74u8, 0x70u8, 0x2fu8, 0x31u8, 0x2eu8, 0x31u8]
}

/// The private key that a key file stands for: its first.
pub fn first_private_key(keys: Vec<Vec<u8>>) -> (r: Result<Vec<u8>, TlsConfigError>)
    ensures
        keys@.len() == 0 ==> r == Err::<Vec<u8>, TlsConfigError>(TlsConfigError::NoPrivateKey),
        keys@.len() > 0 ==> r is Ok && r->Ok_0@ == keys@[0]@,
{
    let mut keys = keys;
    if keys.len() == 0 {
        Err(TlsConfigError::NoPrivateKey)
    } else {
        Ok(keys.swap_remove(0))
    }
}

/// What becomes of the settings that the TLS library built, or did not
/// build: they offer HTTP/1.1 by ALPN and nothing else, or the key was
/// turned down.
pub fn finish_config(built: Option<rustls::ServerConfig>) -> (r: Result<
    Arc<rustls::ServerConfig>,
    TlsConfigError,
>)
    ensures
        built is None ==> r == Err::<Arc<rustls::ServerConfig>, TlsConfigError>(
            TlsConfigError::KeyRejected,
        ),
        built is Some ==> r is Ok && alpn_protocols(*r->Ok_0) == seq![http_1_1()],
{
    match built {
        None => Err(TlsConfigError::KeyRejected),
        Some(config) => {
            let mut config = config;
            let mut name: Vec<u8> = Vec::new();
            name.push(0x68);
            name.push(0x74);
            name.push(0x74);
            name.push(0x70);
            name.push(0x2f);
            name.push(0x31);
            name.push(0x2e);
            name.push(0x31);
            assert(name@ =~= http_1_1());
            let mut protocols: Vec<Vec<u8>> = Vec::new();
            protocols.push(name);
            assert(byte_strings(protocols) =~= seq![http_1_1()]);
            set_alpn_protocols(&mut config, protocols);
            Ok(Arc::new(config))
        },
    }
}

/// TLS settings for a server from the text of a certificate file and of a
/// key file, both PEM. The certificates of the first form the chain, the
/// first PKCS#8 key of the second is its private key. The certificate file
/// is judged first. Whether the TLS library accepts the key is its own
/// matter: if it does, the settings offer HTTP/1.1 by ALPN.
pub fn load_tls_config(cert_pem: &[u8], key_pem: &[u8]) -> (r: Result<
    Arc<rustls::ServerConfig>,
    TlsConfigError,
>)
    ensures
        pem_certificates(cert_pem@) is None ==> r == Err::<
            Arc<rustls::ServerConfig>,
            TlsConfigError,
        >(TlsConfigError::BadCertificates),
        pem_certificates(cert_pem@) is Some && pem_private_keys(key_pem@) is None ==> r == Err::<
            Arc<rustls::ServerConfig>,
            TlsConfigError,
        >(TlsConfigError::BadKeys),
        pem_certificates(cert_pem@) is Some && pem_private_keys(key_pem@) is Some
            && pem_private_keys(key_pem@)->0.len() == 0 ==> r == Err::<
            Arc<rustls::ServerConfig>,
            TlsConfigError,
        >(TlsConfigError::NoPrivateKey),
        pem_certificates(cert_pem@) is Some && pem_private_keys(key_pem@) is Some
            && pem_private_keys(key_pem@)->0.len() > 0 ==> r is Ok || r == Err::<
            Arc<rustls::ServerConfig>,
            TlsConfigError,
        >(TlsConfigError::KeyRejected),
        r is Ok ==> alpn_protocols(*r->Ok_0) == seq![http_1_1()],
{
    let certs: Vec<Vec<u8>> = match read_certs(cert_pem) {
        None => { return Err(TlsConfigError::BadCertificates); },
        Some(certs) => certs,
    };
    let keys: Vec<Vec<u8>> = match read_private_keys(key_pem) {
        None => { return Err(TlsConfigError::BadKeys); },
        Some(keys) => keys,
    };
    assert(byte_strings(keys).len() == keys@.len());
    let key: Vec<u8> = match first_private_key(keys) {
        Err(e) => { return Err(e); },
        Ok(key) => key,
    };
    finish_config(single_cert_config(certs, key))
}

/// The settings a TLS server is made from.
pub struct TlsServerOptions {
    /// The settings of the proxy itself.
    pub server_options: ServerOptions,
    /// Where the certificate chain is kept, as PEM.
    pub cert_path: String,
    /// Where the private key is kept, as PEM.
    pub key_path: String,
}

impl Default for TlsServerOptions {
    /// The default proxy settings, with `cert.pem` and `key.pem` in the
    /// working directory.
    fn default() -> (options: Self)
        ensures
            options.server_options.bind_addr@ == "127.0.0.1:1080"@,
            !options.server_options.auth_required,
            options.server_options.credentials is None,
            options.cert_path@ == "cert.pem"@,
            options.key_path@ == "key.pem"@,
    {
        TlsServerOptions {
            server_options: ServerOptions::default(),
            cert_path: "cert.pem".to_owned(),
            key_path: "key.pem".to_owned(),
        }
    }
}

/// A proxy whose clients reach it over TLS.
pub struct TlsServer {
    server: Server,
    tls_config: Arc<rustls::ServerConfig>,
}

impl View for TlsServer {
    type V = ServerModel;

    /// The proxy that speaks to a client once the TLS transport is up.
    closed spec fn view(&self) -> ServerModel {
        self.server@
    }
}

impl TlsServer {
    /// A TLS proxy with these settings. `cert_pem` and `key_pem` are the
    /// texts of the files that the settings name.
    pub fn new(options: TlsServerOptions, cert_pem: &[u8], key_pem: &[u8]) -> (r: Result<
        Self,
        TlsConfigError,
    >)
        ensures
            pem_certificates(cert_pem@) is None ==> r is Err && r->Err_0
                == TlsConfigError::BadCertificates,
            pem_certificates(cert_pem@) is Some && pem_private_keys(key_pem@) is None ==> r is Err
                && r->Err_0 == TlsConfigError::BadKeys,
            pem_certificates(cert_pem@) is Some && pem_private_keys(key_pem@) is Some
                && pem_private_keys(key_pem@)->0.len() == 0 ==> r is Err && r->Err_0
                == TlsConfigError::NoPrivateKey,
            pem_certificates(cert_pem@) is Some && pem_private_keys(key_pem@) is Some
                && pem_private_keys(key_pem@)->0.len() > 0 ==> r is Ok || (r is Err && r->Err_0
                == TlsConfigError::KeyRejected),
            r is Ok ==> r->Ok_0@ == (ServerModel {
                bind_addr: options.server_options.bind_addr@,
                auth_required: options.server_options.auth_required,
                credentials: crate::server::allow_list(options.server_options.credentials),
            }) && alpn_protocols(*r->Ok_0.tls_settings()) == seq![http_1_1()],
    {
        let server = Server::from_options(options.server_options);
        match load_tls_config(cert_pem, key_pem) {
            Err(e) => Err(e),
            Ok(tls_config) => Ok(TlsServer { server, tls_config }),
        }
    }

    /// The TLS settings, as contracts speak of them.
    pub closed spec fn tls_settings(&self) -> Arc<rustls::ServerConfig> {
        self.tls_config
    }

    /// The TLS settings with which clients are accepted.
    pub fn tls_config(&self) -> (config: &Arc<rustls::ServerConfig>)
        ensures
            *config == self.tls_settings(),
    {
        &self.tls_config
    }

    /// One step of the exchange with a client whose TLS transport is up,
    /// under this server's settings.
    pub fn handle_client(&self, state: ServerState, received: &[u8]) -> (step: ServerStep)
        ensures
            step@ == client_step(state, self@.auth_required, self@.credentials, received@),
    {
        self.server.handle_client(state, received)
    }
}

} // verus!
