//! SOCKS5 (RFC 1928, RFC 1929) as a verified protocol engine.
//!
//! The crate holds the wire codecs and the decisions of both roles, each with
//! a contract over byte sequences. It performs no input or output itself: a
//! decoder takes the bytes received so far, an encoder appends to a buffer,
//! and the client and server engines are functions from a session state and
//! an event to the next state and what to do. The same engines serve a plain
//! TCP transport and one wrapped in TLS.

use std::sync::Arc;
use vstd::prelude::*;

pub mod client;
pub mod error;
pub mod protocol;
pub mod relay;
pub mod server;
pub mod session;
pub mod tls;
pub mod tls_client;

verus! {

/// The TLS settings of a client, as `rustls` holds them. Nothing in this
/// crate looks inside.
#[verifier::external_type_specification]
#[verifier::external_body]
pub struct ExClientConfig(rustls::ClientConfig);

/// The ALPN protocols that client settings offer: the field `alpn_protocols`
/// of `rustls::ClientConfig`.
pub uninterp spec fn client_alpn_protocols(config: rustls::ClientConfig) -> Seq<Seq<u8>>;

/// Client settings for TLS with the library's default suites, groups and
/// versions, an empty set of trusted roots and no client certificate, built
/// by the builder of `rustls::ClientConfig`. The builder leaves the list of
/// ALPN protocols empty, and that is all that is claimed of the settings
/// that come back.
#[verifier::external_body]
pub fn create_insecure_client_config() -> (config: Arc<rustls::ClientConfig>)
    ensures
        client_alpn_protocols(*config) == Seq::<Seq<u8>>::empty(),
{
    let config = rustls::ClientConfig::builder()
        .with_safe_defaults()
        .with_root_certificates(rustls::RootCertStore::empty())
        .with_no_client_auth();
    Arc::new(config)
}

} // verus!
