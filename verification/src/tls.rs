//! The calls into `rustls` that assemble a configuration.

use crate::error::ConfigStreamError;
use crate::trust_domain_store::root_anchors;
use rustls::crypto::CryptoProvider;
use rustls::pki_types::{CertificateDer, PrivateKeyDer, PrivatePkcs8KeyDer};
use rustls::server::danger::ClientCertVerifier;
use rustls::server::{VerifierBuilderError, WebPkiClientVerifier};
use rustls::{ClientConfig, RootCertStore, ServerConfig};
use std::sync::Arc;
use vstd::prelude::*;

verus! {

/// `rustls::ClientConfig`, a finished client configuration. It is carried
/// through as it is.
#[verifier::external_type_specification]
#[verifier::external_body]
pub struct ExClientConfig(ClientConfig);

/// `rustls::ServerConfig`, a finished server configuration. It is carried
/// through as it is.
#[verifier::external_type_specification]
#[verifier::external_body]
pub struct ExServerConfig(ServerConfig);

/// `rustls::crypto::CryptoProvider`, the cryptography that a configuration
/// works with. It is carried through as it is.
#[verifier::external_type_specification]
#[verifier::external_body]
pub struct ExCryptoProvider(CryptoProvider);

/// A verifier of client certificates that `rustls` built. It is a trait object
/// of `rustls`, so nothing inside it is visible here.
#[verifier::external_body]
pub struct ClientVerifier {
    inner: Arc<dyn ClientCertVerifier>,
}

/// Calls `CryptoProvider::get_default`: the provider that the process has
/// installed, if it has installed one.
#[verifier::external_body]
pub(crate) fn installed_provider() -> Option<Arc<CryptoProvider>> {
    CryptoProvider::get_default().cloned()
}

/// Calls `rustls::crypto::aws_lc_rs::default_provider`: the provider that
/// `rustls` is built with.
#[verifier::external_body]
fn bundled_provider() -> Arc<CryptoProvider> {
    Arc::new(rustls::crypto::aws_lc_rs::default_provider())
}

/// The provider of the cryptography for a configuration: the one that the
/// process has installed, if any, else the one that `rustls` is built with.
pub(crate) fn crypto_provider(installed: Option<Arc<CryptoProvider>>) -> (provider: Arc<
    CryptoProvider,
>)
    ensures
        installed matches Some(chosen) ==> provider == chosen,
{
    match installed {
        Some(chosen) => chosen,
        None => bundled_provider(),
    }
}

/// Calls `ClientConfig::builder_with_provider`, then on the builder
/// `with_safe_default_protocol_versions`, `with_root_certificates` and
/// `with_client_auth_cert`: a client configuration that verifies servers
/// against the root store and presents the chain with its PKCS#8 key. Whether
/// `rustls` accepts the chain and the key depends on the provider, so nothing
/// is stated of the outcome.
#[verifier::external_body]
pub(crate) fn assemble_client_config(
    provider: Arc<CryptoProvider>,
    roots: Arc<RootCertStore>,
    cert_chain: &Vec<Vec<u8>>,
    private_key: &Vec<u8>,
) -> Result<ClientConfig, rustls::Error>
    requires
        root_anchors(*roots).len() > 0,
{
    let chain = cert_chain.iter().map(|cert| CertificateDer::from(cert.clone())).collect();
    let key = PrivateKeyDer::from(PrivatePkcs8KeyDer::from(private_key.clone()));
    ClientConfig::builder_with_provider(provider)
        .with_safe_default_protocol_versions()?
        .with_root_certificates(roots)
        .with_client_auth_cert(chain, key)
}

/// Calls `WebPkiClientVerifier::builder_with_provider` and, on the builder,
/// `build`: a verifier that demands of every client a certificate that chains
/// to the root store. With no revocation list given, `build` fails exactly
/// where the root store is empty.
#[verifier::external_body]
pub(crate) fn build_client_verifier(provider: &Arc<CryptoProvider>, roots: Arc<RootCertStore>) -> (built:
    Result<ClientVerifier, VerifierBuilderError>)
    ensures
        built is Ok <==> root_anchors(*roots).len() > 0,
{
    match WebPkiClientVerifier::builder_with_provider(roots, provider.clone()).build() {
        Ok(inner) => Ok(ClientVerifier { inner }),
        Err(rejected) => Err(rejected),
    }
}

/// Calls `ServerConfig::builder_with_provider`, then on the builder
/// `with_safe_default_protocol_versions`, `with_client_cert_verifier` and
/// `with_single_cert`: a server configuration that verifies clients with the
/// verifier and presents the chain with its PKCS#8 key. Whether `rustls`
/// accepts the chain and the key depends on the provider, so nothing is
/// stated of the outcome.
#[verifier::external_body]
pub(crate) fn assemble_server_config(
    provider: Arc<CryptoProvider>,
    verifier: ClientVerifier,
    cert_chain: &Vec<Vec<u8>>,
    private_key: &Vec<u8>,
) -> Result<ServerConfig, rustls::Error> {
    let chain = cert_chain.iter().map(|cert| CertificateDer::from(cert.clone())).collect();
    let key = PrivateKeyDer::from(PrivatePkcs8KeyDer::from(private_key.clone()));
    ServerConfig::builder_with_provider(provider)
        .with_safe_default_protocol_versions()?
        .with_client_cert_verifier(verifier.inner)
        .with_single_cert(chain, key)
}

/// What becomes of a configuration that `rustls` assembled, or of its refusal
/// to assemble one: the configuration is shared out as it is, the refusal is
/// wrapped as `TlsConfigRejected`.
pub fn tls_outcome<C>(assembled: Result<C, rustls::Error>) -> (outcome: Result<
    Arc<C>,
    ConfigStreamError,
>)
    ensures
        match assembled {
            Ok(config) => outcome matches Ok(shared) && *shared == config,
            Err(cause) => outcome == Err::<Arc<C>, ConfigStreamError>(
                ConfigStreamError::TlsConfigRejected(cause),
            ),
        },
{
    match assembled {
        Ok(config) => Ok(Arc::new(config)),
        Err(cause) => Err(ConfigStreamError::TlsConfigRejected(cause)),
    }
}

/// What becomes of a verifier that `rustls` built, or of its refusal to build
/// one: the verifier is handed on, the refusal is wrapped as
/// `VerifierRejected`.
pub fn verifier_outcome(built: Result<ClientVerifier, VerifierBuilderError>) -> (outcome: Result<
    ClientVerifier,
    ConfigStreamError,
>)
    ensures
        match built {
            Ok(verifier) => outcome == Ok::<ClientVerifier, ConfigStreamError>(verifier),
            Err(cause) => outcome == Err::<ClientVerifier, ConfigStreamError>(
                ConfigStreamError::VerifierRejected(cause),
            ),
        },
{
    match built {
        Ok(verifier) => Ok(verifier),
        Err(cause) => Err(ConfigStreamError::VerifierRejected(cause)),
    }
}

} // verus!
