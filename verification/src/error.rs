//! Why a snapshot did not become a configuration.

use vstd::prelude::*;

verus! {

/// `spiffe::error::GrpcClientError`, a failure of the upstream source. It is
/// wrapped as it is.
#[verifier::external_type_specification]
#[verifier::external_body]
pub struct ExGrpcClientError(spiffe::error::GrpcClientError);

/// `rustls::server::VerifierBuilderError`, the refusal of `rustls` to build a
/// verifier. It is wrapped as it is.
#[verifier::external_type_specification]
#[verifier::external_body]
pub struct ExVerifierBuilderError(rustls::server::VerifierBuilderError);

/// `rustls::Error`, the refusal of `rustls` to assemble a configuration. It
/// is wrapped as it is.
#[verifier::external_type_specification]
#[verifier::external_body]
pub struct ExRustlsError(rustls::Error);

/// A failure of the sequence of configurations. Each one stands for a single
/// element: the sequence goes on after it.
#[derive(Debug)]
pub enum ConfigStreamError {
    /// The upstream source of snapshots could not be set up: no client for
    /// the identity agent, or no sequence from it. No sequence is made.
    StreamBuilderError(spiffe::error::GrpcClientError),
    /// The running upstream sequence gave a failure in place of a snapshot.
    StreamError(spiffe::error::GrpcClientError),
    /// The bundles of the trusted domains gave no usable trust anchor.
    MissingRoots,
    /// The snapshot carries no identity to present.
    MissingIdentity,
    /// Trust anchors were there, but no verifier of client certificates could
    /// be made of them.
    VerifierRejected(rustls::server::VerifierBuilderError),
    /// `rustls` rejected the certificate chain or the private key.
    TlsConfigRejected(rustls::Error),
}

} // verus!
