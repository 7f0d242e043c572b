//! The sequence of client configurations.

use crate::context::X509Context;
use crate::error::ConfigStreamError;
use crate::identity::{clone_domains, names_of, TrustDomain};
use crate::stream::{builds, emits, Polled, UpstreamStart};
use crate::tls::{assemble_client_config, crypto_provider, installed_provider, tls_outcome};
use crate::trust_domain_store::TrustDomainStore;
use rustls::ClientConfig;
use spiffe::error::GrpcClientError;
use std::sync::Arc;
use vstd::prelude::*;

verus! {

/// Sets up sequences of client configurations that trust the given trust
/// domains.
pub struct SpiffeClientConfigStreamBuilder {
    trust_domains: Vec<TrustDomain>,
}

impl SpiffeClientConfigStreamBuilder {
    /// The names of the trust domains that the sequences will trust.
    pub closed spec fn trusted_domains(&self) -> Seq<Seq<char>> {
        names_of(self.trust_domains@)
    }

    /// A builder of sequences that trust the given trust domains.
    pub fn new(trust_domains: Vec<TrustDomain>) -> (builder: Self)
        ensures
            builder.trusted_domains() == names_of(trust_domains@),
    {
        Self { trust_domains }
    }

    /// Makes the sequence once the upstream sequence of snapshots was opened,
    /// or says why there is none: a client that could not be made and a
    /// sequence that did not open are both a `StreamBuilderError`.
    pub fn build(&mut self, upstream: UpstreamStart) -> (made: Result<
        SpiffeClientConfigStream,
        ConfigStreamError,
    >)
        ensures
            final(self).trusted_domains() == old(self).trusted_domains(),
            match upstream {
                UpstreamStart::NoClient(cause) => made == Err::<
                    SpiffeClientConfigStream,
                    ConfigStreamError,
                >(ConfigStreamError::StreamBuilderError(cause)),
                UpstreamStart::NoStream(cause) => made == Err::<
                    SpiffeClientConfigStream,
                    ConfigStreamError,
                >(ConfigStreamError::StreamBuilderError(cause)),
                UpstreamStart::Streaming => made matches Ok(stream) && stream.trusted_domains()
                    == old(self).trusted_domains(),
            },
    {
        match upstream {
            UpstreamStart::NoClient(cause) => Err(ConfigStreamError::StreamBuilderError(cause)),
            UpstreamStart::NoStream(cause) => Err(ConfigStreamError::StreamBuilderError(cause)),
            UpstreamStart::Streaming => Ok(
                SpiffeClientConfigStream { trust_domains: clone_domains(&self.trust_domains) },
            ),
        }
    }
}

/// The sequence of client configurations: one for each snapshot of the
/// workload's identity, or the reason why there is none for it.
///
/// Each configuration presents the default identity of its snapshot, and
/// verifies servers against the trust anchors that the snapshot has for the
/// trusted domains.
pub struct SpiffeClientConfigStream {
    trust_domains: Vec<TrustDomain>,
}

impl TrustDomainStore for SpiffeClientConfigStream {
    closed spec fn trusted_domains(&self) -> Seq<Seq<char>> {
        names_of(self.trust_domains@)
    }

    fn get_trust_domains(&self) -> (domains: &Vec<TrustDomain>) {
        &self.trust_domains
    }
}

impl SpiffeClientConfigStream {
    /// A builder of sequences that trust the given trust domains.
    pub fn builder(trust_domains: Vec<TrustDomain>) -> (builder: SpiffeClientConfigStreamBuilder)
        ensures
            builder.trusted_domains() == names_of(trust_domains@),
    {
        SpiffeClientConfigStreamBuilder::new(trust_domains)
    }

    /// Builds the client configuration for one snapshot.
    ///
    /// Fails with `MissingRoots` where the trusted domains give no usable
    /// trust anchor, in particular where none of them has a bundle; else with
    /// `MissingIdentity` where the snapshot has no identity. Else the
    /// outcome is that of `rustls`: the configuration, or `TlsConfigRejected`.
    pub fn build_client_config(&self, x509_context: &X509Context) -> (built: Result<
        Arc<ClientConfig>,
        ConfigStreamError,
    >)
        ensures
            builds(self.trusted_domains(), x509_context@, built),
            (forall|d: int|
                0 <= d < self.trusted_domains().len() ==> !x509_context@.bundles.contains_key(
                    #[trigger] self.trusted_domains()[d],
                )) ==> built == Err::<Arc<ClientConfig>, ConfigStreamError>(
                ConfigStreamError::MissingRoots,
            ),
    {
        proof {
            if forall|d: int|
                0 <= d < self.trusted_domains().len() ==> !x509_context@.bundles.contains_key(
                    #[trigger] self.trusted_domains()[d],
                ) {
                crate::trust_domain_store::lemma_no_bundle_no_roots(
                    self.trusted_domains(),
                    x509_context@.bundles,
                );
            }
        }
        let roots = self.build_root_store(x509_context.bundle_set());
        if roots.is_empty() {
            return Err(ConfigStreamError::MissingRoots);
        }
        let svid = match x509_context.default_svid() {
            Some(svid) => svid,
            None => {
                return Err(ConfigStreamError::MissingIdentity);
            },
        };
        let assembled = assemble_client_config(
            crypto_provider(installed_provider()),
            roots,
            svid.cert_chain(),
            svid.private_key(),
        );
        tls_outcome(assembled)
    }

    /// Maps what a pull on the upstream sequence gave to what this sequence
    /// gives for it: nothing yet while the upstream has nothing yet, the end
    /// at its end, its failure as a `StreamError`, and for a snapshot what
    /// `build_client_config` makes of it.
    pub fn poll_next(&self, upstream: Polled<Result<X509Context, GrpcClientError>>) -> (emitted:
        Polled<Result<Arc<ClientConfig>, ConfigStreamError>>)
        ensures
            emits(self.trusted_domains(), upstream, emitted),
    {
        match upstream {
            Polled::Pending => Polled::Pending,
            Polled::Ready(None) => Polled::Ready(None),
            Polled::Ready(Some(Err(cause))) => Polled::Ready(
                Some(Err(ConfigStreamError::StreamError(cause))),
            ),
            Polled::Ready(Some(Ok(x509_context))) => Polled::Ready(
                Some(self.build_client_config(&x509_context)),
            ),
        }
    }
}

} // verus!
