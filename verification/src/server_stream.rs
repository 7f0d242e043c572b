//! The sequence of server configurations.

use crate::context::{X509BundleSet, X509Context};
use crate::error::ConfigStreamError;
use crate::identity::{clone_domains, names_of, TrustDomain};
use crate::stream::{builds, emits, Polled, UpstreamStart};
use crate::tls::{
    assemble_server_config, build_client_verifier, crypto_provider, installed_provider,
    tls_outcome, verifier_outcome,
};
use crate::trust_domain_store::{
    expected_roots, from_trusted_bundle, lemma_no_bundle_no_roots,
    lemma_roots_only_from_trusted_bundles, load_roots, root_anchors,
};
use rustls::{RootCertStore, ServerConfig};
use spiffe::error::GrpcClientError;
use std::sync::Arc;
use vstd::prelude::*;

verus! {

/// Sets up sequences of server configurations that admit clients of the given
/// trust domains.
pub struct SpiffeServerConfigStreamBuilder {
    trust_domains: Vec<TrustDomain>,
}

impl SpiffeServerConfigStreamBuilder {
    /// The names of the trust domains that the sequences will trust.
    pub closed spec fn trusted_domains(&self) -> Seq<Seq<char>> {
        names_of(self.trust_domains@)
    }

    /// A builder of sequences that trust the given trust domains.
    pub fn new(trust_domains: Vec<TrustDomain>) -> (builder: Self)
        ensures
            builder.trusted_domains() == names_of(trust_domains@),
    {
        Self { trust_domains }
    }

    /// Makes the sequence once the upstream sequence of snapshots was opened,
    /// or says why there is none: a client that could not be made and a
    /// sequence that did not open are both a `StreamBuilderError`.
    pub fn build(&mut self, upstream: UpstreamStart) -> (made: Result<
        SpiffeServerConfigStream,
        ConfigStreamError,
    >)
        ensures
            final(self).trusted_domains() == old(self).trusted_domains(),
            match upstream {
                UpstreamStart::NoClient(cause) => made == Err::<
                    SpiffeServerConfigStream,
                    ConfigStreamError,
                >(ConfigStreamError::StreamBuilderError(cause)),
                UpstreamStart::NoStream(cause) => made == Err::<
                    SpiffeServerConfigStream,
                    ConfigStreamError,
                >(ConfigStreamError::StreamBuilderError(cause)),
                UpstreamStart::Streaming => made matches Ok(stream) && stream.trusted_domains()
                    == old(self).trusted_domains(),
            },
    {
        match upstream {
            UpstreamStart::NoClient(cause) => Err(ConfigStreamError::StreamBuilderError(cause)),
            UpstreamStart::NoStream(cause) => Err(ConfigStreamError::StreamBuilderError(cause)),
            UpstreamStart::Streaming => Ok(
                SpiffeServerConfigStream { trust_domains: clone_domains(&self.trust_domains) },
            ),
        }
    }
}

/// The sequence of server configurations: one for each snapshot of the
/// workload's identity, or the reason why there is none for it.
///
/// Each configuration presents the default identity of its snapshot, and
/// demands of every client a certificate that chains to a trust anchor that
/// the snapshot has for the trusted domains.
pub struct SpiffeServerConfigStream {
    trust_domains: Vec<TrustDomain>,
}

impl SpiffeServerConfigStream {
    /// The names of the trust domains that are trusted, in order.
    pub closed spec fn trusted_domains(&self) -> Seq<Seq<char>> {
        names_of(self.trust_domains@)
    }

    /// A builder of sequences that trust the given trust domains.
    pub fn builder(trust_domains: Vec<TrustDomain>) -> (builder: SpiffeServerConfigStreamBuilder)
        ensures
            builder.trusted_domains() == names_of(trust_domains@),
    {
        SpiffeServerConfigStreamBuilder::new(trust_domains)
    }

    /// Builds the root store from the bundles of a snapshot: it holds the
    /// anchors of the trusted domains' authorities and no others.
    pub fn build_root_store(&self, bundles: &X509BundleSet) -> (store: Arc<RootCertStore>)
        ensures
            root_anchors(*store) == expected_roots(self.trusted_domains(), bundles@),
            forall|i: int|
                0 <= i < root_anchors(*store).len() ==> from_trusted_bundle(
                    self.trusted_domains(),
                    bundles@,
                    #[trigger] root_anchors(*store)[i],
                ),
    {
        proof {
            lemma_roots_only_from_trusted_bundles(self.trusted_domains(), bundles@);
        }
        Arc::new(load_roots(&self.trust_domains, bundles).store)
    }

    /// Builds the server configuration for one snapshot.
    ///
    /// Fails with `MissingRoots` where the trusted domains give no usable
    /// trust anchor, in particular where none of them has a bundle; else with
    /// `MissingIdentity` where the snapshot has no identity. Else the
    /// outcome is that of `rustls`: the configuration, or `TlsConfigRejected`.
    /// The verifier of client certificates is built once the identity is
    /// there; a refusal to build it would come out as `VerifierRejected`.
    pub fn build_server_config(&self, x509_context: X509Context) -> (built: Result<
        Arc<ServerConfig>,
        ConfigStreamError,
    >)
        ensures
            builds(self.trusted_domains(), x509_context@, built),
            (forall|d: int|
                0 <= d < self.trusted_domains().len() ==> !x509_context@.bundles.contains_key(
                    #[trigger] self.trusted_domains()[d],
                )) ==> built == Err::<Arc<ServerConfig>, ConfigStreamError>(
                ConfigStreamError::MissingRoots,
            ),
    {
        proof {
            if forall|d: int|
                0 <= d < self.trusted_domains().len() ==> !x509_context@.bundles.contains_key(
                    #[trigger] self.trusted_domains()[d],
                ) {
                lemma_no_bundle_no_roots(self.trusted_domains(), x509_context@.bundles);
            }
        }
        let roots = self.build_root_store(x509_context.bundle_set());
        if roots.is_empty() {
            return Err(ConfigStreamError::MissingRoots);
        }
        let svid = match x509_context.default_svid() {
            Some(svid) => svid,
            None => {
                return Err(ConfigStreamError::MissingIdentity);
            },
        };
        let provider = crypto_provider(installed_provider());
        let verifier = match verifier_outcome(build_client_verifier(&provider, roots)) {
            Ok(verifier) => verifier,
            Err(rejected) => {
                return Err(rejected);
            },
        };
        let assembled = assemble_server_config(
            provider,
            verifier,
            svid.cert_chain(),
            svid.private_key(),
        );
        tls_outcome(assembled)
    }

    /// Maps what a pull on the upstream sequence gave to what this sequence
    /// gives for it: nothing yet while the upstream has nothing yet, the end
    /// at its end, its failure as a `StreamError`, and for a snapshot what
    /// `build_server_config` makes of it.
    pub fn poll_next(&self, upstream: Polled<Result<X509Context, GrpcClientError>>) -> (emitted:
        Polled<Result<Arc<ServerConfig>, ConfigStreamError>>)
        ensures
            emits(self.trusted_domains(), upstream, emitted),
    {
        match upstream {
            Polled::Pending => Polled::Pending,
            Polled::Ready(None) => Polled::Ready(None),
            Polled::Ready(Some(Err(cause))) => Polled::Ready(
                Some(Err(ConfigStreamError::StreamError(cause))),
            ),
            Polled::Ready(Some(Ok(x509_context))) => Polled::Ready(
                Some(self.build_server_config(x509_context)),
            ),
        }
    }
}

} // verus!
