//! How the sequence of snapshots becomes the sequence of configurations.

use crate::context::{X509Context, X509ContextView};
use crate::error::ConfigStreamError;
use crate::trust_domain_store::expected_roots;
use spiffe::error::GrpcClientError;
use std::sync::Arc;
use vstd::prelude::*;

verus! {

/// What a pull on a sequence gave.
pub enum Polled<T> {
    /// Nothing yet.
    Pending,
    /// The next element, or nothing more: the sequence has ended.
    Ready(Option<T>),
}

/// How the attempt to open the upstream sequence of snapshots went.
pub enum UpstreamStart {
    /// No client for the identity agent could be made.
    NoClient(GrpcClientError),
    /// The client was there, but the agent did not open the sequence.
    NoStream(GrpcClientError),
    /// The sequence is open.
    Streaming,
}

/// What may come of building a configuration of type `C` from a snapshot, for
/// the given trusted domains. An empty root store and a missing identity
/// decide the outcome, in this order; the rest is up to `rustls`.
pub open spec fn builds<C>(
    domains: Seq<Seq<char>>,
    context: X509ContextView,
    built: Result<Arc<C>, ConfigStreamError>,
) -> bool {
    if expected_roots(domains, context.bundles).len() == 0 {
        built == Err::<Arc<C>, ConfigStreamError>(ConfigStreamError::MissingRoots)
    } else if context.default_svid() is None {
        built == Err::<Arc<C>, ConfigStreamError>(ConfigStreamError::MissingIdentity)
    } else {
        built is Ok || built matches Err(ConfigStreamError::TlsConfigRejected(_))
    }
}

/// What one upstream element becomes: a failure is handed on as it is, a
/// snapshot becomes what building from it gives.
pub open spec fn maps_element<C>(
    domains: Seq<Seq<char>>,
    element: Result<X509Context, GrpcClientError>,
    emitted: Result<Arc<C>, ConfigStreamError>,
) -> bool {
    match element {
        Err(cause) => emitted == Err::<Arc<C>, ConfigStreamError>(
            ConfigStreamError::StreamError(cause),
        ),
        Ok(context) => builds(domains, context@, emitted),
    }
}

/// What one pull on the sequence of configurations gives for what the pull on
/// the upstream sequence gave.
pub open spec fn emits<C>(
    domains: Seq<Seq<char>>,
    upstream: Polled<Result<X509Context, GrpcClientError>>,
    emitted: Polled<Result<Arc<C>, ConfigStreamError>>,
) -> bool {
    match upstream {
        Polled::Pending => emitted is Pending,
        Polled::Ready(None) => emitted == Polled::<Result<Arc<C>, ConfigStreamError>>::Ready(None),
        Polled::Ready(Some(element)) => emitted matches Polled::Ready(Some(result))
            && maps_element(domains, element, result),
    }
}

/// The elements that a run of pulls yielded, in order.
pub open spec fn yielded<T>(pulls: Seq<Polled<T>>) -> Seq<T>
    decreases pulls.len(),
{
    if pulls.len() == 0 {
        Seq::empty()
    } else {
        match pulls.last() {
            Polled::Ready(Some(element)) => yielded(pulls.drop_last()).push(element),
            _ => yielded(pulls.drop_last()),
        }
    }
}

/// The sequence keeps the order and maps one to one. In a run in which every
/// pull gave what `emits` allows for the upstream pull, as many elements come
/// out as came in, and the n-th that comes out is what the n-th that came in
/// becomes: nothing is held back, reordered or merged.
pub proof fn lemma_sequence_is_one_to_one<C>(
    domains: Seq<Seq<char>>,
    upstream: Seq<Polled<Result<X509Context, GrpcClientError>>>,
    emitted: Seq<Polled<Result<Arc<C>, ConfigStreamError>>>,
)
    requires
        upstream.len() == emitted.len(),
        forall|i: int| 0 <= i < upstream.len() ==> emits(domains, upstream[i], emitted[i]),
    ensures
        yielded(emitted).len() == yielded(upstream).len(),
        forall|n: int|
            0 <= n < yielded(upstream).len() ==> maps_element(
                domains,
                #[trigger] yielded(upstream)[n],
                yielded(emitted)[n],
            ),
    decreases upstream.len(),
{
    if upstream.len() > 0 {
        let last = upstream.len() - 1;
        lemma_sequence_is_one_to_one(domains, upstream.drop_last(), emitted.drop_last());
        assert(emits(domains, upstream[last], emitted[last]));
    }
}

} // verus!
