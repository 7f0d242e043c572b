//! Keeps a TLS configuration in step with a rotating workload identity.
//!
//! Each identity snapshot ([`X509Context`]) carries trust bundles keyed by trust
//! domain and the workload's own certificate chains with their keys. The
//! library turns a snapshot into a `rustls` client or server configuration that
//! trusts only the trust domains it was set up with, and reads a peer's SPIFFE
//! ID from the leaf certificate of an established session.

pub mod client_stream;
pub mod context;
pub mod error;
pub mod identity;
pub mod server_stream;
pub mod stream;
pub mod svid_extractor;
pub mod tls;
pub mod trust_domain_store;

pub use client_stream::{SpiffeClientConfigStream, SpiffeClientConfigStreamBuilder};
pub use context::{X509Bundle, X509BundleSet, X509Context, X509Svid};
pub use error::ConfigStreamError;
pub use identity::{SpiffeId, TrustDomain};
pub use server_stream::{SpiffeServerConfigStream, SpiffeServerConfigStreamBuilder};
pub use stream::{Polled, UpstreamStart};
pub use svid_extractor::{extract_leaf_cert, extract_spiffe_id, leaf_certificate};
pub use trust_domain_store::TrustDomainStore;
