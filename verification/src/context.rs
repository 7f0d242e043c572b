//! One snapshot of a workload's identity: its trust bundles and its own
//! certificates, as DER bytes.

use crate::identity::{ders_of, TrustDomain};
use vstd::prelude::*;

verus! {

/// What a bundle holds: the name of its trust domain and the DER encodings of
/// its authorities, in order.
pub struct X509BundleView {
    pub trust_domain: Seq<char>,
    pub authorities: Seq<Seq<u8>>,
}

/// The trust anchors of one trust domain.
pub struct X509Bundle {
    trust_domain: TrustDomain,
    authorities: Vec<Vec<u8>>,
}

impl View for X509Bundle {
    type V = X509BundleView;

    closed spec fn view(&self) -> X509BundleView {
        X509BundleView {
            trust_domain: self.trust_domain@,
            authorities: ders_of(self.authorities@),
        }
    }
}

impl X509Bundle {
    /// A bundle of the given authorities, each a DER-encoded certificate.
    pub fn new(trust_domain: TrustDomain, authorities: Vec<Vec<u8>>) -> (bundle: X509Bundle)
        ensures
            bundle@.trust_domain == trust_domain@,
            bundle@.authorities == ders_of(authorities@),
    {
        X509Bundle { trust_domain, authorities }
    }

    /// The trust domain that the bundle belongs to.
    pub fn trust_domain(&self) -> (domain: &TrustDomain)
        ensures
            domain@ == self@.trust_domain,
    {
        &self.trust_domain
    }

    /// The authorities of the bundle, each a DER-encoded certificate.
    pub fn authorities(&self) -> (authorities: &Vec<Vec<u8>>)
        ensures
            ders_of(authorities@) == self@.authorities,
    {
        &self.authorities
    }
}

/// The bundles of one snapshot, at most one for each trust domain.
pub struct X509BundleSet {
    bundles: Vec<X509Bundle>,
}

impl View for X509BundleSet {
    type V = Map<Seq<char>, Seq<Seq<u8>>>;

    /// The authorities of each trust domain that has a bundle.
    closed spec fn view(&self) -> Map<Seq<char>, Seq<Seq<u8>>> {
        Map::new(
            |name: Seq<char>| self.position(name) is Some,
            |name: Seq<char>| self.bundles[self.position(name)->Some_0]@.authorities,
        )
    }
}

impl X509BundleSet {
    #[verifier::type_invariant]
    spec fn distinct_domains(&self) -> bool {
        forall|i: int, j: int|
            0 <= i < j < self.bundles.len() ==> self.bundles[i]@.trust_domain
                != self.bundles[j]@.trust_domain
    }

    /// Where the bundle of a trust domain stands, if the set has one.
    spec fn position(&self, name: Seq<char>) -> Option<int> {
        if exists|i: int| 0 <= i < self.bundles.len() && self.bundles[i]@.trust_domain == name {
            Some(
                choose|i: int| 0 <= i < self.bundles.len() && self.bundles[i]@.trust_domain == name,
            )
        } else {
            None
        }
    }

    /// A set without bundles.
    pub fn new() -> (set: X509BundleSet)
        ensures
            set@ == Map::<Seq<char>, Seq<Seq<u8>>>::empty(),
    {
        let set = X509BundleSet { bundles: Vec::new() };
        assert(set@ =~= Map::<Seq<char>, Seq<Seq<u8>>>::empty());
        set
    }

    /// The index of the bundle of a trust domain, or the number of bundles
    /// where the set has none for it.
    fn find(&self, trust_domain: &TrustDomain) -> (at: usize)
        ensures
            at <= self.bundles.len(),
            at < self.bundles.len() ==> self.bundles[at as int]@.trust_domain == trust_domain@
                && self.position(trust_domain@) == Some(at as int),
            at == self.bundles.len() ==> self.position(trust_domain@) is None,
    {
        proof {
            use_type_invariant(self);
        }
        let mut i: usize = 0;
        while i < self.bundles.len()
            invariant
                i <= self.bundles.len(),
                self.distinct_domains(),
                forall|j: int| 0 <= j < i ==> self.bundles[j]@.trust_domain != trust_domain@,
            decreases self.bundles.len() - i,
        {
            if self.bundles[i].trust_domain().same_as(trust_domain) {
                assert(self.bundles[i as int]@.trust_domain == trust_domain@);
                return i;
            }
            i += 1;
        }
        i
    }

    /// Puts a bundle into the set, in place of the one that the set has for
    /// the same trust domain, if it has one.
    pub fn add_bundle(&mut self, bundle: X509Bundle)
        ensures
            final(self)@ == old(self)@.insert(bundle@.trust_domain, bundle@.authorities),
    {
        proof {
            use_type_invariant(&*self);
        }
        let at = self.find(bundle.trust_domain());
        let ghost before = *self;
        let ghost name = bundle@.trust_domain;
        let ghost added = bundle@;
        let mut bundles: Vec<X509Bundle> = Vec::new();
        core::mem::swap(&mut self.bundles, &mut bundles);
        if at < bundles.len() {
            bundles.set(at, bundle);
        } else {
            bundles.push(bundle);
        }
        self.bundles = bundles;
        proof {
            let after = *self;
            assert(after.bundles[at as int]@ == added);
            assert forall|i: int| 0 <= i < after.bundles.len() && i != at implies after.bundles[i]
                == before.bundles[i] by {}
            assert forall|other: Seq<char>|
                other != name implies after.position(other) == before.position(other) by {
                if before.position(other) is Some {
                    let i = before.position(other)->Some_0;
                    assert(after.bundles[i]@.trust_domain == other);
                }
                if after.position(other) is Some {
                    let i = after.position(other)->Some_0;
                    assert(before.bundles[i]@.trust_domain == other);
                }
            }
            assert(after.position(name) == Some(at as int));
            assert(after@ =~= before@.insert(name, added.authorities));
        }
    }

    /// The bundle of a trust domain, if the set has one.
    pub fn get_bundle(&self, trust_domain: &TrustDomain) -> (found: Option<&X509Bundle>)
        ensures
            match found {
                Some(bundle) => self@.contains_key(trust_domain@) && bundle@.trust_domain
                    == trust_domain@ && bundle@.authorities == self@[trust_domain@],
                None => !self@.contains_key(trust_domain@),
            },
    {
        let at = self.find(trust_domain);
        if at < self.bundles.len() {
            Some(&self.bundles[at])
        } else {
            None
        }
    }
}

/// What an identity holds: the DER encodings of its certificate chain, leaf
/// first, and of its private key.
pub struct X509SvidView {
    pub cert_chain: Seq<Seq<u8>>,
    pub private_key: Seq<u8>,
}

/// One identity of the workload: a certificate chain and the private key of
/// its leaf, in PKCS#8.
pub struct X509Svid {
    cert_chain: Vec<Vec<u8>>,
    private_key: Vec<u8>,
}

impl View for X509Svid {
    type V = X509SvidView;

    closed spec fn view(&self) -> X509SvidView {
        X509SvidView { cert_chain: ders_of(self.cert_chain@), private_key: self.private_key@ }
    }
}

impl X509Svid {
    /// An identity of the given chain, leaf first, and key, all DER-encoded.
    pub fn new(cert_chain: Vec<Vec<u8>>, private_key: Vec<u8>) -> (svid: X509Svid)
        ensures
            svid@.cert_chain == ders_of(cert_chain@),
            svid@.private_key == private_key@,
    {
        X509Svid { cert_chain, private_key }
    }

    /// The certificate chain, leaf first.
    pub fn cert_chain(&self) -> (chain: &Vec<Vec<u8>>)
        ensures
            ders_of(chain@) == self@.cert_chain,
    {
        &self.cert_chain
    }

    /// The private key of the leaf certificate.
    pub fn private_key(&self) -> (key: &Vec<u8>)
        ensures
            key@ == self@.private_key,
    {
        &self.private_key
    }
}

/// What a snapshot holds: its identities in order, and the authorities of each
/// trust domain that it has a bundle for.
pub struct X509ContextView {
    pub svids: Seq<X509SvidView>,
    pub bundles: Map<Seq<char>, Seq<Seq<u8>>>,
}

impl X509ContextView {
    /// The identity that the workload presents: the first one, if there is any.
    pub open spec fn default_svid(self) -> Option<X509SvidView> {
        if self.svids.len() > 0 {
            Some(self.svids[0])
        } else {
            None
        }
    }
}

/// One snapshot of the workload's identities and trust bundles.
pub struct X509Context {
    svids: Vec<X509Svid>,
    bundle_set: X509BundleSet,
}

impl View for X509Context {
    type V = X509ContextView;

    closed spec fn view(&self) -> X509ContextView {
        X509ContextView {
            svids: self.svids@.map_values(|svid: X509Svid| svid@),
            bundles: self.bundle_set@,
        }
    }
}

impl X509Context {
    /// A snapshot of the given identities and bundles.
    pub fn new(svids: Vec<X509Svid>, bundle_set: X509BundleSet) -> (context: X509Context)
        ensures
            context@.svids == svids@.map_values(|svid: X509Svid| svid@),
            context@.bundles == bundle_set@,
    {
        X509Context { svids, bundle_set }
    }

    /// The default identity: the first of the snapshot, if it has any.
    pub fn default_svid(&self) -> (svid: Option<&X509Svid>)
        ensures
            match svid {
                Some(first) => self@.default_svid() == Some(first@),
                None => self@.default_svid() is None,
            },
    {
        if self.svids.len() > 0 {
            Some(&self.svids[0])
        } else {
            None
        }
    }

    /// The bundles of the snapshot.
    pub fn bundle_set(&self) -> (bundles: &X509BundleSet)
        ensures
            bundles@ == self@.bundles,
    {
        &self.bundle_set
    }
}

} // verus!
