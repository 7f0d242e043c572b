//! Root stores that trust only the configured trust domains.

use crate::context::X509BundleSet;
use crate::identity::{ders_of, names_of, TrustDomain};
use std::sync::Arc;
use vstd::prelude::*;

verus! {

/// `rustls::RootCertStore`, the collection of trust anchors that `rustls`
/// verifies against. What it holds is `root_anchors` of it.
#[verifier::external_type_specification]
#[verifier::external_body]
pub struct ExRootCertStore(rustls::RootCertStore);

/// A trust anchor as `rustls` keeps it: three DER-encoded parts of the
/// certificate that it was taken from.
pub struct TrustAnchor {
    /// The subject of the certificate.
    pub subject: Seq<u8>,
    /// The public key of the certificate, with its algorithm.
    pub subject_public_key_info: Seq<u8>,
    /// The name constraints of the certificate, if it has any.
    pub name_constraints: Option<Seq<u8>>,
}

/// The trust anchors that a `rustls::RootCertStore` holds (its field `roots`),
/// in order.
pub uninterp spec fn root_anchors(store: rustls::RootCertStore) -> Seq<TrustAnchor>;

/// The trust anchor that `webpki::anchor_from_trusted_cert` takes from a
/// DER-encoded certificate, or nothing where it does not accept the bytes.
pub uninterp spec fn trust_anchor(der: Seq<u8>) -> Option<TrustAnchor>;

/// `RootCertStore::empty` makes a store without trust anchors.
pub assume_specification[ rustls::RootCertStore::empty ]() -> (store: rustls::RootCertStore)
    ensures
        root_anchors(store) == Seq::<TrustAnchor>::empty(),
;

/// `RootCertStore::is_empty` says whether the store holds no trust anchor.
pub assume_specification[ rustls::RootCertStore::is_empty ](store: &rustls::RootCertStore) -> (empty:
    bool)
    ensures
        empty == (root_anchors(*store).len() == 0),
;

/// The DER encodings that a list of borrowed certificates holds.
pub open spec fn borrowed_ders(certs: Seq<&Vec<u8>>) -> Seq<Seq<u8>> {
    certs.map_values(|cert: &Vec<u8>| cert@)
}

/// The trust anchors of those certificates of a list that `rustls` accepts,
/// in the order of the list.
pub open spec fn anchors_of(ders: Seq<Seq<u8>>) -> Seq<TrustAnchor> {
    ders.filter_map(|der: Seq<u8>| trust_anchor(der))
}

/// Calls `RootCertStore::add_parsable_certificates`, which goes through the
/// certificates in order, appends to the store the trust anchor of each one
/// that `webpki::anchor_from_trusted_cert` accepts, and skips the others. It
/// returns how many it added and how many it skipped.
#[verifier::external_body]
fn add_parsable_certificates(store: &mut rustls::RootCertStore, certs: &Vec<&Vec<u8>>) -> (counts: (
    usize,
    usize,
))
    ensures
        root_anchors(*final(store)) == root_anchors(*old(store)) + borrowed_ders(
            certs@,
        ).filter_map(|der: Seq<u8>| trust_anchor(der)),
        counts.0 == borrowed_ders(certs@).filter_map(|der: Seq<u8>| trust_anchor(der)).len(),
        counts.0 + counts.1 == certs.len(),
{
    store.add_parsable_certificates(
        certs.iter().map(|cert| rustls::pki_types::CertificateDer::from_slice(cert.as_slice())),
    )
}

/// The authorities that a root store for the given trust domains is built
/// from: those of each trust domain that has a bundle, in the order of the
/// trust domains. A trust domain without a bundle adds nothing.
pub open spec fn selected_authorities(
    domains: Seq<Seq<char>>,
    bundles: Map<Seq<char>, Seq<Seq<u8>>>,
) -> Seq<Seq<u8>>
    decreases domains.len(),
{
    if domains.len() == 0 {
        Seq::empty()
    } else {
        let earlier = selected_authorities(domains.drop_last(), bundles);
        if bundles.contains_key(domains.last()) {
            earlier + bundles[domains.last()]
        } else {
            earlier
        }
    }
}

/// The trust anchors of the root store for the given trust domains.
pub open spec fn expected_roots(
    domains: Seq<Seq<char>>,
    bundles: Map<Seq<char>, Seq<Seq<u8>>>,
) -> Seq<TrustAnchor> {
    anchors_of(selected_authorities(domains, bundles))
}

/// Whether a trust anchor was taken from an authority of the bundle of one of
/// the given trust domains.
pub open spec fn from_trusted_bundle(
    domains: Seq<Seq<char>>,
    bundles: Map<Seq<char>, Seq<Seq<u8>>>,
    anchor: TrustAnchor,
) -> bool {
    exists|d: int, a: int|
        0 <= d < domains.len() && bundles.contains_key(domains[d]) && 0 <= a
            < bundles[domains[d]].len() && #[trigger] trust_anchor(bundles[domains[d]][a])
            == Some(anchor)
}

/// Whether an authority stands in the bundle of one of the given trust
/// domains.
pub open spec fn in_trusted_bundle(
    domains: Seq<Seq<char>>,
    bundles: Map<Seq<char>, Seq<Seq<u8>>>,
    der: Seq<u8>,
) -> bool {
    exists|d: int, a: int|
        0 <= d < domains.len() && bundles.contains_key(domains[d]) && 0 <= a
            < bundles[domains[d]].len() && #[trigger] bundles[domains[d]][a] == der
}

/// Every selected authority stands in the bundle of a configured trust domain.
proof fn lemma_selected_in_trusted_bundle(
    domains: Seq<Seq<char>>,
    bundles: Map<Seq<char>, Seq<Seq<u8>>>,
)
    ensures
        forall|i: int|
            0 <= i < selected_authorities(domains, bundles).len() ==> in_trusted_bundle(
                domains,
                bundles,
                #[trigger] selected_authorities(domains, bundles)[i],
            ),
    decreases domains.len(),
{
    if domains.len() > 0 {
        let earlier = selected_authorities(domains.drop_last(), bundles);
        lemma_selected_in_trusted_bundle(domains.drop_last(), bundles);
        assert forall|i: int| 0 <= i < selected_authorities(domains, bundles).len() implies
            in_trusted_bundle(domains, bundles, #[trigger] selected_authorities(domains, bundles)[i]) by {
            let der = selected_authorities(domains, bundles)[i];
            if i < earlier.len() {
                assert(in_trusted_bundle(domains.drop_last(), bundles, earlier[i]));
                let (d, a) = choose|d: int, a: int|
                    0 <= d < domains.drop_last().len() && bundles.contains_key(
                        domains.drop_last()[d],
                    ) && 0 <= a < bundles[domains.drop_last()[d]].len()
                        && #[trigger] bundles[domains.drop_last()[d]][a] == der;
                assert(domains[d] == domains.drop_last()[d]);
                assert(bundles[domains[d]][a] == der);
            } else {
                let d = domains.len() - 1;
                let a = i - earlier.len();
                assert(bundles[domains[d]][a] == der);
            }
        }
    }
}

/// A root store holds no trust anchor but those of the configured trust
/// domains: each of its anchors was taken from an authority of the bundle of
/// one of them, and an anchor that no such authority gives is not in it.
pub proof fn lemma_roots_only_from_trusted_bundles(
    domains: Seq<Seq<char>>,
    bundles: Map<Seq<char>, Seq<Seq<u8>>>,
)
    ensures
        forall|i: int|
            0 <= i < expected_roots(domains, bundles).len() ==> from_trusted_bundle(
                domains,
                bundles,
                #[trigger] expected_roots(domains, bundles)[i],
            ),
        forall|anchor: TrustAnchor|
            !from_trusted_bundle(domains, bundles, anchor) ==> !expected_roots(
                domains,
                bundles,
            ).contains(anchor),
{
    let selected = selected_authorities(domains, bundles);
    let roots = expected_roots(domains, bundles);
    lemma_selected_in_trusted_bundle(domains, bundles);
    assert forall|anchor: TrustAnchor| roots.contains(anchor) implies from_trusted_bundle(
        domains,
        bundles,
        anchor,
    ) by {
        selected.lemma_filter_map_contains(|der: Seq<u8>| trust_anchor(der), anchor);
        let der = choose|der: Seq<u8>| #[trigger]
            selected.contains(der) && trust_anchor(der) == Some(anchor);
        let i = choose|i: int| 0 <= i < selected.len() && selected[i] == der;
        assert(in_trusted_bundle(domains, bundles, selected[i]));
        let (d, a) = choose|d: int, a: int|
            0 <= d < domains.len() && bundles.contains_key(domains[d]) && 0 <= a
                < bundles[domains[d]].len() && #[trigger] bundles[domains[d]][a] == der;
        assert(trust_anchor(bundles[domains[d]][a]) == Some(anchor));
    }
    assert forall|i: int| 0 <= i < roots.len() implies from_trusted_bundle(
        domains,
        bundles,
        #[trigger] roots[i],
    ) by {
        assert(roots.contains(roots[i]));
    }
}

/// Where no configured trust domain has a bundle, nothing is selected and the
/// root store stays empty.
pub proof fn lemma_no_bundle_no_roots(
    domains: Seq<Seq<char>>,
    bundles: Map<Seq<char>, Seq<Seq<u8>>>,
)
    requires
        forall|d: int| 0 <= d < domains.len() ==> !bundles.contains_key(#[trigger] domains[d]),
    ensures
        selected_authorities(domains, bundles) == Seq::<Seq<u8>>::empty(),
        expected_roots(domains, bundles) == Seq::<TrustAnchor>::empty(),
    decreases domains.len(),
{
    if domains.len() > 0 {
        assert forall|d: int| 0 <= d < domains.drop_last().len() implies !bundles.contains_key(
            #[trigger] domains.drop_last()[d],
        ) by {
            assert(domains.drop_last()[d] == domains[d]);
        }
        lemma_no_bundle_no_roots(domains.drop_last(), bundles);
        assert(!bundles.contains_key(domains[domains.len() - 1]));
    }
}

/// Gathers the authorities of the bundles of the given trust domains, in the
/// order of the trust domains.
pub fn select_authorities<'a>(domains: &Vec<TrustDomain>, bundles: &'a X509BundleSet) -> (certs:
    Vec<&'a Vec<u8>>)
    ensures
        borrowed_ders(certs@) == selected_authorities(names_of(domains@), bundles@),
{
    let mut certs: Vec<&'a Vec<u8>> = Vec::new();
    let ghost names = names_of(domains@);
    let mut i: usize = 0;
    assert(names.take(0) =~= Seq::<Seq<char>>::empty());
    assert(borrowed_ders(certs@) =~= Seq::<Seq<u8>>::empty());
    while i < domains.len()
        invariant
            i <= domains.len(),
            names == names_of(domains@),
            borrowed_ders(certs@) == selected_authorities(names.take(i as int), bundles@),
        decreases domains.len() - i,
    {
        let ghost earlier = borrowed_ders(certs@);
        assert(names.take(i + 1).drop_last() =~= names.take(i as int));
        assert(names.take(i + 1).last() == domains[i as int]@);
        match bundles.get_bundle(&domains[i]) {
            Some(bundle) => {
                let authorities = bundle.authorities();
                let mut k: usize = 0;
                assert(borrowed_ders(certs@) =~= earlier + ders_of(authorities@).take(0));
                while k < authorities.len()
                    invariant
                        k <= authorities.len(),
                        borrowed_ders(certs@) == earlier + ders_of(authorities@).take(k as int),
                    decreases authorities.len() - k,
                {
                    let ghost gathered = certs@;
                    certs.push(&authorities[k]);
                    assert(borrowed_ders(certs@) =~= borrowed_ders(gathered).push(
                        authorities[k as int]@,
                    ));
                    assert(ders_of(authorities@).take(k + 1) =~= ders_of(authorities@).take(
                        k as int,
                    ).push(authorities[k as int]@));
                    k += 1;
                }
                assert(ders_of(authorities@).take(k as int) =~= ders_of(authorities@));
            },
            None => {},
        }
        i += 1;
    }
    assert(names.take(i as int) =~= names);
    certs
}

/// A root store with the count of the certificates that went into it and of
/// those that were left out.
pub struct LoadedRoots {
    /// The root store.
    pub store: rustls::RootCertStore,
    /// How many of the selected authorities the store took in.
    pub added: usize,
    /// How many of the selected authorities could not be parsed.
    pub ignored: usize,
}

/// Builds the root store for the given trust domains from the bundles of a
/// snapshot. An authority that cannot be parsed is counted and left out.
pub fn load_roots(domains: &Vec<TrustDomain>, bundles: &X509BundleSet) -> (loaded: LoadedRoots)
    ensures
        root_anchors(loaded.store) == expected_roots(names_of(domains@), bundles@),
        loaded.added == expected_roots(names_of(domains@), bundles@).len(),
        loaded.added + loaded.ignored == selected_authorities(names_of(domains@), bundles@).len(),
{
    let mut store = rustls::RootCertStore::empty();
    let certs = select_authorities(domains, bundles);
    let (added, ignored) = add_parsable_certificates(&mut store, &certs);
    assert(root_anchors(store) =~= expected_roots(names_of(domains@), bundles@));
    LoadedRoots { store, added, ignored }
}

/// Something that is set up with the trust domains it trusts, and builds its
/// root stores from them.
pub trait TrustDomainStore {
    /// The names of the trust domains that are trusted, in order.
    spec fn trusted_domains(&self) -> Seq<Seq<char>>;

    /// The trust domains that are trusted.
    fn get_trust_domains(&self) -> (domains: &Vec<TrustDomain>)
        ensures
            names_of(domains@) == self.trusted_domains(),
    ;

    /// Builds the root store from the bundles of a snapshot: it holds the
    /// anchors of the trusted domains' authorities and no others.
    fn build_root_store(&self, bundles: &X509BundleSet) -> (store: Arc<rustls::RootCertStore>)
        ensures
            root_anchors(*store) == expected_roots(self.trusted_domains(), bundles@),
            forall|i: int|
                0 <= i < root_anchors(*store).len() ==> from_trusted_bundle(
                    self.trusted_domains(),
                    bundles@,
                    #[trigger] root_anchors(*store)[i],
                ),
    {
        proof {
            lemma_roots_only_from_trusted_bundles(self.trusted_domains(), bundles@);
        }
        Arc::new(load_roots(self.get_trust_domains(), bundles).store)
    }
}

} // verus!
