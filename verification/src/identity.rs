//! The identity data that a snapshot carries, as plain values.

use vstd::prelude::*;

verus! {

/// `spiffe::SpiffeIdError`, the reason why a text is no trust domain or no
/// SPIFFE ID. It is handed on as it is.
#[verifier::external_type_specification]
#[verifier::external_body]
pub struct ExSpiffeIdError(spiffe::SpiffeIdError);

/// What `spiffe::TrustDomain::new` makes of a text: the name of the trust
/// domain, or nothing where it rejects the text.
pub uninterp spec fn parsed_trust_domain(text: Seq<char>) -> Option<Seq<char>>;

/// What `spiffe::SpiffeId::new` makes of a text: the name of the trust domain
/// and the path, or nothing where it rejects the text.
pub uninterp spec fn parsed_spiffe_id(text: Seq<char>) -> Option<(Seq<char>, Seq<char>)>;

/// Calls `spiffe::TrustDomain::new`, which validates a trust domain name, or
/// takes the trust domain out of a SPIFFE ID. The name of the trust domain
/// that it accepts is `parsed_trust_domain` of the text.
#[verifier::external_body]
fn parse_trust_domain(text: &str) -> (parsed: Result<String, spiffe::SpiffeIdError>)
    ensures
        match parsed {
            Ok(name) => parsed_trust_domain(text@) == Some(name@),
            Err(_) => parsed_trust_domain(text@) is None,
        },
{
    spiffe::TrustDomain::new(text).map(|domain| domain.to_string())
}

/// Calls `spiffe::SpiffeId::new`, which validates a SPIFFE ID and splits it.
/// The trust domain and path that it accepts are `parsed_spiffe_id` of the
/// text.
#[verifier::external_body]
fn parse_spiffe_id(text: &str) -> (parsed: Result<(String, String), spiffe::SpiffeIdError>)
    ensures
        match parsed {
            Ok(parts) => parsed_spiffe_id(text@) == Some((parts.0@, parts.1@)),
            Err(_) => parsed_spiffe_id(text@) is None,
        },
{
    spiffe::SpiffeId::new(text).map(|id| (id.trust_domain().to_string(), id.path().to_string()))
}

/// The DER encodings that a list of certificates holds.
pub open spec fn ders_of(certs: Seq<Vec<u8>>) -> Seq<Seq<u8>> {
    certs.map_values(|cert: Vec<u8>| cert@)
}

/// A validated trust domain name, compared by value.
#[derive(Debug, PartialEq, Eq)]
pub struct TrustDomain {
    name: String,
}

impl View for TrustDomain {
    type V = Seq<char>;

    closed spec fn view(&self) -> Seq<char> {
        self.name@
    }
}

impl Clone for TrustDomain {
    fn clone(&self) -> (copy: Self)
        ensures
            copy@ == self@,
    {
        TrustDomain { name: self.name.clone() }
    }
}

impl TrustDomain {
    /// Validates a trust domain name, or takes the trust domain out of a
    /// SPIFFE ID.
    pub fn new(id_or_name: &str) -> (made: Result<TrustDomain, spiffe::SpiffeIdError>)
        ensures
            match made {
                Ok(domain) => parsed_trust_domain(id_or_name@) == Some(domain@),
                Err(_) => parsed_trust_domain(id_or_name@) is None,
            },
    {
        match parse_trust_domain(id_or_name) {
            Ok(name) => Ok(TrustDomain { name }),
            Err(rejected) => Err(rejected),
        }
    }

    /// The name of the trust domain.
    pub fn name(&self) -> (name: &String)
        ensures
            name@ == self@,
    {
        &self.name
    }

    /// Whether two trust domains have the same name.
    pub fn same_as(&self, other: &TrustDomain) -> (same: bool)
        ensures
            same == (self@ == other@),
    {
        self.name == other.name
    }
}

/// The names of a list of trust domains.
pub open spec fn names_of(domains: Seq<TrustDomain>) -> Seq<Seq<char>> {
    domains.map_values(|domain: TrustDomain| domain@)
}

/// A copy of a list of trust domains.
pub fn clone_domains(domains: &Vec<TrustDomain>) -> (copy: Vec<TrustDomain>)
    ensures
        names_of(copy@) == names_of(domains@),
{
    let mut copy: Vec<TrustDomain> = Vec::new();
    let mut i: usize = 0;
    while i < domains.len()
        invariant
            i <= domains.len(),
            copy.len() == i,
            forall|j: int| 0 <= j < i ==> copy[j]@ == domains[j]@,
        decreases domains.len() - i,
    {
        copy.push(domains[i].clone());
        i += 1;
    }
    assert(names_of(copy@) =~= names_of(domains@));
    copy
}

/// The parts of a SPIFFE ID.
pub struct SpiffeIdView {
    pub trust_domain: Seq<char>,
    pub path: Seq<char>,
}

/// A SPIFFE ID: a trust domain and a path within it.
#[derive(Debug, PartialEq, Eq)]
pub struct SpiffeId {
    trust_domain: TrustDomain,
    path: String,
}

impl View for SpiffeId {
    type V = SpiffeIdView;

    closed spec fn view(&self) -> SpiffeIdView {
        SpiffeIdView { trust_domain: self.trust_domain@, path: self.path@ }
    }
}

/// The SPIFFE ID that a text states, if it states one.
pub open spec fn spiffe_id_of(text: Seq<char>) -> Option<SpiffeIdView> {
    match parsed_spiffe_id(text) {
        Some(parts) => Some(SpiffeIdView { trust_domain: parts.0, path: parts.1 }),
        None => None,
    }
}

impl SpiffeId {
    /// Parses a SPIFFE ID, such as `spiffe://example.org/service`.
    pub fn new(id: &str) -> (made: Result<SpiffeId, spiffe::SpiffeIdError>)
        ensures
            match made {
                Ok(parsed) => spiffe_id_of(id@) == Some(parsed@),
                Err(_) => spiffe_id_of(id@) is None,
            },
    {
        match parse_spiffe_id(id) {
            Ok(parts) => {
                let (domain, path) = parts;
                Ok(SpiffeId { trust_domain: TrustDomain { name: domain }, path })
            },
            Err(rejected) => Err(rejected),
        }
    }

    /// The trust domain of the SPIFFE ID.
    pub fn trust_domain(&self) -> (domain: &TrustDomain)
        ensures
            domain@ == self@.trust_domain,
    {
        &self.trust_domain
    }

    /// The path of the SPIFFE ID: empty, or segments that each start with `/`.
    pub fn path(&self) -> (path: &String)
        ensures
            path@ == self@.path,
    {
        &self.path
    }

    /// Whether the SPIFFE ID lies in the given trust domain.
    pub fn is_member_of(&self, trust_domain: &TrustDomain) -> (member: bool)
        ensures
            member == (self@.trust_domain == trust_domain@),
    {
        self.trust_domain.same_as(trust_domain)
    }
}

} // verus!
