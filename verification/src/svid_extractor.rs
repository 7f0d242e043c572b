//! The SPIFFE ID of a peer, read from the leaf certificate of its chain.

use crate::identity::{ders_of, spiffe_id_of, SpiffeId, SpiffeIdView};
use rustls::ServerConnection;
use vstd::prelude::*;
use x509_parser::extensions::GeneralName;

verus! {

/// `rustls::ServerConnection`, the server's end of a session. Of what it
/// holds, only the peer's chain is read: `peer_chain` of it.
#[verifier::external_type_specification]
#[verifier::external_body]
pub struct ExServerConnection(ServerConnection);

/// The certificate chain that a session holds of its peer, leaf first, as
/// DER: what `ServerConnection::peer_certificates` gives. There is none
/// before the peer has presented one, and none where it presents none.
pub uninterp spec fn peer_chain(session: ServerConnection) -> Option<Seq<Seq<u8>>>;

/// Calls `ServerConnection::peer_certificates` and copies the certificates
/// out, each as its DER bytes.
#[verifier::external_body]
fn peer_certificates(session: &ServerConnection) -> (chain: Option<Vec<Vec<u8>>>)
    ensures
        match chain {
            Some(list) => peer_chain(*session) == Some(ders_of(list@)),
            None => peer_chain(*session) is None,
        },
{
    session.peer_certificates().map(|chain| chain.iter().map(|der| der.as_ref().to_vec()).collect())
}

/// The names that the subject alternative name extension of a DER-encoded
/// certificate lists, in order, as `x509_parser` reads them: a URI as its
/// text, any other name as nothing. There is no list where the certificate
/// does not parse, or has no such extension, or more than one, or a malformed
/// one.
pub uninterp spec fn subject_alt_uris(der: Seq<u8>) -> Option<Seq<Option<Seq<char>>>>;

/// The names of a list, each as a plain value.
pub open spec fn uris_of(names: Seq<Option<String>>) -> Seq<Option<Seq<char>>> {
    names.map_values(
        |name: Option<String>|
            match name {
                Some(uri) => Some(uri@),
                None => None,
            },
    )
}

/// Calls `x509_parser::parse_x509_certificate` and, on the certificate,
/// `subject_alternative_name`, and hands out the general names of the
/// extension in order, a URI as its text and any other name as nothing.
#[verifier::external_body]
fn read_subject_alt_uris(der: &Vec<u8>) -> (names: Option<Vec<Option<String>>>)
    ensures
        match names {
            Some(list) => subject_alt_uris(der@) == Some(uris_of(list@)),
            None => subject_alt_uris(der@) is None,
        },
{
    let (_, certificate) = x509_parser::parse_x509_certificate(der.as_slice()).ok()?;
    let extension = certificate.subject_alternative_name().ok()??;
    let names = extension.value.general_names.iter();
    Some(names.map(|name| match name {
        GeneralName::URI(uri) => Some(uri.to_string()),
        GeneralName::OtherName(..) | GeneralName::RFC822Name(_) | GeneralName::DNSName(_) => None,
        GeneralName::X400Address(_) | GeneralName::DirectoryName(_) => None,
        GeneralName::EDIPartyName(_) | GeneralName::IPAddress(_) => None,
        GeneralName::RegisteredID(_) | GeneralName::Invalid(..) => None,
    }).collect())
}

/// The SPIFFE ID that a name states: that of its text where the name is a URI
/// that states one.
pub open spec fn named_spiffe_id(name: Option<Seq<char>>) -> Option<SpiffeIdView> {
    match name {
        Some(uri) => spiffe_id_of(uri),
        None => None,
    }
}

/// The first SPIFFE ID that a list of names states, in the order of the list.
pub open spec fn first_spiffe_id(names: Seq<Option<Seq<char>>>) -> Option<SpiffeIdView>
    decreases names.len(),
{
    if names.len() == 0 {
        None
    } else if named_spiffe_id(names.first()) is Some {
        named_spiffe_id(names.first())
    } else {
        first_spiffe_id(names.drop_first())
    }
}

/// The SPIFFE ID that a DER-encoded certificate states: the first that its
/// subject alternative names state.
pub open spec fn certificate_spiffe_id(der: Seq<u8>) -> Option<SpiffeIdView> {
    match subject_alt_uris(der) {
        Some(names) => first_spiffe_id(names),
        None => None,
    }
}

/// What a SPIFFE ID that may be absent holds.
pub open spec fn id_view(id: Option<SpiffeId>) -> Option<SpiffeIdView> {
    match id {
        Some(id) => Some(id@),
        None => None,
    }
}

/// The first SPIFFE ID of a list is stated by one of its names, and by none
/// before that one; there is none only where no name states one.
pub proof fn lemma_first_spiffe_id(names: Seq<Option<Seq<char>>>)
    ensures
        match first_spiffe_id(names) {
            Some(id) => exists|i: int|
                0 <= i < names.len() && #[trigger] named_spiffe_id(names[i]) == Some(id)
                    && forall|j: int| 0 <= j < i ==> named_spiffe_id(names[j]) is None,
            None => forall|j: int| 0 <= j < names.len() ==> named_spiffe_id(names[j]) is None,
        },
    decreases names.len(),
{
    if names.len() > 0 && named_spiffe_id(names.first()) is None {
        let rest = names.drop_first();
        lemma_first_spiffe_id(rest);
        match first_spiffe_id(rest) {
            Some(id) => {
                let i = choose|i: int|
                    0 <= i < rest.len() && #[trigger] named_spiffe_id(rest[i]) == Some(id)
                        && forall|j: int| 0 <= j < i ==> named_spiffe_id(rest[j]) is None;
                assert(named_spiffe_id(names[i + 1]) == Some(id));
                assert forall|j: int| 0 <= j < i + 1 implies named_spiffe_id(names[j]) is None by {
                    if j > 0 {
                        assert(names[j] == rest[j - 1]);
                    }
                }
            },
            None => {
                assert forall|j: int| 0 <= j < names.len() implies named_spiffe_id(
                    names[j],
                ) is None by {
                    if j > 0 {
                        assert(names[j] == rest[j - 1]);
                    }
                }
            },
        }
    } else if names.len() > 0 {
        assert(named_spiffe_id(names[0]) == first_spiffe_id(names));
    }
}

/// The leaf of a certificate chain: its first certificate, if it has any.
pub open spec fn leaf_of(chain: Option<Seq<Seq<u8>>>) -> Option<Seq<u8>> {
    match chain {
        Some(certificates) => if certificates.len() > 0 {
            Some(certificates[0])
        } else {
            None
        },
        None => None,
    }
}

/// The bytes of a certificate that may be absent.
pub open spec fn der_view(certificate: Option<Vec<u8>>) -> Option<Seq<u8>> {
    match certificate {
        Some(der) => Some(der@),
        None => None,
    }
}

/// The chain of a peer that may be absent, as plain values.
pub open spec fn chain_view(chain: Option<Vec<Vec<u8>>>) -> Option<Seq<Seq<u8>>> {
    match chain {
        Some(certificates) => Some(ders_of(certificates@)),
        None => None,
    }
}

/// The leaf certificate of a peer's chain: its first certificate, or nothing
/// where there is no chain or an empty one.
pub fn leaf_certificate(peer_certificates: Option<Vec<Vec<u8>>>) -> (leaf: Option<Vec<u8>>)
    ensures
        der_view(leaf) == leaf_of(chain_view(peer_certificates)),
{
    match peer_certificates {
        Some(chain) => {
            let mut chain = chain;
            if chain.len() > 0 {
                Some(chain.swap_remove(0))
            } else {
                None
            }
        },
        None => None,
    }
}

/// The leaf certificate of a session's peer: the first of the chain that the
/// peer presented, or nothing where it presented none.
pub fn extract_leaf_cert(session: &ServerConnection) -> (leaf: Option<Vec<u8>>)
    ensures
        der_view(leaf) == leaf_of(peer_chain(*session)),
{
    leaf_certificate(peer_certificates(session))
}

/// The first SPIFFE ID among the names of a certificate, each a URI's text or
/// nothing: that of the first URI that states a valid one.
pub fn select_spiffe_id(names: &Vec<Option<String>>) -> (found: Option<SpiffeId>)
    ensures
        id_view(found) == first_spiffe_id(uris_of(names@)),
{
    let ghost all = uris_of(names@);
    let mut i: usize = 0;
    assert(all.skip(0) =~= all);
    while i < names.len()
        invariant
            i <= names.len(),
            all == uris_of(names@),
            first_spiffe_id(all) == first_spiffe_id(all.skip(i as int)),
        decreases names.len() - i,
    {
        assert(all.skip(i as int).first() == all[i as int]);
        assert(all.skip(i as int).drop_first() =~= all.skip(i + 1));
        match &names[i] {
            Some(uri) => {
                match SpiffeId::new(uri.as_str()) {
                    Ok(id) => {
                        return Some(id);
                    },
                    Err(_) => {},
                }
            },
            None => {},
        }
        i += 1;
    }
    None
}

/// The SPIFFE ID of a peer, read from its leaf certificate.
///
/// There is none where no certificate is given, where the certificate does
/// not parse or has no subject alternative names, and where none of these is
/// a URI that states a valid SPIFFE ID. Else it is the first that one of them
/// states, in the order in which the certificate lists them.
pub fn extract_spiffe_id(leaf: Option<&Vec<u8>>) -> (found: Option<SpiffeId>)
    ensures
        id_view(found) == match leaf {
            Some(der) => certificate_spiffe_id(der@),
            None => None,
        },
{
    let der = leaf?;
    let names = read_subject_alt_uris(der)?;
    select_spiffe_id(&names)
}

} // verus!
