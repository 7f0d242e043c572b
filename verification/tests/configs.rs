use rustls::pki_types::{CertificateDer, ServerName};
use rustls::server::VerifierBuilderError;
use rustls::{CertificateError, ClientConnection, RootCertStore, ServerConnection};
use rustls_spiffe::tls::{tls_outcome, verifier_outcome};
use rustls_spiffe::trust_domain_store::{load_roots, select_authorities};
use rustls_spiffe::{
    extract_leaf_cert, extract_spiffe_id, ConfigStreamError, Polled, SpiffeClientConfigStream,
    SpiffeId, SpiffeServerConfigStream, TrustDomain, TrustDomainStore, UpstreamStart, X509Bundle,
    X509BundleSet, X509Context, X509Svid,
};
use spiffe::error::GrpcClientError;
use std::io::{Read, Write};

/// A self-signed authority of `example.org`.
const CA: &str = "\
    308201a73082014ea00302010202141a16370c2f294adf279850b9ce940ea2385b1b95300a06082a8648ce3d04030230\
    3131143012060355040a0c0b6578616d706c652e6f72673119301706035504030c106578616d706c652e6f726720726f\
    6f743020170d3230303130313030303030305a180f32313230303130313030303030305a303131143012060355040a0c\
    0b6578616d706c652e6f72673119301706035504030c106578616d706c652e6f726720726f6f743059301306072a8648\
    ce3d020106082a8648ce3d03010703420004f23f0f6c17cd2af8e6991b3c499220287b6fec197fe99f89a596965f92fe\
    9a4b1b8cfb8dfac4ce0a0842f03fc8da5f4c737bda71ef5a19b76c9aef83c6b95f08a3423040300f0603551d130101ff\
    040530030101ff300e0603551d0f0101ff040403020106301d0603551d0e041604142d85f1e1d0e0d06127c3a1d4a34c\
    f84150516a2c300a06082a8648ce3d040302034700304402204e43f69fe79a7338bd4951476f16d766f10ddace7bf22a\
    35b09afc80e64ebabf02206a23467820bbe0632f433e0bbdf3a81e561e3b732ba08c32a94a29abe2bb5236\
";

/// A self-signed authority of `other.org`.
const OTHER_CA: &str = "\
    3082019f30820146a00302010202144c1ca06a18564304c7c99f4ade59e2a61f2a3078300a06082a8648ce3d04030230\
    2d31123010060355040a0c096f746865722e6f72673117301506035504030c0e6f746865722e6f726720726f6f743020\
    170d3230303130313030303030305a180f32313230303130313030303030305a302d31123010060355040a0c096f7468\
    65722e6f72673117301506035504030c0e6f746865722e6f726720726f6f743059301306072a8648ce3d020106082a86\
    48ce3d03010703420004ff5dc654e860b2faceac8a2542b7142aa708a7c5053ba4951b71bf63c27ebab3b2addea2972d\
    473db6ef82552b618a4dd596b2fd4627322204adaf27125ed90ea3423040300f0603551d130101ff040530030101ff30\
    0e0603551d0f0101ff040403020106301d0603551d0e041604148901997151126a8cfcb1b9083b6d6b7c7a5192e4300a\
    06082a8648ce3d04030203470030440220198190401c7c456bd7d3b87bc2290a9f74cd31a3a433ad015de52b66cf82e4\
    280220529f4dad7e3d5aab6f5219a9b4e2a8889adf9abfef9335083e05afd634daac03\
";

/// A certificate that the authority of `example.org` issued, with the URI
/// `spiffe://example.org/testservice` and the DNS name `localhost`.
const LEAF: &str = "\
    308201c130820168a00302010202140b3af14074729c38ee558a503647518a99daf431300a06082a8648ce3d04030230\
    3131143012060355040a0c0b6578616d706c652e6f72673119301706035504030c106578616d706c652e6f726720726f\
    6f743020170d3230303130313030303030305a180f32313230303130313030303030305a30163114301206035504030c\
    0b74657374736572766963653059301306072a8648ce3d020106082a8648ce3d030107034200042ce2735576fae18d16\
    e5e5549f99b23002e1c647c4cbb0f5c5b4eb9d5ce798cf281b13032b9b89228a3f9eccc7ba4371a2a579dc89df8c432d\
    b13973b8157283a3773075300c0603551d130101ff04023000300e0603551d0f0101ff040403020780301d0603551d25\
    0416301406082b0601050507030106082b0601050507030230360603551d11042f302d86207370696666653a2f2f6578\
    616d706c652e6f72672f746573747365727669636582096c6f63616c686f7374300a06082a8648ce3d04030203470030\
    4402200850accd6708c4a1936d854fce8c25fd8ab88f53722387164ccdbcb05269d47902201179afa19264233d8c9cda\
    1f84e633e87048f3b3e8c0b43a427e94e5d05f5076\
";

/// The private key of `LEAF`, in PKCS#8.
const LEAF_KEY: &str = "\
    308187020100301306072a8648ce3d020106082a8648ce3d030107046d306b02010104207e8c966dd3af0a02a97b2370\
    0e6e4617b6d3c48990a39ebed224403abf6694afa144034200042ce2735576fae18d16e5e5549f99b23002e1c647c4cb\
    b0f5c5b4eb9d5ce798cf281b13032b9b89228a3f9eccc7ba4371a2a579dc89df8c432db13973b8157283\
";

/// A private key that belongs to no certificate here, in PKCS#8.
const WRONG_KEY: &str = "\
    308187020100301306072a8648ce3d020106082a8648ce3d030107046d306b02010104209006def5f8729090d12486b7\
    c1bb2e57d427922d05dcc6ef217b1994e6ef2f71a144034200045de4e10109b0093f39758a9d6b8dc1072e4475c67119\
    c63e85b5dcb3adc44a9193a7ad1f796df0076871fa81ec6d8ee5c0a017562097783a222e4f585bbb1b6e\
";

/// A certificate without subject alternative names.
const NO_SAN: &str = "\
    308201873082012da00302010202142be526dd87ea1d554e1866600820b01368f1a737300a06082a8648ce3d04030230\
    3131143012060355040a0c0b6578616d706c652e6f72673119301706035504030c106578616d706c652e6f726720726f\
    6f743020170d3230303130313030303030305a180f32313230303130313030303030305a30133111300f06035504030c\
    086e6f206e616d65733059301306072a8648ce3d020106082a8648ce3d030107034200041abe3d249c0c98914bde1ebe\
    267c97d180348a9916c2bc196ea3beb94645d6515fa8af4472d75df325bfb4d6cacea1fc998dafe5366ef9e7f3e6d5bf\
    5d8d51d1a33f303d300c0603551d130101ff04023000300e0603551d0f0101ff040403020780301d0603551d25041630\
    1406082b0601050507030106082b06010505070302300a06082a8648ce3d040302034800304502201804deaeff2f3458\
    08977a22c086aed205bdec20b4fafeb9b97c706c8d3ca21c022100c28578ad64d0dcb3b1bb89e94a52b6669b61708324\
    0bd8f31856bbeebdb96cf8\
";

/// A certificate with a DNS name and a mail address, and no URI.
const DNS_ONLY: &str = "\
    308201ad30820154a00302010202141b9ec03601428c5ee342122bdc03ae66e76c05ef300a06082a8648ce3d04030230\
    3131143012060355040a0c0b6578616d706c652e6f72673119301706035504030c106578616d706c652e6f726720726f\
    6f743020170d3230303130313030303030305a180f32313230303130313030303030305a30133111300f06035504030c\
    08646e73206f6e6c793059301306072a8648ce3d020106082a8648ce3d03010703420004efd24bae7789a99b910959d1\
    fc16ee05684036f579a2e9e5fa2111c189e7b0fc45c7a8c2e6bc1951457aabd57c4fff0f1e7ab04d2cd2a8ee2409785b\
    1715f7baa3663064300c0603551d130101ff04023000300e0603551d0f0101ff040403020780301d0603551d25041630\
    1406082b0601050507030106082b0601050507030230250603551d11041e301c82096c6f63616c686f7374810f6f7073\
    406578616d706c652e6f7267300a06082a8648ce3d0403020347003044022012a496c15665f30f0f95474dd23bfb64e2\
    8bc25b4bc731bb9ce747d551f9bb6902202411995990c065c7c6fea41dfd82637ab929ab627fcc94cabb4828d01f4fd1\
    8a\
";

/// A certificate with a DNS name and the URIs `https://example.org/not-a-spiffe-id`,
/// `spiffe://example.org/second` and `spiffe://example.org/third`, in this order.
const MANY_URIS: &str = "\
    308201fe308201a5a0030201020214052755885a20c10aca1de49cbca87a608a127276300a06082a8648ce3d04030230\
    3131143012060355040a0c0b6578616d706c652e6f72673119301706035504030c106578616d706c652e6f726720726f\
    6f743020170d3230303130313030303030305a180f32313230303130313030303030305a30153113301106035504030c\
    0a6d616e79206e616d65733059301306072a8648ce3d020106082a8648ce3d03010703420004f973779bd5e8092b69cb\
    bb9ce77155d6c4042a2db4d0595c95749d9d114cff53960796010cb9200fcec3955d1af87b99534a2671abde87bb92e0\
    3d46afd8b889a381b43081b1300c0603551d130101ff04023000300e0603551d0f0101ff040403020780301d0603551d\
    250416301406082b0601050507030106082b0601050507030230720603551d11046b306982096c6f63616c686f737486\
    2368747470733a2f2f6578616d706c652e6f72672f6e6f742d612d7370696666652d6964861b7370696666653a2f2f65\
    78616d706c652e6f72672f7365636f6e64861a7370696666653a2f2f6578616d706c652e6f72672f7468697264300a06\
    082a8648ce3d040302034700304402204485fffdd1567450b6f33d3fbd0158957c9b4efcd0815204a423a9e2ee50421a\
    02205f6c9a753d6a167958453c84ed08e0580b0271853d90bc02096630f3a4106170\
";

/// A certificate with the URIs `spiffe://Example.org/upper` and `https://example.org/x`.
const NO_VALID_URI: &str = "\
    308201c43082016aa003020102021458c048bbadbde20b88b86237b30227df3127fafa300a06082a8648ce3d04030230\
    3131143012060355040a0c0b6578616d706c652e6f72673119301706035504030c106578616d706c652e6f726720726f\
    6f743020170d3230303130313030303030305a180f32313230303130313030303030305a30123110300e06035504030c\
    07626164207572693059301306072a8648ce3d020106082a8648ce3d03010703420004c7b1d5ffdc0fc4f03fc3981098\
    f68be043f7a497ad27138176b1469c293015fb28aa287f8cecd7e51a7976cb1f6a15b7a011ea667a3535065bc270c511\
    b9deeea37d307b300c0603551d130101ff04023000300e0603551d0f0101ff040403020780301d0603551d2504163014\
    06082b0601050507030106082b06010505070302303c0603551d1104353033861a7370696666653a2f2f4578616d706c\
    652e6f72672f7570706572861568747470733a2f2f6578616d706c652e6f72672f78300a06082a8648ce3d0403020348\
    003045022042c3e785b9e9d303a8b9a1312666608f7b2375da5c38f2709b89d55d19f24c56022100f33ebd2f685ecda8\
    b57c5a936fb6007b7ed63523ac8a669a9c930acc3394d5d3\
";

fn hex(text: &str) -> Vec<u8> {
    let digits: Vec<u8> = text
        .bytes()
        .map(|digit| match digit {
            b'0'..=b'9' => digit - b'0',
            b'a'..=b'f' => digit - b'a' + 10,
            _ => panic!("not a hex digit"),
        })
        .collect();
    digits.chunks(2).map(|pair| pair[0] * 16 + pair[1]).collect()
}

fn domain(name: &str) -> TrustDomain {
    TrustDomain::new(name).unwrap()
}

fn bundles(entries: Vec<(&str, Vec<Vec<u8>>)>) -> X509BundleSet {
    let mut set = X509BundleSet::new();
    for (name, authorities) in entries {
        set.add_bundle(X509Bundle::new(domain(name), authorities));
    }
    set
}

fn identity() -> X509Svid {
    X509Svid::new(vec![hex(LEAF)], hex(LEAF_KEY))
}

fn snapshot(bundle_domain: &str) -> X509Context {
    X509Context::new(vec![identity()], bundles(vec![(bundle_domain, vec![hex(CA)])]))
}

fn client_stream(names: Vec<&str>) -> SpiffeClientConfigStream {
    let domains: Vec<TrustDomain> = names.into_iter().map(domain).collect();
    SpiffeClientConfigStream::builder(domains).build(UpstreamStart::Streaming).unwrap()
}

fn server_stream(names: Vec<&str>) -> SpiffeServerConfigStream {
    let domains: Vec<TrustDomain> = names.into_iter().map(domain).collect();
    SpiffeServerConfigStream::builder(domains).build(UpstreamStart::Streaming).unwrap()
}

fn reference_store(certificates: Vec<Vec<u8>>) -> RootCertStore {
    let mut store = RootCertStore::empty();
    for certificate in certificates {
        store.add(CertificateDer::from(certificate)).unwrap();
    }
    store
}

fn exchange(client: &mut ClientConnection, server: &mut ServerConnection) {
    let mut rounds: u32 = 0;
    while (client.wants_write() || server.wants_write()) && rounds < 32 {
        let mut to_server: Vec<u8> = Vec::new();
        while client.wants_write() {
            client.write_tls(&mut to_server).unwrap();
        }
        let mut incoming = &to_server[..];
        while !incoming.is_empty() {
            server.read_tls(&mut incoming).unwrap();
            server.process_new_packets().unwrap();
        }
        let mut to_client: Vec<u8> = Vec::new();
        while server.wants_write() {
            server.write_tls(&mut to_client).unwrap();
        }
        let mut incoming = &to_client[..];
        while !incoming.is_empty() {
            client.read_tls(&mut incoming).unwrap();
            client.process_new_packets().unwrap();
        }
        rounds += 1;
    }
}

#[test]
fn root_store_holds_only_anchors_of_trusted_domains() {
    let set = bundles(vec![("example.org", vec![hex(CA)]), ("other.org", vec![hex(OTHER_CA)])]);
    let loaded = load_roots(&vec![domain("example.org")], &set);
    assert_eq!(loaded.added, 1);
    assert_eq!(loaded.ignored, 0);
    assert_eq!(loaded.store.roots, reference_store(vec![hex(CA)]).roots);
    assert_ne!(loaded.store.roots, reference_store(vec![hex(OTHER_CA)]).roots);

    let stream = client_stream(vec!["other.org"]);
    let store = stream.build_root_store(&set);
    assert_eq!(store.roots, reference_store(vec![hex(OTHER_CA)]).roots);
    let server = server_stream(vec!["other.org"]);
    assert_eq!(server.build_root_store(&set).roots, reference_store(vec![hex(OTHER_CA)]).roots);
}

#[test]
fn root_store_follows_the_order_of_the_trust_domains() {
    let set = bundles(vec![("example.org", vec![hex(CA)]), ("other.org", vec![hex(OTHER_CA)])]);
    let domains = vec![domain("other.org"), domain("missing.org"), domain("example.org")];
    let selected = select_authorities(&domains, &set);
    assert_eq!(selected, vec![&hex(OTHER_CA), &hex(CA)]);
    let loaded = load_roots(&domains, &set);
    assert_eq!(loaded.added, 2);
    assert_eq!(loaded.ignored, 0);
    assert_eq!(loaded.store.roots, reference_store(vec![hex(OTHER_CA), hex(CA)]).roots);
}

#[test]
fn root_store_takes_a_trust_domain_as_often_as_it_is_named() {
    let set = bundles(vec![("example.org", vec![hex(CA)])]);
    let domains = vec![domain("example.org"), domain("example.org")];
    let loaded = load_roots(&domains, &set);
    assert_eq!(loaded.added, 2);
    assert_eq!(loaded.store.roots, reference_store(vec![hex(CA), hex(CA)]).roots);
}

#[test]
fn root_store_counts_and_skips_what_does_not_parse() {
    let set = bundles(vec![(
        "example.org",
        vec![vec![0x30u8, 0x00], hex(CA), Vec::new(), hex(OTHER_CA), hex(LEAF_KEY)],
    )]);
    let loaded = load_roots(&vec![domain("example.org")], &set);
    assert_eq!(loaded.added, 2);
    assert_eq!(loaded.ignored, 3);
    assert_eq!(loaded.store.roots, reference_store(vec![hex(CA), hex(OTHER_CA)]).roots);
}

#[test]
fn root_store_is_empty_without_a_matching_bundle() {
    let set = bundles(vec![("other.org", vec![hex(OTHER_CA)])]);
    let loaded = load_roots(&vec![domain("example.org")], &set);
    assert_eq!(loaded.added, 0);
    assert_eq!(loaded.ignored, 0);
    assert!(loaded.store.is_empty());
    assert!(select_authorities(&vec![domain("example.org")], &set).is_empty());
    assert!(load_roots(&Vec::new(), &set).store.is_empty());
    assert!(load_roots(&vec![domain("example.org")], &X509BundleSet::new()).store.is_empty());
}

#[test]
fn trust_domains_of_a_stream_are_those_it_was_built_with() {
    let stream = client_stream(vec!["example.org", "other.org"]);
    let domains = stream.get_trust_domains();
    assert_eq!(domains.len(), 2);
    assert_eq!(domains[0].name(), "example.org");
    assert_eq!(domains[1].name(), "other.org");
}

#[test]
fn builder_can_be_used_again() {
    let mut builder = SpiffeServerConfigStream::builder(vec![domain("example.org")]);
    let first = builder.build(UpstreamStart::Streaming).unwrap();
    let second = builder.build(UpstreamStart::Streaming).unwrap();
    assert!(first.build_server_config(snapshot("example.org")).is_ok());
    assert!(second.build_server_config(snapshot("example.org")).is_ok());
}

#[test]
fn builder_reports_an_upstream_that_did_not_start() {
    let mut client = SpiffeClientConfigStream::builder(vec![domain("example.org")]);
    assert!(matches!(
        client.build(UpstreamStart::NoClient(GrpcClientError::MissingEndpointSocketPath)),
        Err(ConfigStreamError::StreamBuilderError(GrpcClientError::MissingEndpointSocketPath))
    ));
    assert!(matches!(
        client.build(UpstreamStart::NoStream(GrpcClientError::EmptyResponse)),
        Err(ConfigStreamError::StreamBuilderError(GrpcClientError::EmptyResponse))
    ));
    assert!(client.build(UpstreamStart::Streaming).is_ok());
    let mut server = SpiffeServerConfigStream::builder(vec![domain("example.org")]);
    assert!(matches!(
        server.build(UpstreamStart::NoClient(GrpcClientError::MissingEndpointSocketPath)),
        Err(ConfigStreamError::StreamBuilderError(GrpcClientError::MissingEndpointSocketPath))
    ));
    assert!(matches!(
        server.build(UpstreamStart::NoStream(GrpcClientError::EmptyResponse)),
        Err(ConfigStreamError::StreamBuilderError(GrpcClientError::EmptyResponse))
    ));
    assert!(server.build(UpstreamStart::Streaming).is_ok());
}

#[test]
fn configurations_build_from_a_valid_snapshot() {
    let client = client_stream(vec!["example.org"]);
    let config = client.build_client_config(&snapshot("example.org")).unwrap();
    assert!(config.client_auth_cert_resolver.has_certs());
    let server = server_stream(vec!["example.org"]);
    let config = server.build_server_config(snapshot("example.org")).unwrap();
    assert!(ServerConnection::new(config).is_ok());
}

#[test]
fn configurations_build_with_the_provider_of_the_process() {
    assert!(rustls::crypto::aws_lc_rs::default_provider().install_default().is_ok());
    let client = client_stream(vec!["example.org"]);
    assert!(client.build_client_config(&snapshot("example.org")).is_ok());
    let server = server_stream(vec!["example.org"]);
    assert!(server.build_server_config(snapshot("example.org")).is_ok());
}

#[test]
fn bundle_of_another_domain_gives_missing_roots() {
    let client = client_stream(vec!["example.org"]);
    assert!(matches!(
        client.build_client_config(&snapshot("other.org")),
        Err(ConfigStreamError::MissingRoots)
    ));
    let server = server_stream(vec!["example.org"]);
    assert!(matches!(
        server.build_server_config(snapshot("other.org")),
        Err(ConfigStreamError::MissingRoots)
    ));
}

#[test]
fn snapshot_without_bundles_gives_missing_roots() {
    let client = client_stream(vec!["example.org", "other.org"]);
    let empty = X509Context::new(vec![identity()], X509BundleSet::new());
    assert!(matches!(client.build_client_config(&empty), Err(ConfigStreamError::MissingRoots)));
    let server = server_stream(vec!["example.org", "other.org"]);
    let empty = X509Context::new(Vec::new(), X509BundleSet::new());
    assert!(matches!(server.build_server_config(empty), Err(ConfigStreamError::MissingRoots)));
}

#[test]
fn bundle_without_usable_anchors_gives_missing_roots() {
    let unusable = vec![("example.org", vec![vec![1u8, 2, 3], Vec::new()])];
    let client = client_stream(vec!["example.org"]);
    let context = X509Context::new(vec![identity()], bundles(unusable.clone()));
    assert!(matches!(client.build_client_config(&context), Err(ConfigStreamError::MissingRoots)));
    let bare = X509Context::new(vec![identity()], bundles(vec![("example.org", Vec::new())]));
    assert!(matches!(client.build_client_config(&bare), Err(ConfigStreamError::MissingRoots)));
    let server = server_stream(vec!["example.org"]);
    let context = X509Context::new(vec![identity()], bundles(unusable));
    assert!(matches!(server.build_server_config(context), Err(ConfigStreamError::MissingRoots)));
}

#[test]
fn snapshot_without_identity_gives_missing_identity() {
    let client = client_stream(vec!["example.org"]);
    let context = X509Context::new(Vec::new(), bundles(vec![("example.org", vec![hex(CA)])]));
    assert!(matches!(
        client.build_client_config(&context),
        Err(ConfigStreamError::MissingIdentity)
    ));
    let server = server_stream(vec!["example.org"]);
    let context = X509Context::new(Vec::new(), bundles(vec![("example.org", vec![hex(CA)])]));
    assert!(matches!(
        server.build_server_config(context),
        Err(ConfigStreamError::MissingIdentity)
    ));
}

#[test]
fn key_of_another_certificate_is_rejected() {
    let client = client_stream(vec!["example.org"]);
    let mismatched = X509Context::new(
        vec![X509Svid::new(vec![hex(LEAF)], hex(WRONG_KEY))],
        bundles(vec![("example.org", vec![hex(CA)])]),
    );
    assert!(matches!(
        client.build_client_config(&mismatched),
        Err(ConfigStreamError::TlsConfigRejected(rustls::Error::InconsistentKeys(
            rustls::InconsistentKeys::KeyMismatch
        )))
    ));
    let server = server_stream(vec!["example.org"]);
    assert!(matches!(
        server.build_server_config(mismatched),
        Err(ConfigStreamError::TlsConfigRejected(rustls::Error::InconsistentKeys(
            rustls::InconsistentKeys::KeyMismatch
        )))
    ));
}

#[test]
fn malformed_key_is_rejected() {
    let client = client_stream(vec!["example.org"]);
    let malformed = X509Context::new(
        vec![X509Svid::new(vec![hex(LEAF)], vec![0x30u8, 0x00])],
        bundles(vec![("example.org", vec![hex(CA)])]),
    );
    assert!(matches!(
        client.build_client_config(&malformed),
        Err(ConfigStreamError::TlsConfigRejected(_))
    ));
    let server = server_stream(vec!["example.org"]);
    assert!(matches!(
        server.build_server_config(malformed),
        Err(ConfigStreamError::TlsConfigRejected(_))
    ));
}

#[test]
fn only_the_default_identity_is_presented() {
    let client = client_stream(vec!["example.org"]);
    let context = X509Context::new(
        vec![X509Svid::new(vec![hex(LEAF)], hex(WRONG_KEY)), identity()],
        bundles(vec![("example.org", vec![hex(CA)])]),
    );
    assert!(matches!(
        client.build_client_config(&context),
        Err(ConfigStreamError::TlsConfigRejected(_))
    ));
    let context = X509Context::new(
        vec![identity(), X509Svid::new(vec![hex(LEAF)], hex(WRONG_KEY))],
        bundles(vec![("example.org", vec![hex(CA)])]),
    );
    assert!(client.build_client_config(&context).is_ok());
}

#[test]
fn refusals_of_rustls_are_wrapped() {
    let refused: Result<u8, rustls::Error> = Err(rustls::Error::NoCertificatesPresented);
    assert!(matches!(
        tls_outcome(refused),
        Err(ConfigStreamError::TlsConfigRejected(rustls::Error::NoCertificatesPresented))
    ));
    let accepted: Result<u8, rustls::Error> = Ok(7);
    assert_eq!(*tls_outcome(accepted).unwrap(), 7);
    assert!(matches!(
        verifier_outcome(Err(VerifierBuilderError::NoRootAnchors)),
        Err(ConfigStreamError::VerifierRejected(VerifierBuilderError::NoRootAnchors))
    ));
}

#[test]
fn pull_without_an_element_gives_none() {
    let client = client_stream(vec!["example.org"]);
    assert!(matches!(client.poll_next(Polled::Pending), Polled::Pending));
    assert!(matches!(client.poll_next(Polled::Ready(None)), Polled::Ready(None)));
    let server = server_stream(vec!["example.org"]);
    assert!(matches!(server.poll_next(Polled::Pending), Polled::Pending));
    assert!(matches!(server.poll_next(Polled::Ready(None)), Polled::Ready(None)));
}

#[test]
fn upstream_failure_is_passed_on() {
    let client = client_stream(vec!["example.org"]);
    assert!(matches!(
        client.poll_next(Polled::Ready(Some(Err(GrpcClientError::EmptyResponse)))),
        Polled::Ready(Some(Err(ConfigStreamError::StreamError(GrpcClientError::EmptyResponse))))
    ));
    let server = server_stream(vec!["example.org"]);
    assert!(matches!(
        server.poll_next(Polled::Ready(Some(Err(GrpcClientError::MissingEndpointSocketPath)))),
        Polled::Ready(Some(Err(ConfigStreamError::StreamError(
            GrpcClientError::MissingEndpointSocketPath
        ))))
    ));
}

#[test]
fn each_upstream_element_gives_its_own_element_in_order() {
    let client = client_stream(vec!["example.org"]);
    let server = server_stream(vec!["example.org"]);
    let script = || {
        vec![
            Polled::Ready(Some(Ok(snapshot("example.org")))),
            Polled::Pending,
            Polled::Ready(Some(Err(GrpcClientError::EmptyResponse))),
            Polled::Ready(Some(Ok(snapshot("other.org")))),
            Polled::Ready(Some(Ok(X509Context::new(
                Vec::new(),
                bundles(vec![("example.org", vec![hex(CA)])]),
            )))),
            Polled::Pending,
            Polled::Ready(Some(Ok(snapshot("example.org")))),
            Polled::Ready(None),
        ]
    };
    let emitted: Vec<_> = script().into_iter().map(|pull| client.poll_next(pull)).collect();
    assert_eq!(emitted.len(), 8);
    assert!(matches!(emitted[0], Polled::Ready(Some(Ok(_)))));
    assert!(matches!(emitted[1], Polled::Pending));
    assert!(matches!(emitted[2], Polled::Ready(Some(Err(ConfigStreamError::StreamError(_))))));
    assert!(matches!(emitted[3], Polled::Ready(Some(Err(ConfigStreamError::MissingRoots)))));
    assert!(matches!(emitted[4], Polled::Ready(Some(Err(ConfigStreamError::MissingIdentity)))));
    assert!(matches!(emitted[5], Polled::Pending));
    assert!(matches!(emitted[6], Polled::Ready(Some(Ok(_)))));
    assert!(matches!(emitted[7], Polled::Ready(None)));
    let emitted: Vec<_> = script().into_iter().map(|pull| server.poll_next(pull)).collect();
    assert_eq!(emitted.len(), 8);
    assert!(matches!(emitted[0], Polled::Ready(Some(Ok(_)))));
    assert!(matches!(emitted[1], Polled::Pending));
    assert!(matches!(emitted[2], Polled::Ready(Some(Err(ConfigStreamError::StreamError(_))))));
    assert!(matches!(emitted[3], Polled::Ready(Some(Err(ConfigStreamError::MissingRoots)))));
    assert!(matches!(emitted[4], Polled::Ready(Some(Err(ConfigStreamError::MissingIdentity)))));
    assert!(matches!(emitted[5], Polled::Pending));
    assert!(matches!(emitted[6], Polled::Ready(Some(Ok(_)))));
    assert!(matches!(emitted[7], Polled::Ready(None)));
}

#[test]
fn failed_snapshot_does_not_end_the_sequence() {
    let client = client_stream(vec!["example.org"]);
    assert!(matches!(
        client.poll_next(Polled::Ready(Some(Ok(snapshot("other.org"))))),
        Polled::Ready(Some(Err(ConfigStreamError::MissingRoots)))
    ));
    assert!(matches!(
        client.poll_next(Polled::Ready(Some(Ok(snapshot("example.org"))))),
        Polled::Ready(Some(Ok(_)))
    ));
}

#[test]
fn spiffe_id_is_read_from_the_uri_of_a_certificate() {
    assert_eq!(
        extract_spiffe_id(Some(&hex(LEAF))),
        Some(SpiffeId::new("spiffe://example.org/testservice").unwrap())
    );
}

#[test]
fn certificate_without_uri_has_no_spiffe_id() {
    assert_eq!(extract_spiffe_id(Some(&hex(NO_SAN))), None);
    assert_eq!(extract_spiffe_id(Some(&hex(DNS_ONLY))), None);
    assert_eq!(extract_spiffe_id(Some(&hex(CA))), None);
    assert_eq!(extract_spiffe_id(Some(&hex(LEAF_KEY))), None);
}

#[test]
fn first_valid_uri_of_a_certificate_is_its_spiffe_id() {
    assert_eq!(
        extract_spiffe_id(Some(&hex(MANY_URIS))),
        Some(SpiffeId::new("spiffe://example.org/second").unwrap())
    );
    assert_eq!(extract_spiffe_id(Some(&hex(NO_VALID_URI))), None);
}

#[test]
fn successful_handshake() {
    let client_config = client_stream(vec!["example.org"])
        .build_client_config(&snapshot("example.org"))
        .unwrap();
    let server_config = server_stream(vec!["example.org"])
        .build_server_config(snapshot("example.org"))
        .unwrap();
    let mut client =
        ClientConnection::new(client_config, ServerName::try_from("localhost").unwrap()).unwrap();
    let mut server = ServerConnection::new(server_config).unwrap();
    exchange(&mut client, &mut server);
    assert!(!client.is_handshaking());
    assert!(!server.is_handshaking());

    let leaf = extract_leaf_cert(&server);
    assert_eq!(leaf, Some(hex(LEAF)));
    let svid = extract_spiffe_id(leaf.as_ref()).unwrap();

    client.writer().write_all("PING".as_bytes()).unwrap();
    client.send_close_notify();
    exchange(&mut client, &mut server);
    let mut received: Vec<u8> = Vec::new();
    server.reader().read_to_end(&mut received).unwrap();
    server.writer().write_all("PONG".as_bytes()).unwrap();
    server.send_close_notify();
    exchange(&mut client, &mut server);
    let mut answered: Vec<u8> = Vec::new();
    client.reader().read_to_end(&mut answered).unwrap();

    assert_eq!(String::from_utf8_lossy(&received).to_string(), "PING",);
    assert_eq!(svid, SpiffeId::new("spiffe://example.org/testservice").unwrap());
    assert_eq!(String::from_utf8_lossy(&answered).to_string(), "PONG",);
}

#[test]
fn handshake_fails_for_a_client_of_an_untrusted_domain() {
    let other_roots = X509Context::new(
        vec![identity()],
        bundles(vec![("example.org", vec![hex(OTHER_CA)])]),
    );
    let client_config = client_stream(vec!["example.org"])
        .build_client_config(&snapshot("example.org"))
        .unwrap();
    let server_config =
        server_stream(vec!["example.org"]).build_server_config(other_roots).unwrap();
    let mut client =
        ClientConnection::new(client_config, ServerName::try_from("localhost").unwrap()).unwrap();
    let mut server = ServerConnection::new(server_config).unwrap();
    let mut refused: Option<rustls::Error> = None;
    let mut rounds: u32 = 0;
    while refused.is_none() && rounds < 32 && (client.wants_write() || server.wants_write()) {
        let mut to_server: Vec<u8> = Vec::new();
        while client.wants_write() {
            client.write_tls(&mut to_server).unwrap();
        }
        let mut incoming = &to_server[..];
        while refused.is_none() && !incoming.is_empty() {
            server.read_tls(&mut incoming).unwrap();
            refused = server.process_new_packets().err();
        }
        let mut to_client: Vec<u8> = Vec::new();
        while server.wants_write() {
            server.write_tls(&mut to_client).unwrap();
        }
        let mut incoming = &to_client[..];
        while refused.is_none() && !incoming.is_empty() {
            client.read_tls(&mut incoming).unwrap();
            let _ = client.process_new_packets();
        }
        rounds += 1;
    }
    assert!(matches!(
        refused,
        Some(rustls::Error::InvalidCertificate(CertificateError::UnknownIssuer))
    ));
    assert_eq!(extract_leaf_cert(&server), None);
}

#[test]
fn session_without_a_peer_certificate_has_no_leaf() {
    let server_config =
        server_stream(vec!["example.org"]).build_server_config(snapshot("example.org")).unwrap();
    let server = ServerConnection::new(server_config).unwrap();
    assert_eq!(extract_leaf_cert(&server), None);
    assert_eq!(extract_spiffe_id(extract_leaf_cert(&server).as_ref()), None);
}
