use zone_authority::{
    AuthLookup, Authority, DnsSecError, ForwardAuthority, ForwardConfig, LookupError,
    LookupFuture, LookupObject, LowerName, LowerQuery, MessageRequest, Name, NameServerAddr,
    Record, RecordType, ResolverOptions, ResponseCode, UpstreamConfig, UpstreamPoll, ZoneType,
};
use zone_authority::forwarder::Async;
use zone_authority::SupportedAlgorithms;

fn name(s: &str) -> Name {
    Name::from_ascii(s.as_bytes()).expect("valid name")
}

fn lower(s: &str) -> LowerName {
    LowerName::new(&name(s))
}

fn a_record(owner: &str) -> Record {
    Record {
        name: name(owner),
        record_type: RecordType::A,
        ttl: 300,
        rdata: vec![93, 184, 216, 34],
    }
}

fn root_forwarder() -> ForwardAuthority {
    ForwardAuthority::new()
}

fn example_forwarder() -> ForwardAuthority {
    let config = ForwardConfig {
        name_servers: vec![NameServerAddr::V4 { ip4: 0x08080808, port: 53 }],
        options: None,
    };
    ForwardAuthority::try_from_config(name("example.com."), ZoneType::Forward, &config)
        .expect("valid config")
}

#[test]
fn parse_simple_name() {
    let n = name("example.com");
    let labels = n.labels();
    assert_eq!(labels.len(), 2);
    assert_eq!(labels[0], b"example".to_vec());
    assert_eq!(labels[1], b"com".to_vec());
}

#[test]
fn parse_trailing_dot_is_same_labels() {
    let n = name("example.com.");
    let labels = n.labels();
    assert_eq!(labels.len(), 2);
    assert_eq!(labels[1], b"com".to_vec());
}

#[test]
fn parse_root_forms() {
    assert!(name(".").is_root());
    assert!(name("").is_root());
    assert_eq!(name(".").label_count(), 0);
}

#[test]
fn parse_rejects_empty_label() {
    assert!(Name::from_ascii(b"a..b").is_none());
    assert!(Name::from_ascii(b".a").is_none());
    assert!(Name::from_ascii(b"a.b..").is_none());
}

#[test]
fn parse_rejects_oversized_label() {
    let long = [b'x'; 64];
    let mut bytes = long.to_vec();
    bytes.extend_from_slice(b".com");
    assert!(Name::from_ascii(&bytes).is_none());
    let ok = [b'x'; 63];
    let mut bytes = ok.to_vec();
    bytes.extend_from_slice(b".com");
    assert!(Name::from_ascii(&bytes).is_some());
}

#[test]
fn parse_rejects_overlong_name() {
    // 128 labels of one byte each cost 2 wire bytes apiece, plus the final
    // null label: 257 bytes, over the 255-byte cap.
    let mut bytes = Vec::new();
    for _ in 0..128 {
        bytes.extend_from_slice(b"a.");
    }
    assert!(Name::from_ascii(&bytes).is_none());
}

#[test]
fn from_labels_validates() {
    assert!(Name::from_labels(vec![b"example".to_vec(), b"com".to_vec()]).is_some());
    assert!(Name::from_labels(vec![Vec::new()]).is_none());
    assert!(Name::from_labels(vec![b"has.dot".to_vec()]).is_none());
    assert!(Name::from_labels(vec![[b'x'; 64].to_vec()]).is_none());
}

#[test]
fn lower_name_is_case_insensitive() {
    assert_eq!(lower("ExAmPlE.CoM"), lower("example.com"));
    assert!(lower("WWW.example.COM") != lower("example.com"));
}

#[test]
fn zone_of_root_contains_everything() {
    let root = lower(".");
    assert!(root.zone_of(&lower("example.com")));
    assert!(root.zone_of(&lower(".")));
    assert!(root.zone_of(&lower("a.very.deep.subdomain.example.org")));
}

#[test]
fn zone_of_follows_suffix_labels() {
    let zone = lower("example.com");
    assert!(zone.zone_of(&lower("example.com")));
    assert!(zone.zone_of(&lower("www.example.com")));
    assert!(zone.zone_of(&lower("WWW.EXAMPLE.COM")));
    assert!(!zone.zone_of(&lower("example.org")));
    assert!(!zone.zone_of(&lower("com")));
    assert!(!zone.zone_of(&lower("notexample.com")));
    assert!(lower("com").zone_of(&lower("example.com")));
}

#[test]
fn response_code_wire_round_trip() {
    let codes = [
        ResponseCode::NoError,
        ResponseCode::FormErr,
        ResponseCode::ServFail,
        ResponseCode::NXDomain,
        ResponseCode::NotImp,
        ResponseCode::Refused,
        ResponseCode::YXDomain,
        ResponseCode::YXRRSet,
        ResponseCode::NXRRSet,
        ResponseCode::NotAuth,
        ResponseCode::NotZone,
    ];
    for (value, code) in codes.iter().enumerate() {
        assert_eq!(code.to_value(), value as u16);
        assert_eq!(ResponseCode::from_value(value as u16), Some(*code));
    }
    assert_eq!(ResponseCode::from_value(11), None);
    assert_eq!(ResponseCode::from_value(999), None);
}

#[test]
fn record_type_wire_round_trip() {
    let pairs = [
        (RecordType::A, 1u16),
        (RecordType::NS, 2),
        (RecordType::CNAME, 5),
        (RecordType::SOA, 6),
        (RecordType::PTR, 12),
        (RecordType::MX, 15),
        (RecordType::TXT, 16),
        (RecordType::AAAA, 28),
        (RecordType::SRV, 33),
        (RecordType::Unknown(255), 255),
    ];
    for (rt, value) in pairs {
        assert_eq!(rt.to_value(), value);
        assert_eq!(RecordType::from_value(value), rt);
    }
    assert_eq!(RecordType::from_value(1), RecordType::A);
}

#[test]
fn lookup_error_classification_flags() {
    let name_exists = LookupError::for_name_exists();
    assert!(name_exists.is_name_exists());
    assert!(!name_exists.is_nx_domain());
    assert!(!name_exists.is_refused());
    assert_eq!(name_exists, LookupError::NameExists);

    let nx = LookupError::from_response_code(ResponseCode::NXDomain);
    assert!(nx.is_nx_domain());
    assert!(!nx.is_name_exists());
    assert!(!nx.is_refused());

    let refused = LookupError::from_response_code(ResponseCode::Refused);
    assert!(refused.is_refused());
    assert!(!refused.is_nx_domain());
}

#[test]
fn lookup_error_rejects_no_error_code() {
    assert!(LookupError::try_from_response_code(ResponseCode::NoError).is_none());
    let built = LookupError::try_from_response_code(ResponseCode::ServFail);
    assert_eq!(built, Some(LookupError::ResponseCode(ResponseCode::ServFail)));
}

#[test]
fn lookup_error_code_round_trip() {
    for code in [
        ResponseCode::FormErr,
        ResponseCode::ServFail,
        ResponseCode::NXDomain,
        ResponseCode::NotImp,
        ResponseCode::Refused,
    ] {
        let error = LookupError::from_response_code(code);
        assert_eq!(error.response_code(), Some(code));
    }
    assert_eq!(LookupError::for_name_exists().response_code(), None);
}

#[test]
fn lookup_error_wire_codes() {
    assert_eq!(LookupError::NameExists.as_wire_code(), ResponseCode::NoError);
    assert_eq!(
        LookupError::ResponseCode(ResponseCode::NXDomain).as_wire_code(),
        ResponseCode::NXDomain
    );
    assert_eq!(
        LookupError::ResolveError(String::from("timed out")).as_wire_code(),
        ResponseCode::ServFail
    );
    assert_eq!(LookupError::Io(String::from("disk gone")).as_wire_code(), ResponseCode::ServFail);
}

#[test]
fn lookup_error_text_forms() {
    assert_eq!(LookupError::NameExists.to_text(), "NameExists");
    assert_eq!(
        LookupError::ResponseCode(ResponseCode::NXDomain).to_text(),
        "response_code: NXDomain"
    );
    assert_eq!(
        LookupError::ResolveError(String::from("timed out")).to_text(),
        "resolve_error: timed out"
    );
    assert_eq!(LookupError::Io(String::from("disk gone")).to_text(), "io: disk gone");
}

#[test]
fn resolve_error_keeps_resolve_classification() {
    let upstream = trust_dns_resolver::error::ResolveError::from(String::from("upstream broke"));
    let error = LookupError::from_resolve_error(&upstream);
    assert!(matches!(error, LookupError::ResolveError(_)));
    assert!(!error.is_name_exists());
    assert!(!error.is_nx_domain());
    assert!(!error.is_refused());
    assert_eq!(error.to_text(), "resolve_error: upstream broke");
}

#[test]
fn io_error_keeps_io_classification() {
    let io = std::io::Error::new(std::io::ErrorKind::Other, "storage failed");
    let error = LookupError::from_io_error(&io);
    assert!(matches!(error, LookupError::Io(_)));
    assert_eq!(error.as_wire_code(), ResponseCode::ServFail);
    assert_eq!(error.to_text(), "io: storage failed");
}

#[test]
fn forwarder_serves_a_forward_zone() {
    let authority = root_forwarder();
    assert_eq!(authority.zone_type(), ZoneType::Forward);
    assert!(authority.origin().is_root());
    assert!(matches!(authority.upstream(), UpstreamConfig::System));
}

#[test]
fn forwarder_never_allows_axfr() {
    assert!(!root_forwarder().is_axfr_allowed());
    assert!(!example_forwarder().is_axfr_allowed());
}

#[test]
fn forwarder_update_is_not_implemented() {
    let mut authority = root_forwarder();
    let request = MessageRequest::new(
        LowerQuery::new(lower("example.com"), RecordType::A),
        Vec::new(),
    );
    assert_eq!(authority.update(&request), Err(ResponseCode::NotImp));
    // the zone state is unchanged
    assert!(authority.origin().is_root());
    assert_eq!(authority.zone_type(), ZoneType::Forward);
}

#[test]
fn forwarder_rejects_dnssec_hooks() {
    let mut authority = root_forwarder();
    let signer = zone_authority::Signer { key_data: vec![1, 2, 3] };
    assert_eq!(authority.add_zone_signing_key(&signer), Err(DnsSecError::NotSupported));
    assert_eq!(authority.secure_zone(), Err(DnsSecError::NotSupported));
    assert!(authority.origin().is_root());
    assert_eq!(
        DnsSecError::NotSupported.description(),
        "DNSSEC is not supported by this zone backend"
    );
}

#[test]
fn forwarder_has_no_nsec_records() {
    let authority = root_forwarder();
    let result = authority.get_nsec_records(&lower("example.com"), false, SupportedAlgorithms::new());
    match result {
        Err(LookupError::ResponseCode(code)) => assert_eq!(code, ResponseCode::NotImp),
        _ => panic!("expected a not-implemented error"),
    }
}

#[test]
fn try_from_config_requires_upstreams() {
    let config = ForwardConfig { name_servers: Vec::new(), options: None };
    let result = ForwardAuthority::try_from_config(name("example.com."), ZoneType::Forward, &config);
    assert_eq!(result.err(), Some(String::from("no upstream name servers configured")));
}

#[test]
fn try_from_config_keeps_servers_and_defaults_options() {
    let config = ForwardConfig {
        name_servers: vec![
            NameServerAddr::V4 { ip4: 0x01010101, port: 53 },
            NameServerAddr::V6 { ip6: 0x20010db8, port: 53 },
        ],
        options: None,
    };
    let authority =
        ForwardAuthority::try_from_config(name("EXAMPLE.com."), ZoneType::Forward, &config)
            .expect("valid config");
    // the origin is normalized for case-insensitive matching
    assert_eq!(*authority.origin(), lower("example.com"));
    match authority.upstream() {
        UpstreamConfig::Explicit { name_servers, options } => {
            assert_eq!(name_servers.len(), 2);
            assert_eq!(name_servers[0], NameServerAddr::V4 { ip4: 0x01010101, port: 53 });
            assert_eq!(*options, ResolverOptions::default());
            assert_eq!(options.timeout_ms, 5000);
            assert_eq!(options.attempts, 2);
            assert!(!options.validate);
        }
        UpstreamConfig::System => panic!("expected an explicit upstream configuration"),
    }
}

#[test]
fn try_from_config_keeps_named_options() {
    let named = ResolverOptions { timeout_ms: 250, attempts: 5, validate: true };
    let config = ForwardConfig {
        name_servers: vec![NameServerAddr::V4 { ip4: 0x7f000001, port: 5353 }],
        options: Some(named),
    };
    let authority =
        ForwardAuthority::try_from_config(name("."), ZoneType::Forward, &config).expect("valid");
    match authority.upstream() {
        UpstreamConfig::Explicit { options, .. } => assert_eq!(*options, named),
        UpstreamConfig::System => panic!("expected an explicit upstream configuration"),
    }
}

#[test]
fn lookup_in_zone_forwards_the_question() {
    let authority = root_forwarder();
    let result = authority.lookup(&lower("example.com"), RecordType::A, false, SupportedAlgorithms::new());
    match result {
        Ok(LookupFuture::Forward(future)) => {
            assert_eq!(*future.name(), lower("example.com"));
            assert_eq!(future.query_type(), RecordType::A);
        }
        _ => panic!("expected a pending forwarded resolution"),
    }
}

#[test]
fn lookup_outside_zone_is_refused() {
    let authority = example_forwarder();
    let result = authority.lookup(&lower("other.org."), RecordType::A, false, SupportedAlgorithms::new());
    match result {
        Err(error) => {
            assert!(error.is_refused());
            assert_eq!(error, LookupError::ResponseCode(ResponseCode::Refused));
        }
        Ok(_) => panic!("a name outside the zone must not be answered"),
    }
}

#[test]
fn search_matches_lookup() {
    let authority = example_forwarder();
    let inside = LowerQuery::new(lower("www.example.com"), RecordType::AAAA);
    match authority.search(&inside, false, SupportedAlgorithms::new()) {
        Ok(LookupFuture::Forward(future)) => {
            assert_eq!(*future.name(), lower("www.example.com"));
            assert_eq!(future.query_type(), RecordType::AAAA);
        }
        _ => panic!("expected a pending forwarded resolution"),
    }
    let outside = LowerQuery::new(lower("other.org"), RecordType::A);
    match authority.search(&outside, false, SupportedAlgorithms::new()) {
        Err(error) => assert!(error.is_refused()),
        Ok(_) => panic!("a name outside the zone must not be answered"),
    }
}

#[test]
fn forwarded_answer_with_one_record() {
    let authority = root_forwarder();
    let future = match authority.lookup(
        &lower("example.com"),
        RecordType::A,
        false,
        SupportedAlgorithms::new(),
    ) {
        Ok(LookupFuture::Forward(future)) => future,
        _ => panic!("expected a pending forwarded resolution"),
    };
    let answer = future.poll(UpstreamPoll::Ready(vec![a_record("example.com.")]));
    match answer {
        Ok(Async::Ready(lookup)) => {
            assert!(!lookup.is_empty());
            let records = lookup.iter();
            assert_eq!(records.len(), 1);
            assert_eq!(records[0].record_type, RecordType::A);
            assert_eq!(records[0].ttl, 300);
            assert_eq!(records[0].rdata, vec![93, 184, 216, 34]);
            assert!(!lookup.is_name_exists());
            assert!(!lookup.is_nx_domain());
            assert!(!lookup.is_refused());
        }
        _ => panic!("expected a completed lookup"),
    }
}

#[test]
fn forwarded_answer_with_no_records_stays_unclassified() {
    let authority = root_forwarder();
    let future = match authority.lookup(
        &lower("example.com"),
        RecordType::A,
        false,
        SupportedAlgorithms::new(),
    ) {
        Ok(LookupFuture::Forward(future)) => future,
        _ => panic!("expected a pending forwarded resolution"),
    };
    match future.poll(UpstreamPoll::Ready(Vec::new())) {
        Ok(Async::Ready(lookup)) => {
            assert!(lookup.is_empty());
            assert_eq!(lookup.iter().len(), 0);
            // the upstream collapsed the kinds of absence: no flag is guessed
            assert!(!lookup.is_name_exists());
            assert!(!lookup.is_nx_domain());
            assert!(!lookup.is_refused());
        }
        _ => panic!("expected a completed lookup"),
    }
}

#[test]
fn pending_upstream_stays_pending() {
    let future = zone_authority::ForwardLookupFuture::new(lower("example.com"), RecordType::A);
    assert!(matches!(future.poll(UpstreamPoll::NotReady), Ok(Async::NotReady)));
}

#[test]
fn failed_upstream_becomes_resolve_error() {
    let future = zone_authority::ForwardLookupFuture::new(lower("example.com"), RecordType::A);
    let upstream = trust_dns_resolver::error::ResolveError::from(String::from("request timed out"));
    match future.poll(UpstreamPoll::Failed(upstream)) {
        Err(LookupError::ResolveError(text)) => assert_eq!(text, "request timed out"),
        _ => panic!("expected a resolve-layer error"),
    }
}

#[test]
fn auth_lookup_empty_and_records() {
    let empty = AuthLookup::empty();
    assert!(empty.is_empty());
    assert_eq!(empty.iter().len(), 0);
    let served = AuthLookup::Records { answers: vec![a_record("a.example.com."), a_record("b.example.com.")] };
    assert!(!served.is_empty());
    assert_eq!(served.iter().len(), 2);
    assert!(!served.is_name_exists());
    assert!(!served.is_nx_domain());
    assert!(!served.is_refused());
    let forwarded = AuthLookup::Forwarded(zone_authority::ForwardLookup::new(vec![a_record(
        "example.com.",
    )]));
    assert!(!forwarded.is_empty());
    assert_eq!(forwarded.iter().len(), 1);
}

#[test]
fn ready_lookup_future_carries_its_answer() {
    let ready = LookupFuture::Ready(AuthLookup::empty());
    match ready {
        LookupFuture::Ready(lookup) => assert!(lookup.is_empty()),
        LookupFuture::Forward(_) => panic!("expected an immediately available answer"),
    }
}

#[test]
fn lookup_error_classification_is_part_of_equality() {
    assert!(LookupError::ResolveError(String::from("x")) != LookupError::Io(String::from("x")));
    assert!(
        LookupError::ResolveError(String::from("x")) == LookupError::ResolveError(String::from("x"))
    );
    assert!(LookupError::NameExists != LookupError::ResponseCode(ResponseCode::NoError));
}

#[test]
fn zone_type_permissions() {
    assert!(ZoneType::Primary.is_update_allowed());
    assert!(!ZoneType::Forward.is_update_allowed());
    assert!(ZoneType::Primary.is_authoritative());
    assert!(ZoneType::Secondary.is_authoritative());
    assert!(!ZoneType::Forward.is_authoritative());
    assert!(!ZoneType::Hint.is_authoritative());
}
