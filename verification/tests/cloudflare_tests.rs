use rddns::cloudflare::{
    cf_outcome, is_header_value, CfApiError, CfApiResponse, CfRecord, CfState, CfZone, CfZoneCache, CloudflareProvider,
};
use rddns::domain::parse_domain;
use rddns::engine::IpAddress;
use rddns::net::Ipv4;
use rddns::providers::{DnsProviderError, HttpMethod, HttpReply, SyncStep};
use rddns::records::{DnsRecordType, SyncStatus};

fn ok() -> HttpReply {
    HttpReply { success: true, status: "200 OK".to_string(), body: String::new() }
}

fn v4() -> IpAddress {
    IpAddress::V4(Ipv4::new(1, 2, 3, 4))
}

fn envelope<T>(result: T) -> Result<CfApiResponse<T>, String> {
    Ok(CfApiResponse { success: true, errors: vec![], result: Some(result) })
}

fn token_provider() -> CloudflareProvider {
    CloudflareProvider::new(Some(" tok ".to_string()), None, None).unwrap()
}

#[test]
fn cloudflare_needs_token_or_key() {
    match CloudflareProvider::new(Some("  ".to_string()), None, Some("a@b.c".to_string())) {
        Err(DnsProviderError::MissingCredentials(m)) => {
            assert_eq!(m, "Cloudflare 需要配置 API Token 或 API Key + 邮箱")
        }
        _ => panic!("expected missing credentials"),
    }
    let p = token_provider();
    assert_eq!(p.auth_identity, "token:tok");
    let h = p.build_headers();
    assert_eq!(h, vec![("Authorization".to_string(), "Bearer tok".to_string())]);

    let k = CloudflareProvider::new(None, Some(" key ".to_string()), Some("me@x.com".to_string())).unwrap();
    assert_eq!(k.auth_identity, "key: key :me@x.com");
    assert_eq!(
        k.build_headers(),
        vec![
            ("X-Auth-Key".to_string(), "key".to_string()),
            ("X-Auth-Email".to_string(), "me@x.com".to_string())
        ]
    );
    let bad = CloudflareProvider::new(Some("a\u{1}b".to_string()), Some("k".to_string()), None).unwrap();
    assert!(bad.build_headers().is_empty());
    assert!(!is_header_value(&['a', '\n']));
    assert!(is_header_value(&['a', '\t', '中']));
}

#[test]
fn cloudflare_envelope_verdicts() {
    let r: Result<u8, DnsProviderError> = cf_outcome(&ok(), envelope(7u8), "X");
    assert_eq!(r, Ok(7));
    let failed = Ok(CfApiResponse::<u8> {
        success: false,
        errors: vec![CfApiError { message: "a".to_string() }, CfApiError { message: "b".to_string() }],
        result: None,
    });
    let bad = HttpReply { success: false, status: "403 Forbidden".to_string(), body: "no".to_string() };
    assert_eq!(
        cf_outcome(&bad, failed, "CloudflareZoneError"),
        Err(DnsProviderError::ApiError { code: "CloudflareZoneError (403 Forbidden)".to_string(), message: "a; b".to_string() })
    );
    let unparsed: Result<CfApiResponse<u8>, String> = Err("expected value".to_string());
    assert_eq!(
        cf_outcome(&bad, unparsed.clone(), "X"),
        Err(DnsProviderError::ApiError { code: "403 Forbidden".to_string(), message: "no".to_string() })
    );
    assert_eq!(cf_outcome(&ok(), unparsed, "X"), Err(DnsProviderError::Json("expected value".to_string())));
    let empty = Ok(CfApiResponse::<u8> { success: true, errors: vec![], result: None });
    assert_eq!(
        cf_outcome(&ok(), empty, "X"),
        Err(DnsProviderError::Other("Cloudflare 响应缺少 result 数据实体".to_string()))
    );
}

#[test]
fn cloudflare_zone_is_cached_per_account() {
    let p = token_provider();
    let d = parse_domain("www.example.com").unwrap();
    let mut cache = CfZoneCache::new();
    let (req, state) = p.start(&d, DnsRecordType::A, &cache);
    assert!(matches!(state, CfState::ZoneLookup));
    assert_eq!(req.url, "https://api.cloudflare.com/client/v4/zones?name=example.com&status=active");
    match p.on_zones(&d, DnsRecordType::A, &ok(), envelope(vec![CfZone { id: "z1".to_string() }]), &mut cache) {
        SyncStep::Send(req, CfState::RecordLookup { zone_id }) => {
            assert_eq!(zone_id, "z1");
            assert_eq!(req.url, "https://api.cloudflare.com/client/v4/zones/z1/dns_records?name=www.example.com&type=A");
        }
        _ => panic!("expected the record lookup"),
    }
    assert_eq!(cache.get("token:tok", "example.com"), Some("z1".to_string()));
    assert_eq!(cache.get("token:other", "example.com"), None);
    let (req, state) = p.start(&d, DnsRecordType::AAAA, &cache);
    assert!(matches!(state, CfState::RecordLookup { .. }));
    assert!(req.url.ends_with("/zones/z1/dns_records?name=www.example.com&type=AAAA"));

    match p.on_zones(&d, DnsRecordType::A, &ok(), envelope(vec![]), &mut CfZoneCache::new()) {
        SyncStep::Done(Err(DnsProviderError::ZoneNotFound(m))) => assert_eq!(m, "example.com"),
        _ => panic!("expected no zone"),
    }
}

#[test]
fn cloudflare_records_cleanup_patch_and_create() {
    let p = token_provider();
    let d = parse_domain("www.example.com").unwrap();
    let recs = vec![
        CfRecord { id: "r1".to_string(), content: "9.9.9.9".to_string() },
        CfRecord { id: "r2".to_string(), content: "1.2.3.4".to_string() },
        CfRecord { id: "r3".to_string(), content: "8.8.8.8".to_string() },
    ];
    let (deletes, step) = p.on_records(&d, DnsRecordType::A, &v4(), None, "z1", &ok(), envelope(recs));
    assert_eq!(deletes.len(), 2);
    assert_eq!(deletes[0].method, HttpMethod::Delete);
    assert_eq!(deletes[0].url, "https://api.cloudflare.com/client/v4/zones/z1/dns_records/r2");
    assert_eq!(deletes[1].url, "https://api.cloudflare.com/client/v4/zones/z1/dns_records/r3");
    match step {
        SyncStep::Send(req, CfState::Write { update: true }) => {
            assert_eq!(req.method, HttpMethod::Patch);
            assert_eq!(req.url, "https://api.cloudflare.com/client/v4/zones/z1/dns_records/r1");
            assert_eq!(req.body.unwrap(), "{\"content\":\"1.2.3.4\",\"ttl\":1}");
        }
        _ => panic!("expected a patch"),
    }

    let same = vec![CfRecord { id: "r1".to_string(), content: "1.2.3.4".to_string() }];
    let (deletes, step) = p.on_records(&d, DnsRecordType::A, &v4(), Some(300), "z1", &ok(), envelope(same));
    assert!(deletes.is_empty());
    match step {
        SyncStep::Done(Ok(res)) => assert_eq!(res.status, SyncStatus::Unchanged),
        _ => panic!("expected unchanged"),
    }

    let (_, step) = p.on_records(&d, DnsRecordType::A, &v4(), Some(300), "z1", &ok(), envelope(vec![]));
    match step {
        SyncStep::Send(req, CfState::Write { update: false }) => {
            assert_eq!(req.method, HttpMethod::Post);
            assert_eq!(req.url, "https://api.cloudflare.com/client/v4/zones/z1/dns_records");
            assert_eq!(
                req.body.unwrap(),
                "{\"content\":\"1.2.3.4\",\"name\":\"www.example.com\",\"proxied\":false,\"ttl\":300,\"type\":\"A\"}"
            );
            assert_eq!(req.headers.last().unwrap().0, "Content-Type");
        }
        _ => panic!("expected a creation"),
    }

    let rec = CfRecord { id: "r1".to_string(), content: "1.2.3.4".to_string() };
    let done = p.on_write(false, &d, DnsRecordType::A, &v4(), &ok(), envelope(rec)).unwrap();
    assert_eq!(done.status, SyncStatus::Created);
    assert_eq!(done.message, "记录添加成功");
}
