use rddns::domain::parse_domain;
use rddns::engine::IpAddress;
use rddns::gcore::{
    GcoreProvider, GcoreRRSet, GcoreRRSetListResponse, GcoreResourceRecord, GcoreState, GcoreZone,
    GcoreZoneResponse,
};
use rddns::net::Ipv4;
use rddns::providers::{DnsProviderError, HttpMethod, HttpReply, SyncStep};
use rddns::records::{DnsRecordType, SyncStatus};

fn ok() -> HttpReply {
    HttpReply { success: true, status: "200 OK".to_string(), body: String::new() }
}

fn rrset(name: &str, t: &str, contents: &[&str]) -> GcoreRRSet {
    GcoreRRSet {
        name: name.to_string(),
        record_type: t.to_string(),
        resource_records: Some(vec![GcoreResourceRecord {
            content: Some(contents.iter().map(|c| Some(c.to_string())).collect()),
        }]),
    }
}

#[test]
fn gcore_finds_zone_and_record() {
    let p = GcoreProvider::new("secret".to_string());
    let d = parse_domain("nas.example.com").unwrap();
    let ip = IpAddress::V4(Ipv4::new(1, 2, 3, 4));

    let (req, state) = p.start(&d);
    assert!(matches!(state, GcoreState::ZoneLookup));
    assert_eq!(req.method, HttpMethod::Get);
    assert_eq!(req.url, "https://api.gcore.com/dns/v2/zones?name=example.com");
    assert_eq!(req.headers[0], ("Authorization".to_string(), "APIKey secret".to_string()));

    let zones = GcoreZoneResponse {
        zones: Some(vec![GcoreZone { name: "other.org".to_string() }, GcoreZone { name: "Example.COM".to_string() }]),
    };
    let zone_name = match p.on_zones(&d, &ok(), Ok(zones)) {
        SyncStep::Send(req, GcoreState::RRSetLookup { zone_name }) => {
            assert_eq!(req.url, "https://api.gcore.com/dns/v2/zones/Example.COM/rrsets?limit=100");
            zone_name
        }
        _ => panic!("expected the record-set lookup"),
    };

    let same = GcoreRRSetListResponse { rrsets: Some(vec![rrset("nas.example.com.", "a", &["1.2.3.4"])]) };
    match p.on_rrsets(&d, DnsRecordType::A, &ip, None, &zone_name, &ok(), Ok(same)) {
        SyncStep::Done(Ok(r)) => assert_eq!(r.status, SyncStatus::Unchanged),
        _ => panic!("expected unchanged"),
    }

    let other = GcoreRRSetListResponse { rrsets: Some(vec![rrset("nas.example.com", "A", &["9.9.9.9"])]) };
    match p.on_rrsets(&d, DnsRecordType::A, &ip, Some(0), &zone_name, &ok(), Ok(other)) {
        SyncStep::Send(req, GcoreState::Write { update: true }) => {
            assert_eq!(req.method, HttpMethod::Put);
            assert_eq!(req.url, "https://api.gcore.com/dns/v2/zones/Example.COM/nas.Example.COM/A");
            let body: serde_json::Value = serde_json::from_str(req.body.as_deref().unwrap()).unwrap();
            assert_eq!(body["ttl"], 1);
            assert_eq!(body["resource_records"][0]["content"][0], "1.2.3.4");
            assert_eq!(body["resource_records"][0]["enabled"], true);
        }
        _ => panic!("expected a replacement"),
    }

    let none = GcoreRRSetListResponse { rrsets: None };
    match p.on_rrsets(&d, DnsRecordType::A, &ip, None, &zone_name, &ok(), Ok(none)) {
        SyncStep::Send(req, GcoreState::Write { update: false }) => {
            assert_eq!(req.method, HttpMethod::Post);
            let body: serde_json::Value = serde_json::from_str(req.body.as_deref().unwrap()).unwrap();
            assert_eq!(body["ttl"], 120);
        }
        _ => panic!("expected a creation"),
    }

    let created = p.on_write(false, &d, DnsRecordType::A, &ip, &ok()).unwrap();
    assert_eq!(created.status, SyncStatus::Created);
    let failed = p
        .on_write(true, &d, DnsRecordType::A, &ip,
            &HttpReply { success: false, status: "400 Bad Request".to_string(), body: "bad".to_string() })
        .unwrap_err();
    assert_eq!(
        failed,
        DnsProviderError::ApiError { code: "400 Bad Request".to_string(), message: "Gcore 更新记录失败: bad".to_string() }
    );
}

#[test]
fn gcore_reports_a_missing_zone() {
    let p = GcoreProvider::new("Bearer tok".to_string());
    let d = parse_domain("example.net").unwrap();
    let (req, _) = p.start(&d);
    assert_eq!(req.headers[0].1, "Bearer tok");
    match p.on_zones(&d, &ok(), Ok(GcoreZoneResponse { zones: None })) {
        SyncStep::Done(Err(DnsProviderError::ZoneNotFound(m))) => {
            assert_eq!(m, "在 Gcore 中未找到域名 [example.net] 对应的 Zone")
        }
        _ => panic!("expected a missing zone"),
    }
}
