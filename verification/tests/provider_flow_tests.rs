use rddns::dnsla::{DnsLaActionResp, DnsLaListResp, DnsLaProvider, DnsLaRecord};
use rddns::domain::parse_domain;
use rddns::dynv6::{Dynv6Provider, Dynv6Record, Dynv6State, Dynv6Zone};
use rddns::engine::IpAddress;
use rddns::net::{Ipv4, Ipv6};
use rddns::providers::{DnsProviderError, HttpMethod, HttpReply, SyncStep};
use rddns::rainyun::{
    RainYunProvider, RainYunState, RainyunBaseReply, RainyunDomainItem, RainyunDomainsReply, RainyunRecord,
    RainyunRecordsReply,
};
use rddns::records::{DnsRecordType, SyncStatus};
use rddns::spaceship::{SpaceshipItem, SpaceshipProvider, SpaceshipState};

fn ok() -> HttpReply {
    HttpReply { success: true, status: "200 OK".to_string(), body: String::new() }
}

fn v4() -> IpAddress {
    IpAddress::V4(Ipv4::new(1, 2, 3, 4))
}

fn json(body: &Option<String>) -> serde_json::Value {
    serde_json::from_str(body.as_deref().unwrap()).unwrap()
}

#[test]
fn dynv6_zone_own_address_and_records() {
    let p = Dynv6Provider::new("tok".to_string());
    let (req, state) = p.start();
    assert_eq!(state, Dynv6State::ZoneLookup);
    assert_eq!(req.url, "https://dynv6.com/api/v2/zones");
    assert_eq!(req.headers[0].1, "Bearer tok");

    let zones = vec![
        Dynv6Zone { id: 7, name: "other.dynv6.net".to_string(), ipv4_address: None, ipv6_prefix: None },
        Dynv6Zone { id: 9, name: "home.dynv6.net".to_string(), ipv4_address: Some("9.9.9.9".to_string()), ipv6_prefix: None },
    ];

    let main = parse_domain("home.dynv6.net").unwrap();
    match p.on_zones(&main, DnsRecordType::A, &v4(), &ok(), Ok(zones.clone())) {
        SyncStep::Send(req, Dynv6State::Write { created: false }) => {
            assert_eq!(req.method, HttpMethod::Patch);
            assert_eq!(req.url, "https://dynv6.com/api/v2/zones/9");
            assert_eq!(json(&req.body)["ipv4address"], "1.2.3.4");
        }
        _ => panic!("expected the zone's own address"),
    }

    let host = parse_domain("nas.home.dynv6.net").unwrap();
    let (zone_id, sub) = match p.on_zones(&host, DnsRecordType::AAAA, &v4(), &ok(), Ok(zones)) {
        SyncStep::Send(req, Dynv6State::RecordLookup { zone_id, sub_name }) => {
            assert_eq!(req.url, "https://dynv6.com/api/v2/zones/9/records");
            (zone_id, sub_name)
        }
        _ => panic!("expected the record lookup"),
    };
    assert_eq!(sub, "nas");
    let ip6 = IpAddress::V6(Ipv6::new([0x2408, 0, 0, 0, 0, 0, 0, 1]));
    let records = vec![Dynv6Record {
        id: 42,
        name: Some("nas".to_string()),
        record_type: Some("AAAA".to_string()),
        data: Some("2408::2".to_string()),
    }];
    match p.on_records(&host, DnsRecordType::AAAA, &ip6, zone_id, &sub, &ok(), Ok(records)) {
        SyncStep::Send(req, Dynv6State::Write { created: false }) => {
            assert_eq!(req.url, "https://dynv6.com/api/v2/zones/9/records/42");
            assert_eq!(json(&req.body)["data"], "2408::1");
            assert_eq!(json(&req.body)["type"], "AAAA");
        }
        _ => panic!("expected an update"),
    }
    match p.on_records(&host, DnsRecordType::AAAA, &ip6, zone_id, &sub, &ok(), Ok(vec![])) {
        SyncStep::Send(req, Dynv6State::Write { created: true }) => {
            assert_eq!(req.method, HttpMethod::Post);
            assert_eq!(json(&req.body)["name"], "nas");
        }
        _ => panic!("expected a creation"),
    }
    let done = p.on_write(true, &host, DnsRecordType::AAAA, &ip6, &ok(), Ok(())).unwrap();
    assert_eq!(done.status, SyncStatus::Created);
    let missing = parse_domain("x.example.org").unwrap();
    match p.on_zones(&missing, DnsRecordType::A, &v4(), &ok(), Ok(vec![])) {
        SyncStep::Done(Err(DnsProviderError::ZoneNotFound(m))) => {
            assert_eq!(m, "在 Dynv6 账户中未找到与域名 [x.example.org] 匹配的 Zone")
        }
        _ => panic!("expected no zone"),
    }
}

#[test]
fn rainyun_looks_up_and_remembers_the_domain_id() {
    let mut p = RainYunProvider::new("key".to_string(), Some("   ".to_string()));
    assert!(p.domain_id.is_none());
    let d = parse_domain("www.example.com").unwrap();
    let (req, state) = p.start(&d);
    assert_eq!(state, RainYunState::DomainLookup);
    assert_eq!(req.url, "https://api.v2.rainyun.com/product/domain/?limit=100&page_no=1");
    let reply = RainyunDomainsReply {
        code: 200,
        message: None,
        domains: vec![RainyunDomainItem { id: 55, domain: "EXAMPLE.com".to_string() }],
    };
    match p.on_domains(&d, Ok(reply)) {
        SyncStep::Send(req, RainYunState::RecordLookup { domain_id }) => {
            assert_eq!(domain_id, "55");
            assert_eq!(req.url, "https://api.v2.rainyun.com/product/domain/55/dns/?limit=100&page_no=1");
        }
        _ => panic!("expected the record lookup"),
    }
    let (_, state) = p.start(&d);
    assert_eq!(state, RainYunState::RecordLookup { domain_id: "55".to_string() });

    let records = RainyunRecordsReply {
        code: 200,
        message: None,
        records: vec![RainyunRecord { record_id: 3, host: "WWW".to_string(), record_type: "a".to_string(), value: "9.9.9.9".to_string() }],
    };
    match p.on_records(&d, DnsRecordType::A, &v4(), None, "55", Ok(records)) {
        SyncStep::Send(req, RainYunState::Write { created: false }) => {
            assert_eq!(req.method, HttpMethod::Patch);
            assert_eq!(req.url, "https://api.v2.rainyun.com/product/domain/55/dns");
            let b = json(&req.body);
            assert_eq!(b["record_id"], 3);
            assert_eq!(b["host"], "www");
            assert_eq!(b["ttl"], 600);
            assert_eq!(b["line"], "DEFAULT");
        }
        _ => panic!("expected an update"),
    }
    let failed = p
        .on_write(true, &d, DnsRecordType::A, &v4(), Ok(RainyunBaseReply { code: 500, message: None }))
        .unwrap_err();
    assert_eq!(failed, DnsProviderError::ApiError { code: "500".to_string(), message: "创建雨云记录失败".to_string() });
}

#[test]
fn dnsla_list_and_write() {
    let p = DnsLaProvider::new("id".to_string(), "secret".to_string());
    let d = parse_domain("example.com").unwrap();
    let req = p.list_request(&d, DnsRecordType::AAAA);
    assert_eq!(req.url, "https://api.dns.la/api/recordList?domain=example.com&host=@&type=28&pageIndex=1&pageSize=100");
    assert_eq!(req.headers[0].1, "Basic aWQ6c2VjcmV0");
    assert_eq!(req.headers[1].1, "application/json;charset=utf-8");

    let list = DnsLaListResp {
        code: 200,
        msg: None,
        records: vec![DnsLaRecord { id: "r9".to_string(), host: "@".to_string(), record_type: 1, data: "1.2.3.4".to_string() }],
    };
    match p.on_list(&d, DnsRecordType::A, &v4(), None, &ok(), Ok(list)) {
        SyncStep::Done(Ok(r)) => assert_eq!(r.status, SyncStatus::Unchanged),
        _ => panic!("expected unchanged"),
    }
    let empty = DnsLaListResp { code: 200, msg: None, records: vec![] };
    match p.on_list(&d, DnsRecordType::A, &v4(), Some(0), &ok(), Ok(empty)) {
        SyncStep::Send(req, true) => {
            assert_eq!(req.method, HttpMethod::Post);
            assert_eq!(req.url, "https://api.dns.la/api/record");
            let b = json(&req.body);
            assert_eq!(b["Domain"], "example.com");
            assert_eq!(b["Type"], 1);
            assert_eq!(b["TTL"], 1);
        }
        _ => panic!("expected a creation"),
    }
    let err = p.on_write(false, &d, DnsRecordType::A, &v4(), "not json", None).unwrap_err();
    assert_eq!(err, DnsProviderError::ApiError { code: "-1".to_string(), message: "DNS.LA 更新记录失败: not json".to_string() });
    let ok_write = p
        .on_write(false, &d, DnsRecordType::A, &v4(), "{}", Some(DnsLaActionResp { code: 200, msg: None }))
        .unwrap();
    assert_eq!(ok_write.status, SyncStatus::Updated);
}

#[test]
fn spaceship_clears_old_addresses_then_writes() {
    let p = SpaceshipProvider::new("k".to_string(), "s".to_string());
    let d = parse_domain("nas.example.com").unwrap();
    let req = p.list_request(&d);
    assert_eq!(req.url, "https://spaceship.dev/api/v1/dns/records/example.com?take=500&skip=0");
    assert_eq!(req.headers.len(), 3);

    let item = |t: &str, a: &str, n: &str| SpaceshipItem {
        record_type: t.to_string(),
        address: a.to_string(),
        name: n.to_string(),
    };
    let same = vec![item("A", "1.2.3.4", "NAS")];
    match p.on_list(&d, DnsRecordType::A, &v4(), None, &ok(), None, Ok(same)) {
        SyncStep::Done(Ok(r)) => assert_eq!(r.status, SyncStatus::Unchanged),
        _ => panic!("expected unchanged"),
    }
    let mixed = vec![item("A", "1.2.3.4", "nas"), item("A", "5.5.5.5", "nas"), item("AAAA", "::1", "nas")];
    match p.on_list(&d, DnsRecordType::A, &v4(), None, &ok(), None, Ok(mixed)) {
        SyncStep::Send(req, SpaceshipState::Delete) => {
            assert_eq!(req.method, HttpMethod::Delete);
            let b = json(&req.body);
            assert_eq!(b.as_array().unwrap().len(), 1);
            assert_eq!(b[0]["address"], "5.5.5.5");
        }
        _ => panic!("expected a deletion"),
    }
    match p.on_deleted(&d, DnsRecordType::A, &v4(), Some(30)) {
        SyncStep::Send(req, SpaceshipState::Put) => {
            let b = json(&req.body);
            assert_eq!(b["force"], true);
            assert_eq!(b["items"][0]["ttl"], 60);
            assert_eq!(b["items"][0]["name"], "nas");
        }
        _ => panic!("expected the write"),
    }
    let bad = HttpReply { success: false, status: "401 Unauthorized".to_string(), body: "{}".to_string() };
    match p.on_list(&d, DnsRecordType::A, &v4(), None, &bad, Some("bad key".to_string()), Err(String::new())) {
        SyncStep::Done(Err(DnsProviderError::ApiError { message, .. })) => {
            assert_eq!(message, "Spaceship 记录查询失败: bad key")
        }
        _ => panic!("expected an error"),
    }
}
