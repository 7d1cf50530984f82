use rddns::cloudns::{ClouDnsActionResp, ClouDnsProvider, ClouDnsRecordItem, ClouDnsState};
use rddns::domain::parse_domain;
use rddns::dynadot::{DynadotProvider, DynadotResp, NamecheapProvider};
use rddns::engine::IpAddress;
use rddns::godaddy::{GoDaddyProvider, GoDaddyRecord, GoDaddyState};
use rddns::hipm::{trim_suffix_chars, DnsMgrApiResponse, DnsMgrDomainItem, DnsMgrRecordItem, HipmDnsMgrProvider, HipmState};
use rddns::namecom::{NameComListResp, NameComProvider, NameComRecordItem, NameComState};
use rddns::net::{Ipv4, Ipv6};
use rddns::nsone::{NsOneAnswer, NsOneProvider, NsOneRecordResp, NsOneState};
use rddns::providers::{DnsProviderError, HttpMethod, HttpReply, SyncStep};
use rddns::records::{DnsRecordType, SyncStatus};
use rddns::vercel::{VercelProvider, VercelRecord, VercelRecordsResp, VercelState};

fn ok() -> HttpReply {
    HttpReply { success: true, status: "200 OK".to_string(), body: String::new() }
}

fn reply(success: bool, status: &str, body: &str) -> HttpReply {
    HttpReply { success, status: status.to_string(), body: body.to_string() }
}

fn v4() -> IpAddress {
    IpAddress::V4(Ipv4::new(1, 2, 3, 4))
}

#[test]
fn godaddy_skips_unchanged_and_puts_otherwise() {
    let p = GoDaddyProvider::new("k".to_string(), "s".to_string());
    let d = parse_domain("example.com").unwrap();
    let (req, state) = p.start(&d, DnsRecordType::A);
    assert_eq!(state, GoDaddyState::Lookup);
    assert_eq!(req.url, "https://api.godaddy.com/v1/domains/example.com/records/A/@");
    assert_eq!(req.headers[0], ("Authorization".to_string(), "sso-key k:s".to_string()));
    let same = vec![GoDaddyRecord { data: Some("1.2.3.4".to_string()) }];
    match p.on_lookup(&d, DnsRecordType::A, &v4(), None, &ok(), Ok(same)) {
        SyncStep::Done(Ok(r)) => assert_eq!(r.status, SyncStatus::Unchanged),
        _ => panic!("expected unchanged"),
    }
    match p.on_lookup(&d, DnsRecordType::A, &v4(), Some(0), &reply(false, "404 Not Found", ""), Err("x".to_string())) {
        SyncStep::Send(req, GoDaddyState::Write) => {
            assert_eq!(req.method, HttpMethod::Put);
            assert_eq!(req.body.unwrap(), "[{\"data\":\"1.2.3.4\",\"ttl\":1}]");
        }
        _ => panic!("expected a put"),
    }
    match p.on_write(&d, DnsRecordType::A, &v4(), &reply(false, "422 Unprocessable Entity", "bad")) {
        Err(DnsProviderError::ApiError { code, message }) => {
            assert_eq!(code, "422 Unprocessable Entity");
            assert_eq!(message, "GoDaddy 响应错误: bad");
        }
        _ => panic!("expected an error"),
    }
}

#[test]
fn dynadot_query_and_verdicts() {
    let p = DynadotProvider::new("pw d".to_string());
    let d = parse_domain("example.com").unwrap();
    let req = p.request(&d, DnsRecordType::A, &v4(), None);
    assert_eq!(
        req.url,
        "https://www.dynadot.com/set_ddns?domain=example.com&subDomain=%40&type=A&ip=1.2.3.4&pwd=pw+d&ttl=600&containRoot=true"
    );
    let ok_json = Ok(DynadotResp { error_code: Some(0), content: None });
    assert_eq!(p.outcome(&d, DnsRecordType::A, &v4(), &ok(), ok_json).unwrap().status, SyncStatus::Updated);
    let failed = Ok(DynadotResp { error_code: Some(-1), content: Some(vec!["a".to_string(), "b".to_string()]) });
    match p.outcome(&d, DnsRecordType::A, &v4(), &ok(), failed) {
        Err(DnsProviderError::ApiError { code, message }) => {
            assert_eq!(code, "-1");
            assert_eq!(message, "Dynadot 更新失败: a, b");
        }
        _ => panic!("expected an error"),
    }
    let text = reply(true, "200 OK", "Update O\u{212A}");
    let r = p.outcome(&d, DnsRecordType::A, &v4(), &text, Err("not json".to_string())).unwrap();
    assert_eq!(r.message, "Dynadot 更新成功: Update O\u{212A}");
    let other = reply(true, "200 OK", "nope");
    assert!(p.outcome(&d, DnsRecordType::A, &v4(), &other, Err("not json".to_string())).is_err());
}

#[test]
fn namecheap_refuses_ipv6_and_reads_xml() {
    let p = NamecheapProvider::new("secret".to_string());
    let d = parse_domain("www.example.com").unwrap();
    match p.start(&d, DnsRecordType::AAAA, &v4()) {
        SyncStep::Done(Err(DnsProviderError::Other(m))) => assert!(m.contains("仅支持 IPv4")),
        _ => panic!("expected a refusal"),
    }
    match p.start(&d, DnsRecordType::A, &v4()) {
        SyncStep::Send(req, ()) => assert_eq!(
            req.url,
            "https://dynamicdns.park-your-domain.com/update?host=www&domain=example.com&password=secret&ip=1.2.3.4"
        ),
        _ => panic!("expected a request"),
    }
    let good = reply(true, "200 OK", "<interface-response><ErrCount>0</ErrCount></interface-response>");
    assert_eq!(p.outcome(&d, DnsRecordType::A, &v4(), &good).unwrap().status, SyncStatus::Updated);
    match p.outcome(&d, DnsRecordType::A, &v4(), &reply(true, "200 OK", "<ErrCount>1</ErrCount>")) {
        Err(DnsProviderError::ApiError { code, .. }) => assert_eq!(code, "NamecheapError"),
        _ => panic!("expected an error"),
    }
}

#[test]
fn namecom_matches_root_by_at_and_updates() {
    let p = NameComProvider::new("user".to_string(), "tok".to_string());
    let d = parse_domain("example.com").unwrap();
    let (req, state) = p.start(&d);
    assert_eq!(state, NameComState::Lookup);
    assert_eq!(req.url, "https://api.name.com/core/v1/domains/example.com/records");
    assert_eq!(req.headers[0].1, "Basic dXNlcjp0b2s=");
    let list = NameComListResp {
        records: Some(vec![NameComRecordItem {
            id: 17,
            record_type: "a".to_string(),
            host: Some("@".to_string()),
            answer: "9.9.9.9".to_string(),
        }]),
    };
    match p.on_list(&d, DnsRecordType::A, &v4(), None, &ok(), Ok(list)) {
        SyncStep::Send(req, NameComState::Write { update: true }) => {
            assert_eq!(req.method, HttpMethod::Put);
            assert_eq!(req.url, "https://api.name.com/core/v1/domains/example.com/records/17");
            assert_eq!(req.body.unwrap(), "{\"answer\":\"1.2.3.4\",\"host\":\"\",\"ttl\":300,\"type\":\"A\"}");
        }
        _ => panic!("expected an update"),
    }
    let created = p.on_write(false, &d, DnsRecordType::A, &v4(), &ok()).unwrap();
    assert_eq!(created.status, SyncStatus::Created);
}

#[test]
fn cloudns_forms_and_statuses() {
    let p = ClouDnsProvider::new("id".to_string(), "p&w".to_string());
    let d = parse_domain("nas.example.com").unwrap();
    let (req, state) = p.start(&d, DnsRecordType::A);
    assert_eq!(state, ClouDnsState::Lookup);
    assert_eq!(req.url, "https://api.cloudns.net/dns/records.json");
    assert_eq!(req.body.unwrap(), "auth-id=id&auth-password=p%26w&domain-name=example.com&host=nas&type=A");
    let recs = vec![ClouDnsRecordItem {
        id: "5".to_string(),
        record_type: "A".to_string(),
        host: "NAS".to_string(),
        record: "8.8.8.8".to_string(),
    }];
    match p.on_list(&d, DnsRecordType::A, &v4(), Some(10), Some(recs)) {
        SyncStep::Send(req, ClouDnsState::Write { update: true }) => {
            assert_eq!(req.url, "https://api.cloudns.net/dns/modify-record.json");
            assert!(req.body.unwrap().ends_with("&record-id=5&host=nas&record=1.2.3.4&ttl=60"));
        }
        _ => panic!("expected a modification"),
    }
    match p.on_list(&d, DnsRecordType::A, &v4(), None, None) {
        SyncStep::Send(req, ClouDnsState::Write { update: false }) => {
            assert!(req.body.unwrap().ends_with("&type=A&record=1.2.3.4&ttl=3600"))
        }
        _ => panic!("expected an addition"),
    }
    let fail = Some(ClouDnsActionResp { status: Some("Failed".to_string()), status_description: None });
    match p.on_write(false, &d, DnsRecordType::A, &v4(), "raw", fail) {
        Err(DnsProviderError::ApiError { code, message }) => {
            assert_eq!(code, "ClouDnsAddError");
            assert_eq!(message, "ClouDNS 创建记录失败: raw");
        }
        _ => panic!("expected an error"),
    }
    let good = Some(ClouDnsActionResp { status: Some("Success".to_string()), status_description: None });
    assert_eq!(p.on_write(true, &d, DnsRecordType::A, &v4(), "", good).unwrap().status, SyncStatus::Updated);
}

#[test]
fn nsone_zone_record_and_write() {
    assert!(NsOneProvider::new("  ".to_string()).is_err());
    match NsOneProvider::new("a\nb".to_string()) {
        Err(DnsProviderError::MissingCredentials(m)) => assert_eq!(m, "无效的 NS1 API Key: failed to parse header value"),
        _ => panic!("expected an invalid key"),
    }
    let p = NsOneProvider::new(" key ".to_string()).unwrap();
    let d = parse_domain("www.example.com").unwrap();
    let (req, state) = p.start(&d);
    assert_eq!(state, NsOneState::ZoneCheck);
    assert_eq!(req.url, "https://api.nsone.net/v1/zones/example.com?records=false");
    assert_eq!(req.headers[1], ("X-NSONE-Key".to_string(), "key".to_string()));
    match p.on_zone(&d, DnsRecordType::A, &reply(false, "404 Not Found", ""), Ok(())) {
        SyncStep::Done(Err(DnsProviderError::ZoneNotFound(m))) => assert_eq!(m, "在 IBM NS1 Connect 中未找到根域名 [example.com]"),
        _ => panic!("expected no zone"),
    }
    match p.on_zone(&d, DnsRecordType::A, &ok(), Ok(())) {
        SyncStep::Send(req, NsOneState::RecordLookup) => {
            assert_eq!(req.url, "https://api.nsone.net/v1/zones/example.com/www.example.com/A?records=false")
        }
        _ => panic!("expected the record lookup"),
    }
    match p.on_record(&d, DnsRecordType::A, &v4(), None, &reply(false, "404 Not Found", ""), Err(String::new())) {
        SyncStep::Send(req, NsOneState::Write { update: false }) => {
            assert_eq!(req.method, HttpMethod::Put);
            assert_eq!(
                req.body.unwrap(),
                "{\"zone\":\"example.com\",\"domain\":\"www.example.com\",\"type\":\"A\",\"ttl\":60,\"answers\":[{\"answer\":[\"1.2.3.4\"]}]}"
            );
        }
        _ => panic!("expected a creation"),
    }
    let rec = NsOneRecordResp { answers: Some(vec![NsOneAnswer { answer: vec!["1.2.3.4".to_string()] }]) };
    match p.on_record(&d, DnsRecordType::A, &v4(), None, &ok(), Ok(rec)) {
        SyncStep::Done(Ok(r)) => assert_eq!(r.status, SyncStatus::Unchanged),
        _ => panic!("expected unchanged"),
    }
    let r = p.on_write(false, &d, DnsRecordType::A, &v4(), &ok()).unwrap();
    assert_eq!(r.message, "解析记录创建成功");
}

#[test]
fn vercel_team_and_case_insensitive_values() {
    let p = VercelProvider::new("tok".to_string(), Some("team_1".to_string()));
    let blank_team = VercelProvider::new("tok".to_string(), Some(" ".to_string()));
    assert!(blank_team.team_id.is_none());
    let d = parse_domain("example.com").unwrap();
    let (req, state) = p.start(&d);
    assert_eq!(state, VercelState::Lookup);
    assert_eq!(req.url, "https://api.vercel.com/v4/domains/example.com/records?limit=100&teamId=team_1");
    let ip6 = IpAddress::V6(Ipv6::new([0x2408, 0, 0, 0, 0, 0, 0, 0xab]));
    let list = VercelRecordsResp {
        records: Some(vec![VercelRecord {
            id: "rec_1".to_string(),
            name: "".to_string(),
            record_type: "AAAA".to_string(),
            value: "2408::AB".to_string(),
        }]),
    };
    match p.on_list(&d, DnsRecordType::AAAA, &ip6, None, &ok(), Ok(list)) {
        SyncStep::Done(Ok(r)) => assert_eq!(r.status, SyncStatus::Unchanged),
        _ => panic!("expected unchanged"),
    }
    match p.on_list(&d, DnsRecordType::A, &v4(), None, &ok(), Ok(VercelRecordsResp { records: None })) {
        SyncStep::Send(req, VercelState::Write { update: false }) => {
            assert_eq!(req.url, "https://api.vercel.com/v2/domains/example.com/records?teamId=team_1");
            assert_eq!(
                req.body.unwrap(),
                "{\"comment\":\"Created by rddns\",\"name\":\"\",\"ttl\":60,\"type\":\"A\",\"value\":\"1.2.3.4\"}"
            );
        }
        _ => panic!("expected a creation"),
    }
}

#[test]
fn hipm_endpoint_paging_and_records() {
    assert_eq!(trim_suffix_chars(&['a', '/', '/'], "/"), vec!['a']);
    let p = HipmDnsMgrProvider::new(Some("https://dns.local/api/".to_string()), " t ".to_string()).unwrap();
    assert_eq!(p.endpoint, "https://dns.local");
    let d = parse_domain("www.example.com").unwrap();
    let (req, state) = p.start(&d);
    assert_eq!(state, HipmState::DomainSearch);
    assert_eq!(req.url, "https://dns.local/api/domains?page=1&pageSize=1&keyword=example.com");
    assert_eq!(req.headers[1].1, "Bearer t");
    let none: Result<DnsMgrApiResponse<DnsMgrDomainItem>, String> = Ok(DnsMgrApiResponse { code: 0, msg: String::new(), items: None });
    match p.on_domains(&d, DnsRecordType::A, None, &ok(), none.clone()) {
        SyncStep::Send(req, HipmState::DomainPage { page: 1 }) => {
            assert_eq!(req.url, "https://dns.local/api/domains?page=1&pageSize=50")
        }
        _ => panic!("expected page 1"),
    }
    match p.on_domains(&d, DnsRecordType::A, Some(1), &ok(), none) {
        SyncStep::Done(Err(DnsProviderError::ZoneNotFound(_))) => {}
        _ => panic!("an empty page ends the search"),
    }
    let other = Ok(DnsMgrApiResponse { code: 0, msg: String::new(), items: Some(vec![DnsMgrDomainItem { id: 1, name: "a.com".to_string() }]) });
    match p.on_domains(&d, DnsRecordType::A, Some(5), &ok(), other.clone()) {
        SyncStep::Done(Err(DnsProviderError::ZoneNotFound(_))) => {}
        _ => panic!("page 5 is the last"),
    }
    match p.on_domains(&d, DnsRecordType::A, Some(2), &ok(), other) {
        SyncStep::Send(_, HipmState::DomainPage { page: 3 }) => {}
        _ => panic!("expected page 3"),
    }
    let found = Ok(DnsMgrApiResponse { code: 0, msg: String::new(), items: Some(vec![DnsMgrDomainItem { id: 42, name: "EXAMPLE.com".to_string() }]) });
    match p.on_domains(&d, DnsRecordType::A, None, &ok(), found) {
        SyncStep::Send(req, HipmState::RecordLookup { domain_id: 42 }) => assert_eq!(
            req.url,
            "https://dns.local/api/domains/42/records?page=1&pageSize=100&subdomain=www&type=A"
        ),
        _ => panic!("expected the records"),
    }
    let bad: Result<DnsMgrApiResponse<DnsMgrRecordItem>, String> = Ok(DnsMgrApiResponse { code: 3, msg: "denied".to_string(), items: None });
    match p.on_records(&d, DnsRecordType::A, &v4(), None, 42, &ok(), bad) {
        SyncStep::Done(Err(DnsProviderError::ApiError { code, message })) => {
            assert_eq!(code, "3");
            assert_eq!(message, "HiPM DNSMgr API 错误: denied");
        }
        _ => panic!("expected an API error"),
    }
    let recs = Ok(DnsMgrApiResponse {
        code: 0,
        msg: String::new(),
        items: Some(vec![DnsMgrRecordItem {
            id: "9".to_string(),
            name: "www".to_string(),
            record_type: "A".to_string(),
            value: "5.5.5.5".to_string(),
        }]),
    });
    match p.on_records(&d, DnsRecordType::A, &v4(), None, 42, &ok(), recs) {
        SyncStep::Send(req, HipmState::Write { update: true }) => {
            assert_eq!(req.url, "https://dns.local/api/domains/42/records/9");
            assert_eq!(req.body.unwrap(), "{\"line\":\"0\",\"name\":\"www\",\"ttl\":600,\"type\":\"A\",\"value\":\"1.2.3.4\"}");
        }
        _ => panic!("expected an update"),
    }
}
