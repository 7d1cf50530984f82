use rddns::domain::parse_domain;
use rddns::engine::IpAddress;
use rddns::namesilo::{extract_xml_tag, NameSiloProvider, NameSiloWrite};
use rddns::net::Ipv4;
use rddns::providers::{DnsProviderError, HttpMethod, SyncStep};
use rddns::records::{DnsRecordType, SyncStatus};

const LIST: &str = "<namesilo><reply><code>300</code><detail>success</detail>\
<resource_record><record_id>r1</record_id><type>A</type><host>www.example.com</host><value>5.5.5.5</value></resource_record>\
<resource_record><record_id>r2</record_id><type>A</type><host>NAS.example.com</host><value> 1.2.3.4 </value></resource_record>\
</reply></namesilo>";

#[test]
fn xml_tags_are_read_and_trimmed() {
    let xml: Vec<char> = "<a><code> 300 </code></a>".chars().collect();
    let code: String = extract_xml_tag(&xml, "code").unwrap().into_iter().collect();
    assert_eq!(code, "300");
    assert!(extract_xml_tag(&xml, "detail").is_none());
    let open_only: Vec<char> = "<code>300".chars().collect();
    assert!(extract_xml_tag(&open_only, "code").is_none());
}

#[test]
fn namesilo_list_request_carries_the_key() {
    let p = NameSiloProvider::new("k&y".to_string());
    let d = parse_domain("nas.example.com").unwrap();
    let req = p.list_request(&d);
    assert_eq!(req.method, HttpMethod::Get);
    assert_eq!(
        req.url,
        "https://www.namesilo.com/api/dnsListRecords?version=1&type=xml&key=k%26y&domain=example.com"
    );
}

#[test]
fn namesilo_finds_unchanged_update_and_add() {
    let p = NameSiloProvider::new("key".to_string());
    let ip = IpAddress::V4(Ipv4::new(1, 2, 3, 4));

    let nas = parse_domain("nas.example.com").unwrap();
    match p.on_list(&nas, DnsRecordType::A, &ip, None, LIST) {
        SyncStep::Done(Ok(r)) => assert_eq!(r.status, SyncStatus::Unchanged),
        _ => panic!("expected unchanged"),
    }

    let www = parse_domain("www.example.com").unwrap();
    match p.on_list(&www, DnsRecordType::A, &ip, Some(7200), LIST) {
        SyncStep::Send(req, NameSiloWrite::Update { record_id }) => {
            assert_eq!(record_id, "r1");
            assert_eq!(
                req.url,
                "https://www.namesilo.com/api/dnsUpdateRecord?version=1&type=xml&key=key&domain=example.com&rrid=r1&rrhost=www&rrvalue=1.2.3.4&rrttl=7200"
            );
        }
        _ => panic!("expected an update"),
    }

    let root = parse_domain("example.com").unwrap();
    match p.on_list(&root, DnsRecordType::A, &ip, None, LIST) {
        SyncStep::Send(req, NameSiloWrite::Add) => {
            assert_eq!(
                req.url,
                "https://www.namesilo.com/api/dnsAddRecord?version=1&type=xml&key=key&domain=example.com&rrhost=&rrtype=A&rrvalue=1.2.3.4&rrttl=3600"
            );
        }
        _ => panic!("expected an addition"),
    }

    let r = p
        .on_write(&NameSiloWrite::Add, &root, DnsRecordType::A, &ip, "<reply><code>300</code></reply>")
        .unwrap();
    assert_eq!(r.status, SyncStatus::Created);
    let e = p
        .on_write(&NameSiloWrite::Update { record_id: "r1".to_string() }, &root, DnsRecordType::A, &ip,
            "<reply><code>280</code><detail>bad</detail></reply>")
        .unwrap_err();
    assert_eq!(e, DnsProviderError::ApiError { code: "NameSiloUpdateError".to_string(), message: "bad".to_string() });
}

#[test]
fn namesilo_list_error_uses_detail() {
    let p = NameSiloProvider::new("key".to_string());
    let d = parse_domain("example.com").unwrap();
    let ip = IpAddress::V4(Ipv4::new(1, 2, 3, 4));
    match p.on_list(&d, DnsRecordType::A, &ip, None, "<reply><code>110</code><detail>Invalid key</detail></reply>") {
        SyncStep::Done(Err(DnsProviderError::ApiError { code, message })) => {
            assert_eq!(code, "NameSiloQueryError");
            assert_eq!(message, "Invalid key");
        }
        _ => panic!("expected an error"),
    }
    match p.on_list(&d, DnsRecordType::A, &ip, None, "garbage") {
        SyncStep::Done(Err(DnsProviderError::ApiError { message, .. })) => {
            assert_eq!(message, "查询 NameSilo 解析记录失败")
        }
        _ => panic!("expected an error"),
    }
}
