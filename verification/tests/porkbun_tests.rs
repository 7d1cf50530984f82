use rddns::domain::parse_domain;
use rddns::engine::IpAddress;
use rddns::net::Ipv4;
use rddns::porkbun::{PorkbunBaseResponse, PorkbunProvider, PorkbunQueryResponse, PorkbunRecord, PorkbunWrite};
use rddns::providers::{DnsProviderError, HttpMethod, HttpReply, SyncStep};
use rddns::records::{DnsRecordType, SyncStatus};

fn ok_reply(body: &str) -> HttpReply {
    HttpReply { success: true, status: "200 OK".to_string(), body: body.to_string() }
}

fn query(status: &str, contents: &[Option<&str>]) -> PorkbunQueryResponse {
    PorkbunQueryResponse {
        status: status.to_string(),
        message: None,
        records: Some(
            contents
                .iter()
                .map(|c| PorkbunRecord { record_type: Some("A".to_string()), content: c.map(|s| s.to_string()) })
                .collect(),
        ),
    }
}

#[test]
fn porkbun_query_request_names_the_record() {
    let p = PorkbunProvider::new("pk1".to_string(), "sk1".to_string());
    let d = parse_domain("www.example.com").unwrap();
    let req = p.query_request(&d, DnsRecordType::A);
    assert_eq!(req.method, HttpMethod::Post);
    assert_eq!(req.url, "https://api.porkbun.com/api/json/v3/dns/retrieveByNameType/example.com/A/www");
    let body: serde_json::Value = serde_json::from_str(req.body.as_deref().unwrap()).unwrap();
    assert_eq!(body["apikey"], "pk1");
    assert_eq!(body["secretapikey"], "sk1");

    let root = parse_domain("example.com").unwrap();
    let req = p.query_request(&root, DnsRecordType::AAAA);
    assert_eq!(req.url, "https://api.porkbun.com/api/json/v3/dns/retrieveByNameType/example.com/AAAA");
}

#[test]
fn porkbun_decides_unchanged_edit_or_create() {
    let p = PorkbunProvider::new("pk".to_string(), "sk".to_string());
    let d = parse_domain("nas.example.com").unwrap();
    let ip = IpAddress::V4(Ipv4::new(1, 2, 3, 4));

    match p.on_query(&d, DnsRecordType::A, &ip, None, &ok_reply(""), Ok(query("SUCCESS", &[Some("1.2.3.4")]))) {
        SyncStep::Done(Ok(r)) => {
            assert_eq!(r.status, SyncStatus::Unchanged);
            assert_eq!(r.domain, "nas.example.com");
        }
        _ => panic!("expected unchanged"),
    }

    match p.on_query(&d, DnsRecordType::A, &ip, Some(60), &ok_reply(""), Ok(query("success", &[Some("9.9.9.9")]))) {
        SyncStep::Send(req, PorkbunWrite::Edit) => {
            assert_eq!(req.url, "https://api.porkbun.com/api/json/v3/dns/editByNameType/example.com/A/nas");
            let body: serde_json::Value = serde_json::from_str(req.body.as_deref().unwrap()).unwrap();
            assert_eq!(body["content"], "1.2.3.4");
            assert_eq!(body["ttl"], "600");
        }
        _ => panic!("expected edit"),
    }

    match p.on_query(&d, DnsRecordType::A, &ip, Some(3600), &ok_reply(""), Ok(query("SUCCESS", &[]))) {
        SyncStep::Send(req, PorkbunWrite::Create) => {
            assert_eq!(req.url, "https://api.porkbun.com/api/json/v3/dns/create/example.com");
            let body: serde_json::Value = serde_json::from_str(req.body.as_deref().unwrap()).unwrap();
            assert_eq!(body["name"], "nas");
            assert_eq!(body["type"], "A");
            assert_eq!(body["ttl"], "3600");
        }
        _ => panic!("expected create"),
    }
}

#[test]
fn porkbun_reports_errors() {
    let p = PorkbunProvider::new("pk".to_string(), "sk".to_string());
    let d = parse_domain("nas.example.com").unwrap();
    let ip = IpAddress::V4(Ipv4::new(1, 2, 3, 4));
    let bad = HttpReply { success: false, status: "403 Forbidden".to_string(), body: "denied".to_string() };
    match p.on_query(&d, DnsRecordType::A, &ip, None, &bad, Err("unused".to_string())) {
        SyncStep::Done(Err(DnsProviderError::ApiError { code, message })) => {
            assert_eq!(code, "403 Forbidden");
            assert_eq!(message, "Porkbun 查询记录 HTTP 错误: denied");
        }
        _ => panic!("expected HTTP error"),
    }
    match p.on_query(&d, DnsRecordType::A, &ip, None, &ok_reply("x"), Err("bad json".to_string())) {
        SyncStep::Done(Err(DnsProviderError::Json(m))) => assert_eq!(m, "bad json"),
        _ => panic!("expected JSON error"),
    }
    match p.on_query(&d, DnsRecordType::A, &ip, None, &ok_reply(""), Ok(query("ERROR", &[]))) {
        SyncStep::Done(Err(DnsProviderError::ApiError { code, message })) => {
            assert_eq!(code, "ERROR");
            assert_eq!(message, "查询 Porkbun 解析记录失败");
        }
        _ => panic!("expected API error"),
    }
    let created = p
        .on_write(PorkbunWrite::Create, &d, DnsRecordType::A, &ip, &ok_reply(""),
            Ok(PorkbunBaseResponse { status: "SUCCESS".to_string(), message: None }))
        .unwrap();
    assert_eq!(created.status, SyncStatus::Created);
    assert_eq!(created.message, "解析记录创建成功");
    let refused = p
        .on_write(PorkbunWrite::Edit, &d, DnsRecordType::A, &ip, &ok_reply(""),
            Ok(PorkbunBaseResponse { status: "ERROR".to_string(), message: Some("no".to_string()) }))
        .unwrap_err();
    assert_eq!(refused, DnsProviderError::ApiError { code: "ERROR".to_string(), message: "no".to_string() });
}
