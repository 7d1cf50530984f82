use rddns::alidns::{AliDnsProvider, AliDnsState, AliErrorResponse, AliRecordItem};
use rddns::aliesa::{AliEsaActionResp, AliEsaProvider, AliEsaRecord, AliEsaSite, AliEsaState};
use rddns::baidu::{BaiduCloudProvider, BaiduRecord, BaiduState};
use rddns::channels::DingTalkNotifier;
use rddns::config::DingTalkConfig;
use rddns::dnspod::{DnspodState, TcRecordItem, TcRecordListResponse, TencentCloudProvider};
use rddns::domain::parse_domain;
use rddns::engine::IpAddress;
use rddns::huawei::{HuaweiDnsProvider, HwRecordsetItem, HwState, HwZoneItem};
use rddns::net::Ipv4;
use rddns::nowcn::{NowcnListResp, NowcnProvider, NowcnRecordItem, NowcnState};
use rddns::providers::{DnsProviderError, HttpMethod, HttpReply, SyncStep};
use rddns::records::{DnsRecordType, SyncStatus};
use rddns::tc3::{read_reply, Tc3ApiError, Tc3Response};
use rddns::tencent_eo::{compute_updated_origin_records, TeoOriginRecord, TeoState, TeoZoneData, TeoZoneItem, TencentEoProvider};
use rddns::traffic_route::{TrafficRouteProvider, VolcRecord, VolcResponse, VolcResult, VolcState, VolcZone};

fn ok() -> HttpReply {
    HttpReply { success: true, status: "200 OK".to_string(), body: "{}".to_string() }
}

fn bad(body: &str) -> HttpReply {
    HttpReply { success: false, status: "400 Bad Request".to_string(), body: body.to_string() }
}

fn v4() -> IpAddress {
    IpAddress::V4(Ipv4::new(1, 2, 3, 4))
}

#[test]
fn alidns_credentials_and_endpoint() {
    match AliDnsProvider::new(" ".to_string(), "s".to_string(), None) {
        Err(DnsProviderError::MissingCredentials(m)) => assert_eq!(m, "阿里云 AliDNS 需要配置 AccessKeyId 与 AccessKeySecret"),
        _ => panic!("expected missing credentials"),
    }
    let p = AliDnsProvider::new("id".to_string(), "s".to_string(), Some("  ".to_string())).ok().unwrap();
    assert_eq!(p.endpoint, "https://alidns.aliyuncs.com");
}

#[test]
fn alidns_signed_list_update_and_add() {
    let p = AliDnsProvider::new("id".to_string(), "s".to_string(), None).ok().unwrap();
    let d = parse_domain("www.example.com").unwrap();
    let (req, state) = p.start(&d, DnsRecordType::A, "2024-01-01T00:00:00Z", "n1");
    assert_eq!(state, AliDnsState::Lookup);
    assert_eq!(req.method, HttpMethod::Get);
    assert!(req.url.starts_with(
        "https://alidns.aliyuncs.com/?AccessKeyId=id&Action=DescribeDomainRecords&DomainName=example.com&Format=JSON\
&RRKeyWord=www&SignatureMethod=HMAC-SHA1&SignatureNonce=n1&SignatureVersion=1.0&Timestamp=2024-01-01T00%3A00%3A00Z\
&Type=A&Version=2015-01-09&Signature="
    ));
    let recs = vec![AliRecordItem { record_id: "r1".to_string(), rr: "WWW".to_string(), record_type: "a".to_string(),
        value: "1.2.3.4".to_string() }];
    match p.on_list(&d, DnsRecordType::A, &v4(), None, &ok(), None, Ok(recs), "t", "n") {
        SyncStep::Done(Ok(r)) => assert_eq!(r.status, SyncStatus::Unchanged),
        _ => panic!("expected unchanged"),
    }
    let recs = vec![AliRecordItem { record_id: "r1".to_string(), rr: "www".to_string(), record_type: "A".to_string(),
        value: "9.9.9.9".to_string() }];
    match p.on_list(&d, DnsRecordType::A, &v4(), Some(0), &ok(), None, Ok(recs), "t", "n") {
        SyncStep::Send(req, AliDnsState::Update) => {
            assert!(req.url.contains("Action=UpdateDomainRecord"));
            assert!(req.url.contains("RecordId=r1"));
            assert!(req.url.contains("&TTL=1&"));
        }
        _ => panic!("expected an update"),
    }
    match p.on_list(&d, DnsRecordType::A, &v4(), None, &ok(), None, Ok(vec![]), "t", "n") {
        SyncStep::Send(req, AliDnsState::Add) => assert!(req.url.contains("Action=AddDomainRecord") && req.url.contains("TTL=600")),
        _ => panic!("expected an addition"),
    }
    let err = Some(AliErrorResponse { code: "InvalidKey".to_string(), message: "no".to_string() });
    match p.on_list(&d, DnsRecordType::A, &v4(), None, &bad("x"), err, Err("e".to_string()), "t", "n") {
        SyncStep::Done(Err(DnsProviderError::ApiError { code, message })) => {
            assert_eq!(code, "InvalidKey");
            assert_eq!(message, "no");
        }
        _ => panic!("expected the API error"),
    }
    match p.on_write(AliDnsState::Add, &d, DnsRecordType::A, &v4(), &ok(), None, Ok(())) {
        Ok(r) => assert_eq!(r.status, SyncStatus::Created),
        _ => panic!("expected created"),
    }
}

#[test]
fn aliesa_site_record_and_create_outcome() {
    let p = AliEsaProvider::new("id".to_string(), "s".to_string(), None).ok().unwrap();
    let d = parse_domain("www.example.com").unwrap();
    let (req, _) = p.start(&d, "t", "n");
    assert!(req.url.contains("Action=ListSites") && req.url.contains("SiteName=example.com") && req.url.contains("Version=2024-09-10"));
    match p.on_sites(&d, DnsRecordType::A, &ok(), None, Ok(vec![]), "t", "n") {
        SyncStep::Done(Err(DnsProviderError::ZoneNotFound(m))) => assert_eq!(m, "在阿里云 ESA 中未找到根域名 [example.com] 对应的站点"),
        _ => panic!("expected no site"),
    }
    let sites = vec![AliEsaSite { site_id: 42, site_name: "EXAMPLE.com".to_string() }];
    match p.on_sites(&d, DnsRecordType::A, &ok(), None, Ok(sites), "t", "n") {
        SyncStep::Send(req, AliEsaState::Records(42)) => assert!(req.url.contains("SiteId=42")),
        _ => panic!("expected the record list"),
    }
    let recs = vec![AliEsaRecord { record_id: 7, record_name: "www.example.com.".to_string(), value: Some("1.1.1.1".to_string()) }];
    match p.on_records(42, &d, DnsRecordType::A, &v4(), None, &ok(), None, Ok(recs), "t", "n") {
        SyncStep::Send(req, AliEsaState::Update) => {
            assert_eq!(req.method, HttpMethod::Post);
            assert!(req.url.contains("Data=%7B%22Value%22%3A%221.2.3.4%22%7D"));
        }
        _ => panic!("expected an update"),
    }
    let empty = AliEsaActionResp { record_id: None, request_id: None };
    match p.on_write(true, &d, DnsRecordType::A, &v4(), &ok(), None, Ok(empty)) {
        Err(DnsProviderError::ApiError { code, .. }) => assert_eq!(code, "AliEsaCreateError"),
        _ => panic!("expected the creation error"),
    }
}

#[test]
fn nowcn_variants_and_flow() {
    match NowcnProvider::new_tnethk("".to_string(), "k".to_string()) {
        Err(DnsProviderError::MissingCredentials(m)) => assert_eq!(m, "TNetHK 需要配置 AccessInstanceID 与 SecretKey"),
        _ => panic!("expected missing credentials"),
    }
    let p = NowcnProvider::new_nowcn("i".to_string(), "k".to_string()).ok().unwrap();
    let d = parse_domain("example.com").unwrap();
    let (req, state) = p.start(&d, DnsRecordType::A, "t", "n");
    assert_eq!(state, NowcnState::Lookup);
    assert!(req.url.starts_with("https://api.now.cn/api/Dns/DescribeRecordIndex?AccessInstanceID=i&Domain=example.com&Host=%40"));
    assert!(req.url.contains("&Signature="));
    let listed = NowcnListResp { data: None, error: Some("denied".to_string()) };
    match p.on_list(&d, DnsRecordType::A, &v4(), None, &ok(), Ok(listed), "t", "n") {
        SyncStep::Done(Err(DnsProviderError::ApiError { code, message })) => {
            assert_eq!(code, "NowcnListError");
            assert_eq!(message, "时代互联 (NowCN) 查询记录失败: denied");
        }
        _ => panic!("expected the list error"),
    }
    let listed = NowcnListResp { data: Some(vec![NowcnRecordItem { id: 5, host: Some("@".to_string()),
        record_type: Some("A".to_string()), value: Some("8.8.8.8".to_string()) }]), error: Some(" ".to_string()) };
    match p.on_list(&d, DnsRecordType::A, &v4(), None, &ok(), Ok(listed), "t", "n") {
        SyncStep::Send(req, NowcnState::Update) => assert!(req.url.contains("/api/Dns/UpdateDomainRecord?") && req.url.contains("Id=5")),
        _ => panic!("expected an update"),
    }
    match p.on_write(NowcnState::Add, &d, DnsRecordType::A, &v4(), &ok(), Ok(Some("full".to_string()))) {
        Err(DnsProviderError::ApiError { code, message }) => {
            assert_eq!(code, "NowcnCreateError");
            assert_eq!(message, "时代互联 (NowCN) 创建记录失败: full");
        }
        _ => panic!("expected the creation error"),
    }
}

#[test]
fn tc3_reply_reading() {
    let r: Result<u8, DnsProviderError> = read_reply(&ok(), Ok(Tc3Response { error: None, data: Some(3u8) }));
    assert_eq!(r.ok(), Some(3));
    let r: Result<u8, DnsProviderError> = read_reply(&ok(), Ok(Tc3Response { error: None, data: None }));
    assert_eq!(r.err(), Some(DnsProviderError::Other("腾讯云 API 响应缺少数据实体".to_string())));
    let e = Tc3ApiError { code: "AuthFailure".to_string(), message: "m".to_string() };
    let r: Result<u8, DnsProviderError> = read_reply(&ok(), Ok(Tc3Response { error: Some(e), data: Some(1u8) }));
    assert_eq!(r.err(), Some(DnsProviderError::ApiError { code: "AuthFailure".to_string(), message: "m".to_string() }));
}

#[test]
fn dnspod_payloads_and_no_data_code() {
    let p = TencentCloudProvider::new("sid".to_string(), "skey".to_string()).ok().unwrap();
    let d = parse_domain("www.example.com?line=电信").unwrap();
    let (req, state) = p.start(&d, DnsRecordType::A, 1700000000, "2023-11-14");
    assert_eq!(state, DnspodState::Lookup);
    assert_eq!(req.url, "https://dnspod.tencentcloudapi.com");
    assert_eq!(req.body.unwrap(), "{\"Domain\":\"example.com\",\"Limit\":100,\"RecordType\":\"A\",\"Subdomain\":\"www\"}");
    assert!(req.headers.iter().any(|h| h.0 == "Authorization"
        && h.1.starts_with("TC3-HMAC-SHA256 Credential=sid/2023-11-14/dnspod/tc3_request, SignedHeaders=")));
    let nodata = Tc3ApiError { code: "ResourceNotFound.NoDataOfRecord".to_string(), message: "none".to_string() };
    match p.on_list(&d, DnsRecordType::A, &v4(), None, &ok(), Ok(Tc3Response { error: Some(nodata), data: None }), 1, "d") {
        SyncStep::Send(req, DnspodState::Create) => assert_eq!(req.body.unwrap(),
            "{\"Domain\":\"example.com\",\"RecordLine\":\"电信\",\"RecordType\":\"A\",\"SubDomain\":\"www\",\"TTL\":600,\"Value\":\"1.2.3.4\"}"),
        _ => panic!("expected a creation"),
    }
    let list = TcRecordListResponse { record_list: Some(vec![TcRecordItem { record_id: 9, name: "www".to_string(),
        record_type: "A".to_string(), value: "5.5.5.5".to_string(), line: None }]) };
    match p.on_list(&d, DnsRecordType::A, &v4(), None, &ok(), Ok(Tc3Response { error: None, data: Some(list) }), 1, "d") {
        SyncStep::Send(req, DnspodState::Modify) => assert!(req.body.unwrap().contains("\"RecordId\":9")),
        _ => panic!("expected a modification"),
    }
}

#[test]
fn edgeone_origin_merge() {
    let cur = vec![TeoOriginRecord { record: "1.2.3.4".to_string(), record_type: "IP_DOMAIN".to_string(), weight: None }];
    let (recs, same) = compute_updated_origin_records(&cur, "1.2.3.4", 100);
    assert!(same);
    assert_eq!(recs.len(), 1);
    let (recs, same) = compute_updated_origin_records(&cur, "5.6.7.8", 50);
    assert!(!same);
    assert_eq!(recs.len(), 1);
    assert_eq!(recs[0].to_text(), "{\"Record\":\"5.6.7.8\",\"Type\":\"IP_DOMAIN\",\"Weight\":50}");
    let two = vec![
        TeoOriginRecord { record: "1.1.1.1".to_string(), record_type: "IP_DOMAIN".to_string(), weight: Some(10) },
        TeoOriginRecord { record: "2.2.2.2".to_string(), record_type: "IP_DOMAIN".to_string(), weight: None },
    ];
    let (recs, same) = compute_updated_origin_records(&two, "3.3.3.3", 100);
    assert!(!same);
    assert_eq!(recs.len(), 3);
    assert_eq!(recs[1].to_text(), "{\"Record\":\"2.2.2.2\",\"Type\":\"IP_DOMAIN\",\"Weight\":100}");
}

#[test]
fn edgeone_zone_then_group_or_records() {
    let p = TencentEoProvider::new("a".to_string(), "b".to_string()).ok().unwrap();
    let d = parse_domain("www.example.com?GroupId=g-1").unwrap();
    let (req, _) = p.start(&d, 1, "2024-01-01");
    assert_eq!(req.body.unwrap(), "{\"Filters\":[{\"Name\":\"zone-name\",\"Values\":[\"example.com\"]}]}");
    let zones = TeoZoneData { zones: Some(vec![TeoZoneItem { zone_id: "z1".to_string(), zone_name: "example.com".to_string() }]),
        error: None };
    match p.on_zones(&d, DnsRecordType::A, &ok(), Ok(Tc3Response { error: None, data: Some(zones) }), 1, "d") {
        SyncStep::Send(req, TeoState::Groups(z)) => {
            assert_eq!(z, "z1");
            assert_eq!(req.body.unwrap(), "{\"Filters\":[{\"Name\":\"origin-group-id\",\"Values\":[\"g-1\"]}],\"ZoneId\":\"z1\"}");
        }
        _ => panic!("expected the group query"),
    }
    let plain = parse_domain("www.example.com").unwrap();
    let zones = TeoZoneData { zones: Some(vec![]), error: None };
    match p.on_zones(&plain, DnsRecordType::A, &ok(), Ok(Tc3Response { error: None, data: Some(zones) }), 1, "d") {
        SyncStep::Done(Err(DnsProviderError::ZoneNotFound(m))) => assert_eq!(m, "在腾讯云 EdgeOne 中未找到根域名 [example.com] 对应的 Zone"),
        _ => panic!("expected no zone"),
    }
}

#[test]
fn huawei_endpoint_request_and_flow() {
    let p = HuaweiDnsProvider::new("ak".to_string(), "sk".to_string(), Some(" https://dns.example.org// ".to_string()));
    assert_eq!(p.endpoint, "https://dns.example.org");
    let d = parse_domain("www.example.com").unwrap();
    let (req, state) = p.start(&d, DnsRecordType::A, "20240101T000000Z");
    assert_eq!(state, HwState::Lookup);
    let req = req.ok().unwrap();
    assert_eq!(req.url, "https://dns.example.org/v2.1/recordsets?name=www.example.com.&type=A");
    assert_eq!(req.headers[0], ("Host".to_string(), "dns.example.org".to_string()));
    assert!(req.body.is_none());
    let bad_ep = HuaweiDnsProvider::new("ak".to_string(), "sk".to_string(), Some("not a url".to_string()));
    match bad_ep.start(&d, DnsRecordType::A, "x").0 {
        Err(DnsProviderError::Other(m)) => assert!(m.starts_with("解析 Endpoint URL 失败: ")),
        _ => panic!("expected the endpoint error"),
    }
    let sets = vec![HwRecordsetItem { id: "s1".to_string(), name: "WWW.example.com.".to_string(), zone_id: None,
        record_type: "A".to_string(), records: Some(vec!["9.9.9.9".to_string()]) }];
    match p.on_list(&d, DnsRecordType::A, &v4(), None, &ok(), None, Ok(sets), "x") {
        SyncStep::Done(Err(DnsProviderError::Other(m))) => assert_eq!(m, "华为云记录未返回关联的 zone_id"),
        _ => panic!("expected the zone id error"),
    }
    let zones = vec![HwZoneItem { id: "z9".to_string(), name: "example.com.".to_string() }];
    match p.on_zones(&d, DnsRecordType::A, &v4(), None, &ok(), None, Ok(zones), "x") {
        SyncStep::Send(req, HwState::Create) => {
            assert_eq!(req.url, "https://dns.example.org/v2.1/zones/z9/recordsets");
            assert_eq!(req.body.unwrap(), "{\"name\":\"www.example.com.\",\"records\":[\"1.2.3.4\"],\"ttl\":300,\"type\":\"A\"}");
        }
        _ => panic!("expected a creation"),
    }
}

#[test]
fn traffic_route_signed_query_and_errors() {
    let p = TrafficRouteProvider::new("ak".to_string(), "sk".to_string());
    let d = parse_domain("example.com").unwrap();
    let (req, state) = p.start(&d, "20240101T000000Z", "20240101");
    assert_eq!(state, VolcState::Zones);
    assert_eq!(req.url, "https://open.volcengineapi.com/?Action=ListZones&Key=example.com&Version=2018-08-01");
    let parsed = VolcResponse { error: None, result: Some(VolcResult { zones: Some(vec![VolcZone { zid: 3,
        zone_name: "example.com".to_string() }]), records: None }) };
    match p.on_zones(&d, DnsRecordType::A, &ok(), Ok(parsed), "x", "y") {
        SyncStep::Send(req, VolcState::Records(3)) => assert_eq!(req.body.unwrap(), "{\"Host\":\"@\",\"Type\":\"A\",\"ZID\":3}"),
        _ => panic!("expected the record list"),
    }
    match p.on_zones(&d, DnsRecordType::A, &bad("oops"), Err("expected value".to_string()), "x", "y") {
        SyncStep::Done(Err(DnsProviderError::Other(m))) => assert_eq!(m, "解析火山引擎响应失败 [400 Bad Request]: expected value"),
        _ => panic!("expected the parse error"),
    }
    let parsed = VolcResponse { error: None, result: Some(VolcResult { zones: None, records: Some(vec![VolcRecord {
        record_id: "r".to_string(), host: "@".to_string(), record_type: "A".to_string(), value: "1.2.3.4".to_string() }]) }) };
    match p.on_records(3, &d, DnsRecordType::A, &v4(), None, &ok(), Ok(parsed), "x", "y") {
        SyncStep::Done(Ok(r)) => assert_eq!(r.status, SyncStatus::Unchanged),
        _ => panic!("expected unchanged"),
    }
}

#[test]
fn baidu_auth_and_flow() {
    let p = BaiduCloudProvider::new("ak".to_string(), "sk".to_string());
    let auth = p.build_auth_header("POST", "/v1/domain/resolve/list", "2024-01-01T00:00:00Z");
    assert!(auth.starts_with("bce-auth-v1/ak/2024-01-01T00:00:00Z/1800/host/"));
    assert_eq!(auth.len(), "bce-auth-v1/ak/2024-01-01T00:00:00Z/1800/host/".len() + 64);
    let d = parse_domain("www.example.com").unwrap();
    let (req, _) = p.start(&d, "now");
    assert_eq!(req.url, "https://bcd.baidubce.com/v1/domain/resolve/list");
    assert_eq!(req.body.unwrap(), "{\"domain\":\"example.com\",\"pageNum\":1,\"pageSize\":1000}");
    let recs = vec![BaiduRecord { record_id: 11, domain: "www".to_string(), view: None, rd_type: "A".to_string(),
        rdata: "0.0.0.0".to_string() }];
    match p.on_list(&d, DnsRecordType::A, &v4(), None, &ok(), None, Ok(recs), "now") {
        SyncStep::Send(req, BaiduState::Edit) => assert_eq!(req.body.unwrap(),
            "{\"domain\":\"www\",\"rdType\":\"A\",\"rdata\":\"1.2.3.4\",\"recordId\":11,\"ttl\":300,\"view\":\"default\",\"zoneName\":\"example.com\"}"),
        _ => panic!("expected an edit"),
    }
    match p.on_write(BaiduState::Add, &d, DnsRecordType::A, &v4(), &bad("raw"), None, Err("e".to_string())) {
        Err(DnsProviderError::ApiError { code, message }) => {
            assert_eq!(code, "400 Bad Request");
            assert_eq!(message, "百度云 API 请求失败: raw");
        }
        _ => panic!("expected the error"),
    }
}

#[test]
fn dingtalk_signature_only_with_secret() {
    let plain = DingTalkNotifier::new(DingTalkConfig { enabled: true, access_token: "t".to_string(), secret: Some("  ".to_string()) });
    assert!(plain.signature(1).is_none());
    let signed = DingTalkNotifier::new(DingTalkConfig { enabled: true, access_token: "t".to_string(), secret: Some(" sec ".to_string()) });
    let (t, sig) = signed.signature(1700000000000).unwrap();
    assert_eq!(t, 1700000000000);
    assert_eq!(sig.len(), 44);
    assert!(sig.ends_with('='));
    let url = signed.send_url(Some((t, sig)));
    assert!(url.starts_with("https://oapi.dingtalk.com/robot/send?access_token=t&timestamp=1700000000000&sign="));
}
