use rddns::config::ProviderConfig;
use rddns::domain::{parse_domain, parse_domain_list};
use rddns::engine::IpAddress;
use rddns::net::Ipv4;
use rddns::providers::{CallbackProvider, DnsProviderError, HttpMethod};
use rddns::records::DnsRecordType;
use rddns::registry::{create_dns_provider, Provider};
use rddns::text_map::TextMap;

#[test]
fn tnethk_builds_the_nowcn_family_provider() {
    let c = ProviderConfig::TNetHk { id: "i".to_string(), secret: "s".to_string() };
    match create_dns_provider(&c) {
        Ok(Provider::Nowcn(p)) => {
            assert_eq!(p.endpoint, "https://www.tnet.hk");
            assert_eq!(p.provider_name, "TNetHK");
        }
        _ => panic!("expected the NowCN-family provider"),
    }
}

#[test]
fn missing_credentials_are_refused() {
    let c = ProviderConfig::AliDns { access_key_id: " ".to_string(), access_key_secret: "s".to_string(), endpoint: None };
    match create_dns_provider(&c) {
        Err(DnsProviderError::MissingCredentials(m)) => assert_eq!(m, "阿里云 AliDNS 需要配置 AccessKeyId 与 AccessKeySecret"),
        _ => panic!("expected a refusal"),
    }
    let c = ProviderConfig::Cloudflare { api_token: None, api_key: Some("  ".to_string()), email: None };
    assert!(matches!(create_dns_provider(&c), Err(DnsProviderError::MissingCredentials(_))));
}

#[test]
fn plain_providers_keep_their_settings() {
    let c = ProviderConfig::Vercel { token: "t".to_string(), team_id: Some(" ".to_string()) };
    match create_dns_provider(&c) {
        Ok(Provider::Vercel(p)) => {
            assert_eq!(p.token, "t");
            assert!(p.team_id.is_none());
        }
        _ => panic!("expected Vercel"),
    }
    let c = ProviderConfig::HuaweiCloud {
        access_key_id: "a".to_string(),
        secret_access_key: "b".to_string(),
        region: None,
        endpoint: None,
    };
    match create_dns_provider(&c) {
        Ok(Provider::Huawei(p)) => assert_eq!(p.endpoint, "https://dns.myhuaweicloud.com"),
        _ => panic!("expected Huawei"),
    }
}

#[test]
fn callback_request_renders_method_url_headers_and_body() {
    let mut h: TextMap<String> = TextMap::new();
    h.insert("X-Ip".to_string(), "#{ip}".to_string());
    h.insert("bad name".to_string(), "v".to_string());
    let c = ProviderConfig::Callback {
        url: "https://cb.example/?d=#{domain}&ip=#{ip}".to_string(),
        method: "post".to_string(),
        headers: Some(h),
        body: Some("{\"ip\":\"#{ip}\",\"type\":\"#{recordType}\"}".to_string()),
    };
    let p = match create_dns_provider(&c) {
        Ok(Provider::Callback(p)) => p,
        _ => panic!("expected Callback"),
    };
    let d = parse_domain("www.example.com").unwrap();
    let ip = IpAddress::V4(Ipv4::new(1, 2, 3, 4));
    let req = p.callback_request(&d, DnsRecordType::A, &ip, None);
    assert_eq!(req.method, HttpMethod::Post);
    assert_eq!(req.url, "https://cb.example/?d=www.example.com&ip=1.2.3.4");
    assert_eq!(req.headers, vec![("X-Ip".to_string(), "1.2.3.4".to_string())]);
    assert_eq!(req.body.unwrap(), "{\"ip\":\"1.2.3.4\",\"type\":\"A\"}");
    let other = CallbackProvider::new("u".to_string(), "HEAD".to_string(), None, None).ok().unwrap();
    assert_eq!(other.callback_request(&d, DnsRecordType::A, &ip, None).method, HttpMethod::Get);
}

#[test]
fn plain_names_parse_back_into_themselves() {
    let d = parse_domain("a.b.example.co.uk").unwrap();
    assert_eq!(d.root_domain, "example.co.uk");
    assert_eq!(d.sub_domain, "a.b");
    assert_eq!(d.full_domain(), "a.b.example.co.uk");
    assert_eq!(d.custom_params.len(), 0);
    let d = parse_domain("example.com").unwrap();
    assert_eq!(d.sub_domain, "@");
    assert_eq!(d.full_domain(), "example.com");
}

#[test]
fn domain_list_keeps_order_and_drops_what_does_not_parse() {
    let v = parse_domain_list(&["# c".to_string(), "www.example.com".to_string()]);
    assert_eq!(v.len(), 1);
    assert_eq!(v[0].sub_domain, "www");
    let v = parse_domain_list(&["b.example.com".to_string(), "".to_string(), "a.example.org".to_string()]);
    assert_eq!(v.iter().map(|d| d.full_domain()).collect::<Vec<_>>(), vec!["b.example.com", "a.example.org"]);
}
