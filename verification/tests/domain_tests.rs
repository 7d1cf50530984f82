use rddns::domain::parse_domain;

#[test]
fn test_parse_domain_with_url_prefix_and_slash() {
    let d1 = parse_domain("https://nas.example.com/").unwrap();
    assert_eq!(d1.sub_domain, "nas");
    assert_eq!(d1.root_domain, "example.com");

    let d2 = parse_domain("HTTP://WWW.EXAMPLE.COM/PATH").unwrap();
    assert_eq!(d2.sub_domain, "www");
    assert_eq!(d2.root_domain, "example.com");

    let d3 = parse_domain("*.example.com").unwrap();
    assert_eq!(d3.sub_domain, "*");
    assert_eq!(d3.root_domain, "example.com");

    let d4 = parse_domain("http://nas.example.com:8080/dashboard").unwrap();
    assert_eq!(d4.sub_domain, "nas");
    assert_eq!(d4.root_domain, "example.com");

    assert!(parse_domain("# 这是一行注释").is_none());
    assert!(parse_domain("// 另一行注释").is_none());
}

#[test]
fn test_parse_domain_standard() {
    let d1 = parse_domain("example.com").unwrap();
    assert_eq!(d1.root_domain, "example.com");
    assert_eq!(d1.sub_domain, "@");
    assert_eq!(d1.full_domain(), "example.com");

    let d2 = parse_domain("www.example.com").unwrap();
    assert_eq!(d2.root_domain, "example.com");
    assert_eq!(d2.sub_domain, "www");
    assert_eq!(d2.full_domain(), "www.example.com");

    let d3 = parse_domain("api.v1.example.com").unwrap();
    assert_eq!(d3.root_domain, "example.com");
    assert_eq!(d3.sub_domain, "api.v1");
    assert_eq!(d3.full_domain(), "api.v1.example.com");
}

#[test]
fn test_parse_domain_colon_syntax() {
    let d = parse_domain("sub.test:myroot.com").unwrap();
    assert_eq!(d.root_domain, "myroot.com");
    assert_eq!(d.sub_domain, "sub.test");

    let d_at = parse_domain("@:myroot.com").unwrap();
    assert_eq!(d_at.root_domain, "myroot.com");
    assert_eq!(d_at.sub_domain, "@");
}

#[test]
fn test_parse_domain_compound_suffix() {
    let d = parse_domain("nas.myhome.com.cn").unwrap();
    assert_eq!(d.root_domain, "myhome.com.cn");
    assert_eq!(d.sub_domain, "nas");

    let d_eu = parse_domain("nas.myhome.eu.org").unwrap();
    assert_eq!(d_eu.root_domain, "myhome.eu.org");
    assert_eq!(d_eu.sub_domain, "nas");

    let d_au = parse_domain("router.company.com.au").unwrap();
    assert_eq!(d_au.root_domain, "company.com.au");
    assert_eq!(d_au.sub_domain, "router");

    let d_prov = parse_domain("web.node.bj.cn").unwrap();
    assert_eq!(d_prov.root_domain, "node.bj.cn");
    assert_eq!(d_prov.sub_domain, "web");

    let d_sg = parse_domain("api.service.com.sg").unwrap();
    assert_eq!(d_sg.root_domain, "service.com.sg");
    assert_eq!(d_sg.sub_domain, "api");

    let root_d = parse_domain("myhome.com.cn").unwrap();
    assert_eq!(root_d.root_domain, "myhome.com.cn");
    assert_eq!(root_d.sub_domain, "@");
}

#[test]
fn test_punycode_chinese_domain() {
    let d_chinese = parse_domain("测试.com").unwrap();
    assert_eq!(d_chinese.root_domain, "xn--0zwm56d.com");
    assert_eq!(d_chinese.sub_domain, "@");

    let d_sub_chinese = parse_domain("我的nas.example.com").unwrap();
    assert_eq!(d_sub_chinese.root_domain, "example.com");
    assert_eq!(d_sub_chinese.sub_domain, "xn--nas-st5fr61g");

    let d_colon_chinese = parse_domain("我的nas:测试.cn").unwrap();
    assert_eq!(d_colon_chinese.root_domain, "xn--0zwm56d.cn");
    assert_eq!(d_colon_chinese.sub_domain, "xn--nas-st5fr61g");
    assert_eq!(d_colon_chinese.full_domain(), "xn--nas-st5fr61g.xn--0zwm56d.cn");
}

#[test]
fn test_parse_domain_with_params() {
    let d = parse_domain("nas:example.com?line=telecom&ttl=600").unwrap();
    assert_eq!(d.root_domain, "example.com");
    assert_eq!(d.sub_domain, "nas");
    assert_eq!(d.custom_params.get("line").unwrap(), "telecom");
    assert_eq!(d.custom_params.get("ttl").unwrap(), "600");
}
