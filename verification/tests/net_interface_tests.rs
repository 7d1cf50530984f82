use rddns::net::{Ipv4, Ipv6};
use rddns::net_interface::{
    interface_info, parse_if_inet6_content, parse_if_inet6_line, select_ip_by_ordinal_or_regex,
    NetInterfaceIpFetcher,
};

fn regex_pick(ip: &Ipv6, re: &str) -> Option<Ipv6> {
    let pattern = regex::Regex::new(re).ok()?;
    if pattern.is_match(&ip.to_text()) {
        Some(*ip)
    } else {
        None
    }
}

#[test]
fn test_select_ip_by_ordinal() {
    let ip1 = Ipv6::new([0x2408, 0x8207, 0x78cd, 0x1234, 0, 0, 0, 1]);
    let ip2 = Ipv6::new([0x2408, 0x8207, 0x78cd, 0x1234, 0, 0, 0, 2]);
    let ip3 = Ipv6::new([0x2408, 0x8207, 0x78cd, 0x1234, 0, 0, 0, 3]);
    assert_eq!(ip1.to_text(), "2408:8207:78cd:1234::1");
    assert_eq!(ip2.to_text(), "2408:8207:78cd:1234::2");
    assert_eq!(ip3.to_text(), "2408:8207:78cd:1234::3");
    let candidates = vec![ip1, ip2, ip3];

    let sel0 = select_ip_by_ordinal_or_regex(&candidates, Some("@0"), regex_pick);
    assert_eq!(sel0, Some(ip1));

    let sel1 = select_ip_by_ordinal_or_regex(&candidates, Some("@1"), regex_pick);
    assert_eq!(sel1, Some(ip1));

    let sel2 = select_ip_by_ordinal_or_regex(&candidates, Some("@2"), regex_pick);
    assert_eq!(sel2, Some(ip2));

    let sel3 = select_ip_by_ordinal_or_regex(&candidates, Some("@3"), regex_pick);
    assert_eq!(sel3, Some(ip3));

    let sel_overflow = select_ip_by_ordinal_or_regex(&candidates, Some("@99"), regex_pick);
    assert_eq!(sel_overflow, Some(ip1));

    let sel_regex = select_ip_by_ordinal_or_regex(&candidates, Some(".*::2"), regex_pick);
    assert_eq!(sel_regex, Some(ip2));
}

#[test]
fn select_without_rule_or_candidates_gives_none() {
    let ip1 = Ipv6::new([0x2408, 0, 0, 0, 0, 0, 0, 1]);
    assert_eq!(select_ip_by_ordinal_or_regex(&[ip1], None, regex_pick), None);
    let empty: Vec<Ipv6> = Vec::new();
    assert_eq!(select_ip_by_ordinal_or_regex(&empty, Some("@1"), regex_pick), None);
    // A rule that matches nothing gives nothing.
    assert_eq!(select_ip_by_ordinal_or_regex(&[ip1], Some("^fe80"), regex_pick), None);
    // The rule is trimmed before use, and `+` is accepted before the ordinal.
    let ip2 = Ipv6::new([0x2408, 0, 0, 0, 0, 0, 0, 2]);
    assert_eq!(select_ip_by_ordinal_or_regex(&[ip1, ip2], Some("  @+2 "), regex_pick), Some(ip2));
    // `@x` is no ordinal: it is used as a pattern.
    assert_eq!(select_ip_by_ordinal_or_regex(&[ip1, ip2], Some("@x"), regex_pick), None);
}

#[test]
fn test_parse_if_inet6_line() {
    let line_perm = "2408820778cd12340200f8fffed144ff 02 40 00 80 eth0";
    let entry_perm = parse_if_inet6_line(line_perm).expect("解析失败");
    assert_eq!(entry_perm.ip.to_text(), "2408:8207:78cd:1234:200:f8ff:fed1:44ff");
    assert_eq!(entry_perm.if_index, 2);
    assert_eq!(entry_perm.prefix_len, 64);
    assert_eq!(entry_perm.scope, 0);
    assert_eq!(entry_perm.flags, 0x80);
    assert_eq!(entry_perm.if_name, "eth0");
    assert!(entry_perm.is_stable_global());
    assert!(!entry_perm.is_temporary());
    assert!(!entry_perm.is_deprecated());

    let line_high_flags = "2408820778cd12340200f8fffed144ff 02 40 00 880 eth0";
    let entry_high = parse_if_inet6_line(line_high_flags).expect("高位 Flags 解析失败");
    assert_eq!(entry_high.flags, 0x880);
    assert!(entry_high.is_stable_global());

    let line_temp = "2408820778cd1234a5d34199c03b1234 02 40 00 01 eth0";
    let entry_temp = parse_if_inet6_line(line_temp).expect("解析失败");
    assert!(entry_temp.is_temporary());
    assert!(!entry_temp.is_stable_global());

    let line_dep = "2408820778cd1234b4c23100a12b5678 02 40 00 20 eth0";
    let entry_dep = parse_if_inet6_line(line_dep).expect("解析失败");
    assert!(entry_dep.is_deprecated());
    assert!(!entry_dep.is_stable_global());

    let line_tent = "2408820778cd12341111222233334444 02 40 00 40 eth0";
    let entry_tent = parse_if_inet6_line(line_tent).expect("解析失败");
    assert!(entry_tent.is_tentative_or_failed());
    assert!(!entry_tent.is_stable_global());

    let line_ll = "fe800000000000000200f8fffed144ff 02 40 20 80 eth0";
    let entry_ll = parse_if_inet6_line(line_ll).expect("解析失败");
    assert!(!entry_ll.is_global_scope());
    assert!(!entry_ll.is_stable_global());
}

#[test]
fn parse_if_inet6_line_rejects_malformed_lines() {
    // Too few columns.
    assert!(parse_if_inet6_line("2408820778cd12340200f8fffed144ff 02 40 00 80").is_none());
    // Address column of the wrong length.
    assert!(parse_if_inet6_line("2408820778cd12340200f8fffed144f 02 40 00 80 eth0").is_none());
    // A non-hex digit in the address.
    assert!(parse_if_inet6_line("2408820778cd12340200f8fffed144fg 02 40 00 80 eth0").is_none());
    // Prefix length beyond a byte.
    assert!(parse_if_inet6_line("2408820778cd12340200f8fffed144ff 02 100 00 80 eth0").is_none());
    // Extra columns are ignored.
    let e = parse_if_inet6_line("  2408820778cd12340200f8fffed144ff\t02 40 00 80 eth0 extra").unwrap();
    assert_eq!(e.if_name, "eth0");
}

#[test]
fn test_parse_if_inet6_content_filtering() {
    let content = r#"
00000000000000000000000000000001 01 80 10 80       lo
2408820778cd12340200f8fffed144ff 02 40 00 80     eth0
2408820778cd1234a5d34199c03b1234 02 40 00 01     eth0
2408820778cd1234b4c23100a12b5678 02 40 00 20     eth0
fe800000000000000200f8fffed144ff 02 40 20 80     eth0
24098900123456780000000000000001 03 40 00 880    wlan0
"#;

    let entries_eth0 = parse_if_inet6_content(content, Some("eth0"));
    assert_eq!(entries_eth0.len(), 4);

    let stable_eth0: Vec<Ipv6> = entries_eth0
        .iter()
        .filter(|e| e.is_stable_global())
        .map(|e| e.ip)
        .collect();
    assert_eq!(stable_eth0.len(), 1);
    assert_eq!(stable_eth0[0].to_text(), "2408:8207:78cd:1234:200:f8ff:fed1:44ff");

    let entries_wlan0 = parse_if_inet6_content(content, Some("wlan0"));
    assert_eq!(entries_wlan0.len(), 1);
    assert_eq!(entries_wlan0[0].flags, 0x880);
    assert!(entries_wlan0[0].is_stable_global());
}

#[test]
fn parse_if_inet6_content_matches_names_ignoring_case() {
    let content = "2408820778cd12340200f8fffed144ff 02 40 00 80 ETH0\r\n\
                   2408820778cd12340200f8fffed14400 03 40 00 80 eth1\n";
    assert_eq!(parse_if_inet6_content(content, Some("eth0")).len(), 1);
    assert_eq!(parse_if_inet6_content(content, None).len(), 2);
    assert_eq!(parse_if_inet6_content(content, Some("eth2")).len(), 0);
}

#[test]
fn net_interface_fetcher_keeps_its_settings() {
    let f = NetInterfaceIpFetcher::new("eth0".to_string(), Some("@2".to_string()));
    assert_eq!(f.interface_name, "eth0");
    assert_eq!(f.regex.as_deref(), Some("@2"));
}

#[test]
fn interface_info_orders_stable_first() {
    let v4 = vec![Ipv4::new(127, 0, 0, 1), Ipv4::new(192, 168, 1, 2)];
    let temp = Ipv6::new([0x2408, 0x8207, 0x78cd, 0x1234, 0xa5d3, 0x4199, 0xc03b, 0x1234]);
    let stable = Ipv6::new([0x2408, 0x8207, 0x78cd, 0x1234, 0x200, 0xf8ff, 0xfed1, 0x44ff]);
    let link = Ipv6::new([0xfe80, 0, 0, 0, 0x200, 0xf8ff, 0xfed1, 0x44ff]);
    let v6 = vec![temp, link, stable];
    let content = "2408820778cd1234a5d34199c03b1234 02 40 00 01 eth0\n2408820778cd12340200f8fffed144ff 02 40 00 80 ETH0\n";
    let entries = parse_if_inet6_content(content, None);
    let info = interface_info("eth0".to_string(), &v4, &v6, Some(&entries));
    assert_eq!(info.ipv4s, vec!["192.168.1.2".to_string()]);
    assert_eq!(info.ipv6s, vec!["2408:8207:78cd:1234:200:f8ff:fed1:44ff".to_string(), "2408:8207:78cd:1234:a5d3:4199:c03b:1234".to_string()]);
    assert_eq!(
        info.display_name,
        "eth0 (IPv4: 192.168.1.2 | IPv6: 2408:8207:78cd:1234:200:f8ff:fed1:44ff, 2408:8207:78cd:1234:a5d3:4199:c03b:1234)"
    );
    let bare = interface_info("lo".to_string(), &vec![Ipv4::new(127, 0, 0, 1)], &vec![], None);
    assert_eq!(bare.display_name, "lo");
    let unordered = interface_info("wlan0".to_string(), &vec![], &v6, Some(&entries));
    assert_eq!(unordered.ipv6s, vec!["2408:8207:78cd:1234:a5d3:4199:c03b:1234".to_string(), "2408:8207:78cd:1234:200:f8ff:fed1:44ff".to_string()]);
}
