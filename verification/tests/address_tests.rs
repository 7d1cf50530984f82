use rddns::addr_text::{find_address, parse_address, parse_ipv4_text, parse_ipv6_text, split_address_tokens};
use rddns::config::NotificationConfig;
use rddns::dispatch::{should_dispatch, ErrorTracker};
use rddns::engine::IpAddress;
use rddns::net::{Ipv4, Ipv6};
use rddns::net_interface::{choose_ipv4, parse_if_inet6_content, rank_ipv6_candidates, usable_ipv4s};
use rddns::notify::{NotificationEvent, NotificationOverallStatus};
use rddns::records::{DnsRecordType, SyncRecordResult, SyncStatus};
use rddns::text_map::TextMap;

fn chars(s: &str) -> Vec<char> {
    s.chars().collect()
}

#[test]
fn ipv4_text_is_read_as_std_reads_it() {
    assert_eq!(parse_ipv4_text(&chars("203.0.113.7")), Some(Ipv4::new(203, 0, 113, 7)));
    assert_eq!(parse_ipv4_text(&chars("0.0.0.0")), Some(Ipv4::new(0, 0, 0, 0)));
    assert_eq!(parse_ipv4_text(&chars("256.1.1.1")), None);
    assert_eq!(parse_ipv4_text(&chars("01.1.1.1")), None);
    assert_eq!(parse_ipv4_text(&chars("1.1.1")), None);
    assert_eq!(parse_ipv4_text(&chars("1.1.1.1.")), None);
    assert_eq!(parse_ipv4_text(&chars("+1.1.1.1")), None);
}

#[test]
fn ipv6_text_is_read_as_std_reads_it() {
    let cases: [(&str, [u16; 8]); 9] = [
        ("2408:8207:78cd:1234::1", [0x2408, 0x8207, 0x78cd, 0x1234, 0, 0, 0, 1]),
        ("::", [0; 8]),
        ("::1", [0, 0, 0, 0, 0, 0, 0, 1]),
        ("fe80::", [0xfe80, 0, 0, 0, 0, 0, 0, 0]),
        ("1:2:3:4:5:6:7:8", [1, 2, 3, 4, 5, 6, 7, 8]),
        ("1:2:3:4:5:6:7::", [1, 2, 3, 4, 5, 6, 7, 0]),
        ("::ffff:1.2.3.4", [0, 0, 0, 0, 0, 0xffff, 0x0102, 0x0304]),
        ("2001:DB8::A", [0x2001, 0xdb8, 0, 0, 0, 0, 0, 0xa]),
        ("1::2:3", [1, 0, 0, 0, 0, 0, 2, 3]),
    ];
    for (c, expected) in cases {
        let got = parse_ipv6_text(&chars(c)).unwrap_or_else(|| panic!("{} not read", c));
        assert_eq!(got.segments, expected, "{}", c);
    }
    let refused = [
        "", ":", ":1::", "1:::2", "1::2::3", "1:2:3:4:5:6:7:8::", "1:2:3:4:5:6:7", "12345::", "::g", "1.2.3.4::",
        "::1.2.3.4:1", "1:2:3:4:5:6:7:1.2.3.4",
    ];
    for c in refused {
        assert_eq!(parse_ipv6_text(&chars(c)), None, "{}", c);
    }
}

#[test]
fn address_text_picks_the_family() {
    assert_eq!(parse_address(&chars("1.2.3.4")), Some(IpAddress::V4(Ipv4::new(1, 2, 3, 4))));
    assert_eq!(parse_address(&chars("::2")), Some(IpAddress::V6(Ipv6::new([0, 0, 0, 0, 0, 0, 0, 2]))));
    assert_eq!(parse_address(&chars("hello")), None);
}

#[test]
fn tokens_are_runs_of_address_characters() {
    let toks: Vec<String> = split_address_tokens(&chars("ip=1.2.3.4; v6 [2001:db8::1]"))
        .into_iter()
        .map(|t| t.into_iter().collect())
        .collect();
    assert_eq!(toks, vec!["1.2.3.4", "6", "2001:db8::1"]);
}

#[test]
fn reply_without_pattern_gives_first_address_of_family() {
    let body = "Current IP Address: 198.51.100.20\n";
    assert_eq!(find_address(body, None, false), Some(IpAddress::V4(Ipv4::new(198, 51, 100, 20))));
    assert_eq!(find_address(body, None, true), None);
    let both = "v4 203.0.113.9 v6 2001:db8::5";
    assert_eq!(find_address(both, None, true), Some(IpAddress::V6(Ipv6::new([0x2001, 0xdb8, 0, 0, 0, 0, 0, 5]))));
    assert_eq!(find_address(both, Some("   "), false), Some(IpAddress::V4(Ipv4::new(203, 0, 113, 9))));
}

#[test]
fn reply_with_pattern_reads_only_the_matches() {
    let body = "gateway 192.168.1.1 public 203.0.113.9";
    assert_eq!(find_address(body, Some(r"public \S+"), false), None);
    assert_eq!(find_address(body, Some(r"\d+\.\d+\.\d+\.9"), false), Some(IpAddress::V4(Ipv4::new(203, 0, 113, 9))));
    assert_eq!(find_address(body, Some("("), false), None);
}

#[test]
fn interface_ipv4_prefers_a_public_address() {
    let listed = vec![
        Ipv4::new(127, 0, 0, 1),
        Ipv4::new(169, 254, 3, 4),
        Ipv4::new(192, 168, 1, 10),
        Ipv4::new(100, 64, 0, 1),
        Ipv4::new(8, 8, 4, 4),
    ];
    let usable = usable_ipv4s(&listed);
    assert_eq!(usable, vec![Ipv4::new(192, 168, 1, 10), Ipv4::new(100, 64, 0, 1), Ipv4::new(8, 8, 4, 4)]);
    assert_eq!(choose_ipv4(&usable), Some(Ipv4::new(8, 8, 4, 4)));
    assert_eq!(choose_ipv4(&usable[..2]), Some(Ipv4::new(192, 168, 1, 10)));
    assert_eq!(choose_ipv4(&[]), None);
}

#[test]
fn interface_ipv6_ranks_stable_before_temporary() {
    let content = "\
240e00000000000000000000000000aa 02 40 00 01 eth0
2408820778cd12340200f8fffed144ff 02 40 00 80 eth0
fe800000000000000000000000000001 02 40 20 80 eth0
240e00000000000000000000000000bb 02 40 00 20 eth0
240e00000000000000000000000000aa 02 40 00 01 eth0
";
    let entries = parse_if_inet6_content(content, Some("eth0"));
    let ranked = rank_ipv6_candidates(&entries, &[]);
    let texts: Vec<String> = ranked.iter().map(|ip| ip.to_text()).collect();
    assert_eq!(texts, vec!["2408:8207:78cd:1234:200:f8ff:fed1:44ff", "240e::aa"]);

    let fallback = vec![Ipv6::new([0xfe80, 0, 0, 0, 0, 0, 0, 1]), Ipv6::new([0x2001, 0xdb8, 0, 0, 0, 0, 0, 7])];
    let ranked = rank_ipv6_candidates(&[], &fallback);
    assert_eq!(ranked, vec![Ipv6::new([0x2001, 0xdb8, 0, 0, 0, 0, 0, 7])]);
}

fn failure_event() -> NotificationEvent {
    NotificationEvent {
        overall_status: NotificationOverallStatus::Failed,
        task_name: "home".to_string(),
        ipv4: Some(Ipv4::new(1, 2, 3, 4)),
        ipv6: None,
        ip_changed: false,
        results: vec![SyncRecordResult {
            domain: "a.example.com".to_string(),
            record_type: DnsRecordType::A,
            target_ip: "1.2.3.4".to_string(),
            status: SyncStatus::Failed,
            message: "timeout".to_string(),
        }],
        timestamp_text: "2024-05-01 12:00:00".to_string(),
        timestamp_unix: 1714536000,
    }
}

#[test]
fn repeated_failure_is_dispatched_once_within_the_window() {
    let config = NotificationConfig::default();
    let mut trackers: TextMap<ErrorTracker> = TextMap::new();
    let event = failure_event();
    assert!(should_dispatch(&config, &mut trackers, &event, 1, false, 1_000));
    assert!(!should_dispatch(&config, &mut trackers, &event, 1, false, 1_000 + 60_000));
    assert!(should_dispatch(&config, &mut trackers, &event, 1, false, 1_000 + 1_800_000));
    assert!(should_dispatch(&config, &mut trackers, &event, 1, true, 1_000 + 1_800_001));
    assert!(!should_dispatch(&config, &mut trackers, &event, 0, true, 1_000 + 1_800_002));
}
