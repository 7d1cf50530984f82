use rddns::engine::IpAddress;
use rddns::net::{Ipv4, Ipv6};
use rddns::stun::StunIpFetcher;

const COOKIE: [u8; 4] = [0x21, 0x12, 0xa4, 0x42];

fn header(resp: &mut [u8], len: u16, tx_id: &[u8; 12]) {
    resp[0..2].copy_from_slice(&0x0101u16.to_be_bytes());
    resp[2..4].copy_from_slice(&len.to_be_bytes());
    resp[4..8].copy_from_slice(&COOKIE);
    resp[8..20].copy_from_slice(tx_id);
}

#[test]
fn test_build_binding_request_structure() {
    let (req, tx_id) = StunIpFetcher::build_binding_request();
    assert_eq!(req.len(), 20);
    assert_eq!(&req[0..2], &[0x00, 0x01]);
    assert_eq!(&req[2..4], &[0x00, 0x00]);
    assert_eq!(&req[4..8], &[0x21, 0x12, 0xa4, 0x42]);
    assert_eq!(&req[8..20], &tx_id);
}

#[test]
fn test_parse_xor_mapped_ipv4() {
    let tx_id = [1, 2, 3, 4, 5, 6, 7, 8, 9, 10, 11, 12];
    let mut resp = vec![0u8; 32];
    header(&mut resp, 12, &tx_id);
    resp[20..22].copy_from_slice(&0x0020u16.to_be_bytes());
    resp[22..24].copy_from_slice(&8u16.to_be_bytes());
    resp[24] = 0x00;
    resp[25] = 0x01;
    resp[26..28].copy_from_slice(&[0x12, 0x34]);
    let target_ip = [114u8, 114, 114, 114];
    let xor_ip = [target_ip[0] ^ 0x21, target_ip[1] ^ 0x12, target_ip[2] ^ 0xa4, target_ip[3] ^ 0x42];
    resp[28..32].copy_from_slice(&xor_ip);

    let parsed = StunIpFetcher::parse_binding_response(&resp, &tx_id).unwrap();
    assert_eq!(parsed, IpAddress::V4(Ipv4::new(114, 114, 114, 114)));
}

#[test]
fn test_parse_xor_mapped_ipv6() {
    let tx_id = [1, 2, 3, 4, 5, 6, 7, 8, 9, 10, 11, 12];
    let mut resp = vec![0u8; 44];
    header(&mut resp, 24, &tx_id);
    resp[20..22].copy_from_slice(&0x0020u16.to_be_bytes());
    resp[22..24].copy_from_slice(&20u16.to_be_bytes());
    resp[24] = 0x00;
    resp[25] = 0x02;
    resp[26..28].copy_from_slice(&[0x12, 0x34]);

    // 2408:8207:7880:1234::1
    let target_v6 = Ipv6::new([0x2408, 0x8207, 0x7880, 0x1234, 0, 0, 0, 1]);
    let mut key = [0u8; 16];
    key[0..4].copy_from_slice(&COOKIE);
    key[4..16].copy_from_slice(&tx_id);
    let mut target_octets = [0u8; 16];
    for i in 0..8 {
        target_octets[2 * i..2 * i + 2].copy_from_slice(&target_v6.segments[i].to_be_bytes());
    }
    let mut xor_v6 = [0u8; 16];
    for i in 0..16 {
        xor_v6[i] = target_octets[i] ^ key[i];
    }
    resp[28..44].copy_from_slice(&xor_v6);

    let parsed = StunIpFetcher::parse_binding_response(&resp, &tx_id).unwrap();
    assert_eq!(parsed, IpAddress::V6(target_v6));
    assert_eq!(target_v6.to_text(), "2408:8207:7880:1234::1");
}

#[test]
fn test_parse_mapped_address_fallback() {
    let tx_id = [1, 2, 3, 4, 5, 6, 7, 8, 9, 10, 11, 12];
    let mut resp = vec![0u8; 32];
    header(&mut resp, 12, &tx_id);
    resp[20..22].copy_from_slice(&0x0001u16.to_be_bytes());
    resp[22..24].copy_from_slice(&8u16.to_be_bytes());
    resp[24] = 0x00;
    resp[25] = 0x01;
    resp[26..28].copy_from_slice(&[0x12, 0x34]);
    resp[28..32].copy_from_slice(&[223, 5, 5, 5]);

    let parsed = StunIpFetcher::parse_binding_response(&resp, &tx_id).unwrap();
    assert_eq!(parsed, IpAddress::V4(Ipv4::new(223, 5, 5, 5)));
}

#[test]
fn test_normalize_server_addr() {
    assert_eq!(StunIpFetcher::normalize_server_addr("stun.cloudflare.com"), "stun.cloudflare.com:3478");
    assert_eq!(StunIpFetcher::normalize_server_addr("stun.cloudflare.com:19302"), "stun.cloudflare.com:19302");
    assert_eq!(StunIpFetcher::normalize_server_addr("1.1.1.1"), "1.1.1.1:3478");
    assert_eq!(StunIpFetcher::normalize_server_addr("[2400:cb00::1]:3478"), "[2400:cb00::1]:3478");
}
