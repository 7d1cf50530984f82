use rddns::crypto::{hex_encode, hmac_sha1, hmac_sha1_base64, hmac_sha256, hmac_sha256_hex, pad_message, sha1_digest,
    sha256_digest, sha256_hex};
use rddns::pop::{canonical_query_of, chars_lt, insert_param, pop_sign, pop_url_encode};

#[test]
fn sha256_known_vectors() {
    assert_eq!(sha256_hex(b"abc"), "ba7816bf8f01cfea414140de5dae2223b00361a396177a9cb410ff61f20015ad");
    assert_eq!(sha256_hex(b""), "e3b0c44298fc1c149afbf4c8996fb92427ae41e4649b934ca495991b7852b855");
    assert_eq!(
        sha256_hex(b"abcdbcdecdefdefgefghfghighijhijkijkljklmklmnlmnomnopnopq"),
        "248d6a61d20638b8e5c026930c3e6039a33ce45964ff2167f6ecedd419db06c1"
    );
    assert_eq!(sha256_digest(b"abc").len(), 32);
}

#[test]
fn sha1_known_vectors() {
    assert_eq!(hex_encode(&sha1_digest(b"abc")), "a9993e364706816aba3e25717850c26c9cd0d89d");
    assert_eq!(hex_encode(&sha1_digest(b"")), "da39a3ee5e6b4b0d3255bfef95601890afd80709");
}

#[test]
fn padding_fills_whole_blocks() {
    assert_eq!(pad_message(b"abc").len(), 64);
    assert_eq!(pad_message(&[0u8; 55]).len(), 64);
    assert_eq!(pad_message(&[0u8; 56]).len(), 128);
    let p = pad_message(b"abc");
    assert_eq!(p[3], 0x80);
    assert_eq!(p[63], 24);
}

#[test]
fn hmac_sha256_rfc4231() {
    assert_eq!(
        hmac_sha256_hex(&[0x0b; 20], b"Hi There"),
        "b0344c61d8db38535ca8afceaf0bf12b881dc200c9833da726e9376c2e32cff7"
    );
    assert_eq!(
        hmac_sha256_hex(b"Jefe", b"what do ya want for nothing?"),
        "5bdcc146bf60754e6a042426089575c75a003f089d2739839dec58b964ec3843"
    );
    assert_eq!(
        hex_encode(&hmac_sha256(&[0xaa; 131], b"Test Using Larger Than Block-Size Key - Hash Key First")),
        "60e431591ee0b67f0d8a26aacbf5b77f8e0bc6213728c5140546040f0ee37f54"
    );
}

#[test]
fn hmac_sha1_rfc2202() {
    assert_eq!(hex_encode(&hmac_sha1(b"Jefe", b"what do ya want for nothing?")), "effcdf6ae5eb2fa2d27416d5f184df9c259a7c79");
    assert_eq!(hmac_sha1_base64(b"Jefe", b"what do ya want for nothing?"), "7/zfauXrL6LSdBbV8YTfnCWafHk=");
}

#[test]
fn hex_is_lower_case_two_digits_per_byte() {
    assert_eq!(hex_encode(&[0x00, 0x0f, 0xab, 0xff]), "000fabff");
    assert_eq!(hex_encode(&[]), "");
}

#[test]
fn pop_encoding_keeps_only_unreserved() {
    assert_eq!(pop_url_encode("a b*~/-_."), "a%20b%2A~%2F-_.");
    assert_eq!(pop_url_encode("2016-02-23T12:46:24Z"), "2016-02-23T12%3A46%3A24Z");
    assert_eq!(pop_url_encode("中"), "%E4%B8%AD");
}

#[test]
fn params_stay_sorted_and_replace() {
    assert!(chars_lt(&['A', 'b'], &['a']));
    assert!(chars_lt(&['a'], &['a', 'b']));
    assert!(!chars_lt(&['b'], &['a', 'z']));
    let mut p: Vec<(String, String)> = Vec::new();
    p = insert_param(&p, "Version", "1");
    p = insert_param(&p, "Action", "X");
    p = insert_param(&p, "Format", "JSON");
    p = insert_param(&p, "Action", "Y");
    let names: Vec<&str> = p.iter().map(|x| x.0.as_str()).collect();
    assert_eq!(names, vec!["Action", "Format", "Version"]);
    assert_eq!(p[0].1, "Y");
    assert_eq!(canonical_query_of(&p), "Action=Y&Format=JSON&Version=1");
}

#[test]
fn pop_signature_of_the_documented_example() {
    let mut p: Vec<(String, String)> = Vec::new();
    for (k, v) in [
        ("AccessKeyId", "testid"),
        ("Action", "DescribeRegions"),
        ("Format", "XML"),
        ("SignatureMethod", "HMAC-SHA1"),
        ("SignatureNonce", "3ee8c1b8-83d3-44af-a94f-4e0ad82fd6cf"),
        ("SignatureVersion", "1.0"),
        ("Timestamp", "2016-02-23T12:46:24Z"),
        ("Version", "2014-05-26"),
    ] {
        p = insert_param(&p, k, v);
    }
    let q = canonical_query_of(&p);
    assert_eq!(pop_sign("GET", "testsecret", &q), "OLeaidS1JvxuMvnyHOwuJ+uX5qY=");
}
