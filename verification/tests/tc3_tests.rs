use rddns::tc3::{authorization, canonical_request, credential_scope, request_headers, string_to_sign, Tc3ApiEndpoint};

#[test]
fn tc3_texts_for_dnspod() {
    let ep = Tc3ApiEndpoint::dnspod();
    assert_eq!(ep.version, "2021-03-23");
    let canonical = canonical_request(&ep, "DescribeRecordList", 1714536000, "abc123");
    assert_eq!(
        canonical,
        "POST\n/\n\ncontent-type:application/json; charset=utf-8\nhost:dnspod.tencentcloudapi.com\nx-tc-action:describerecordlist\nx-tc-timestamp:1714536000\n\ncontent-type;host;x-tc-action;x-tc-timestamp\nabc123"
    );
    let scope = credential_scope("2024-05-01", &ep);
    assert_eq!(scope, "2024-05-01/dnspod/tc3_request");
    assert_eq!(
        string_to_sign(1714536000, &scope, "ffee"),
        "TC3-HMAC-SHA256\n1714536000\n2024-05-01/dnspod/tc3_request\nffee"
    );
    let auth = authorization("AKID", &scope, "5151");
    assert_eq!(
        auth,
        "TC3-HMAC-SHA256 Credential=AKID/2024-05-01/dnspod/tc3_request, SignedHeaders=content-type;host;x-tc-action;x-tc-timestamp, Signature=5151"
    );
    let h = request_headers(&Tc3ApiEndpoint::edgeone(), "ModifyOriginGroup", 7, &auth);
    assert_eq!(h.len(), 6);
    assert_eq!(h[1], ("Host".to_string(), "teo.tencentcloudapi.com".to_string()));
    assert_eq!(h[4], ("X-TC-Timestamp".to_string(), "7".to_string()));
    let bad = request_headers(&ep, "Bad\nAction", 7, &auth);
    assert_eq!(bad.len(), 5);
}
