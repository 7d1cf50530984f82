//! Tencent Cloud API v3 requests (TC3-HMAC-SHA256): the texts that are hashed and
//! signed, the signature, the headers that carry it, and the reading of the reply.
use vstd::prelude::*;
use crate::cloudflare::{header_value_ok, is_header_value};
use crate::crypto::{hmac256, hmac_sha256, lower_hex, sha256, sha256_hex, hex_encode};
use crate::providers::{DnsProviderError, HttpMethod, HttpReply, HttpRequest};
use crate::notify::{signed_decimal_text, signed_text};
use crate::text::{append_str, chars_of, lower, lower_chars, string_of};
use crate::urlencode::pair_views;

verus! {

broadcast use vstd::string::group_string_axioms;

/// Where an API lives: its host, service name and version.
#[derive(Debug, Clone, Copy)]
pub struct Tc3ApiEndpoint {
    pub host: &'static str,
    pub service: &'static str,
    pub version: &'static str,
}

impl Tc3ApiEndpoint {
    /// The DNSPod API.
    pub fn dnspod() -> (r: Self)
        ensures
            r.host@ == "dnspod.tencentcloudapi.com"@,
            r.service@ == "dnspod"@,
            r.version@ == "2021-03-23"@,
    {
        Tc3ApiEndpoint { host: "dnspod.tencentcloudapi.com", service: "dnspod", version: "2021-03-23" }
    }

    /// The EdgeOne API.
    pub fn edgeone() -> (r: Self)
        ensures
            r.host@ == "teo.tencentcloudapi.com"@,
            r.service@ == "teo"@,
            r.version@ == "2022-09-01"@,
    {
        Tc3ApiEndpoint { host: "teo.tencentcloudapi.com", service: "teo", version: "2022-09-01" }
    }
}

/// The headers that are signed, in order.
pub open spec fn tc3_signed_headers() -> Seq<char> {
    "content-type;host;x-tc-action;x-tc-timestamp"@
}

/// The canonical request: method, path, empty query, the signed headers with their values
/// (the action in lower case), their names, and the hash of the payload.
pub open spec fn tc3_canonical_request(host: Seq<char>, action: Seq<char>, timestamp: int, hashed_payload: Seq<char>)
    -> Seq<char> {
    "POST\n/\n\n"@ + "content-type:application/json; charset=utf-8\nhost:"@ + host + "\nx-tc-action:"@ + lower(action)
        + "\nx-tc-timestamp:"@ + signed_text(timestamp) + "\n"@ + "\n"@ + tc3_signed_headers() + "\n"@ + hashed_payload
}

/// The credential scope: date, service, `tc3_request`.
pub open spec fn tc3_scope(date: Seq<char>, service: Seq<char>) -> Seq<char> {
    date + "/"@ + service + "/tc3_request"@
}

/// The text that is signed.
pub open spec fn tc3_string_to_sign(timestamp: int, scope: Seq<char>, hashed_request: Seq<char>) -> Seq<char> {
    "TC3-HMAC-SHA256\n"@ + signed_text(timestamp) + "\n"@ + scope + "\n"@ + hashed_request
}

/// The Authorization value.
pub open spec fn tc3_authorization(secret_id: Seq<char>, scope: Seq<char>, signature: Seq<char>) -> Seq<char> {
    "TC3-HMAC-SHA256 Credential="@ + secret_id + "/"@ + scope + ", SignedHeaders="@ + tc3_signed_headers()
        + ", Signature="@ + signature
}

/// A header where its value is valid, else nothing.
pub open spec fn header_if_ok(name: Seq<char>, value: Seq<char>) -> Seq<(Seq<char>, Seq<char>)> {
    if header_value_ok(value) { seq![(name, value)] } else { Seq::empty() }
}

/// The request headers: JSON type, then host, action, version, time and authorization,
/// each where its value is valid.
pub open spec fn tc3_headers(host: Seq<char>, action: Seq<char>, version: Seq<char>, timestamp: int, auth: Seq<char>)
    -> Seq<(Seq<char>, Seq<char>)> {
    seq![("Content-Type"@, "application/json; charset=utf-8"@)]
        + header_if_ok("Host"@, host)
        + header_if_ok("X-TC-Action"@, action)
        + header_if_ok("X-TC-Version"@, version)
        + header_if_ok("X-TC-Timestamp"@, signed_text(timestamp))
        + header_if_ok("Authorization"@, auth)
}

/// The canonical request of a call (see `tc3_canonical_request`).
pub fn canonical_request(endpoint: &Tc3ApiEndpoint, action: &str, timestamp: i64, hashed_payload: &str) -> (r: String)
    ensures r@ == tc3_canonical_request(endpoint.host@, action@, timestamp as int, hashed_payload@),
{
    let mut v: Vec<char> = Vec::new();
    append_str(&mut v, "POST\n/\n\n");
    append_str(&mut v, "content-type:application/json; charset=utf-8\nhost:");
    append_str(&mut v, endpoint.host);
    append_str(&mut v, "\nx-tc-action:");
    crate::text::append_chars(&mut v, lower_chars(chars_of(action).as_slice()).as_slice());
    append_str(&mut v, "\nx-tc-timestamp:");
    append_str(&mut v, signed_decimal_text(timestamp).as_str());
    append_str(&mut v, "\n");
    append_str(&mut v, "\n");
    append_str(&mut v, "content-type;host;x-tc-action;x-tc-timestamp");
    append_str(&mut v, "\n");
    append_str(&mut v, hashed_payload);
    string_of(v.as_slice())
}

/// The credential scope of a call on `date` (`YYYY-MM-DD`).
pub fn credential_scope(date: &str, endpoint: &Tc3ApiEndpoint) -> (r: String)
    ensures r@ == tc3_scope(date@, endpoint.service@),
{
    let mut v: Vec<char> = Vec::new();
    append_str(&mut v, date);
    append_str(&mut v, "/");
    append_str(&mut v, endpoint.service);
    append_str(&mut v, "/tc3_request");
    string_of(v.as_slice())
}

/// The text to sign.
pub fn string_to_sign(timestamp: i64, scope: &str, hashed_request: &str) -> (r: String)
    ensures r@ == tc3_string_to_sign(timestamp as int, scope@, hashed_request@),
{
    let mut v: Vec<char> = Vec::new();
    append_str(&mut v, "TC3-HMAC-SHA256\n");
    append_str(&mut v, signed_decimal_text(timestamp).as_str());
    append_str(&mut v, "\n");
    append_str(&mut v, scope);
    append_str(&mut v, "\n");
    append_str(&mut v, hashed_request);
    string_of(v.as_slice())
}

/// The Authorization value for a signature.
pub fn authorization(secret_id: &str, scope: &str, signature: &str) -> (r: String)
    ensures r@ == tc3_authorization(secret_id@, scope@, signature@),
{
    let mut v: Vec<char> = Vec::new();
    append_str(&mut v, "TC3-HMAC-SHA256 Credential=");
    append_str(&mut v, secret_id);
    append_str(&mut v, "/");
    append_str(&mut v, scope);
    append_str(&mut v, ", SignedHeaders=");
    append_str(&mut v, "content-type;host;x-tc-action;x-tc-timestamp");
    append_str(&mut v, ", Signature=");
    append_str(&mut v, signature);
    string_of(v.as_slice())
}

fn push_if_ok(h: &mut Vec<(String, String)>, name: &str, value: String)
    ensures pair_views(final(h)@) == pair_views(old(h)@) + header_if_ok(name@, value@),
{
    let vc = chars_of(value.as_str());
    if is_header_value(vc.as_slice()) {
        h.push((name.to_string(), value));
        assert(pair_views(final(h)@) =~= pair_views(old(h)@) + header_if_ok(name@, vc@));
    } else {
        assert(pair_views(final(h)@) =~= pair_views(old(h)@) + header_if_ok(name@, vc@));
    }
}

/// The headers of a call (see `tc3_headers`).
pub fn request_headers(endpoint: &Tc3ApiEndpoint, action: &str, timestamp: i64, auth: &str) -> (r: Vec<(String, String)>)
    ensures pair_views(r@) == tc3_headers(endpoint.host@, action@, endpoint.version@, timestamp as int, auth@),
{
    let mut h: Vec<(String, String)> = Vec::new();
    h.push(("Content-Type".to_string(), "application/json; charset=utf-8".to_string()));
    push_if_ok(&mut h, "Host", endpoint.host.to_string());
    push_if_ok(&mut h, "X-TC-Action", action.to_string());
    push_if_ok(&mut h, "X-TC-Version", endpoint.version.to_string());
    push_if_ok(&mut h, "X-TC-Timestamp", signed_decimal_text(timestamp));
    push_if_ok(&mut h, "Authorization", auth.to_string());
    h
}

/// The UTF-8 bytes of a text.
pub open spec fn utf8(s: Seq<char>) -> Seq<u8> {
    vstd::utf8::encode_utf8(s)
}

/// The signature: the key `TC3` + secret, HMAC-SHA-256'd in turn with the date, the
/// service and `tc3_request`, then used on the text to sign; lower-case hexadecimal.
pub open spec fn tc3_signature(secret_key: Seq<char>, date: Seq<char>, service: Seq<char>, sts: Seq<char>) -> Seq<char> {
    let k_date = hmac256(utf8("TC3"@ + secret_key), utf8(date));
    let k_service = hmac256(k_date, utf8(service));
    let k_signing = hmac256(k_service, utf8("tc3_request"@));
    lower_hex(hmac256(k_signing, utf8(sts)))
}

/// TC3-HMAC-SHA256 derives its signing key in four steps, each an HMAC-SHA-256 keyed with
/// the previous result: `"TC3"` + secret key over the date, then over the service name, then
/// over `tc3_request`; the signature is that key over the text to sign, in lower-case hex.
pub proof fn law_tc3_signing_key_chain(secret_key: Seq<char>, date: Seq<char>, service: Seq<char>, sts: Seq<char>)
    ensures
        ({
            let k_date = hmac256(utf8("TC3"@ + secret_key), utf8(date));
            let k_service = hmac256(k_date, utf8(service));
            let k_signing = hmac256(k_service, utf8("tc3_request"@));
            tc3_signature(secret_key, date, service, sts) == lower_hex(hmac256(k_signing, utf8(sts)))
        }),
{
}

/// The Authorization value of a call at `timestamp` (seconds) on `date` (`YYYY-MM-DD`, UTC)
/// with JSON text `payload`.
#[verifier::opaque]
pub open spec fn tc3_auth(secret_id: Seq<char>, secret_key: Seq<char>, host: Seq<char>, service: Seq<char>,
    action: Seq<char>, timestamp: int, date: Seq<char>, payload: Seq<char>) -> Seq<char> {
    let scope = tc3_scope(date, service);
    let creq = tc3_canonical_request(host, action, timestamp, lower_hex(sha256(utf8(payload))));
    let sts = tc3_string_to_sign(timestamp, scope, lower_hex(sha256(utf8(creq))));
    tc3_authorization(secret_id, scope, tc3_signature(secret_key, date, service, sts))
}

/// `req` is the signed call of `action` with body `payload`.
pub open spec fn is_tc3_request(req: HttpRequest, secret_id: Seq<char>, secret_key: Seq<char>, host: Seq<char>,
    service: Seq<char>, version: Seq<char>, action: Seq<char>, payload: Seq<char>, timestamp: int, date: Seq<char>) -> bool {
    &&& req.method == HttpMethod::Post
    &&& req.url@ == "https://"@ + host
    &&& pair_views(req.headers@) == tc3_headers(host, action, version, timestamp,
        tc3_auth(secret_id, secret_key, host, service, action, timestamp, date, payload))
    &&& (req.body matches Some(b) && b@ == payload)
}

/// The signature of a text to sign.
pub fn signature(secret_key: &str, date: &str, service: &str, sts: &str) -> (r: String)
    ensures
        r@ == tc3_signature(secret_key@, date@, service@, sts@),
        r@ == lower_hex(hmac256(hmac256(hmac256(hmac256(utf8("TC3"@ + secret_key@), utf8(date@)), utf8(service@)),
            utf8("tc3_request"@)), utf8(sts@))),
{
    let key = crate::providers::with_prefix("TC3", secret_key);
    let k_date = hmac_sha256(key.as_str().as_bytes(), date.as_bytes());
    let k_service = hmac_sha256(k_date.as_slice(), service.as_bytes());
    let k_signing = hmac_sha256(k_service.as_slice(), "tc3_request".as_bytes());
    let sig = hmac_sha256(k_signing.as_slice(), sts.as_bytes());
    hex_encode(sig.as_slice())
}

/// The signed call of `action` with JSON text `payload`, at `timestamp` on `date`.
pub fn tc3_request(secret_id: &str, secret_key: &str, endpoint: &Tc3ApiEndpoint, action: &str, payload: String,
    timestamp: i64, date: &str) -> (r: HttpRequest)
    ensures is_tc3_request(r, secret_id@, secret_key@, endpoint.host@, endpoint.service@, endpoint.version@, action@, payload@,
        timestamp as int, date@),
{
    let hashed_payload = sha256_hex(payload.as_str().as_bytes());
    let creq = canonical_request(endpoint, action, timestamp, hashed_payload.as_str());
    let scope = credential_scope(date, endpoint);
    let hashed_request = sha256_hex(creq.as_str().as_bytes());
    let sts = string_to_sign(timestamp, scope.as_str(), hashed_request.as_str());
    let sig = signature(secret_key, date, endpoint.service, sts.as_str());
    let auth = authorization(secret_id, scope.as_str(), sig.as_str());
    proof { reveal(tc3_auth); }
    let headers = request_headers(endpoint, action, timestamp, auth.as_str());
    let url = crate::providers::with_prefix("https://", endpoint.host);
    HttpRequest { method: HttpMethod::Post, url, headers, body: Some(payload) }
}

/// The `Error` of a reply.
#[derive(Debug, Clone)]
pub struct Tc3ApiError {
    pub code: String,
    pub message: String,
}

/// The `Response` of a reply: an error, or the data of the call.
#[derive(Debug, Clone)]
pub struct Tc3Response<T> {
    pub error: Option<Tc3ApiError>,
    pub data: Option<T>,
}

/// The data of a call's reply, where it is a success that names no error and carries data.
pub open spec fn reply_data<T>(reply: HttpReply, parsed: Result<Tc3Response<T>, String>) -> Option<T> {
    if !reply.success {
        None
    } else {
        match parsed {
            Err(_) => None,
            Ok(resp) => match resp.error { Some(_) => None, None => resp.data },
        }
    }
}

/// `e` is the error of a reply without data: the status and body of a refusal, the
/// parser's message, the error the reply names, or the missing data.
pub open spec fn reply_error_is<T>(e: DnsProviderError, reply: HttpReply, parsed: Result<Tc3Response<T>, String>) -> bool {
    if !reply.success {
        e == DnsProviderError::ApiError { code: reply.status, message: reply.body }
    } else {
        match parsed {
            Err(m) => e == DnsProviderError::Json(m),
            Ok(resp) => match resp.error {
                Some(err) => e == DnsProviderError::ApiError { code: err.code, message: err.message },
                None => e matches DnsProviderError::Other(m) && m@ == "腾讯云 API 响应缺少数据实体"@,
            },
        }
    }
}

/// Reads the reply of a call: a refusal gives the status and the body, a reply that is
/// not the expected JSON its parser's message, the error the reply names, a reply without
/// data an error; otherwise the data.
pub fn read_reply<T>(reply: &HttpReply, parsed: Result<Tc3Response<T>, String>) -> (r: Result<T, DnsProviderError>)
    ensures
        !reply.success ==> r == Err::<T, DnsProviderError>(DnsProviderError::ApiError {
            code: reply.status, message: reply.body }),
        reply.success ==> match parsed {
            Err(e) => r == Err::<T, DnsProviderError>(DnsProviderError::Json(e)),
            Ok(resp) => match resp.error {
                Some(err) => r == Err::<T, DnsProviderError>(DnsProviderError::ApiError { code: err.code, message: err.message }),
                None => match resp.data {
                    Some(d) => r == Ok::<T, DnsProviderError>(d),
                    None => r matches Err(DnsProviderError::Other(m)) && m@ == "腾讯云 API 响应缺少数据实体"@,
                },
            },
        },
        match reply_data(*reply, parsed) {
            Some(d) => r == Ok::<T, DnsProviderError>(d),
            None => r matches Err(e) && reply_error_is(e, *reply, parsed),
        },
{
    if !reply.success {
        return Err(DnsProviderError::ApiError { code: reply.status.clone(), message: reply.body.clone() });
    }
    let resp = match parsed {
        Err(e) => { return Err(DnsProviderError::Json(e)); },
        Ok(x) => x,
    };
    match resp.error {
        Some(err) => Err(DnsProviderError::ApiError { code: err.code, message: err.message }),
        None => match resp.data {
            Some(d) => Ok(d),
            None => Err(DnsProviderError::Other("腾讯云 API 响应缺少数据实体".to_string())),
        },
    }
}

} // verus!
