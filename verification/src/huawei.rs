//! Huawei Cloud DNS: find the record set of the name and type and update it, or find the
//! zone and create one; requests are signed with SDK-HMAC-SHA256.
use vstd::prelude::*;
use crate::crypto::{hmac256, hmac_sha256_hex, lower_hex, sha256, sha256_hex};
use crate::cloudflare::{header_value_ok, is_header_value};
use crate::domain::{ParsedDomain, full_name};
use crate::engine::{IpAddress, ip_text};
use crate::json::{Json, JsonValue, deep, deep_members, deep_seq, push_item, push_member, render};
use crate::pop::text_lt;
use crate::providers::{DnsProviderError, HttpMethod, HttpReply, HttpRequest, SyncStep, query_string, with_prefix, with_query};
use crate::records::{DnsRecordType, SyncRecordResult, SyncStatus, record_type_name, unchanged_message, updated_message};
use crate::tc3::utf8;
use crate::text::{append_str, chars_of, eq_exact, eq_ignore_case, lower, string_of, trim, trim_chars, trim_end, trim_end_chars};
use crate::urlencode::pair_views;

verus! {

broadcast use vstd::string::group_string_axioms;

/// What `url::Url::parse` gives for a text: the host (`host_str`, `None` where the URL
/// has none), or the text of the parse error.
pub uninterp spec fn url_host(s: Seq<char>) -> Result<Option<Seq<char>>, Seq<char>>;

/// Calls `url::Url::parse` on `s` and takes the URL's `host_str`, or the error's text.
/// The contract names the result (`url_host`); it states nothing of URL syntax.
#[verifier::external_body]
fn parse_url_host(s: &str) -> (r: Result<Option<String>, String>)
    ensures
        url_host(s@) == match r {
            Ok(Some(h)) => Ok::<Option<Seq<char>>, Seq<char>>(Some(h@)),
            Ok(None) => Ok::<Option<Seq<char>>, Seq<char>>(None),
            Err(e) => Err::<Option<Seq<char>>, Seq<char>>(e@),
        },
{
    match url::Url::parse(s) {
        Ok(u) => match u.host_str() {
            Some(h) => Ok(Some(h.to_string())),
            None => Ok(None),
        },
        Err(e) => Err(e.to_string()),
    }
}

/// Huawei Cloud credentials and endpoint.
pub struct HuaweiDnsProvider {
    pub ak: String,
    pub sk: String,
    pub endpoint: String,
}

/// A zone as `/v2.1/zones` lists it.
#[derive(Debug, Clone)]
pub struct HwZoneItem {
    pub id: String,
    pub name: String,
}

/// A record set as `/v2.1/recordsets` lists it.
#[derive(Debug, Clone)]
pub struct HwRecordsetItem {
    pub id: String,
    pub name: String,
    pub zone_id: Option<String>,
    pub record_type: String,
    pub records: Option<Vec<String>>,
}

/// The error body of a refused request.
#[derive(Debug, Clone)]
pub struct HwErrorResponse {
    pub code: Option<String>,
    pub message: Option<String>,
}

/// Where a Huawei synchronisation stands.
#[derive(Debug, Clone, Copy, PartialEq, Eq, Structural)]
pub enum HwState {
    /// The record sets were asked for.
    Lookup,
    /// The record set was updated.
    Update,
    /// The zones were asked for.
    Zones,
    /// A record set was created.
    Create,
}

/// The endpoint: the configured one trimmed and without trailing slashes, else the default.
pub open spec fn hw_endpoint(endpoint: Option<String>) -> Seq<char> {
    let e: Seq<char> = match endpoint { Some(s) => trim_end(trim(s@), '/'), None => Seq::empty() };
    if e.len() == 0 { "https://dns.myhuaweicloud.com"@ } else { e }
}

/// The host that is signed: the endpoint URL's host, the default host where it has none.
pub open spec fn hw_host(endpoint: Seq<char>) -> Result<Seq<char>, Seq<char>> {
    match url_host(endpoint) {
        Ok(Some(h)) => Ok(h),
        Ok(None) => Ok("dns.myhuaweicloud.com"@),
        Err(e) => Err(e),
    }
}

/// `s` with `p` put after every pair whose name is not after `p`'s (one step of a stable
/// sort by name).
pub open spec fn sort_insert(s: Seq<(Seq<char>, Seq<char>)>, p: (Seq<char>, Seq<char>)) -> Seq<(Seq<char>, Seq<char>)>
    decreases s.len(),
{
    if s.len() == 0 {
        seq![p]
    } else if text_lt(p.0, s[0].0) {
        seq![p] + s
    } else {
        seq![s[0]] + sort_insert(s.drop_first(), p)
    }
}

/// The pairs stably sorted by name.
pub open spec fn sorted_by_name(s: Seq<(Seq<char>, Seq<char>)>) -> Seq<(Seq<char>, Seq<char>)>
    decreases s.len(),
{
    if s.len() == 0 { s } else { sort_insert(sorted_by_name(s.drop_last()), s.last()) }
}

/// The signed headers.
pub open spec fn hw_signed_headers() -> Seq<char> {
    "host;x-sdk-content-sha256;x-sdk-date"@
}

/// The method's name.
pub open spec fn method_name(m: HttpMethod) -> Seq<char> {
    match m {
        HttpMethod::Get => "GET"@,
        HttpMethod::Post => "POST"@,
        HttpMethod::Put => "PUT"@,
        HttpMethod::Patch => "PATCH"@,
        HttpMethod::Delete => "DELETE"@,
    }
}

/// The canonical request.
pub open spec fn hw_canonical_request(method: HttpMethod, path: Seq<char>, query: Seq<char>, host: Seq<char>,
    body_hash: Seq<char>, date: Seq<char>) -> Seq<char> {
    method_name(method) + "\n"@ + path + "\n"@ + query + "\n"@ + "host:"@ + host + "\nx-sdk-content-sha256:"@ + body_hash
        + "\nx-sdk-date:"@ + date + "\n"@ + "\n"@ + hw_signed_headers() + "\n"@ + body_hash
}

/// The Authorization value of a request at `date` (`%Y%m%dT%H%M%SZ`, UTC).
#[verifier::opaque]
pub open spec fn hw_auth(ak: Seq<char>, sk: Seq<char>, method: HttpMethod, path: Seq<char>, query: Seq<char>, host: Seq<char>,
    body: Seq<char>, date: Seq<char>) -> Seq<char> {
    let body_hash = lower_hex(sha256(utf8(body)));
    let creq = hw_canonical_request(method, path, query, host, body_hash, date);
    let sts = "SDK-HMAC-SHA256\n"@ + date + "\n"@ + lower_hex(sha256(utf8(creq)));
    "SDK-HMAC-SHA256 Access="@ + ak + ", SignedHeaders="@ + hw_signed_headers() + ", Signature="@
        + lower_hex(hmac256(utf8(sk), utf8(sts)))
}

/// A header where its value is valid, else nothing.
pub open spec fn header_if(name: Seq<char>, value: Seq<char>) -> Seq<(Seq<char>, Seq<char>)> {
    if header_value_ok(value) { seq![(name, value)] } else { Seq::empty() }
}

/// The request headers.
pub open spec fn hw_headers(host: Seq<char>, date: Seq<char>, body_hash: Seq<char>, auth: Seq<char>)
    -> Seq<(Seq<char>, Seq<char>)> {
    header_if("Host"@, host) + header_if("x-sdk-date"@, date) + header_if("x-sdk-content-sha256"@, body_hash)
        + header_if("authorization"@, auth) + seq![("Content-Type"@, "application/json;charset=utf-8"@)]
}

/// The TTL sent: the given one or 300, at least 1.
pub open spec fn hw_ttl(ttl: Option<u32>) -> int {
    let t: int = match ttl { Some(v) => v as int, None => 300 };
    if t < 1 { 1 } else { t }
}

/// The first record set of the dotted name and the type.
pub open spec fn set_match(sets: Seq<HwRecordsetItem>, name: Seq<char>, t: DnsRecordType) -> Option<int>
    decreases sets.len(),
{
    if sets.len() == 0 {
        None
    } else {
        match set_match(sets.drop_last(), name, t) {
            Some(i) => Some(i),
            None => if lower(sets.last().name@) == lower(name) && lower(sets.last().record_type@) == lower(record_type_name(t)) {
                Some(sets.len() - 1)
            } else {
                None
            },
        }
    }
}

/// The first zone of the dotted root name.
pub open spec fn hw_zone_match(zones: Seq<HwZoneItem>, name: Seq<char>) -> Option<int>
    decreases zones.len(),
{
    if zones.len() == 0 {
        None
    } else {
        match hw_zone_match(zones.drop_last(), name) {
            Some(i) => Some(i),
            None => if lower(zones.last().name@) == lower(name) { Some(zones.len() - 1) } else { None },
        }
    }
}

/// The record set holds exactly the address.
pub open spec fn holds_only(records: Option<Vec<String>>, ip: Seq<char>) -> bool {
    match records { Some(v) => v@.len() == 1 && v@[0]@ == ip, None => false }
}

/// The update body.
pub open spec fn update_body(ip: Seq<char>, ttl: Option<u32>) -> Json {
    Json::Object(seq![("records"@, Json::Array(seq![Json::Str(ip)])), ("ttl"@, Json::Int(hw_ttl(ttl)))])
}

/// The creation body.
pub open spec fn create_body(name: Seq<char>, t: DnsRecordType, ip: Seq<char>, ttl: Option<u32>) -> Json {
    Json::Object(seq![("name"@, Json::Str(name)), ("records"@, Json::Array(seq![Json::Str(ip)])),
        ("ttl"@, Json::Int(hw_ttl(ttl))), ("type"@, Json::Str(record_type_name(t)))])
}

/// `e` is the error of a refused request: the body's code (or the status) and message
/// (or the body) where the body is the error JSON, otherwise the status and the body.
pub open spec fn hw_error_is(e: DnsProviderError, reply: HttpReply, error: Option<HwErrorResponse>) -> bool {
    e matches DnsProviderError::ApiError { code, message } && match error {
        Some(x) => code@ == (match x.code { Some(c) => c@, None => reply.status@ })
            && message@ == (match x.message { Some(m) => m@, None => reply.body@ }),
        None => code@ == reply.status@ && message@ == reply.body@,
    }
}

proof fn lemma_sort_insert_skip(s: Seq<(Seq<char>, Seq<char>)>, p: (Seq<char>, Seq<char>), i: int)
    requires 0 <= i < s.len(), !text_lt(p.0, s[i].0),
    ensures sort_insert(s.skip(i), p) == seq![s[i]] + sort_insert(s.skip(i + 1), p),
{
    assert(s.skip(i).drop_first() =~= s.skip(i + 1));
    assert(s.skip(i)[0] == s[i]);
}

/// Puts `(k, val)` after every pair whose name is not after `k` (see `sort_insert`).
pub fn sorted_insert(v: &Vec<(String, String)>, k: &str, val: &str) -> (r: Vec<(String, String)>)
    ensures pair_views(r@) == sort_insert(pair_views(v@), (k@, val@)),
{
    let ghost s = pair_views(v@);
    let ghost p = (k@, val@);
    let kc = chars_of(k);
    let n = v.len();
    let mut i: usize = 0;
    let mut stop = false;
    proof {
        assert(s.skip(0) =~= s);
        assert(s.take(0) + sort_insert(s, p) =~= sort_insert(s, p));
    }
    while i < n && !stop
        invariant
            n == v@.len(),
            i <= n,
            s == pair_views(v@),
            kc@ == k@,
            p == (k@, val@),
            sort_insert(s, p) == s.take(i as int) + sort_insert(s.skip(i as int), p),
            stop ==> i < n && text_lt(k@, s[i as int].0),
        decreases n - i + (if stop { 0int } else { 1int }),
    {
        let key = chars_of(v[i].0.as_str());
        if crate::pop::chars_lt(kc.as_slice(), key.as_slice()) {
            stop = true;
        } else {
            proof {
                lemma_sort_insert_skip(s, p, i as int);
                assert(s.take(i + 1) =~= s.take(i as int).push(s[i as int]));
                assert(s.take(i as int) + (seq![s[i as int]] + sort_insert(s.skip(i + 1), p))
                    =~= s.take(i + 1) + sort_insert(s.skip(i + 1), p));
            }
            i = i + 1;
        }
    }
    proof {
        if i == n {
            assert(s.skip(i as int) =~= Seq::<(Seq<char>, Seq<char>)>::empty());
        } else {
            assert(s.skip(i as int)[0] == s[i as int]);
        }
        assert(sort_insert(s.skip(i as int), p) =~= seq![p] + s.skip(i as int));
    }
    let mut r: Vec<(String, String)> = Vec::new();
    let mut j: usize = 0;
    while j < n
        invariant
            j <= n,
            i <= n,
            n == v@.len(),
            s == pair_views(v@),
            p == (k@, val@),
            pair_views(r@) == (if j <= i { s.take(j as int) } else { s.take(i as int).push(p) + s.subrange(i as int, j as int) }),
        decreases n - j,
    {
        if j == i {
            let ghost before = r@;
            r.push((k.to_string(), val.to_string()));
            proof {
                crate::pop::lemma_pair_views_push(before, r@.last());
                assert(before.push(r@.last()) =~= r@);
            }
        }
        let ghost before = r@;
        r.push((v[j].0.clone(), v[j].1.clone()));
        proof {
            crate::pop::lemma_pair_views_push(before, r@.last());
            assert(before.push(r@.last()) =~= r@);
            if j + 1 <= i {
                assert(s.take(j + 1) =~= s.take(j as int).push(s[j as int]));
            } else if j == i {
                assert(s.subrange(i as int, j + 1) =~= seq![s[j as int]]);
                assert(s.take(i as int).push(p) + s.subrange(i as int, j + 1) =~= s.take(j as int).push(p).push(s[j as int]));
            } else {
                assert(s.take(i as int).push(p) + s.subrange(i as int, j + 1)
                    =~= (s.take(i as int).push(p) + s.subrange(i as int, j as int)).push(s[j as int]));
            }
        }
        j = j + 1;
    }
    if i == n {
        let ghost before = r@;
        r.push((k.to_string(), val.to_string()));
        proof {
            crate::pop::lemma_pair_views_push(before, r@.last());
            assert(before.push(r@.last()) =~= r@);
            assert(s.take(n as int) =~= s);
        }
    }
    proof {
        assert(s.subrange(i as int, n as int) =~= s.skip(i as int));
        assert(pair_views(r@) =~= s.take(i as int) + (seq![p] + s.skip(i as int)));
    }
    r
}

/// Sorts pairs stably by name.
pub fn sort_pairs(v: &Vec<(String, String)>) -> (r: Vec<(String, String)>)
    ensures pair_views(r@) == sorted_by_name(pair_views(v@)),
{
    let mut r: Vec<(String, String)> = Vec::new();
    let mut i: usize = 0;
    assert(pair_views(v@).take(0) =~= Seq::<(Seq<char>, Seq<char>)>::empty());
    assert(pair_views(r@) =~= Seq::<(Seq<char>, Seq<char>)>::empty());
    while i < v.len()
        invariant
            i <= v@.len(),
            pair_views(r@) == sorted_by_name(pair_views(v@).take(i as int)),
        decreases v@.len() - i,
    {
        let next = sorted_insert(&r, v[i].0.as_str(), v[i].1.as_str());
        proof {
            let pv = pair_views(v@);
            assert(pv.take(i + 1).drop_last() =~= pv.take(i as int));
            assert(pv.take(i + 1).last() == pv[i as int]);
        }
        r = next;
        i = i + 1;
    }
    assert(pair_views(v@).take(v@.len() as int) =~= pair_views(v@));
    r
}

pub(crate) fn push_header_if(h: &mut Vec<(String, String)>, name: &str, value: &str)
    ensures pair_views(final(h)@) == pair_views(old(h)@) + header_if(name@, value@),
{
    let vc = chars_of(value);
    if is_header_value(vc.as_slice()) {
        let ghost before = h@;
        h.push((name.to_string(), value.to_string()));
        proof { crate::pop::lemma_pair_views_push(before, h@.last()); }
        assert(pair_views(final(h)@) =~= pair_views(old(h)@) + header_if(name@, value@));
    } else {
        assert(pair_views(final(h)@) =~= pair_views(old(h)@) + header_if(name@, value@));
    }
}

fn method_text(m: HttpMethod) -> (r: &'static str)
    ensures r@ == method_name(m),
{
    match m {
        HttpMethod::Get => "GET",
        HttpMethod::Post => "POST",
        HttpMethod::Put => "PUT",
        HttpMethod::Patch => "PATCH",
        HttpMethod::Delete => "DELETE",
    }
}

fn canonical_request(method: HttpMethod, path: &str, q: &str, host: &str, body_hash: &str, date: &str) -> (r: String)
    ensures r@ == hw_canonical_request(method, path@, q@, host@, body_hash@, date@),
{
    let mut creq: Vec<char> = Vec::new();
    append_str(&mut creq, method_text(method));
    append_str(&mut creq, "\n");
    append_str(&mut creq, path);
    append_str(&mut creq, "\n");
    append_str(&mut creq, q);
    append_str(&mut creq, "\n");
    append_str(&mut creq, "host:");
    append_str(&mut creq, host);
    append_str(&mut creq, "\nx-sdk-content-sha256:");
    append_str(&mut creq, body_hash);
    append_str(&mut creq, "\nx-sdk-date:");
    append_str(&mut creq, date);
    append_str(&mut creq, "\n");
    append_str(&mut creq, "\n");
    append_str(&mut creq, "host;x-sdk-content-sha256;x-sdk-date");
    append_str(&mut creq, "\n");
    append_str(&mut creq, body_hash);
    string_of(creq.as_slice())
}

impl HuaweiDnsProvider {
    /// A provider (see `hw_endpoint` for the endpoint).
    pub fn new(ak: String, sk: String, endpoint: Option<String>) -> (r: Self)
        ensures r.ak == ak, r.sk == sk, r.endpoint@ == hw_endpoint(endpoint),
    {
        let e: Vec<char> = match &endpoint {
            Some(s) => {
                let t = trim_chars(chars_of(s.as_str()).as_slice());
                trim_end_chars(t.as_slice(), '/')
            },
            None => Vec::new(),
        };
        let ep = if e.len() == 0 { "https://dns.myhuaweicloud.com".to_string() } else { string_of(e.as_slice()) };
        HuaweiDnsProvider { ak, sk, endpoint: ep }
    }

    /// `r` is the signed request `method path?query` with body `body` (empty for none),
    /// or the error of an endpoint that is not a URL.
    pub open spec fn is_hw_request(&self, r: Result<HttpRequest, DnsProviderError>, method: HttpMethod, path: Seq<char>,
        query: Seq<(Seq<char>, Seq<char>)>, body: Seq<char>, date: Seq<char>) -> bool {
        match hw_host(self.endpoint@) {
            Err(e) => r matches Err(DnsProviderError::Other(m)) && m@ == "解析 Endpoint URL 失败: "@ + e,
            Ok(host) => r matches Ok(req) && {
                let q = query_string(sorted_by_name(query));
                &&& req.method == method
                &&& req.url@ == self.endpoint@ + path + (if q.len() == 0 { Seq::empty() } else { seq!['?'] + q })
                &&& pair_views(req.headers@) == hw_headers(host, date, lower_hex(sha256(utf8(body))),
                    hw_auth(self.ak@, self.sk@, method, path, q, host, body, date))
                &&& (if body.len() == 0 { req.body is None } else { req.body matches Some(b) && b@ == body })
            },
        }
    }

    fn auth_value(&self, method: HttpMethod, path: &str, q: &str, host: &str, body: &str, body_hash: &str, date: &str)
        -> (r: String)
        requires body_hash@ == lower_hex(sha256(utf8(body@))),
        ensures r@ == hw_auth(self.ak@, self.sk@, method, path@, q@, host@, body@, date@),
    {
        let creq_text = canonical_request(method, path, q, host, body_hash, date);
        let mut sts: Vec<char> = Vec::new();
        append_str(&mut sts, "SDK-HMAC-SHA256\n");
        append_str(&mut sts, date);
        append_str(&mut sts, "\n");
        append_str(&mut sts, sha256_hex(creq_text.as_str().as_bytes()).as_str());
        let sts_text = string_of(sts.as_slice());
        let sig = hmac_sha256_hex(self.sk.as_str().as_bytes(), sts_text.as_str().as_bytes());
        let mut auth: Vec<char> = Vec::new();
        append_str(&mut auth, "SDK-HMAC-SHA256 Access=");
        append_str(&mut auth, self.ak.as_str());
        append_str(&mut auth, ", SignedHeaders=");
        append_str(&mut auth, "host;x-sdk-content-sha256;x-sdk-date");
        append_str(&mut auth, ", Signature=");
        append_str(&mut auth, sig.as_str());
        proof { reveal(hw_auth); }
        string_of(auth.as_slice())
    }

    fn hw_request(&self, method: HttpMethod, path: &str, query: &Vec<(String, String)>, body: String, date: &str)
        -> (r: Result<HttpRequest, DnsProviderError>)
        ensures self.is_hw_request(r, method, path@, pair_views(query@), body@, date@),
    {
        let host: String = match parse_url_host(self.endpoint.as_str()) {
            Err(e) => { return Err(DnsProviderError::Other(with_prefix("解析 Endpoint URL 失败: ", e.as_str()))); },
            Ok(Some(h)) => h,
            Ok(None) => "dns.myhuaweicloud.com".to_string(),
        };
        let body_hash = sha256_hex(body.as_str().as_bytes());
        let sorted = sort_pairs(query);
        let q = with_query("", &sorted);
        proof { reveal_strlit(""); }
        let auth_text = self.auth_value(method, path, q.as_str(), host.as_str(), body.as_str(), body_hash.as_str(), date);
        let mut url: Vec<char> = Vec::new();
        append_str(&mut url, self.endpoint.as_str());
        append_str(&mut url, path);
        if chars_of(q.as_str()).len() > 0 {
            url.push('?');
            append_str(&mut url, q.as_str());
        }
        let mut headers: Vec<(String, String)> = Vec::new();
        push_header_if(&mut headers, "Host", host.as_str());
        push_header_if(&mut headers, "x-sdk-date", date);
        push_header_if(&mut headers, "x-sdk-content-sha256", body_hash.as_str());
        push_header_if(&mut headers, "authorization", auth_text.as_str());
        let ghost before = headers@;
        headers.push(("Content-Type".to_string(), "application/json;charset=utf-8".to_string()));
        proof {
            crate::pop::lemma_pair_views_push(before, headers@.last());
            assert(pair_views(headers@) =~= hw_headers(host@, date@, body_hash@, auth_text@));
        }
        let ghost bv = body@;
        let req_body = if chars_of(body.as_str()).len() == 0 { None } else { Some(body) };
        assert(hw_host(self.endpoint@) == Ok::<Seq<char>, Seq<char>>(host@));
        assert(q@ == query_string(sorted_by_name(pair_views(query@))));
        assert(url@ == self.endpoint@ + path@ + (if q@.len() == 0 { Seq::empty() } else { seq!['?'] + q@ }));
        assert(if bv.len() == 0 { req_body is None } else { req_body matches Some(b) && b@ == bv });
        Ok(HttpRequest { method, url: string_of(url.as_slice()), headers, body: req_body })
    }

    fn refused(reply: &HttpReply, error: Option<HwErrorResponse>) -> (r: DnsProviderError)
        ensures hw_error_is(r, *reply, error),
    {
        match error {
            Some(e) => DnsProviderError::ApiError {
                code: match e.code { Some(c) => c, None => reply.status.clone() },
                message: match e.message { Some(m) => m, None => reply.body.clone() },
            },
            None => DnsProviderError::ApiError { code: reply.status.clone(), message: reply.body.clone() },
        }
    }

    /// The first request: the record sets of the dotted name and the type, at `date`.
    pub fn start(&self, domain: &ParsedDomain, record_type: DnsRecordType, date: &str)
        -> (r: (Result<HttpRequest, DnsProviderError>, HwState))
        ensures
            self.is_hw_request(r.0, HttpMethod::Get, "/v2.1/recordsets"@, seq![("name"@,
                full_name(domain.sub_domain@, domain.root_domain@) + seq!['.']), ("type"@, record_type_name(record_type))],
                Seq::empty(), date@),
            r.1 == HwState::Lookup,
    {
        let full = domain.full_domain();
        let name = with_prefix(full.as_str(), ".");
        let mut q: Vec<(String, String)> = Vec::new();
        q.push(("name".to_string(), name));
        q.push(("type".to_string(), record_type.as_str().to_string()));
        proof {
            reveal_strlit(".");
            assert("."@ =~= seq!['.']);
            assert(pair_views(q@) =~= seq![("name"@, full_name(domain.sub_domain@, domain.root_domain@) + seq!['.']),
                ("type"@, record_type_name(record_type))]);
        }
        let r = self.hw_request(HttpMethod::Get, "/v2.1/recordsets", &q, String::new(), date);
        (r, HwState::Lookup)
    }

    /// The decision on the record sets: an error, the set already holding only the
    /// address, its update (which needs the set's zone), or the zone lookup.
    pub fn on_list(
        &self,
        domain: &ParsedDomain,
        record_type: DnsRecordType,
        ip: &IpAddress,
        ttl: Option<u32>,
        reply: &HttpReply,
        error: Option<HwErrorResponse>,
        listed: Result<Vec<HwRecordsetItem>, String>,
        date: &str,
    ) -> (r: SyncStep<HwState>)
        ensures
            !reply.success ==> (r matches SyncStep::Done(Err(e)) && hw_error_is(e, *reply, error)),
            reply.success ==> match listed {
                Err(e) => r == SyncStep::<HwState>::Done(Err(DnsProviderError::Json(e))),
                Ok(sets) => {
                    let full = full_name(domain.sub_domain@, domain.root_domain@);
                    match set_match(sets@, full + seq!['.'], record_type) {
                        Some(i) => if holds_only(sets@[i].records, ip_text(*ip)) {
                            r matches SyncStep::Done(Ok(res)) && res.is(full, record_type, ip_text(*ip),
                                SyncStatus::Unchanged, unchanged_message())
                        } else {
                            match sets@[i].zone_id {
                                None => r matches SyncStep::Done(Err(DnsProviderError::Other(m)))
                                    && m@ == "华为云记录未返回关联的 zone_id"@,
                                Some(z) => self.is_hw_step(r, HwState::Update, HttpMethod::Put,
                                    "/v2.1/zones/"@ + z@ + "/recordsets/"@ + sets@[i].id@, Seq::empty(),
                                    render(update_body(ip_text(*ip), ttl)), date@),
                            }
                        },
                        None => self.is_hw_step(r, HwState::Zones, HttpMethod::Get, "/v2.1/zones"@,
                            seq![("name"@, domain.root_domain@ + seq!['.'])], Seq::empty(), date@),
                    }
                },
            },
    {
        if !reply.success {
            return SyncStep::Done(Err(Self::refused(reply, error)));
        }
        let sets = match listed {
            Err(e) => { return SyncStep::Done(Err(DnsProviderError::Json(e))); },
            Ok(l) => l,
        };
        let full = domain.full_domain();
        let name = with_prefix(full.as_str(), ".");
        proof { reveal_strlit("."); assert("."@ =~= seq!['.']); }
        let tname = record_type.as_str();
        let target = ip.to_text();
        let mut i: usize = 0;
        let mut found = false;
        while i < sets.len() && !found
            invariant
                i <= sets@.len(),
                name@ == full@ + seq!['.'],
                tname@ == record_type_name(record_type),
                !found ==> set_match(sets@.take(i as int), name@, record_type) is None,
                found ==> i < sets@.len() && set_match(sets@, name@, record_type) == Some(i as int),
            decreases sets@.len() - i + (if found { 0int } else { 1int }),
        {
            assert(sets@.take(i + 1).drop_last() =~= sets@.take(i as int));
            if eq_ignore_case(sets[i].name.as_str(), name.as_str()) && eq_ignore_case(sets[i].record_type.as_str(), tname) {
                proof { lemma_set_prefix(sets@, name@, record_type, i as int); }
                found = true;
            } else {
                i = i + 1;
            }
        }
        if !found {
            assert(sets@.take(sets@.len() as int) =~= sets@);
            let root = with_prefix(domain.root_domain.as_str(), ".");
            let mut q: Vec<(String, String)> = Vec::new();
            q.push(("name".to_string(), root));
            assert(pair_views(q@) =~= seq![("name"@, domain.root_domain@ + seq!['.'])]);
            let r = self.hw_request(HttpMethod::Get, "/v2.1/zones", &q, String::new(), date);
            return Self::step(r, HwState::Zones);
        }
        let only = match &sets[i].records {
            Some(v) => v.len() == 1 && eq_exact(v[0].as_str(), target.as_str()),
            None => false,
        };
        if only {
            return SyncStep::Done(Ok(SyncRecordResult::unchanged(full.as_str(), record_type, target.as_str())));
        }
        let z = match &sets[i].zone_id {
            None => { return SyncStep::Done(Err(DnsProviderError::Other("华为云记录未返回关联的 zone_id".to_string()))); },
            Some(z) => z,
        };
        let mut path: Vec<char> = Vec::new();
        append_str(&mut path, "/v2.1/zones/");
        append_str(&mut path, z.as_str());
        append_str(&mut path, "/recordsets/");
        append_str(&mut path, sets[i].id.as_str());
        let path_text = string_of(path.as_slice());
        let t: u32 = match ttl { Some(v) => v, None => 300 };
        let mut recs: Vec<JsonValue> = Vec::new();
        push_item(&mut recs, JsonValue::Str(ip.to_text()));
        let mut m: Vec<(String, JsonValue)> = Vec::new();
        push_member(&mut m, "records", JsonValue::array(recs));
        push_member(&mut m, "ttl", JsonValue::UInt((if t < 1 { 1 } else { t }) as u64));
        assert(deep_seq(recs@) =~= seq![Json::Str(ip_text(*ip))]);
        assert(deep_members(m@) =~= seq![("records"@, Json::Array(seq![Json::Str(ip_text(*ip))])),
            ("ttl"@, Json::Int(hw_ttl(ttl)))]);
        let body = JsonValue::object(m).to_text();
        let empty: Vec<(String, String)> = Vec::new();
        assert(pair_views(empty@) =~= Seq::<(Seq<char>, Seq<char>)>::empty());
        let r = self.hw_request(HttpMethod::Put, path_text.as_str(), &empty, body, date);
        Self::step(r, HwState::Update)
    }

    /// `r` sends the request that `is_hw_request` describes and goes on in `next`, or stops
    /// with its error.
    pub open spec fn is_hw_step(&self, r: SyncStep<HwState>, next: HwState, method: HttpMethod, path: Seq<char>,
        query: Seq<(Seq<char>, Seq<char>)>, body: Seq<char>, date: Seq<char>) -> bool {
        match r {
            SyncStep::Send(req, s) => s == next && self.is_hw_request(Ok(req), method, path, query, body, date),
            SyncStep::Done(Err(e)) => self.is_hw_request(Err(e), method, path, query, body, date),
            SyncStep::Done(Ok(_)) => false,
        }
    }

    fn step(r: Result<HttpRequest, DnsProviderError>, next: HwState) -> (s: SyncStep<HwState>)
        ensures
            match r {
                Ok(req) => s == SyncStep::Send(req, next),
                Err(e) => s == SyncStep::<HwState>::Done(Err(e)),
            },
    {
        match r {
            Ok(req) => SyncStep::Send(req, next),
            Err(e) => SyncStep::Done(Err(e)),
        }
    }

    /// The decision on the zones: an error, no zone of the dotted root name, or the
    /// creation of the record set in it.
    pub fn on_zones(
        &self,
        domain: &ParsedDomain,
        record_type: DnsRecordType,
        ip: &IpAddress,
        ttl: Option<u32>,
        reply: &HttpReply,
        error: Option<HwErrorResponse>,
        listed: Result<Vec<HwZoneItem>, String>,
        date: &str,
    ) -> (r: SyncStep<HwState>)
        ensures
            !reply.success ==> (r matches SyncStep::Done(Err(e)) && hw_error_is(e, *reply, error)),
            reply.success ==> match listed {
                Err(e) => r == SyncStep::<HwState>::Done(Err(DnsProviderError::Json(e))),
                Ok(zones) => match hw_zone_match(zones@, domain.root_domain@ + seq!['.']) {
                    None => r matches SyncStep::Done(Err(DnsProviderError::ZoneNotFound(m)))
                        && m@ == "在华为云 DNS 中未找到根域名 ["@ + domain.root_domain@ + "] 对应的公网 Zone"@,
                    Some(i) => self.is_hw_step(r, HwState::Create, HttpMethod::Post,
                        "/v2.1/zones/"@ + zones@[i].id@ + "/recordsets"@, Seq::empty(),
                        render(create_body(full_name(domain.sub_domain@, domain.root_domain@) + seq!['.'], record_type,
                            ip_text(*ip), ttl)), date@),
                },
            },
    {
        if !reply.success {
            return SyncStep::Done(Err(Self::refused(reply, error)));
        }
        let zones = match listed {
            Err(e) => { return SyncStep::Done(Err(DnsProviderError::Json(e))); },
            Ok(l) => l,
        };
        let root = with_prefix(domain.root_domain.as_str(), ".");
        proof { reveal_strlit("."); assert("."@ =~= seq!['.']); }
        let mut i: usize = 0;
        let mut found = false;
        while i < zones.len() && !found
            invariant
                i <= zones@.len(),
                root@ == domain.root_domain@ + seq!['.'],
                !found ==> hw_zone_match(zones@.take(i as int), root@) is None,
                found ==> i < zones@.len() && hw_zone_match(zones@, root@) == Some(i as int),
            decreases zones@.len() - i + (if found { 0int } else { 1int }),
        {
            assert(zones@.take(i + 1).drop_last() =~= zones@.take(i as int));
            if eq_ignore_case(zones[i].name.as_str(), root.as_str()) {
                proof { lemma_zone_prefix(zones@, root@, i as int); }
                found = true;
            } else {
                i = i + 1;
            }
        }
        if !found {
            assert(zones@.take(zones@.len() as int) =~= zones@);
            let mut m: Vec<char> = Vec::new();
            append_str(&mut m, "在华为云 DNS 中未找到根域名 [");
            append_str(&mut m, domain.root_domain.as_str());
            append_str(&mut m, "] 对应的公网 Zone");
            return SyncStep::Done(Err(DnsProviderError::ZoneNotFound(string_of(m.as_slice()))));
        }
        let mut path: Vec<char> = Vec::new();
        append_str(&mut path, "/v2.1/zones/");
        append_str(&mut path, zones[i].id.as_str());
        append_str(&mut path, "/recordsets");
        let path_text = string_of(path.as_slice());
        let full = domain.full_domain();
        let name = with_prefix(full.as_str(), ".");
        let t: u32 = match ttl { Some(v) => v, None => 300 };
        let mut recs: Vec<JsonValue> = Vec::new();
        push_item(&mut recs, JsonValue::Str(ip.to_text()));
        let mut m: Vec<(String, JsonValue)> = Vec::new();
        push_member(&mut m, "name", JsonValue::Str(name));
        push_member(&mut m, "records", JsonValue::array(recs));
        push_member(&mut m, "ttl", JsonValue::UInt((if t < 1 { 1 } else { t }) as u64));
        push_member(&mut m, "type", JsonValue::Str(record_type.as_str().to_string()));
        assert(deep_seq(recs@) =~= seq![Json::Str(ip_text(*ip))]);
        assert(deep_members(m@) =~= seq![("name"@, Json::Str(full@ + seq!['.'])),
            ("records"@, Json::Array(seq![Json::Str(ip_text(*ip))])), ("ttl"@, Json::Int(hw_ttl(ttl))),
            ("type"@, Json::Str(record_type_name(record_type)))]);
        let body = JsonValue::object(m).to_text();
        let empty: Vec<(String, String)> = Vec::new();
        assert(pair_views(empty@) =~= Seq::<(Seq<char>, Seq<char>)>::empty());
        let r = self.hw_request(HttpMethod::Post, path_text.as_str(), &empty, body, date);
        Self::step(r, HwState::Create)
    }

    /// The outcome of the update or creation: an error, a body that is not JSON, or success.
    pub fn on_write(
        &self,
        state: HwState,
        domain: &ParsedDomain,
        record_type: DnsRecordType,
        ip: &IpAddress,
        reply: &HttpReply,
        error: Option<HwErrorResponse>,
        parsed: Result<(), String>,
    ) -> (r: Result<SyncRecordResult, DnsProviderError>)
        ensures
            !reply.success ==> (r matches Err(e) && hw_error_is(e, *reply, error)),
            reply.success ==> match parsed {
                Err(e) => r == Err::<SyncRecordResult, DnsProviderError>(DnsProviderError::Json(e)),
                Ok(_) => r matches Ok(res) && res.is(full_name(domain.sub_domain@, domain.root_domain@), record_type,
                    ip_text(*ip), if state == HwState::Create { SyncStatus::Created } else { SyncStatus::Updated },
                    if state == HwState::Create { "解析记录创建成功"@ } else { updated_message() }),
            },
    {
        if !reply.success {
            return Err(Self::refused(reply, error));
        }
        match parsed {
            Err(e) => Err(DnsProviderError::Json(e)),
            Ok(_) => {
                let full = domain.full_domain();
                let target = ip.to_text();
                if state == HwState::Create {
                    Ok(SyncRecordResult {
                        domain: full,
                        record_type,
                        target_ip: target,
                        status: SyncStatus::Created,
                        message: "解析记录创建成功".to_string(),
                    })
                } else {
                    Ok(SyncRecordResult::updated(full.as_str(), record_type, target.as_str()))
                }
            },
        }
    }
}

proof fn lemma_set_prefix(sets: Seq<HwRecordsetItem>, name: Seq<char>, t: DnsRecordType, i: int)
    requires
        0 <= i < sets.len(),
        set_match(sets.take(i), name, t) is None,
        lower(sets[i].name@) == lower(name),
        lower(sets[i].record_type@) == lower(record_type_name(t)),
    ensures
        set_match(sets, name, t) == Some(i),
    decreases sets.len(),
{
    if sets.len() - 1 == i {
        assert(sets.drop_last() =~= sets.take(i));
    } else {
        assert(sets.drop_last().take(i) =~= sets.take(i));
        lemma_set_prefix(sets.drop_last(), name, t, i);
    }
}

proof fn lemma_zone_prefix(zones: Seq<HwZoneItem>, name: Seq<char>, i: int)
    requires
        0 <= i < zones.len(),
        hw_zone_match(zones.take(i), name) is None,
        lower(zones[i].name@) == lower(name),
    ensures
        hw_zone_match(zones, name) == Some(i),
    decreases zones.len(),
{
    if zones.len() - 1 == i {
        assert(zones.drop_last() =~= zones.take(i));
    } else {
        assert(zones.drop_last().take(i) =~= zones.take(i));
        lemma_zone_prefix(zones.drop_last(), name, i);
    }
}

} // verus!
