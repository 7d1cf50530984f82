//! DNS providers: their errors, the HTTP exchanges they make, and the decisions
//! taken on each reply. The exchanges themselves are carried out by the caller.
use vstd::prelude::*;
use crate::domain::{ParsedDomain, full_name};
use crate::engine::{IpAddress, ip_text};
use crate::net::{dec_text, decimal_text};
use crate::notify::{encode_value, replace_text, replaced, template_value};
use crate::urlencode::pair_views;
use crate::text::append_chars;
use crate::records::{DnsRecordType, SyncRecordResult, SyncStatus, record_type_name};
use crate::text::{append_str, chars_of, eq_ignore_case, lower, string_of};
use crate::cloudflare::header_value_ok;
use crate::text_map::TextMap;
use crate::json::{Json, JsonValue, deep, render};

verus! {

broadcast use vstd::string::group_string_axioms;

/// Why a provider could not synchronise a record.
#[derive(Debug, Clone, PartialEq)]
pub enum DnsProviderError {
    /// The HTTP exchange failed (the client's message, with secrets masked).
    Http(String),
    /// A reply could not be read as the expected JSON (the parser's message).
    Json(String),
    /// The provider has no zone for the root domain.
    ZoneNotFound(String),
    /// The provider answered with an error.
    ApiError { code: String, message: String },
    /// Credentials are missing.
    MissingCredentials(String),
    /// Any other failure.
    Other(String),
}

/// The message of an error: a fixed prefix for its kind, then its detail.
pub open spec fn provider_error_text(e: DnsProviderError) -> Seq<char> {
    match e {
        DnsProviderError::Http(m) => "HTTP 通信错误: "@ + m@,
        DnsProviderError::Json(m) => "JSON 序列化/反序列化错误: "@ + m@,
        DnsProviderError::ZoneNotFound(m) => "DNS 服务商未找到根域名对应的 Zone: "@ + m@,
        DnsProviderError::ApiError { code, message } => "服务商 API 错误 ["@ + code@ + "]: "@ + message@,
        DnsProviderError::MissingCredentials(m) => "缺少认证凭据: "@ + m@,
        DnsProviderError::Other(m) => "其他服务商错误: "@ + m@,
    }
}

impl DnsProviderError {
    /// The error's text.
    pub fn describe(&self) -> (r: String)
        ensures r@ == provider_error_text(*self),
    {
        let mut v: Vec<char> = Vec::new();
        match self {
            DnsProviderError::Http(m) => {
                append_str(&mut v, "HTTP 通信错误: ");
                append_str(&mut v, m.as_str());
            },
            DnsProviderError::Json(m) => {
                append_str(&mut v, "JSON 序列化/反序列化错误: ");
                append_str(&mut v, m.as_str());
            },
            DnsProviderError::ZoneNotFound(m) => {
                append_str(&mut v, "DNS 服务商未找到根域名对应的 Zone: ");
                append_str(&mut v, m.as_str());
            },
            DnsProviderError::ApiError { code, message } => {
                append_str(&mut v, "服务商 API 错误 [");
                append_str(&mut v, code.as_str());
                append_str(&mut v, "]: ");
                append_str(&mut v, message.as_str());
            },
            DnsProviderError::MissingCredentials(m) => {
                append_str(&mut v, "缺少认证凭据: ");
                append_str(&mut v, m.as_str());
            },
            DnsProviderError::Other(m) => {
                append_str(&mut v, "其他服务商错误: ");
                append_str(&mut v, m.as_str());
            },
        }
        proof {
            assert(v@ =~= provider_error_text(*self));
        }
        string_of(v.as_slice())
    }
}

/// The error of a failed step: the status, and the step's prefix before the body.
pub open spec fn is_api_error(
    r: Result<SyncRecordResult, DnsProviderError>,
    code: Seq<char>,
    message: Seq<char>,
) -> bool {
    r matches Err(DnsProviderError::ApiError { code: c, message: m }) && c@ == code && m@ == message
}

/// `a` followed by `b`.
pub fn with_prefix(a: &str, b: &str) -> (r: String)
    ensures r@ == a@ + b@,
{
    let mut v: Vec<char> = Vec::new();
    append_str(&mut v, a);
    append_str(&mut v, b);
    string_of(v.as_slice())
}

/// `a`, `b` and `c` in a row.
pub fn joined(a: &str, b: &str, c: &str) -> (r: String)
    ensures r@ == a@ + b@ + c@,
{
    let mut v: Vec<char> = Vec::new();
    append_str(&mut v, a);
    append_str(&mut v, b);
    append_str(&mut v, c);
    string_of(v.as_slice())
}

/// `k=v` pairs, each side form-urlencoded, joined with `&` (as a request's query).
pub open spec fn query_string(pairs: Seq<(Seq<char>, Seq<char>)>) -> Seq<char>
    decreases pairs.len(),
{
    if pairs.len() == 0 {
        Seq::empty()
    } else {
        let last = template_value(pairs.last().0, true) + seq!['='] + template_value(pairs.last().1, true);
        if pairs.len() == 1 { last } else { query_string(pairs.drop_last()) + seq!['&'] + last }
    }
}

/// `prefix` followed by the query string of `pairs`.
pub fn with_query(prefix: &str, pairs: &Vec<(String, String)>) -> (r: String)
    ensures r@ == prefix@ + query_string(pair_views(pairs@)),
{
    let mut v: Vec<char> = Vec::new();
    append_str(&mut v, prefix);
    let ghost start = v@;
    let mut i: usize = 0;
    assert(pair_views(pairs@).take(0) =~= Seq::<(Seq<char>, Seq<char>)>::empty());
    while i < pairs.len()
        invariant
            i <= pairs@.len(),
            v@ == start + query_string(pair_views(pairs@).take(i as int)),
        decreases pairs@.len() - i,
    {
        let ghost pv = pair_views(pairs@);
        assert(pv.take(i + 1).drop_last() =~= pv.take(i as int));
        assert(pv.take(i + 1).last() == (pairs@[i as int].0@, pairs@[i as int].1@));
        let ghost before = v@;
        if i > 0 {
            v.push('&');
        }
        let k = encode_value(pairs[i].0.as_str(), true);
        append_chars(&mut v, k.as_slice());
        v.push('=');
        let val = encode_value(pairs[i].1.as_str(), true);
        append_chars(&mut v, val.as_slice());
        proof {
            let last = template_value(pairs@[i as int].0@, true) + seq!['='] + template_value(pairs@[i as int].1@, true);
            if i == 0 {
                assert(v@ =~= before + last);
                assert(query_string(pv.take(1)) == last);
            } else {
                assert(v@ =~= before + seq!['&'] + last);
            }
            assert(v@ =~= start + query_string(pv.take(i + 1)));
        }
        i = i + 1;
    }
    assert(pair_views(pairs@).take(pairs@.len() as int) =~= pair_views(pairs@));
    string_of(v.as_slice())
}

/// An HTTP method.
#[derive(Debug, Clone, Copy, PartialEq, Eq, Structural)]
pub enum HttpMethod {
    Get,
    Post,
    Put,
    Patch,
    Delete,
}

/// The next move of a synchronisation: send a request and come back with its reply
/// in state `S`, or stop with the outcome.
pub enum SyncStep<S> {
    Send(HttpRequest, S),
    Done(Result<SyncRecordResult, DnsProviderError>),
}

/// `req` is a JSON request: `method` to `url`, with a JSON content type and `body` as its text.
pub open spec fn is_json_request(req: HttpRequest, method: HttpMethod, url: Seq<char>, body: Json) -> bool {
    &&& req.method == method
    &&& req.url@ == url
    &&& req.headers@.len() == 1
    &&& req.headers@[0].0@ == "Content-Type"@
    &&& req.headers@[0].1@ == "application/json"@
    &&& req.body matches Some(b) && b@ == render(body)
}

/// A JSON request.
pub fn json_request(method: HttpMethod, url: String, body: &JsonValue) -> (r: HttpRequest)
    ensures is_json_request(r, method, url@, deep(*body)),
{
    let mut headers: Vec<(String, String)> = Vec::new();
    headers.push(("Content-Type".to_string(), "application/json".to_string()));
    HttpRequest { method, url, headers, body: Some(body.to_text()) }
}

/// A request for the caller to send.
#[derive(Debug, Clone)]
pub struct HttpRequest {
    pub method: HttpMethod,
    pub url: String,
    /// Header names and values, in order.
    pub headers: Vec<(String, String)>,
    /// The body, where there is one.
    pub body: Option<String>,
}

/// What came back for a request.
#[derive(Debug, Clone)]
pub struct HttpReply {
    /// The status is 2xx.
    pub success: bool,
    /// The status as `StatusCode` writes it, e.g. `404 Not Found`.
    pub status: String,
    /// The body text.
    pub body: String,
}

/// A callback template with the record's placeholders substituted: `#{ip}`, `#{ipv4Addr}`,
/// `#{ipv6Addr}` (all the address), `#{domain}`, `#{rootDomain}`, `#{subDomain}` (`@` for the
/// root), `#{recordType}`, `#{ttl}` (600 by default), in this order.
pub open spec fn callback_rendered(
    template: Seq<char>,
    sub: Seq<char>,
    root: Seq<char>,
    t: DnsRecordType,
    ip: Seq<char>,
    ttl: Option<u32>,
    url_encode: bool,
) -> Seq<char> {
    let sub_label = if crate::domain::is_root_label(sub) { seq!['@'] } else { sub };
    let ttl_text = dec_text(match ttl { Some(v) => v as nat, None => 600 });
    let s1 = replaced(template, "#{ip}"@, template_value(ip, url_encode));
    let s2 = replaced(s1, "#{ipv4Addr}"@, template_value(ip, url_encode));
    let s3 = replaced(s2, "#{ipv6Addr}"@, template_value(ip, url_encode));
    let s4 = replaced(s3, "#{domain}"@, template_value(full_name(sub, root), url_encode));
    let s5 = replaced(s4, "#{rootDomain}"@, template_value(root, url_encode));
    let s6 = replaced(s5, "#{subDomain}"@, template_value(sub_label, url_encode));
    let s7 = replaced(s6, "#{recordType}"@, template_value(record_type_name(t), url_encode));
    replaced(s7, "#{ttl}"@, template_value(ttl_text, url_encode))
}

/// Calls a user-defined URL for every record change.
pub struct CallbackProvider {
    pub url: String,
    pub method: String,
    pub headers: Option<TextMap<String>>,
    pub body: Option<String>,
}

/// A character allowed in a header name (an HTTP token character).
pub open spec fn token_char(c: char) -> bool {
    ('a' <= c && c <= 'z') || ('A' <= c && c <= 'Z') || ('0' <= c && c <= '9') || c == '!' || c == '#' || c == '$'
        || c == '%' || c == '&' || c == '\'' || c == '*' || c == '+' || c == '-' || c == '.' || c == '^' || c == '_'
        || c == '`' || c == '|' || c == '~'
}

/// A text that `HeaderName::from_str` accepts: one to 65535 token characters.
pub open spec fn header_name_ok(s: Seq<char>) -> bool {
    0 < s.len() <= 65535 && forall|i: int| 0 <= i < s.len() ==> token_char(#[trigger] s[i])
}

/// The method of a callback: POST, PUT, PATCH or DELETE named in any ASCII case, else GET.
pub open spec fn callback_method(m: Seq<char>) -> HttpMethod {
    if lower(m) == lower("POST"@) { HttpMethod::Post }
    else if lower(m) == lower("PUT"@) { HttpMethod::Put }
    else if lower(m) == lower("PATCH"@) { HttpMethod::Patch }
    else if lower(m) == lower("DELETE"@) { HttpMethod::Delete }
    else { HttpMethod::Get }
}

/// The callback headers: each configured header, in order, with its value rendered
/// (not URL-encoded), where name and rendered value are valid.
pub open spec fn callback_header_list(entries: Seq<(Seq<char>, Seq<char>)>, sub: Seq<char>, root: Seq<char>,
    t: DnsRecordType, ip: Seq<char>, ttl: Option<u32>) -> Seq<(Seq<char>, Seq<char>)>
    decreases entries.len(),
{
    if entries.len() == 0 {
        Seq::empty()
    } else {
        let prev = callback_header_list(entries.drop_last(), sub, root, t, ip, ttl);
        let k = entries.last().0;
        let v = callback_rendered(entries.last().1, sub, root, t, ip, ttl, false);
        if header_name_ok(k) && header_value_ok(v) { prev.push((k, v)) } else { prev }
    }
}

fn is_header_name(s: &[char]) -> (r: bool)
    ensures r == header_name_ok(s@),
{
    if s.len() == 0 || s.len() > 65535 {
        return false;
    }
    let mut i: usize = 0;
    while i < s.len()
        invariant
            i <= s@.len(),
            forall|j: int| 0 <= j < i ==> token_char(#[trigger] s@[j]),
        decreases s@.len() - i,
    {
        let c = s[i];
        let ok = ('a' <= c && c <= 'z') || ('A' <= c && c <= 'Z') || ('0' <= c && c <= '9') || c == '!' || c == '#'
            || c == '$' || c == '%' || c == '&' || c == '\'' || c == '*' || c == '+' || c == '-' || c == '.' || c == '^'
            || c == '_' || c == '`' || c == '|' || c == '~';
        if !ok {
            return false;
        }
        i = i + 1;
    }
    true
}

/// Message of a successful callback.
pub open spec fn callback_ok_message(body: Seq<char>) -> Seq<char> {
    "Callback 执行成功: "@ + body
}

impl CallbackProvider {
    /// A provider for the given template settings.
    pub fn new(url: String, method: String, headers: Option<TextMap<String>>, body: Option<String>) -> (r: Result<Self, DnsProviderError>)
        ensures
            r matches Ok(p) && p.url == url && p.method == method && p.headers == headers
                && p.body == body,
    {
        Ok(CallbackProvider { url, method, headers, body })
    }

    /// Substitutes a record's values into a callback template (URL, header value or body).
    pub fn replace_variables(
        template: &str,
        domain: &ParsedDomain,
        record_type: DnsRecordType,
        ip: &IpAddress,
        ttl: Option<u32>,
        url_encode: bool,
    ) -> (r: String)
        ensures
            r@ == callback_rendered(template@, domain.sub_domain@, domain.root_domain@, record_type,
                ip_text(*ip), ttl, url_encode),
    {
        proof {
            reveal_strlit("#{ip}");
            reveal_strlit("#{ipv4Addr}");
            reveal_strlit("#{ipv6Addr}");
            reveal_strlit("#{domain}");
            reveal_strlit("#{rootDomain}");
            reveal_strlit("#{subDomain}");
            reveal_strlit("#{recordType}");
            reveal_strlit("#{ttl}");
        }
        let t = chars_of(template);
        let ip_str = ip.to_text();
        let full = domain.full_domain();
        let sub = domain.sub_domain_or_at();
        proof { reveal_strlit("@"); }
        let ttl_str = decimal_text(match ttl { Some(v) => v as u64, None => 600 });
        let v1 = encode_value(ip_str.as_str(), url_encode);
        let s1 = replace_text(t.as_slice(), "#{ip}", v1.as_slice());
        let s2 = replace_text(s1.as_slice(), "#{ipv4Addr}", v1.as_slice());
        let s3 = replace_text(s2.as_slice(), "#{ipv6Addr}", v1.as_slice());
        let v4 = encode_value(full.as_str(), url_encode);
        let s4 = replace_text(s3.as_slice(), "#{domain}", v4.as_slice());
        let v5 = encode_value(domain.root_domain.as_str(), url_encode);
        let s5 = replace_text(s4.as_slice(), "#{rootDomain}", v5.as_slice());
        let v6 = encode_value(sub, url_encode);
        let s6 = replace_text(s5.as_slice(), "#{subDomain}", v6.as_slice());
        let v7 = encode_value(record_type.as_str(), url_encode);
        let s7 = replace_text(s6.as_slice(), "#{recordType}", v7.as_slice());
        let v8 = encode_value(ttl_str.as_str(), url_encode);
        let s8 = replace_text(s7.as_slice(), "#{ttl}", v8.as_slice());
        string_of(s8.as_slice())
    }

    /// The request of a callback: the method named (GET where it names none of the others),
    /// the URL template rendered URL-encoded, the valid headers with rendered values, and
    /// the rendered body template where there is one.
    pub fn callback_request(&self, domain: &ParsedDomain, record_type: DnsRecordType, ip: &IpAddress, ttl: Option<u32>)
        -> (r: HttpRequest)
        ensures
            r.method == callback_method(self.method@),
            r.url@ == callback_rendered(self.url@, domain.sub_domain@, domain.root_domain@, record_type, ip_text(*ip),
                ttl, true),
            pair_views(r.headers@) == match self.headers {
                Some(h) => callback_header_list(h.entry_views(), domain.sub_domain@, domain.root_domain@, record_type,
                    ip_text(*ip), ttl),
                None => Seq::empty(),
            },
            match self.body {
                Some(b) => r.body matches Some(x) && x@ == callback_rendered(b@, domain.sub_domain@, domain.root_domain@,
                    record_type, ip_text(*ip), ttl, false),
                None => r.body is None,
            },
    {
        let url = Self::replace_variables(self.url.as_str(), domain, record_type, ip, ttl, true);
        let m = self.method.as_str();
        let method = if eq_ignore_case(m, "POST") { HttpMethod::Post }
            else if eq_ignore_case(m, "PUT") { HttpMethod::Put }
            else if eq_ignore_case(m, "PATCH") { HttpMethod::Patch }
            else if eq_ignore_case(m, "DELETE") { HttpMethod::Delete }
            else { HttpMethod::Get };
        let mut headers: Vec<(String, String)> = Vec::new();
        match &self.headers {
            Some(h) => {
                let n = h.entry_count();
                let mut i: usize = 0;
                while i < n
                    invariant
                        i <= n,
                        n == h.entry_views().len(),
                        pair_views(headers@) == callback_header_list(h.entry_views().take(i as int), domain.sub_domain@,
                            domain.root_domain@, record_type, ip_text(*ip), ttl),
                    decreases n - i,
                {
                    let (k, v) = h.entry(i);
                    let rv = Self::replace_variables(v.as_str(), domain, record_type, ip, ttl, false);
                    let kc = chars_of(k.as_str());
                    let rc = chars_of(rv.as_str());
                    proof {
                        assert(h.entry_views().take(i + 1).drop_last() =~= h.entry_views().take(i as int));
                    }
                    if is_header_name(kc.as_slice()) && crate::cloudflare::is_header_value(rc.as_slice()) {
                        let ghost before = headers@;
                        headers.push((k.clone(), rv));
                        proof {
                            crate::pop::lemma_pair_views_push(before, headers@.last());
                            assert(before.push(headers@.last()) =~= headers@);
                        }
                    }
                    i = i + 1;
                }
                assert(h.entry_views().take(n as int) =~= h.entry_views());
            },
            None => {
                assert(pair_views(headers@) =~= Seq::<(Seq<char>, Seq<char>)>::empty());
            },
        }
        let body = match &self.body {
            Some(b) => Some(Self::replace_variables(b.as_str(), domain, record_type, ip, ttl, false)),
            None => None,
        };
        HttpRequest { method, url, headers, body }
    }

    /// The outcome of a callback: the record counts as updated where the status is
    /// 2xx, with the reply body in the message; otherwise the status and body are the error.
    pub fn callback_outcome(domain: &ParsedDomain, record_type: DnsRecordType, ip: &IpAddress, reply: &HttpReply)
        -> (r: Result<SyncRecordResult, DnsProviderError>)
        ensures
            reply.success ==> (r matches Ok(res) && res.is(full_name(domain.sub_domain@, domain.root_domain@),
                record_type, ip_text(*ip), SyncStatus::Updated, callback_ok_message(reply.body@))),
            !reply.success ==> r == Err::<SyncRecordResult, DnsProviderError>(DnsProviderError::ApiError {
                code: reply.status, message: reply.body }),
    {
        if reply.success {
            let mut m: Vec<char> = Vec::new();
            append_str(&mut m, "Callback 执行成功: ");
            append_str(&mut m, reply.body.as_str());
            let full = domain.full_domain();
            let ip_str = ip.to_text();
            Ok(SyncRecordResult {
                domain: full,
                record_type,
                target_ip: ip_str,
                status: SyncStatus::Updated,
                message: string_of(m.as_slice()),
            })
        } else {
            Err(DnsProviderError::ApiError { code: reply.status.clone(), message: reply.body.clone() })
        }
    }
}

} // verus!
