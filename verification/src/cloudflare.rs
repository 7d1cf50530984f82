//! Cloudflare: find the zone (through a cache shared by all tasks), read the records of
//! the name, remove the redundant ones, then patch the first or create one.
use vstd::prelude::*;
use crate::domain::{ParsedDomain, full_name};
use crate::engine::{IpAddress, ip_text};
use crate::json::{Json, JsonValue, deep, push_member};
use crate::providers::{DnsProviderError, HttpMethod, HttpReply, HttpRequest, SyncStep, with_prefix};
use crate::records::{DnsRecordType, SyncRecordResult, SyncStatus, record_type_name, created_message, unchanged_message,
    updated_message};
use crate::text::{append_str, blank, chars_of, is_blank, string_of, trim, trim_chars};
use crate::text_map::TextMap;
use crate::urlencode::pair_views;

verus! {

broadcast use vstd::string::group_string_axioms;

/// Base of the Cloudflare API.
pub open spec fn cf_base() -> Seq<char> {
    "https://api.cloudflare.com/client/v4"@
}

/// Zone ids already found, by account identity and root domain.
pub struct CfZoneCache {
    by_identity: TextMap<TextMap<String>>,
}

impl CfZoneCache {
    /// Every map in the cache is well formed.
    pub closed spec fn wf(self) -> bool {
        &&& self.by_identity.wf()
        &&& forall|a: Seq<char>| #[trigger] self.by_identity@.contains_key(a) ==> self.by_identity@[a].wf()
    }

    /// The zone id cached for identity `a` and root domain `r`.
    pub closed spec fn zone_of(self, a: Seq<char>, r: Seq<char>) -> Option<Seq<char>> {
        if self.by_identity@.contains_key(a) && self.by_identity@[a]@.contains_key(r) {
            Some(self.by_identity@[a]@[r]@)
        } else {
            None
        }
    }

    /// An empty cache.
    pub fn new() -> (r: Self)
        ensures
            r.wf(),
            forall|a: Seq<char>, d: Seq<char>| #[trigger] r.zone_of(a, d) is None,
    {
        CfZoneCache { by_identity: TextMap::new() }
    }

    /// The zone id cached for `identity` and `root`.
    pub fn get(&self, identity: &str, root: &str) -> (r: Option<String>)
        requires self.wf(),
        ensures
            match r {
                Some(z) => self.zone_of(identity@, root@) == Some(z@),
                None => self.zone_of(identity@, root@) is None,
            },
    {
        match self.by_identity.get(identity) {
            Some(inner) => match inner.get(root) {
                Some(z) => Some(z.clone()),
                None => None,
            },
            None => None,
        }
    }

    /// Caches `zone` for `identity` and `root`; every other pair keeps its entry.
    pub fn insert(&mut self, identity: &str, root: &str, zone: String)
        requires old(self).wf(),
        ensures
            final(self).wf(),
            final(self).zone_of(identity@, root@) == Some(zone@),
            forall|a: Seq<char>, d: Seq<char>| !(a == identity@ && d == root@)
                ==> #[trigger] final(self).zone_of(a, d) == old(self).zone_of(a, d),
    {
        let ghost before = *self;
        let mut inner: TextMap<String> = match self.by_identity.get(identity) {
            Some(m) => m.duplicate(),
            None => TextMap::new(),
        };
        inner.insert(root.to_string(), zone);
        self.by_identity.insert(identity.to_string(), inner);
        proof {
            assert forall|a: Seq<char>| #[trigger] self.by_identity@.contains_key(a) implies self.by_identity@[a].wf() by {
                if a != identity@ {
                    assert(before.by_identity@.contains_key(a));
                }
            }
        }
    }
}

/// A character that a header value may hold (`HeaderValue::from_str`): visible ASCII,
/// space, tab, or any non-ASCII character.
pub open spec fn header_char_ok(c: char) -> bool {
    (c as u32 >= 32 && c as u32 != 127) || c == '\t'
}

/// Every character of `s` may stand in a header value.
pub open spec fn header_value_ok(s: Seq<char>) -> bool {
    forall|i: int| 0 <= i < s.len() ==> header_char_ok(#[trigger] s[i])
}

/// Whether `s` may stand in a header value.
pub fn is_header_value(s: &[char]) -> (r: bool)
    ensures r == header_value_ok(s@),
{
    let mut i: usize = 0;
    while i < s.len()
        invariant
            i <= s@.len(),
            forall|j: int| 0 <= j < i ==> header_char_ok(#[trigger] s@[j]),
        decreases s@.len() - i,
    {
        let c = s[i];
        if !((c as u32 >= 32 && c as u32 != 127) || c == '\t') {
            return false;
        }
        i = i + 1;
    }
    true
}

/// The value is present and not blank.
pub open spec fn filled(v: Option<String>) -> bool {
    v matches Some(t) && !is_blank(t@)
}

/// The account identity that keys the zone cache: `token:<token>` where a token is
/// given, else `key:<key>:<email>`.
pub open spec fn cf_identity(token: Option<String>, key: Option<String>, email: Option<String>) -> Seq<char> {
    match token {
        Some(t) => "token:"@ + trim(t@),
        None => "key:"@ + match key { Some(k) => k@, None => Seq::empty() } + ":"@
            + match email { Some(e) => e@, None => Seq::empty() },
    }
}

/// The authentication headers: a bearer token where a usable one is set, else the key
/// and email (each where it is a valid value), else none.
pub open spec fn cf_auth_headers(token: Option<String>, key: Option<String>, email: Option<String>)
    -> Seq<(Seq<char>, Seq<char>)> {
    if filled(token) && header_value_ok("Bearer "@ + trim(token->0@)) {
        seq![("Authorization"@, "Bearer "@ + trim(token->0@))]
    } else {
        match (key, email) {
            (Some(k), Some(e)) => {
                let first: Seq<(Seq<char>, Seq<char>)> =
                    if header_value_ok(trim(k@)) { seq![("X-Auth-Key"@, trim(k@))] } else { Seq::empty() };
                if header_value_ok(trim(e@)) { first.push(("X-Auth-Email"@, trim(e@))) } else { first }
            },
            _ => Seq::empty(),
        }
    }
}

/// Cloudflare credentials: an API token, or a global API key with its email.
pub struct CloudflareProvider {
    pub api_token: Option<String>,
    pub api_key: Option<String>,
    pub email: Option<String>,
    pub auth_identity: String,
}

/// One error of a Cloudflare envelope.
#[derive(Debug, Clone)]
pub struct CfApiError {
    pub message: String,
}

/// The Cloudflare reply envelope.
#[derive(Debug, Clone)]
pub struct CfApiResponse<T> {
    pub success: bool,
    pub errors: Vec<CfApiError>,
    pub result: Option<T>,
}

/// A zone of the zone list.
#[derive(Debug, Clone)]
pub struct CfZone {
    pub id: String,
}

/// A DNS record.
#[derive(Debug, Clone)]
pub struct CfRecord {
    pub id: String,
    pub content: String,
}

/// The error messages of an envelope joined with `; `.
pub open spec fn cf_messages(errs: Seq<CfApiError>) -> Seq<char>
    decreases errs.len(),
{
    if errs.len() == 0 {
        Seq::empty()
    } else if errs.len() == 1 {
        errs[0].message@
    } else {
        cf_messages(errs.drop_last()) + "; "@ + errs.last().message@
    }
}

fn joined_messages(errs: &Vec<CfApiError>) -> (r: Vec<char>)
    ensures r@ == cf_messages(errs@),
{
    let mut v: Vec<char> = Vec::new();
    let mut i: usize = 0;
    while i < errs.len()
        invariant
            i <= errs@.len(),
            v@ == cf_messages(errs@.take(i as int)),
        decreases errs@.len() - i,
    {
        assert(errs@.take(i + 1).drop_last() =~= errs@.take(i as int));
        if i > 0 {
            append_str(&mut v, "; ");
        }
        append_str(&mut v, errs[i].message.as_str());
        i = i + 1;
    }
    assert(errs@.take(errs@.len() as int) =~= errs@);
    v
}

/// What a Cloudflare reply comes to.
pub enum CfVerdict<T> {
    /// The result carried by the envelope.
    Value(T),
    /// An API error with its code and message.
    Api(Seq<char>, Seq<char>),
    /// A successful reply without a result.
    NoResult,
    /// The body is not an envelope (the parser's message).
    Parse(String),
}

/// The verdict on a reply read as an envelope (`parsed`, or the parser's message): the
/// result where the envelope succeeded with one; else the joined errors under
/// `{default_code} ({status})`; else, for a failed status, the status and body; else the
/// result, a missing result, or the parser's message.
pub open spec fn cf_verdict<T>(reply: HttpReply, parsed: Result<CfApiResponse<T>, String>, default_code: Seq<char>)
    -> CfVerdict<T> {
    match parsed {
        Ok(d) => if d.success && d.result is Some {
            CfVerdict::Value(d.result->0)
        } else if cf_messages(d.errors@).len() > 0 {
            CfVerdict::Api(default_code + " ("@ + reply.status@ + ")"@, cf_messages(d.errors@))
        } else if !reply.success {
            CfVerdict::Api(reply.status@, reply.body@)
        } else {
            match d.result {
                Some(x) => CfVerdict::Value(x),
                None => CfVerdict::NoResult,
            }
        },
        Err(e) => if !reply.success { CfVerdict::Api(reply.status@, reply.body@) } else { CfVerdict::Parse(e) },
    }
}

/// `e` is the error that verdict `v` stands for.
pub open spec fn is_verdict_error<T>(e: DnsProviderError, v: CfVerdict<T>) -> bool {
    match v {
        CfVerdict::Api(c, m) => e matches DnsProviderError::ApiError { code, message } && code@ == c && message@ == m,
        CfVerdict::NoResult => e matches DnsProviderError::Other(m) && m@ == "Cloudflare 响应缺少 result 数据实体"@,
        CfVerdict::Parse(s) => e == DnsProviderError::Json(s),
        CfVerdict::Value(_) => false,
    }
}

/// Reads a Cloudflare reply (see `cf_verdict`).
pub fn cf_outcome<T>(reply: &HttpReply, parsed: Result<CfApiResponse<T>, String>, default_code: &str)
    -> (r: Result<T, DnsProviderError>)
    ensures
        match cf_verdict(*reply, parsed, default_code@) {
            CfVerdict::Value(x) => r == Ok::<T, DnsProviderError>(x),
            v => r matches Err(e) && is_verdict_error(e, v),
        },
{
    match parsed {
        Ok(d) => {
            if d.success && d.result.is_some() {
                return match d.result {
                    Some(x) => Ok(x),
                    None => Err(DnsProviderError::Other("Cloudflare 响应缺少 result 数据实体".to_string())),
                };
            }
            let msg = joined_messages(&d.errors);
            if msg.len() > 0 {
                let mut code: Vec<char> = Vec::new();
                append_str(&mut code, default_code);
                append_str(&mut code, " (");
                append_str(&mut code, reply.status.as_str());
                append_str(&mut code, ")");
                return Err(DnsProviderError::ApiError { code: string_of(code.as_slice()), message: string_of(msg.as_slice()) });
            }
            if !reply.success {
                return Err(DnsProviderError::ApiError { code: reply.status.clone(), message: reply.body.clone() });
            }
            match d.result {
                Some(x) => Ok(x),
                None => Err(DnsProviderError::Other("Cloudflare 响应缺少 result 数据实体".to_string())),
            }
        },
        Err(e) => {
            if !reply.success {
                Err(DnsProviderError::ApiError { code: reply.status.clone(), message: reply.body.clone() })
            } else {
                Err(DnsProviderError::Json(e))
            }
        },
    }
}

impl CloudflareProvider {
    /// A provider for a token, or a key with an email: refused where neither a token
    /// nor a key is filled in.
    pub fn new(api_token: Option<String>, api_key: Option<String>, email: Option<String>)
        -> (r: Result<Self, DnsProviderError>)
        ensures
            !filled(api_token) && !filled(api_key) ==> (r matches Err(DnsProviderError::MissingCredentials(m))
                && m@ == "Cloudflare 需要配置 API Token 或 API Key + 邮箱"@),
            filled(api_token) || filled(api_key) ==> (r matches Ok(p) && p.api_token == api_token
                && p.api_key == api_key && p.email == email
                && p.auth_identity@ == cf_identity(api_token, api_key, email)),
    {
        let has_token = match &api_token { Some(t) => !blank(t.as_str()), None => false };
        let has_key = match &api_key { Some(k) => !blank(k.as_str()), None => false };
        if !has_token && !has_key {
            return Err(DnsProviderError::MissingCredentials("Cloudflare 需要配置 API Token 或 API Key + 邮箱".to_string()));
        }
        let mut id: Vec<char> = Vec::new();
        match &api_token {
            Some(t) => {
                append_str(&mut id, "token:");
                let tt = trim_chars(chars_of(t.as_str()).as_slice());
                crate::text::append_chars(&mut id, tt.as_slice());
            },
            None => {
                append_str(&mut id, "key:");
                match &api_key { Some(k) => append_str(&mut id, k.as_str()), None => {} }
                append_str(&mut id, ":");
                match &email { Some(e) => append_str(&mut id, e.as_str()), None => {} }
            },
        }
        let auth_identity = string_of(id.as_slice());
        Ok(CloudflareProvider { api_token, api_key, email, auth_identity })
    }

    /// The authentication headers (see `cf_auth_headers`).
    pub fn build_headers(&self) -> (r: Vec<(String, String)>)
        ensures pair_views(r@) == cf_auth_headers(self.api_token, self.api_key, self.email),
    {
        let mut h: Vec<(String, String)> = Vec::new();
        match &self.api_token {
            Some(t) => {
                if !blank(t.as_str()) {
                    let mut v: Vec<char> = Vec::new();
                    append_str(&mut v, "Bearer ");
                    let tt = trim_chars(chars_of(t.as_str()).as_slice());
                    crate::text::append_chars(&mut v, tt.as_slice());
                    if is_header_value(v.as_slice()) {
                        h.push(("Authorization".to_string(), string_of(v.as_slice())));
                        assert(pair_views(h@) =~= cf_auth_headers(self.api_token, self.api_key, self.email));
                        return h;
                    }
                }
            },
            None => {},
        }
        match (&self.api_key, &self.email) {
            (Some(k), Some(e)) => {
                let kt = trim_chars(chars_of(k.as_str()).as_slice());
                if is_header_value(kt.as_slice()) {
                    h.push(("X-Auth-Key".to_string(), string_of(kt.as_slice())));
                }
                let et = trim_chars(chars_of(e.as_str()).as_slice());
                if is_header_value(et.as_slice()) {
                    h.push(("X-Auth-Email".to_string(), string_of(et.as_slice())));
                }
            },
            _ => {},
        }
        assert(pair_views(h@) =~= cf_auth_headers(self.api_token, self.api_key, self.email));
        h
    }
}


/// Where a Cloudflare synchronisation stands.
#[derive(Debug, Clone)]
pub enum CfState {
    /// The zone list was asked for.
    ZoneLookup,
    /// The records of the name were asked for in zone `zone_id`.
    RecordLookup { zone_id: String },
    /// The record was patched (`update`) or created.
    Write { update: bool },
}

/// URL of the active zones named `root`.
pub open spec fn cf_zones_url(root: Seq<char>) -> Seq<char> {
    cf_base() + "/zones?name="@ + root + "&status=active"@
}

/// URL of the records of name `full` and type `t` in a zone.
pub open spec fn cf_records_url(zone: Seq<char>, full: Seq<char>, t: DnsRecordType) -> Seq<char> {
    cf_base() + "/zones/"@ + zone + "/dns_records?name="@ + full + "&type="@ + record_type_name(t)
}

/// URL of one record.
pub open spec fn cf_record_url(zone: Seq<char>, id: Seq<char>) -> Seq<char> {
    cf_base() + "/zones/"@ + zone + "/dns_records/"@ + id
}

/// URL where records of a zone are created.
pub open spec fn cf_create_url(zone: Seq<char>) -> Seq<char> {
    cf_base() + "/zones/"@ + zone + "/dns_records"@
}

/// The TTL sent: the given one, or 1 (automatic).
pub open spec fn cf_ttl(ttl: Option<u32>) -> int {
    match ttl { Some(v) => v as int, None => 1 }
}

/// The body of a patch: the new content and TTL (the proxy setting is kept).
pub open spec fn cf_patch_body(ip: Seq<char>, ttl: Option<u32>) -> Json {
    Json::Object(seq![("content"@, Json::Str(ip))].push(("ttl"@, Json::Int(cf_ttl(ttl)))))
}

/// The body of a new record, not proxied.
pub open spec fn cf_create_body(t: DnsRecordType, full: Seq<char>, ip: Seq<char>, ttl: Option<u32>) -> Json {
    Json::Object(seq![("content"@, Json::Str(ip))]
        .push(("name"@, Json::Str(full)))
        .push(("proxied"@, Json::Bool(false)))
        .push(("ttl"@, Json::Int(cf_ttl(ttl))))
        .push(("type"@, Json::Str(record_type_name(t)))))
}

/// A request without body, with the provider's authentication headers.
pub open spec fn is_cf_plain(req: HttpRequest, p: CloudflareProvider, method: HttpMethod, url: Seq<char>) -> bool {
    &&& req.method == method
    &&& req.url@ == url
    &&& pair_views(req.headers@) == cf_auth_headers(p.api_token, p.api_key, p.email)
    &&& req.body is None
}

/// A JSON request with the provider's authentication headers.
pub open spec fn is_cf_json(req: HttpRequest, p: CloudflareProvider, method: HttpMethod, url: Seq<char>, body: Json) -> bool {
    &&& req.method == method
    &&& req.url@ == url
    &&& pair_views(req.headers@) == cf_auth_headers(p.api_token, p.api_key, p.email)
        .push(("Content-Type"@, "application/json"@))
    &&& req.body matches Some(b) && b@ == crate::json::render(body)
}

impl CloudflareProvider {
    fn plain_request(&self, method: HttpMethod, url: String) -> (r: HttpRequest)
        ensures is_cf_plain(r, *self, method, url@),
    {
        HttpRequest { method, url, headers: self.build_headers(), body: None }
    }

    fn json_request(&self, method: HttpMethod, url: String, body: &JsonValue) -> (r: HttpRequest)
        ensures is_cf_json(r, *self, method, url@, deep(*body)),
    {
        let mut headers = self.build_headers();
        let ghost h0 = headers@;
        headers.push(("Content-Type".to_string(), "application/json".to_string()));
        assert(pair_views(headers@) =~= pair_views(h0).push(("Content-Type"@, "application/json"@)));
        HttpRequest { method, url, headers, body: Some(body.to_text()) }
    }

    fn records_request(&self, zone: &str, full: &str, t: DnsRecordType) -> (r: HttpRequest)
        ensures is_cf_plain(r, *self, HttpMethod::Get, cf_records_url(zone@, full@, t)),
    {
        let mut url: Vec<char> = Vec::new();
        append_str(&mut url, "https://api.cloudflare.com/client/v4");
        append_str(&mut url, "/zones/");
        append_str(&mut url, zone);
        append_str(&mut url, "/dns_records?name=");
        append_str(&mut url, full);
        append_str(&mut url, "&type=");
        append_str(&mut url, t.as_str());
        self.plain_request(HttpMethod::Get, string_of(url.as_slice()))
    }

    fn record_url(zone: &str, id: &str) -> (r: String)
        ensures r@ == cf_record_url(zone@, id@),
    {
        let mut url: Vec<char> = Vec::new();
        append_str(&mut url, "https://api.cloudflare.com/client/v4");
        append_str(&mut url, "/zones/");
        append_str(&mut url, zone);
        append_str(&mut url, "/dns_records/");
        append_str(&mut url, id);
        string_of(url.as_slice())
    }

    /// The first request: the records, where the zone of the root domain is cached for
    /// this account, else the zone list.
    pub fn start(&self, domain: &ParsedDomain, record_type: DnsRecordType, cache: &CfZoneCache)
        -> (r: (HttpRequest, CfState))
        requires cache.wf(),
        ensures
            match cache.zone_of(self.auth_identity@, domain.root_domain@) {
                Some(z) => r.1 matches CfState::RecordLookup { zone_id } && zone_id@ == z
                    && is_cf_plain(r.0, *self, HttpMethod::Get,
                        cf_records_url(z, full_name(domain.sub_domain@, domain.root_domain@), record_type)),
                None => r.1 is ZoneLookup && is_cf_plain(r.0, *self, HttpMethod::Get, cf_zones_url(domain.root_domain@)),
            },
    {
        match cache.get(self.auth_identity.as_str(), domain.root_domain.as_str()) {
            Some(zone_id) => {
                let full = domain.full_domain();
                let req = self.records_request(zone_id.as_str(), full.as_str(), record_type);
                (req, CfState::RecordLookup { zone_id })
            },
            None => {
                let mut url: Vec<char> = Vec::new();
                append_str(&mut url, "https://api.cloudflare.com/client/v4");
                append_str(&mut url, "/zones?name=");
                append_str(&mut url, domain.root_domain.as_str());
                append_str(&mut url, "&status=active");
                (self.plain_request(HttpMethod::Get, string_of(url.as_slice())), CfState::ZoneLookup)
            },
        }
    }

    /// The decision on the zone list: the first zone is cached for this account and its
    /// records are asked for; an empty list means no zone.
    pub fn on_zones(
        &self,
        domain: &ParsedDomain,
        record_type: DnsRecordType,
        reply: &HttpReply,
        parsed: Result<CfApiResponse<Vec<CfZone>>, String>,
        cache: &mut CfZoneCache,
    ) -> (r: SyncStep<CfState>)
        requires old(cache).wf(),
        ensures
            final(cache).wf(),
            match cf_verdict(*reply, parsed, "CloudflareZoneError"@) {
                CfVerdict::Value(zones) => if zones@.len() > 0 {
                    &&& r matches SyncStep::Send(req, CfState::RecordLookup { zone_id })
                        && zone_id@ == zones@[0].id@
                        && is_cf_plain(req, *self, HttpMethod::Get,
                            cf_records_url(zones@[0].id@, full_name(domain.sub_domain@, domain.root_domain@), record_type))
                    &&& final(cache).zone_of(self.auth_identity@, domain.root_domain@) == Some(zones@[0].id@)
                    &&& forall|a: Seq<char>, d: Seq<char>| !(a == self.auth_identity@ && d == domain.root_domain@)
                        ==> #[trigger] final(cache).zone_of(a, d) == old(cache).zone_of(a, d)
                } else {
                    &&& r matches SyncStep::Done(Err(DnsProviderError::ZoneNotFound(m))) && m@ == domain.root_domain@
                    &&& *final(cache) == *old(cache)
                },
                v => (r matches SyncStep::Done(Err(e)) && is_verdict_error(e, v)) && *final(cache) == *old(cache),
            },
    {
        match cf_outcome(reply, parsed, "CloudflareZoneError") {
            Err(e) => SyncStep::Done(Err(e)),
            Ok(zones) => {
                if zones.len() == 0 {
                    return SyncStep::Done(Err(DnsProviderError::ZoneNotFound(domain.root_domain.clone())));
                }
                let zone_id = zones[0].id.clone();
                cache.insert(self.auth_identity.as_str(), domain.root_domain.as_str(), zone_id.clone());
                let full = domain.full_domain();
                let req = self.records_request(zone_id.as_str(), full.as_str(), record_type);
                SyncStep::Send(req, CfState::RecordLookup { zone_id })
            },
        }
    }

    /// The decision on the records of the name in zone `zone_id`: every record after the
    /// first is to be deleted (whatever the answers); then the first is kept where it
    /// holds the address, or patched; without records one is created.
    pub fn on_records(
        &self,
        domain: &ParsedDomain,
        record_type: DnsRecordType,
        ip: &IpAddress,
        ttl: Option<u32>,
        zone_id: &str,
        reply: &HttpReply,
        parsed: Result<CfApiResponse<Vec<CfRecord>>, String>,
    ) -> (r: (Vec<HttpRequest>, SyncStep<CfState>))
        ensures
            match cf_verdict(*reply, parsed, "CloudflareRecordError"@) {
                CfVerdict::Value(recs) => {
                    let full = full_name(domain.sub_domain@, domain.root_domain@);
                    &&& r.0@.len() == if recs@.len() > 1 { recs@.len() - 1 } else { 0 }
                    &&& forall|i: int| 0 <= i < r.0@.len() ==> is_cf_plain(#[trigger] r.0@[i], *self,
                        HttpMethod::Delete, cf_record_url(zone_id@, recs@[i + 1].id@))
                    &&& if recs@.len() == 0 {
                        r.1 matches SyncStep::Send(req, CfState::Write { update: false })
                            && is_cf_json(req, *self, HttpMethod::Post, cf_create_url(zone_id@),
                                cf_create_body(record_type, full, ip_text(*ip), ttl))
                    } else if recs@[0].content@ == ip_text(*ip) {
                        r.1 matches SyncStep::Done(Ok(res))
                            && res.is(full, record_type, ip_text(*ip), SyncStatus::Unchanged, unchanged_message())
                    } else {
                        r.1 matches SyncStep::Send(req, CfState::Write { update: true })
                            && is_cf_json(req, *self, HttpMethod::Patch, cf_record_url(zone_id@, recs@[0].id@),
                                cf_patch_body(ip_text(*ip), ttl))
                    }
                },
                v => r.0@.len() == 0 && (r.1 matches SyncStep::Done(Err(e)) && is_verdict_error(e, v)),
            },
    {
        let records = match cf_outcome(reply, parsed, "CloudflareRecordError") {
            Err(e) => { return (Vec::new(), SyncStep::Done(Err(e))); },
            Ok(recs) => recs,
        };
        let mut deletes: Vec<HttpRequest> = Vec::new();
        if records.len() > 1 {
            let mut i: usize = 1;
            while i < records.len()
                invariant
                    1 <= i <= records@.len(),
                    deletes@.len() == i - 1,
                    forall|j: int| 0 <= j < deletes@.len() ==> is_cf_plain(#[trigger] deletes@[j], *self,
                        HttpMethod::Delete, cf_record_url(zone_id@, records@[j + 1].id@)),
                decreases records@.len() - i,
            {
                let url = Self::record_url(zone_id, records[i].id.as_str());
                deletes.push(self.plain_request(HttpMethod::Delete, url));
                i = i + 1;
            }
        }
        let full = domain.full_domain();
        let target = ip.to_text();
        let t: u32 = match ttl { Some(v) => v, None => 1 };
        if records.len() == 0 {
            let mut body: Vec<(String, JsonValue)> = Vec::new();
            push_member(&mut body, "content", JsonValue::Str(target));
            push_member(&mut body, "name", JsonValue::Str(full));
            push_member(&mut body, "proxied", JsonValue::Bool(false));
            push_member(&mut body, "ttl", JsonValue::UInt(t as u64));
            push_member(&mut body, "type", JsonValue::text(record_type.as_str()));
            let mut url: Vec<char> = Vec::new();
            append_str(&mut url, "https://api.cloudflare.com/client/v4");
            append_str(&mut url, "/zones/");
            append_str(&mut url, zone_id);
            append_str(&mut url, "/dns_records");
            let req = self.json_request(HttpMethod::Post, string_of(url.as_slice()), &JsonValue::object(body));
            return (deletes, SyncStep::Send(req, CfState::Write { update: false }));
        }
        if crate::text::eq_exact(records[0].content.as_str(), target.as_str()) {
            return (deletes, SyncStep::Done(Ok(SyncRecordResult::unchanged_log("Cloudflare", full.as_str(), record_type,
                target.as_str()))));
        }
        let mut body: Vec<(String, JsonValue)> = Vec::new();
        push_member(&mut body, "content", JsonValue::Str(target));
        push_member(&mut body, "ttl", JsonValue::UInt(t as u64));
        let url = Self::record_url(zone_id, records[0].id.as_str());
        let req = self.json_request(HttpMethod::Patch, url, &JsonValue::object(body));
        (deletes, SyncStep::Send(req, CfState::Write { update: true }))
    }

    /// The outcome of the patch (`update`) or creation.
    pub fn on_write(
        &self,
        update: bool,
        domain: &ParsedDomain,
        record_type: DnsRecordType,
        ip: &IpAddress,
        reply: &HttpReply,
        parsed: Result<CfApiResponse<CfRecord>, String>,
    ) -> (r: Result<SyncRecordResult, DnsProviderError>)
        ensures
            match cf_verdict(*reply, parsed, if update { "CloudflareUpdateFailed"@ } else { "CloudflareCreateFailed"@ }) {
                CfVerdict::Value(_) => r matches Ok(res) && res.is(full_name(domain.sub_domain@, domain.root_domain@),
                    record_type, ip_text(*ip), if update { SyncStatus::Updated } else { SyncStatus::Created },
                    if update { updated_message() } else { created_message() }),
                v => r matches Err(e) && is_verdict_error(e, v),
            },
    {
        let code = if update { "CloudflareUpdateFailed" } else { "CloudflareCreateFailed" };
        match cf_outcome(reply, parsed, code) {
            Err(e) => Err(e),
            Ok(_) => {
                let full = domain.full_domain();
                let target = ip.to_text();
                if update {
                    Ok(SyncRecordResult::updated_log("Cloudflare", full.as_str(), record_type, target.as_str()))
                } else {
                    Ok(SyncRecordResult::created_log("Cloudflare", full.as_str(), record_type, target.as_str()))
                }
            },
        }
    }
}

} // verus!
