//! HiPM DNSMgr: find the domain id (by keyword, then page by page), read the name's
//! record, then update it or create one. Every answer is an envelope with a code.
use vstd::prelude::*;
use crate::cloudflare::{header_value_ok, is_header_value};
use crate::domain::{ParsedDomain, full_name};
use crate::engine::{IpAddress, ip_text};
use crate::godaddy::sub_or_at;
use crate::json::{Json, JsonValue, deep, push_member, render};
use crate::net::{dec_text, decimal_text};
use crate::notify::{signed_decimal_text, signed_text};
use crate::providers::{DnsProviderError, HttpMethod, HttpReply, HttpRequest, SyncStep, is_api_error, joined, with_prefix};
use crate::records::{DnsRecordType, SyncRecordResult, SyncStatus, record_type_name, unchanged_message, updated_message};
use crate::text::{append_str, blank, chars_of, eq_exact, eq_ignore_case, is_blank, lower, string_of, trim, trim_chars};

verus! {

broadcast use vstd::string::group_string_axioms;

/// The endpoint used where none is configured.
pub open spec fn default_hipm_endpoint() -> Seq<char> {
    "https://dnsmgr.example.com"@
}

/// `s` with every trailing `p` removed (`trim_end_matches`).
pub open spec fn trim_suffix(s: Seq<char>, p: Seq<char>) -> Seq<char>
    decreases s.len(),
{
    if p.len() > 0 && s.len() >= p.len() && s.subrange(s.len() - p.len(), s.len() as int) == p {
        trim_suffix(s.subrange(0, s.len() - p.len()), p)
    } else {
        s
    }
}

/// Removes every trailing `p` from `s`.
pub fn trim_suffix_chars(s: &[char], p: &str) -> (r: Vec<char>)
    ensures r@ == trim_suffix(s@, p@),
{
    let pc = chars_of(p);
    let mut n: usize = s.len();
    assert(s@.subrange(0, n as int) =~= s@);
    loop
        invariant
            n <= s@.len(),
            pc@ == p@,
            trim_suffix(s@.subrange(0, n as int), p@) == trim_suffix(s@, p@),
        ensures
            n <= s@.len(),
            trim_suffix(s@, p@) == s@.subrange(0, n as int),
        decreases n,
    {
        if pc.len() == 0 || n < pc.len() {
            assert(trim_suffix(s@.subrange(0, n as int), p@) == s@.subrange(0, n as int));
            break;
        }
        let start = n - pc.len();
        let mut k: usize = 0;
        let mut same = true;
        while k < pc.len()
            invariant
                start + pc@.len() == n,
                n <= s@.len(),
                k <= pc@.len(),
                same == forall|m: int| 0 <= m < k ==> s@[start + m] == pc@[m],
            decreases pc@.len() - k,
        {
            if s[start + k] != pc[k] {
                same = false;
            }
            k = k + 1;
        }
        let ghost cur = s@.subrange(0, n as int);
        assert(cur.subrange(cur.len() - pc@.len(), cur.len() as int) =~= s@.subrange(start as int, n as int));
        if same {
            assert(s@.subrange(start as int, n as int) =~= pc@);
            assert(cur.subrange(0, cur.len() - pc@.len()) =~= s@.subrange(0, start as int));
            n = start;
        } else {
            assert(s@.subrange(start as int, n as int) != pc@) by {
                let m = choose|m: int| 0 <= m < pc@.len() && s@[start + m] != pc@[m];
                assert(s@.subrange(start as int, n as int)[m] != pc@[m]);
            }
            assert(trim_suffix(s@.subrange(0, n as int), p@) == s@.subrange(0, n as int));
            break;
        }
    }
    crate::text::sub_chars(s, 0, n)
}

/// The API base: the configured endpoint (where not blank) without trailing `/` and
/// then without trailing `/api`.
pub open spec fn hipm_base(endpoint: Option<String>) -> Seq<char> {
    let base = match endpoint {
        Some(e) => if is_blank(e@) { default_hipm_endpoint() } else { e@ },
        None => default_hipm_endpoint(),
    };
    trim_suffix(trim_suffix(base, "/"@), "/api"@)
}

/// A domain of the list.
#[derive(Debug, Clone)]
pub struct DnsMgrDomainItem {
    pub id: i64,
    pub name: String,
}

/// A record of the list (its id as text: the string, or the number's digits).
#[derive(Debug, Clone)]
pub struct DnsMgrRecordItem {
    pub id: String,
    pub name: String,
    pub record_type: String,
    pub value: String,
}

/// The answer envelope: its code and message, and the items of its data (an array, or an
/// object's `list` array), `None` where there is no such array or its items do not read
/// as `T`.
#[derive(Debug, Clone)]
pub struct DnsMgrApiResponse<T> {
    pub code: i32,
    pub msg: String,
    pub items: Option<Vec<T>>,
}

/// What an answer comes to.
pub enum DnsMgrVerdict<T> {
    /// The items of the data (none where there are none).
    Items(Seq<T>),
    /// An error with its code and message.
    Api(Seq<char>, Seq<char>),
    /// The body is not an envelope (the parser's message).
    Parse(String),
}

/// The verdict on an answer: a failed status, an unreadable body, a non-zero code, or the items.
pub open spec fn dnsmgr_verdict<T>(reply: HttpReply, parsed: Result<DnsMgrApiResponse<T>, String>) -> DnsMgrVerdict<T> {
    if !reply.success {
        DnsMgrVerdict::Api(reply.status@, "HiPM DNSMgr HTTP 错误: "@ + reply.body@)
    } else {
        match parsed {
            Err(e) => DnsMgrVerdict::Parse(e),
            Ok(a) => if a.code != 0 {
                DnsMgrVerdict::Api(signed_text(a.code as int), "HiPM DNSMgr API 错误: "@ + a.msg@)
            } else {
                DnsMgrVerdict::Items(match a.items { Some(v) => v@, None => Seq::empty() })
            },
        }
    }
}

/// `e` is the error that verdict `v` stands for.
pub open spec fn is_dnsmgr_error<T>(e: DnsProviderError, v: DnsMgrVerdict<T>) -> bool {
    match v {
        DnsMgrVerdict::Api(c, m) => e matches DnsProviderError::ApiError { code, message } && code@ == c && message@ == m,
        DnsMgrVerdict::Parse(s) => e == DnsProviderError::Json(s),
        DnsMgrVerdict::Items(_) => false,
    }
}

/// Reads an answer (see `dnsmgr_verdict`).
pub fn dnsmgr_outcome<T>(reply: &HttpReply, parsed: Result<DnsMgrApiResponse<T>, String>) -> (r: Result<Vec<T>, DnsProviderError>)
    ensures
        match dnsmgr_verdict(*reply, parsed) {
            DnsMgrVerdict::Items(s) => r matches Ok(v) && v@ == s,
            v => r matches Err(e) && is_dnsmgr_error(e, v),
        },
{
    if !reply.success {
        return Err(DnsProviderError::ApiError {
            code: reply.status.clone(),
            message: with_prefix("HiPM DNSMgr HTTP 错误: ", reply.body.as_str()),
        });
    }
    match parsed {
        Err(e) => Err(DnsProviderError::Json(e)),
        Ok(a) => {
            if a.code != 0 {
                Err(DnsProviderError::ApiError {
                    code: signed_decimal_text(a.code as i64),
                    message: with_prefix("HiPM DNSMgr API 错误: ", a.msg.as_str()),
                })
            } else {
                match a.items {
                    Some(v) => Ok(v),
                    None => Ok(Vec::new()),
                }
            }
        },
    }
}

/// HiPM DNSMgr settings: the API base and the trimmed token.
pub struct HipmDnsMgrProvider {
    pub endpoint: String,
    pub api_token: String,
}

/// Where a DNSMgr synchronisation stands.
#[derive(Debug, Clone, PartialEq)]
pub enum HipmState {
    /// The domain was searched by keyword.
    DomainSearch,
    /// Page `page` (1 to 5, 50 domains each) of the domain list was asked for.
    DomainPage { page: u32 },
    /// The name's records were asked for in domain `domain_id`.
    RecordLookup { domain_id: i64 },
    /// The record was updated (`update`) or created.
    Write { update: bool },
}

/// The record sent.
pub open spec fn hipm_body(sub: Seq<char>, t: DnsRecordType, ip: Seq<char>, ttl: Option<u32>) -> Json {
    let v: int = match ttl { Some(x) => x as int, None => 600 };
    Json::Object(seq![("line"@, Json::Str("0"@))]
        .push(("name"@, Json::Str(sub_or_at(sub))))
        .push(("ttl"@, Json::Int(if v < 1 { 1 } else { v })))
        .push(("type"@, Json::Str(record_type_name(t))))
        .push(("value"@, Json::Str(ip))))
}

/// Position of the first domain named `root` (ignoring ASCII case).
pub open spec fn domain_index(items: Seq<DnsMgrDomainItem>, root: Seq<char>) -> Option<int>
    decreases items.len(),
{
    if items.len() == 0 {
        None
    } else {
        match domain_index(items.drop_last(), root) {
            Some(i) => Some(i),
            None => if lower(items.last().name@) == lower(root) { Some(items.len() - 1) } else { None },
        }
    }
}

/// Position of the first record of the name and type (ignoring ASCII case).
pub open spec fn record_index(items: Seq<DnsMgrRecordItem>, sub: Seq<char>, t: DnsRecordType) -> Option<int>
    decreases items.len(),
{
    if items.len() == 0 {
        None
    } else {
        match record_index(items.drop_last(), sub, t) {
            Some(i) => Some(i),
            None => if lower(items.last().name@) == lower(sub) && lower(items.last().record_type@) == lower(record_type_name(t)) {
                Some(items.len() - 1)
            } else {
                None
            },
        }
    }
}

proof fn lemma_domain_prefix(items: Seq<DnsMgrDomainItem>, root: Seq<char>, i: int)
    requires
        0 <= i < items.len(),
        domain_index(items.take(i), root) is None,
        lower(items[i].name@) == lower(root),
    ensures domain_index(items, root) == Some(i),
    decreases items.len() - i,
{
    if i == items.len() - 1 {
        assert(items.drop_last() =~= items.take(i));
    } else {
        assert(items.drop_last().take(i) =~= items.take(i));
        lemma_domain_prefix(items.drop_last(), root, i);
    }
}

proof fn lemma_record_prefix(items: Seq<DnsMgrRecordItem>, sub: Seq<char>, t: DnsRecordType, i: int)
    requires
        0 <= i < items.len(),
        record_index(items.take(i), sub, t) is None,
        lower(items[i].name@) == lower(sub) && lower(items[i].record_type@) == lower(record_type_name(t)),
    ensures record_index(items, sub, t) == Some(i),
    decreases items.len() - i,
{
    if i == items.len() - 1 {
        assert(items.drop_last() =~= items.take(i));
    } else {
        assert(items.drop_last().take(i) =~= items.take(i));
        lemma_record_prefix(items.drop_last(), sub, t, i);
    }
}

impl HipmDnsMgrProvider {
    /// A provider for an endpoint and token: refused where the token is blank or cannot
    /// stand in a header.
    pub fn new(endpoint: Option<String>, api_token: String) -> (r: Result<Self, DnsProviderError>)
        ensures
            is_blank(api_token@) ==> (r matches Err(DnsProviderError::MissingCredentials(m))
                && m@ == "HiPM DNSMgr 需要配置 API Token (Secret)"@),
            !is_blank(api_token@) && !header_value_ok("Bearer "@ + trim(api_token@)) ==> (r matches Err(
                DnsProviderError::MissingCredentials(m)) && m@ == "无效的 API Token: failed to parse header value"@),
            !is_blank(api_token@) && header_value_ok("Bearer "@ + trim(api_token@)) ==> (r matches Ok(p)
                && p.endpoint@ == hipm_base(endpoint) && p.api_token@ == trim(api_token@)),
    {
        if blank(api_token.as_str()) {
            return Err(DnsProviderError::MissingCredentials("HiPM DNSMgr 需要配置 API Token (Secret)".to_string()));
        }
        let base: Vec<char> = match &endpoint {
            Some(e) => if blank(e.as_str()) { chars_of("https://dnsmgr.example.com") } else { chars_of(e.as_str()) },
            None => chars_of("https://dnsmgr.example.com"),
        };
        let b1 = trim_suffix_chars(base.as_slice(), "/");
        let b2 = trim_suffix_chars(b1.as_slice(), "/api");
        let token = trim_chars(chars_of(api_token.as_str()).as_slice());
        let mut auth: Vec<char> = Vec::new();
        append_str(&mut auth, "Bearer ");
        crate::text::append_chars(&mut auth, token.as_slice());
        if !is_header_value(auth.as_slice()) {
            return Err(DnsProviderError::MissingCredentials("无效的 API Token: failed to parse header value".to_string()));
        }
        Ok(HipmDnsMgrProvider { endpoint: string_of(b2.as_slice()), api_token: string_of(token.as_slice()) })
    }

    /// `req` is an API request: the base, `/api` and `path`, the JSON type and bearer headers.
    pub open spec fn is_request(&self, req: HttpRequest, method: HttpMethod, path: Seq<char>, body: Option<Json>) -> bool {
        &&& req.method == method
        &&& req.url@ == self.endpoint@ + "/api"@ + path
        &&& req.headers@.len() == 2
        &&& req.headers@[0].0@ == "Content-Type"@ && req.headers@[0].1@ == "application/json"@
        &&& req.headers@[1].0@ == "Authorization"@ && req.headers@[1].1@ == "Bearer "@ + self.api_token@
        &&& match body {
            Some(b) => req.body matches Some(t) && t@ == render(b),
            None => req.body is None,
        }
    }

    fn request(&self, method: HttpMethod, path: &str, body: Option<JsonValue>) -> (r: HttpRequest)
        ensures self.is_request(r, method, path@, match body { Some(b) => Some(deep(b)), None => None }),
    {
        let mut headers: Vec<(String, String)> = Vec::new();
        headers.push(("Content-Type".to_string(), "application/json".to_string()));
        headers.push(("Authorization".to_string(), with_prefix("Bearer ", self.api_token.as_str())));
        let text = match body {
            Some(b) => Some(b.to_text()),
            None => None,
        };
        HttpRequest { method, url: joined(self.endpoint.as_str(), "/api", path), headers, body: text }
    }

    /// Path of page `page` of the domain list.
    pub open spec fn page_path(page: u32) -> Seq<char> {
        "/domains?page="@ + dec_text(page as nat) + "&pageSize=50"@
    }

    /// Path of the name's records of the type in a domain.
    pub open spec fn records_path(domain_id: i64, sub: Seq<char>, t: DnsRecordType) -> Seq<char> {
        "/domains/"@ + signed_text(domain_id as int) + "/records?page=1&pageSize=100&subdomain="@ + sub_or_at(sub)
            + "&type="@ + record_type_name(t)
    }

    fn page_request(&self, page: u32) -> (r: HttpRequest)
        ensures self.is_request(r, HttpMethod::Get, Self::page_path(page), None),
    {
        let path = joined("/domains?page=", decimal_text(page as u64).as_str(), "&pageSize=50");
        self.request(HttpMethod::Get, path.as_str(), None)
    }

    fn records_request(&self, domain_id: i64, domain: &ParsedDomain, t: DnsRecordType) -> (r: HttpRequest)
        ensures self.is_request(r, HttpMethod::Get, Self::records_path(domain_id, domain.sub_domain@, t), None),
    {
        let mut v: Vec<char> = Vec::new();
        append_str(&mut v, "/domains/");
        append_str(&mut v, signed_decimal_text(domain_id).as_str());
        append_str(&mut v, "/records?page=1&pageSize=100&subdomain=");
        append_str(&mut v, domain.sub_domain_or_at());
        append_str(&mut v, "&type=");
        append_str(&mut v, t.as_str());
        self.request(HttpMethod::Get, string_of(v.as_slice()).as_str(), None)
    }

    /// The first request: the domain searched by its name.
    pub fn start(&self, domain: &ParsedDomain) -> (r: (HttpRequest, HipmState))
        ensures
            self.is_request(r.0, HttpMethod::Get, "/domains?page=1&pageSize=1&keyword="@ + domain.root_domain@, None),
            r.1 == HipmState::DomainSearch,
    {
        let path = with_prefix("/domains?page=1&pageSize=1&keyword=", domain.root_domain.as_str());
        (self.request(HttpMethod::Get, path.as_str(), None), HipmState::DomainSearch)
    }

    /// The decision on a domain list (`page`: `None` for the keyword search, else the
    /// page number): the domain named like the root gives its records; otherwise the
    /// next page (pages 1 to 5), until a page is empty or the last is read.
    pub fn on_domains(
        &self,
        domain: &ParsedDomain,
        record_type: DnsRecordType,
        page: Option<u32>,
        reply: &HttpReply,
        parsed: Result<DnsMgrApiResponse<DnsMgrDomainItem>, String>,
    ) -> (r: SyncStep<HipmState>)
        requires page matches Some(p) ==> 1 <= p <= 5,
        ensures
            r matches SyncStep::Send(_, HipmState::DomainPage { page: n }) ==> 1 <= n <= 5,
            match dnsmgr_verdict(*reply, parsed) {
                DnsMgrVerdict::Items(items) => match domain_index(items, domain.root_domain@) {
                    Some(i) => r matches SyncStep::Send(req, HipmState::RecordLookup { domain_id })
                        && domain_id == items[i].id
                        && self.is_request(req, HttpMethod::Get, Self::records_path(items[i].id, domain.sub_domain@,
                            record_type), None),
                    None => {
                        let next: Option<u32> = match page {
                            None => Some(1u32),
                            Some(p) => if items.len() == 0 || p >= 5 { None } else { Some((p + 1) as u32) },
                        };
                        match next {
                            Some(n) => r matches SyncStep::Send(req, HipmState::DomainPage { page }) && page == n
                                && self.is_request(req, HttpMethod::Get, Self::page_path(n), None),
                            None => r matches SyncStep::Done(Err(DnsProviderError::ZoneNotFound(m)))
                                && m@ == "在 HiPM DNSMgr 中未找到根域名 ["@ + domain.root_domain@ + "] 对应的域名 ID"@,
                        }
                    },
                },
                v => r matches SyncStep::Done(Err(e)) && is_dnsmgr_error(e, v),
            },
    {
        let items = match dnsmgr_outcome(reply, parsed) {
            Err(e) => { return SyncStep::Done(Err(e)); },
            Ok(v) => v,
        };
        let mut i: usize = 0;
        while i < items.len()
            invariant
                i <= items@.len(),
                dnsmgr_verdict(*reply, parsed) == DnsMgrVerdict::<DnsMgrDomainItem>::Items(items@),
                domain_index(items@.take(i as int), domain.root_domain@) is None,
            decreases items@.len() - i,
        {
            assert(items@.take(i + 1).drop_last() =~= items@.take(i as int));
            if eq_ignore_case(items[i].name.as_str(), domain.root_domain.as_str()) {
                proof { lemma_domain_prefix(items@, domain.root_domain@, i as int); }
                let id = items[i].id;
                return SyncStep::Send(self.records_request(id, domain, record_type), HipmState::RecordLookup { domain_id: id });
            }
            i = i + 1;
        }
        assert(items@.take(items@.len() as int) =~= items@);
        let next: Option<u32> = match page {
            None => Some(1),
            Some(p) => if items.len() == 0 || p >= 5 { None } else { Some(p + 1) },
        };
        match next {
            Some(n) => SyncStep::Send(self.page_request(n), HipmState::DomainPage { page: n }),
            None => SyncStep::Done(Err(DnsProviderError::ZoneNotFound(joined("在 HiPM DNSMgr 中未找到根域名 [",
                domain.root_domain.as_str(), "] 对应的域名 ID")))),
        }
    }

    /// The decision on the name's records in domain `domain_id`: the record already
    /// holding the address, its update, or a creation.
    pub fn on_records(
        &self,
        domain: &ParsedDomain,
        record_type: DnsRecordType,
        ip: &IpAddress,
        ttl: Option<u32>,
        domain_id: i64,
        reply: &HttpReply,
        parsed: Result<DnsMgrApiResponse<DnsMgrRecordItem>, String>,
    ) -> (r: SyncStep<HipmState>)
        ensures
            match dnsmgr_verdict(*reply, parsed) {
                DnsMgrVerdict::Items(items) => {
                    let body = hipm_body(domain.sub_domain@, record_type, ip_text(*ip), ttl);
                    let base = "/domains/"@ + signed_text(domain_id as int) + "/records"@;
                    match record_index(items, sub_or_at(domain.sub_domain@), record_type) {
                        Some(i) => if items[i].value@ == ip_text(*ip) {
                            r matches SyncStep::Done(Ok(res)) && res.is(full_name(domain.sub_domain@, domain.root_domain@),
                                record_type, ip_text(*ip), SyncStatus::Unchanged, unchanged_message())
                        } else {
                            r matches SyncStep::Send(req, HipmState::Write { update: true })
                                && self.is_request(req, HttpMethod::Put, base + "/"@ + items[i].id@, Some(body))
                        },
                        None => r matches SyncStep::Send(req, HipmState::Write { update: false })
                            && self.is_request(req, HttpMethod::Post, base, Some(body)),
                    }
                },
                v => r matches SyncStep::Done(Err(e)) && is_dnsmgr_error(e, v),
            },
    {
        let items = match dnsmgr_outcome(reply, parsed) {
            Err(e) => { return SyncStep::Done(Err(e)); },
            Ok(v) => v,
        };
        let sub = domain.sub_domain_or_at();
        let target = ip.to_text();
        let t: u32 = match ttl { Some(v) => v, None => 600 };
        let ttl_val: u32 = if t < 1 { 1 } else { t };
        let mut body: Vec<(String, JsonValue)> = Vec::new();
        push_member(&mut body, "line", JsonValue::text("0"));
        push_member(&mut body, "name", JsonValue::text(sub));
        push_member(&mut body, "ttl", JsonValue::UInt(ttl_val as u64));
        push_member(&mut body, "type", JsonValue::text(record_type.as_str()));
        push_member(&mut body, "value", JsonValue::Str(target.clone()));
        let payload = JsonValue::object(body);
        let base = joined("/domains/", signed_decimal_text(domain_id).as_str(), "/records");
        let mut i: usize = 0;
        while i < items.len()
            invariant
                i <= items@.len(),
                dnsmgr_verdict(*reply, parsed) == DnsMgrVerdict::<DnsMgrRecordItem>::Items(items@),
                sub@ == sub_or_at(domain.sub_domain@),
                target@ == ip_text(*ip),
                deep(payload) == hipm_body(domain.sub_domain@, record_type, ip_text(*ip), ttl),
                base@ == "/domains/"@ + signed_text(domain_id as int) + "/records"@,
                record_index(items@.take(i as int), sub@, record_type) is None,
            decreases items@.len() - i,
        {
            assert(items@.take(i + 1).drop_last() =~= items@.take(i as int));
            let rec = &items[i];
            if eq_ignore_case(rec.name.as_str(), sub) && eq_ignore_case(rec.record_type.as_str(), record_type.as_str()) {
                proof { lemma_record_prefix(items@, sub@, record_type, i as int); }
                if eq_exact(rec.value.as_str(), target.as_str()) {
                    let full = domain.full_domain();
                    return SyncStep::Done(Ok(SyncRecordResult::unchanged(full.as_str(), record_type, target.as_str())));
                }
                let path = joined(base.as_str(), "/", rec.id.as_str());
                return SyncStep::Send(self.request(HttpMethod::Put, path.as_str(), Some(payload)),
                    HipmState::Write { update: true });
            }
            i = i + 1;
        }
        assert(items@.take(items@.len() as int) =~= items@);
        SyncStep::Send(self.request(HttpMethod::Post, base.as_str(), Some(payload)), HipmState::Write { update: false })
    }

    /// The outcome of the update (`update`) or creation.
    pub fn on_write(
        &self,
        update: bool,
        domain: &ParsedDomain,
        record_type: DnsRecordType,
        ip: &IpAddress,
        reply: &HttpReply,
        parsed: Result<DnsMgrApiResponse<()>, String>,
    ) -> (r: Result<SyncRecordResult, DnsProviderError>)
        ensures
            match dnsmgr_verdict(*reply, parsed) {
                DnsMgrVerdict::Items(_) => r matches Ok(res) && res.is(full_name(domain.sub_domain@, domain.root_domain@),
                    record_type, ip_text(*ip), if update { SyncStatus::Updated } else { SyncStatus::Created },
                    if update { updated_message() } else { "解析记录创建成功"@ }),
                v => r matches Err(e) && is_dnsmgr_error(e, v),
            },
    {
        match dnsmgr_outcome(reply, parsed) {
            Err(e) => Err(e),
            Ok(_) => {
                let full = domain.full_domain();
                let target = ip.to_text();
                if update {
                    Ok(SyncRecordResult::updated(full.as_str(), record_type, target.as_str()))
                } else {
                    Ok(SyncRecordResult {
                        domain: full,
                        record_type,
                        target_ip: target,
                        status: SyncStatus::Created,
                        message: "解析记录创建成功".to_string(),
                    })
                }
            },
        }
    }
}

} // verus!
