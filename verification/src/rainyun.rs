//! RainYun: find the domain's id (configured, remembered, or looked up), then update
//! the host's record or create it.
use vstd::prelude::*;
use crate::domain::{ParsedDomain, full_name, is_root_label};
use crate::engine::{IpAddress, ip_text};
use crate::json::{Json, JsonValue, deep, push_member, render};
use crate::notify::{signed_decimal_text, signed_text};
use crate::providers::{DnsProviderError, HttpMethod, HttpRequest, SyncStep, joined, with_prefix};
use crate::records::{DnsRecordType, SyncRecordResult, SyncStatus, record_type_name, unchanged_message, updated_message};
use crate::text::{blank, eq_exact, eq_ignore_case, is_blank, lower, string_of};
use crate::text_map::TextMap;

verus! {

broadcast use vstd::string::group_string_axioms;

/// Base of the RainYun API.
pub open spec fn rainyun_base() -> Seq<char> {
    "https://api.v2.rainyun.com"@
}

/// A domain of the account.
#[derive(Debug, Clone)]
pub struct RainyunDomainItem {
    pub id: i64,
    pub domain: String,
}

/// The reply to the domain list: its code and message, and the domains it lists
/// (none where its data is missing or not a domain list).
#[derive(Debug, Clone)]
pub struct RainyunDomainsReply {
    pub code: i32,
    pub message: Option<String>,
    pub domains: Vec<RainyunDomainItem>,
}

/// A DNS record.
#[derive(Debug, Clone)]
pub struct RainyunRecord {
    pub record_id: i64,
    pub host: String,
    pub record_type: String,
    pub value: String,
}

/// The reply to the record list, with the records it lists (none where its data is
/// missing or not a record list).
#[derive(Debug, Clone)]
pub struct RainyunRecordsReply {
    pub code: i32,
    pub message: Option<String>,
    pub records: Vec<RainyunRecord>,
}

/// The reply to a change.
#[derive(Debug, Clone)]
pub struct RainyunBaseReply {
    pub code: i32,
    pub message: Option<String>,
}

/// Where a RainYun synchronisation stands.
#[derive(Debug, Clone, PartialEq, Eq)]
pub enum RainYunState {
    /// The account's domains were asked for.
    DomainLookup,
    /// The records of domain `domain_id` were asked for.
    RecordLookup { domain_id: String },
    /// A change was sent: an update, or a creation.
    Write { created: bool },
}

/// RainYun credentials, the configured domain id, and the ids found so far by root domain.
pub struct RainYunProvider {
    pub api_key: String,
    pub domain_id: Option<String>,
    pub domain_cache: TextMap<String>,
}

/// The host as RainYun names it: `@` for the root.
pub open spec fn rainyun_host(sub: Seq<char>) -> Seq<char> {
    if is_root_label(sub) { seq!['@'] } else { sub }
}

/// The TTL sent: the given one or 600, at least 1.
pub open spec fn rainyun_ttl(ttl: Option<u32>) -> int {
    let t: int = match ttl { Some(v) => v as int, None => 600 };
    if t < 1 { 1 } else { t }
}

/// A request with the key header and a JSON content type.
pub open spec fn is_rainyun_request(req: HttpRequest, key: Seq<char>, method: HttpMethod, url: Seq<char>, body: Option<Json>) -> bool {
    &&& req.method == method
    &&& req.url@ == url
    &&& req.headers@.len() == 2
    &&& req.headers@[0].0@ == "x-api-key"@ && req.headers@[0].1@ == key
    &&& req.headers@[1].0@ == "Content-Type"@ && req.headers@[1].1@ == "application/json"@
    &&& match body {
        Some(b) => req.body matches Some(t) && t@ == render(b),
        None => req.body is None,
    }
}

/// URL of a domain's record list.
pub open spec fn records_url(domain_id: Seq<char>) -> Seq<char> {
    rainyun_base() + "/product/domain/"@ + domain_id + "/dns/?limit=100&page_no=1"@
}

/// URL of a domain's record changes.
pub open spec fn change_url(domain_id: Seq<char>) -> Seq<char> {
    rainyun_base() + "/product/domain/"@ + domain_id + "/dns"@
}

/// The record sent.
pub open spec fn record_body(host: Seq<char>, t: DnsRecordType, ip: Seq<char>, ttl: Option<u32>, record_id: int) -> Json {
    Json::Object(seq![("host"@, Json::Str(host))]
        .push(("type"@, Json::Str(record_type_name(t))))
        .push(("value"@, Json::Str(ip)))
        .push(("line"@, Json::Str("DEFAULT"@)))
        .push(("ttl"@, Json::Int(rainyun_ttl(ttl))))
        .push(("level"@, Json::Int(10)))
        .push(("record_id"@, Json::Int(record_id))))
}

/// Position of the first domain named like `root` (ignoring ASCII case).
pub open spec fn domain_index(items: Seq<RainyunDomainItem>, root: Seq<char>) -> Option<int>
    decreases items.len(),
{
    if items.len() == 0 {
        None
    } else {
        match domain_index(items.drop_last(), root) {
            Some(i) => Some(i),
            None => if lower(items.last().domain@) == lower(root) { Some(items.len() - 1) } else { None },
        }
    }
}

/// The record is the host's record of type `t` (ignoring ASCII case).
pub open spec fn rainyun_record_is(r: RainyunRecord, host: Seq<char>, t: DnsRecordType) -> bool {
    lower(r.host@) == lower(host) && lower(r.record_type@) == lower(record_type_name(t))
}

/// Position of the first record of the host and type.
pub open spec fn rainyun_record_index(records: Seq<RainyunRecord>, host: Seq<char>, t: DnsRecordType) -> Option<int>
    decreases records.len(),
{
    if records.len() == 0 {
        None
    } else {
        match rainyun_record_index(records.drop_last(), host, t) {
            Some(i) => Some(i),
            None => if rainyun_record_is(records.last(), host, t) { Some(records.len() - 1) } else { None },
        }
    }
}

/// An API error with the reply's code as text and its message or a fallback.
pub open spec fn is_code_error(
    r: Result<SyncRecordResult, DnsProviderError>,
    code: i32,
    message: Option<String>,
    fallback: Seq<char>,
) -> bool {
    r matches Err(DnsProviderError::ApiError { code: c, message: m }) && c@ == signed_text(code as int)
        && m@ == match message { Some(x) => x@, None => fallback }
}

impl RainYunProvider {
    /// The cache is well formed.
    pub open spec fn wf(&self) -> bool {
        self.domain_cache.wf()
    }

    /// A provider with the given key and domain id; a blank id counts as none.
    pub fn new(api_key: String, domain_id: Option<String>) -> (r: Self)
        ensures
            r.wf(),
            r.api_key == api_key,
            r.domain_id == match domain_id { Some(d) => if is_blank(d@) { None } else { Some(d) }, None => None },
            r.domain_cache@ == Map::<Seq<char>, String>::empty(),
    {
        let kept = match domain_id {
            Some(d) => if blank(d.as_str()) { None } else { Some(d) },
            None => None,
        };
        RainYunProvider { api_key, domain_id: kept, domain_cache: TextMap::new() }
    }

    fn request(&self, method: HttpMethod, url: String, body: Option<JsonValue>) -> (r: HttpRequest)
        ensures is_rainyun_request(r, self.api_key@, method, url@, match body { Some(b) => Some(deep(b)), None => None }),
    {
        let mut headers: Vec<(String, String)> = Vec::new();
        headers.push(("x-api-key".to_string(), self.api_key.clone()));
        headers.push(("Content-Type".to_string(), "application/json".to_string()));
        let text = match body {
            Some(b) => Some(b.to_text()),
            None => None,
        };
        HttpRequest { method, url, headers, body: text }
    }

    fn records_request(&self, domain_id: &str) -> (r: HttpRequest)
        ensures is_rainyun_request(r, self.api_key@, HttpMethod::Get, records_url(domain_id@), None),
    {
        let url = joined("https://api.v2.rainyun.com/product/domain/", domain_id, "/dns/?limit=100&page_no=1");
        proof {
            reveal_strlit("https://api.v2.rainyun.com/product/domain/");
            reveal_strlit("https://api.v2.rainyun.com");
            reveal_strlit("/product/domain/");
            assert(url@ =~= records_url(domain_id@));
        }
        self.request(HttpMethod::Get, url, None)
    }

    /// The first request: the records of the configured or remembered domain id, or else
    /// the account's domain list.
    pub fn start(&self, domain: &ParsedDomain) -> (r: (HttpRequest, RainYunState))
        requires self.wf(),
        ensures
            match self.domain_id {
                Some(id) => r.1 == RainYunState::RecordLookup { domain_id: id }
                    && is_rainyun_request(r.0, self.api_key@, HttpMethod::Get, records_url(id@), None),
                None => if self.domain_cache@.contains_key(domain.root_domain@) {
                    r.1 matches RainYunState::RecordLookup { domain_id }
                        && domain_id == self.domain_cache@[domain.root_domain@]
                        && is_rainyun_request(r.0, self.api_key@, HttpMethod::Get, records_url(domain_id@), None)
                } else {
                    r.1 == RainYunState::DomainLookup
                        && is_rainyun_request(r.0, self.api_key@, HttpMethod::Get,
                            rainyun_base() + "/product/domain/?limit=100&page_no=1"@, None)
                },
            },
    {
        match &self.domain_id {
            Some(id) => (self.records_request(id.as_str()), RainYunState::RecordLookup { domain_id: id.clone() }),
            None => match self.domain_cache.get(domain.root_domain.as_str()) {
                Some(id) => (self.records_request(id.as_str()), RainYunState::RecordLookup { domain_id: id.clone() }),
                None => {
                    let url = with_prefix("https://api.v2.rainyun.com", "/product/domain/?limit=100&page_no=1");
                    (self.request(HttpMethod::Get, url, None), RainYunState::DomainLookup)
                },
            },
        }
    }

    /// The decision on the domain list: an API error, the domain's id (remembered for the
    /// root domain) and the request for its records, or no such domain.
    pub fn on_domains(&mut self, domain: &ParsedDomain, parsed: Result<RainyunDomainsReply, String>) -> (r: SyncStep<RainYunState>)
        requires old(self).wf(),
        ensures
            final(self).wf(),
            final(self).api_key == old(self).api_key,
            final(self).domain_id == old(self).domain_id,
            match parsed {
                Err(e) => r == SyncStep::<RainYunState>::Done(Err(DnsProviderError::Json(e)))
                    && final(self).domain_cache@ == old(self).domain_cache@,
                Ok(reply) => if reply.code != 200 {
                    (r matches SyncStep::Done(res) && is_code_error(res, reply.code, reply.message, "查询雨云域名列表失败"@))
                        && final(self).domain_cache@ == old(self).domain_cache@
                } else {
                    match domain_index(reply.domains@, domain.root_domain@) {
                        Some(i) => {
                            let id = signed_text(reply.domains@[i].id as int);
                            &&& r matches SyncStep::Send(req, RainYunState::RecordLookup { domain_id })
                                && domain_id@ == id
                                && is_rainyun_request(req, old(self).api_key@, HttpMethod::Get, records_url(id), None)
                            &&& final(self).domain_cache@.dom() == old(self).domain_cache@.dom().insert(domain.root_domain@)
                            &&& final(self).domain_cache@[domain.root_domain@]@ == id
                            &&& forall|k: Seq<char>| k != domain.root_domain@ && old(self).domain_cache@.contains_key(k)
                                ==> #[trigger] final(self).domain_cache@[k] == old(self).domain_cache@[k]
                        },
                        None => (r matches SyncStep::Done(Err(DnsProviderError::ZoneNotFound(m)))
                            && m@ == "在雨云账户中未找到域名 ["@ + domain.root_domain@
                                + "] 对应的 Domain ID，请在配置中手动指定 Domain ID"@)
                            && final(self).domain_cache@ == old(self).domain_cache@,
                    }
                },
            },
    {
        let reply = match parsed {
            Err(e) => { return SyncStep::Done(Err(DnsProviderError::Json(e))); },
            Ok(x) => x,
        };
        if reply.code != 200 {
            let message = match reply.message {
                Some(m) => m,
                None => "查询雨云域名列表失败".to_string(),
            };
            return SyncStep::Done(Err(DnsProviderError::ApiError { code: signed_decimal_text(reply.code as i64), message }));
        }
        let mut i: usize = 0;
        while i < reply.domains.len()
            invariant
                i <= reply.domains@.len(),
                parsed == Ok::<RainyunDomainsReply, String>(reply),
                reply.code == 200,
                self.wf(),
                *self == *old(self),
                domain_index(reply.domains@.take(i as int), domain.root_domain@) is None,
            decreases reply.domains@.len() - i,
        {
            assert(reply.domains@.take(i + 1).drop_last() =~= reply.domains@.take(i as int));
            if eq_ignore_case(reply.domains[i].domain.as_str(), domain.root_domain.as_str()) {
                proof { lemma_domain_prefix(reply.domains@, domain.root_domain@, i as int); }
                let id = signed_decimal_text(reply.domains[i].id);
                self.domain_cache.insert(domain.root_domain.clone(), id.clone());
                let req = self.records_request(id.as_str());
                return SyncStep::Send(req, RainYunState::RecordLookup { domain_id: id });
            }
            i = i + 1;
        }
        assert(reply.domains@.take(reply.domains@.len() as int) =~= reply.domains@);
        SyncStep::Done(Err(DnsProviderError::ZoneNotFound(joined(
            "在雨云账户中未找到域名 [",
            domain.root_domain.as_str(),
            "] 对应的 Domain ID，请在配置中手动指定 Domain ID",
        ))))
    }

    /// The decision on the record list of domain `domain_id`: an API error, the record
    /// already holding the address, its update, or a creation.
    pub fn on_records(
        &self,
        domain: &ParsedDomain,
        record_type: DnsRecordType,
        ip: &IpAddress,
        ttl: Option<u32>,
        domain_id: &str,
        parsed: Result<RainyunRecordsReply, String>,
    ) -> (r: SyncStep<RainYunState>)
        ensures
            match parsed {
                Err(e) => r == SyncStep::<RainYunState>::Done(Err(DnsProviderError::Json(e))),
                Ok(reply) => if reply.code != 200 {
                    r matches SyncStep::Done(res) && is_code_error(res, reply.code, reply.message, "查询雨云 DNS 记录失败"@)
                } else {
                    let host = rainyun_host(domain.sub_domain@);
                    let full = full_name(domain.sub_domain@, domain.root_domain@);
                    match rainyun_record_index(reply.records@, host, record_type) {
                        Some(i) => if reply.records@[i].value@ == ip_text(*ip) {
                            r matches SyncStep::Done(Ok(res))
                                && res.is(full, record_type, ip_text(*ip), SyncStatus::Unchanged, unchanged_message())
                        } else {
                            r matches SyncStep::Send(req, RainYunState::Write { created: false })
                                && is_rainyun_request(req, self.api_key@, HttpMethod::Patch, change_url(domain_id@),
                                    Some(record_body(host, record_type, ip_text(*ip), ttl, reply.records@[i].record_id as int)))
                        },
                        None => r matches SyncStep::Send(req, RainYunState::Write { created: true })
                            && is_rainyun_request(req, self.api_key@, HttpMethod::Post, change_url(domain_id@),
                                Some(record_body(host, record_type, ip_text(*ip), ttl, 0))),
                    }
                },
            },
    {
        let reply = match parsed {
            Err(e) => { return SyncStep::Done(Err(DnsProviderError::Json(e))); },
            Ok(x) => x,
        };
        if reply.code != 200 {
            let message = match reply.message {
                Some(m) => m,
                None => "查询雨云 DNS 记录失败".to_string(),
            };
            return SyncStep::Done(Err(DnsProviderError::ApiError { code: signed_decimal_text(reply.code as i64), message }));
        }
        let host = domain.sub_domain_or_at().to_string();
        let full = domain.full_domain();
        let target = ip.to_text();
        let mut i: usize = 0;
        while i < reply.records.len()
            invariant
                i <= reply.records@.len(),
                parsed == Ok::<RainyunRecordsReply, String>(reply),
                reply.code == 200,
                host@ == rainyun_host(domain.sub_domain@),
                full@ == full_name(domain.sub_domain@, domain.root_domain@),
                target@ == ip_text(*ip),
                rainyun_record_index(reply.records@.take(i as int), host@, record_type) is None,
            decreases reply.records@.len() - i,
        {
            assert(reply.records@.take(i + 1).drop_last() =~= reply.records@.take(i as int));
            let rec = &reply.records[i];
            if eq_ignore_case(rec.host.as_str(), host.as_str()) && eq_ignore_case(rec.record_type.as_str(), record_type.as_str()) {
                proof { lemma_record_prefix(reply.records@, host@, record_type, i as int); }
                if eq_exact(rec.value.as_str(), target.as_str()) {
                    return SyncStep::Done(Ok(SyncRecordResult::unchanged(full.as_str(), record_type, target.as_str())));
                }
                let body = record_value(host.as_str(), record_type, target, ttl, rec.record_id);
                let req = self.request(HttpMethod::Patch, change_url_text(domain_id), Some(body));
                return SyncStep::Send(req, RainYunState::Write { created: false });
            }
            i = i + 1;
        }
        assert(reply.records@.take(reply.records@.len() as int) =~= reply.records@);
        let body = record_value(host.as_str(), record_type, target, ttl, 0);
        let req = self.request(HttpMethod::Post, change_url_text(domain_id), Some(body));
        SyncStep::Send(req, RainYunState::Write { created: true })
    }

    /// The outcome of the update or creation, read from the reply's code.
    pub fn on_write(
        &self,
        created: bool,
        domain: &ParsedDomain,
        record_type: DnsRecordType,
        ip: &IpAddress,
        parsed: Result<RainyunBaseReply, String>,
    ) -> (r: Result<SyncRecordResult, DnsProviderError>)
        ensures
            match parsed {
                Err(e) => r == Err::<SyncRecordResult, DnsProviderError>(DnsProviderError::Json(e)),
                Ok(reply) => if reply.code == 200 {
                    if created {
                        r matches Ok(res) && res.is(full_name(domain.sub_domain@, domain.root_domain@), record_type,
                            ip_text(*ip), SyncStatus::Created, "解析记录创建成功"@)
                    } else {
                        r matches Ok(res) && res.is(full_name(domain.sub_domain@, domain.root_domain@), record_type,
                            ip_text(*ip), SyncStatus::Updated, updated_message())
                    }
                } else if created {
                    is_code_error(r, reply.code, reply.message, "创建雨云记录失败"@)
                } else {
                    is_code_error(r, reply.code, reply.message, "更新雨云记录失败"@)
                },
            },
    {
        let reply = match parsed {
            Err(e) => { return Err(DnsProviderError::Json(e)); },
            Ok(x) => x,
        };
        if reply.code == 200 {
            let full = domain.full_domain();
            let target = ip.to_text();
            if created {
                Ok(SyncRecordResult {
                    domain: full,
                    record_type,
                    target_ip: target,
                    status: SyncStatus::Created,
                    message: "解析记录创建成功".to_string(),
                })
            } else {
                Ok(SyncRecordResult::updated(full.as_str(), record_type, target.as_str()))
            }
        } else {
            let message = match reply.message {
                Some(m) => m,
                None => if created { "创建雨云记录失败".to_string() } else { "更新雨云记录失败".to_string() },
            };
            Err(DnsProviderError::ApiError { code: signed_decimal_text(reply.code as i64), message })
        }
    }
}

fn change_url_text(domain_id: &str) -> (r: String)
    ensures r@ == change_url(domain_id@),
{
    let url = joined("https://api.v2.rainyun.com/product/domain/", domain_id, "/dns");
    proof {
        reveal_strlit("https://api.v2.rainyun.com/product/domain/");
        reveal_strlit("https://api.v2.rainyun.com");
        reveal_strlit("/product/domain/");
        assert(url@ =~= change_url(domain_id@));
    }
    url
}

fn record_value(host: &str, t: DnsRecordType, ip: String, ttl: Option<u32>, record_id: i64) -> (j: JsonValue)
    ensures deep(j) == record_body(host@, t, ip@, ttl, record_id as int),
{
    let tv: u32 = match ttl { Some(v) => v, None => 600 };
    let ttl_val: i64 = if tv < 1 { 1 } else { tv as i64 };
    let mut m: Vec<(String, JsonValue)> = Vec::new();
    push_member(&mut m, "host", JsonValue::text(host));
    push_member(&mut m, "type", JsonValue::text(t.as_str()));
    push_member(&mut m, "value", JsonValue::Str(ip));
    push_member(&mut m, "line", JsonValue::text("DEFAULT"));
    push_member(&mut m, "ttl", JsonValue::Int(ttl_val));
    push_member(&mut m, "level", JsonValue::Int(10));
    push_member(&mut m, "record_id", JsonValue::Int(record_id));
    JsonValue::object(m)
}

proof fn lemma_domain_prefix(items: Seq<RainyunDomainItem>, root: Seq<char>, i: int)
    requires
        0 <= i < items.len(),
        domain_index(items.take(i), root) is None,
        lower(items[i].domain@) == lower(root),
    ensures domain_index(items, root) == Some(i),
    decreases items.len() - i,
{
    if i == items.len() - 1 {
        assert(items.drop_last() =~= items.take(i));
    } else {
        assert(items.drop_last().take(i) =~= items.take(i));
        lemma_domain_prefix(items.drop_last(), root, i);
    }
}

proof fn lemma_record_prefix(records: Seq<RainyunRecord>, host: Seq<char>, t: DnsRecordType, i: int)
    requires
        0 <= i < records.len(),
        rainyun_record_index(records.take(i), host, t) is None,
        rainyun_record_is(records[i], host, t),
    ensures rainyun_record_index(records, host, t) == Some(i),
    decreases records.len() - i,
{
    if i == records.len() - 1 {
        assert(records.drop_last() =~= records.take(i));
    } else {
        assert(records.drop_last().take(i) =~= records.take(i));
        lemma_record_prefix(records.drop_last(), host, t, i);
    }
}

} // verus!
