//! DNS.LA: list the host's records of the type, then modify the first or create one.
use vstd::prelude::*;
use vstd::string::StringSliceAdditionalSpecFns;
use crate::crypto::{base64_encode, base64_standard};
use crate::domain::{ParsedDomain, full_name, is_root_label};
use crate::engine::{IpAddress, ip_text};
use crate::json::{Json, JsonValue, deep, push_member, render};
use crate::notify::{signed_decimal_text, signed_text};
use crate::providers::{DnsProviderError, HttpMethod, HttpReply, HttpRequest, SyncStep, is_api_error, joined, with_prefix};
use crate::records::{DnsRecordType, SyncRecordResult, SyncStatus, record_type_name, unchanged_message, updated_message};
use crate::text::{append_str, eq_exact, eq_ignore_case, lower, string_of};

verus! {

broadcast use vstd::string::group_string_axioms;


pub(crate) proof fn lemma_utf8_len(chars: Seq<char>)
    ensures vstd::utf8::encode_utf8(chars).len() <= 4 * chars.len(),
    decreases chars.len(),
{
    broadcast use vstd::array::group_array_axioms;
    if chars.len() > 0 {
        lemma_utf8_len(chars.drop_first());
        assert(vstd::utf8::encode_scalar(chars[0] as u32).len() <= 4);
    }
}

/// The record list endpoint.
pub open spec fn dnsla_list_base() -> Seq<char> {
    "https://api.dns.la/api/recordList"@
}

/// The record endpoint.
pub open spec fn dnsla_record_url() -> Seq<char> {
    "https://api.dns.la/api/record"@
}

/// A record of the list.
#[derive(Debug, Clone)]
pub struct DnsLaRecord {
    pub id: String,
    pub host: String,
    pub record_type: i32,
    pub data: String,
}

/// The reply to the record list: its code and message, and the records it holds (none
/// where its data or results are missing).
#[derive(Debug, Clone)]
pub struct DnsLaListResp {
    pub code: i32,
    pub msg: Option<String>,
    pub records: Vec<DnsLaRecord>,
}

/// The reply to a change.
#[derive(Debug, Clone)]
pub struct DnsLaActionResp {
    pub code: i32,
    pub msg: Option<String>,
}

/// DNS.LA credentials.
pub struct DnsLaProvider {
    pub api_id: String,
    pub api_secret: String,
}

/// The numeric record type of the API.
pub open spec fn type_number(t: DnsRecordType) -> int {
    match t {
        DnsRecordType::A => 1,
        DnsRecordType::AAAA => 28,
    }
}

/// The host as DNS.LA names it: `@` for the root.
pub open spec fn dnsla_host(sub: Seq<char>) -> Seq<char> {
    if is_root_label(sub) { seq!['@'] } else { sub }
}

/// The TTL sent: the given one or 600, at least 1.
pub open spec fn dnsla_ttl(ttl: Option<u32>) -> int {
    let t: int = match ttl { Some(v) => v as int, None => 600 };
    if t < 1 { 1 } else { t }
}

/// The record is the host's record of the type.
pub open spec fn dnsla_record_is(r: DnsLaRecord, host: Seq<char>, t: DnsRecordType) -> bool {
    r.record_type as int == type_number(t) && lower(r.host@) == lower(host)
}

/// Position of the first such record.
pub open spec fn dnsla_record_index(records: Seq<DnsLaRecord>, host: Seq<char>, t: DnsRecordType) -> Option<int>
    decreases records.len(),
{
    if records.len() == 0 {
        None
    } else {
        match dnsla_record_index(records.drop_last(), host, t) {
            Some(i) => Some(i),
            None => if dnsla_record_is(records.last(), host, t) { Some(records.len() - 1) } else { None },
        }
    }
}

/// The body of a modification.
pub open spec fn modify_body(id: Seq<char>, host: Seq<char>, t: DnsRecordType, ip: Seq<char>, ttl: Option<u32>) -> Json {
    Json::Object(seq![("Id"@, Json::Str(id))]
        .push(("Host"@, Json::Str(host)))
        .push(("Type"@, Json::Int(type_number(t))))
        .push(("Data"@, Json::Str(ip)))
        .push(("TTL"@, Json::Int(dnsla_ttl(ttl)))))
}

/// The body of a creation.
pub open spec fn create_body(root: Seq<char>, host: Seq<char>, t: DnsRecordType, ip: Seq<char>, ttl: Option<u32>) -> Json {
    Json::Object(seq![("Domain"@, Json::Str(root))]
        .push(("Host"@, Json::Str(host)))
        .push(("Type"@, Json::Int(type_number(t))))
        .push(("Data"@, Json::Str(ip)))
        .push(("TTL"@, Json::Int(dnsla_ttl(ttl)))))
}

impl DnsLaProvider {
    /// A provider with the given API id and secret.
    pub fn new(api_id: String, api_secret: String) -> (r: Self)
        ensures r.api_id == api_id, r.api_secret == api_secret,
    {
        DnsLaProvider { api_id, api_secret }
    }

    /// The Authorization value: `Basic` and the base64 of `id:secret`.
    pub open spec fn authorization(&self) -> Seq<char> {
        "Basic "@ + base64_standard(vstd::utf8::encode_utf8(self.api_id@ + seq![':'] + self.api_secret@))
    }

    /// `req` is a request of the provider with these method, URL and body.
    pub open spec fn is_request(&self, req: HttpRequest, method: HttpMethod, url: Seq<char>, body: Option<Json>) -> bool {
        &&& req.method == method
        &&& req.url@ == url
        &&& req.headers@.len() == 2
        &&& req.headers@[0].0@ == "Authorization"@ && req.headers@[0].1@ == self.authorization()
        &&& req.headers@[1].0@ == "Content-Type"@ && req.headers@[1].1@ == "application/json;charset=utf-8"@
        &&& match body {
            Some(b) => req.body matches Some(t) && t@ == render(b),
            None => req.body is None,
        }
    }

    fn request(&self, method: HttpMethod, url: String, body: Option<JsonValue>) -> (r: HttpRequest)
        requires self.api_id@.len() + self.api_secret@.len() < usize::MAX / 16,
        ensures self.is_request(r, method, url@, match body { Some(b) => Some(deep(b)), None => None }),
    {
        let raw = joined(self.api_id.as_str(), ":", self.api_secret.as_str());
        proof {
            reveal_strlit(":");
            assert(raw@ =~= self.api_id@ + seq![':'] + self.api_secret@);
            lemma_utf8_len(raw@);
        }
        let encoded = base64_encode(raw.as_str().as_bytes());
        let mut headers: Vec<(String, String)> = Vec::new();
        headers.push(("Authorization".to_string(), with_prefix("Basic ", encoded.as_str())));
        headers.push(("Content-Type".to_string(), "application/json;charset=utf-8".to_string()));
        let text = match body {
            Some(b) => Some(b.to_text()),
            None => None,
        };
        HttpRequest { method, url, headers, body: text }
    }

    /// URL of the host's records of the type.
    pub open spec fn list_url(&self, root: Seq<char>, sub: Seq<char>, t: DnsRecordType) -> Seq<char> {
        dnsla_list_base() + "?domain="@ + root + "&host="@ + dnsla_host(sub) + "&type="@
            + signed_text(type_number(t)) + "&pageIndex=1&pageSize=100"@
    }

    /// The request for the host's records of the type.
    pub fn list_request(&self, domain: &ParsedDomain, record_type: DnsRecordType) -> (r: HttpRequest)
        requires self.api_id@.len() + self.api_secret@.len() < usize::MAX / 16,
        ensures self.is_request(r, HttpMethod::Get, self.list_url(domain.root_domain@, domain.sub_domain@, record_type), None),
    {
        let mut url: Vec<char> = Vec::new();
        append_str(&mut url, "https://api.dns.la/api/recordList");
        append_str(&mut url, "?domain=");
        append_str(&mut url, domain.root_domain.as_str());
        append_str(&mut url, "&host=");
        append_str(&mut url, domain.sub_domain_or_at());
        append_str(&mut url, "&type=");
        append_str(&mut url, signed_decimal_text(type_code(record_type) as i64).as_str());
        append_str(&mut url, "&pageIndex=1&pageSize=100");
        self.request(HttpMethod::Get, string_of(url.as_slice()), None)
    }

    /// The decision on the record list: an HTTP or API error, the record already holding
    /// the address, its modification, or a creation.
    pub fn on_list(
        &self,
        domain: &ParsedDomain,
        record_type: DnsRecordType,
        ip: &IpAddress,
        ttl: Option<u32>,
        reply: &HttpReply,
        parsed: Result<DnsLaListResp, String>,
    ) -> (r: SyncStep<bool>)
        requires self.api_id@.len() + self.api_secret@.len() < usize::MAX / 16,
        ensures
            !reply.success ==> (r matches SyncStep::Done(res)
                && is_api_error(res, reply.status@, "DNS.LA 查询解析记录失败: "@ + reply.body@)),
            reply.success ==> match parsed {
                Err(e) => r == SyncStep::<bool>::Done(Err(DnsProviderError::Json(e))),
                Ok(list) => if list.code != 200 {
                    r matches SyncStep::Done(res) && is_api_error(res, signed_text(list.code as int),
                        match list.msg { Some(m) => m@, None => "DNS.LA 查询失败"@ })
                } else {
                    let host = dnsla_host(domain.sub_domain@);
                    let full = full_name(domain.sub_domain@, domain.root_domain@);
                    match dnsla_record_index(list.records@, host, record_type) {
                        Some(i) => if list.records@[i].data@ == ip_text(*ip) {
                            r matches SyncStep::Done(Ok(res))
                                && res.is(full, record_type, ip_text(*ip), SyncStatus::Unchanged, unchanged_message())
                        } else {
                            r matches SyncStep::Send(req, false) && self.is_request(req, HttpMethod::Put, dnsla_record_url(),
                                Some(modify_body(list.records@[i].id@, host, record_type, ip_text(*ip), ttl)))
                        },
                        None => r matches SyncStep::Send(req, true) && self.is_request(req, HttpMethod::Post, dnsla_record_url(),
                            Some(create_body(domain.root_domain@, host, record_type, ip_text(*ip), ttl))),
                    }
                },
            },
    {
        if !reply.success {
            return SyncStep::Done(Err(DnsProviderError::ApiError {
                code: reply.status.clone(),
                message: with_prefix("DNS.LA 查询解析记录失败: ", reply.body.as_str()),
            }));
        }
        let list = match parsed {
            Err(e) => { return SyncStep::Done(Err(DnsProviderError::Json(e))); },
            Ok(l) => l,
        };
        if list.code != 200 {
            let message = match list.msg {
                Some(m) => m,
                None => "DNS.LA 查询失败".to_string(),
            };
            return SyncStep::Done(Err(DnsProviderError::ApiError { code: signed_decimal_text(list.code as i64), message }));
        }
        let host = domain.sub_domain_or_at().to_string();
        let full = domain.full_domain();
        let target = ip.to_text();
        let tn = type_code(record_type);
        let mut i: usize = 0;
        while i < list.records.len()
            invariant
                i <= list.records@.len(),
                reply.success,
                parsed == Ok::<DnsLaListResp, String>(list),
                list.code == 200,
                self.api_id@.len() + self.api_secret@.len() < usize::MAX / 16,
                host@ == dnsla_host(domain.sub_domain@),
                full@ == full_name(domain.sub_domain@, domain.root_domain@),
                target@ == ip_text(*ip),
                tn as int == type_number(record_type),
                dnsla_record_index(list.records@.take(i as int), host@, record_type) is None,
            decreases list.records@.len() - i,
        {
            assert(list.records@.take(i + 1).drop_last() =~= list.records@.take(i as int));
            let rec = &list.records[i];
            if rec.record_type == tn && eq_ignore_case(rec.host.as_str(), host.as_str()) {
                proof { lemma_record_prefix(list.records@, host@, record_type, i as int); }
                if eq_exact(rec.data.as_str(), target.as_str()) {
                    return SyncStep::Done(Ok(SyncRecordResult::unchanged(full.as_str(), record_type, target.as_str())));
                }
                let mut body: Vec<(String, JsonValue)> = Vec::new();
                push_member(&mut body, "Id", JsonValue::Str(rec.id.clone()));
                push_member(&mut body, "Host", JsonValue::Str(host));
                push_member(&mut body, "Type", JsonValue::Int(tn as i64));
                push_member(&mut body, "Data", JsonValue::Str(target));
                push_member(&mut body, "TTL", JsonValue::Int(ttl_value(ttl)));
                let req = self.request(HttpMethod::Put, "https://api.dns.la/api/record".to_string(), Some(JsonValue::object(body)));
                return SyncStep::Send(req, false);
            }
            i = i + 1;
        }
        assert(list.records@.take(list.records@.len() as int) =~= list.records@);
        let mut body: Vec<(String, JsonValue)> = Vec::new();
        push_member(&mut body, "Domain", JsonValue::Str(domain.root_domain.clone()));
        push_member(&mut body, "Host", JsonValue::Str(host));
        push_member(&mut body, "Type", JsonValue::Int(tn as i64));
        push_member(&mut body, "Data", JsonValue::Str(target));
        push_member(&mut body, "TTL", JsonValue::Int(ttl_value(ttl)));
        let req = self.request(HttpMethod::Post, "https://api.dns.la/api/record".to_string(), Some(JsonValue::object(body)));
        SyncStep::Send(req, true)
    }

    /// The outcome of the modification or creation (`created`): the reply's code, or,
    /// where the reply is not the expected JSON, code -1 with the body as message.
    pub fn on_write(
        &self,
        created: bool,
        domain: &ParsedDomain,
        record_type: DnsRecordType,
        ip: &IpAddress,
        body: &str,
        parsed: Option<DnsLaActionResp>,
    ) -> (r: Result<SyncRecordResult, DnsProviderError>)
        ensures
            ({
                let (code, msg) = match parsed { Some(a) => (a.code as int, a.msg), None => (-1int, None) };
                let detail = match msg { Some(m) => m@, None => body@ };
                if code == 200 {
                    if created {
                        r matches Ok(res) && res.is(full_name(domain.sub_domain@, domain.root_domain@), record_type,
                            ip_text(*ip), SyncStatus::Created, "解析记录创建成功"@)
                    } else {
                        r matches Ok(res) && res.is(full_name(domain.sub_domain@, domain.root_domain@), record_type,
                            ip_text(*ip), SyncStatus::Updated, updated_message())
                    }
                } else if created {
                    is_api_error(r, signed_text(code), "DNS.LA 创建记录失败: "@ + detail)
                } else {
                    is_api_error(r, signed_text(code), "DNS.LA 更新记录失败: "@ + detail)
                }
            }),
    {
        let (code, msg): (i32, Option<String>) = match parsed {
            Some(a) => (a.code, a.msg),
            None => (-1, None),
        };
        if code == 200 {
            let full = domain.full_domain();
            let target = ip.to_text();
            if created {
                Ok(SyncRecordResult {
                    domain: full,
                    record_type,
                    target_ip: target,
                    status: SyncStatus::Created,
                    message: "解析记录创建成功".to_string(),
                })
            } else {
                Ok(SyncRecordResult::updated(full.as_str(), record_type, target.as_str()))
            }
        } else {
            let detail = match msg {
                Some(m) => m,
                None => body.to_string(),
            };
            let prefix = if created { "DNS.LA 创建记录失败: " } else { "DNS.LA 更新记录失败: " };
            Err(DnsProviderError::ApiError { code: signed_decimal_text(code as i64), message: with_prefix(prefix, detail.as_str()) })
        }
    }
}

fn type_code(t: DnsRecordType) -> (r: i32)
    ensures r as int == type_number(t),
{
    match t {
        DnsRecordType::A => 1,
        DnsRecordType::AAAA => 28,
    }
}

fn ttl_value(ttl: Option<u32>) -> (r: i64)
    ensures r as int == dnsla_ttl(ttl),
{
    let t: u32 = match ttl { Some(v) => v, None => 600 };
    if t < 1 { 1 } else { t as i64 }
}

proof fn lemma_record_prefix(records: Seq<DnsLaRecord>, host: Seq<char>, t: DnsRecordType, i: int)
    requires
        0 <= i < records.len(),
        dnsla_record_index(records.take(i), host, t) is None,
        dnsla_record_is(records[i], host, t),
    ensures dnsla_record_index(records, host, t) == Some(i),
    decreases records.len() - i,
{
    if i == records.len() - 1 {
        assert(records.drop_last() =~= records.take(i));
    } else {
        assert(records.drop_last().take(i) =~= records.take(i));
        lemma_record_prefix(records.drop_last(), host, t, i);
    }
}

} // verus!
