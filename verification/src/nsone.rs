//! IBM NS1 Connect: check the zone, read the record, then update it (POST) or create it
//! (PUT).
use vstd::prelude::*;
use crate::cloudflare::{header_value_ok, is_header_value};
use crate::domain::{ParsedDomain, full_name};
use crate::engine::{IpAddress, ip_text};
use crate::json::{Json, JsonValue, deep, push_item, push_member, render};
use crate::providers::{DnsProviderError, HttpMethod, HttpReply, HttpRequest, SyncStep, is_api_error, joined, with_prefix};
use crate::records::{DnsRecordType, SyncRecordResult, SyncStatus, record_type_name, sanitize_sensitive_url_params,
    sanitized, unchanged_message, updated_message};
use crate::text::{append_str, blank, chars_of, eq_exact, is_blank, string_of, trim, trim_chars};

verus! {

broadcast use vstd::string::group_string_axioms;

/// Base of the zones API.
pub open spec fn nsone_base() -> Seq<char> {
    "https://api.nsone.net/v1/zones"@
}

/// The status line of a 404 answer, as `StatusCode` writes it.
pub open spec fn not_found_status() -> Seq<char> {
    "404 Not Found"@
}

/// NS1 credentials: the API key, trimmed.
pub struct NsOneProvider {
    pub api_key: String,
}

/// One answer of a record.
#[derive(Debug, Clone)]
pub struct NsOneAnswer {
    pub answer: Vec<String>,
}

/// A record as NS1 returns it.
#[derive(Debug, Clone)]
pub struct NsOneRecordResp {
    pub answers: Option<Vec<NsOneAnswer>>,
}

/// Where an NS1 synchronisation stands.
#[derive(Debug, Clone, PartialEq)]
pub enum NsOneState {
    /// The zone was asked for.
    ZoneCheck,
    /// The record was asked for.
    RecordLookup,
    /// The record was updated (`update`) or created.
    Write { update: bool },
}

/// The first value of the record's first answer.
pub open spec fn nsone_current(r: NsOneRecordResp) -> Option<Seq<char>> {
    match r.answers {
        Some(a) => if a@.len() > 0 && a@[0].answer@.len() > 0 { Some(a@[0].answer@[0]@) } else { None },
        None => None,
    }
}

/// The TTL sent: the given one or 60, at least 1.
pub open spec fn nsone_ttl(ttl: Option<u32>) -> int {
    let t: int = match ttl { Some(v) => v as int, None => 60 };
    if t < 1 { 1 } else { t }
}

/// URL of the record of a name and type.
pub open spec fn nsone_record_url(root: Seq<char>, full: Seq<char>, t: DnsRecordType) -> Seq<char> {
    nsone_base() + "/"@ + root + "/"@ + full + "/"@ + record_type_name(t)
}

/// The record sent: zone, name, type, TTL and the address as the one answer.
pub open spec fn nsone_body(root: Seq<char>, full: Seq<char>, t: DnsRecordType, ip: Seq<char>, ttl: Option<u32>) -> Json {
    Json::Object(seq![("zone"@, Json::Str(root))]
        .push(("domain"@, Json::Str(full)))
        .push(("type"@, Json::Str(record_type_name(t))))
        .push(("ttl"@, Json::Int(nsone_ttl(ttl))))
        .push(("answers"@, Json::Array(seq![Json::Object(seq![("answer"@, Json::Array(seq![Json::Str(ip)]))])]))))
}

impl NsOneProvider {
    /// A provider for an API key: refused where the key is blank or cannot be a header value.
    pub fn new(api_key: String) -> (r: Result<Self, DnsProviderError>)
        ensures
            is_blank(api_key@) ==> (r matches Err(DnsProviderError::MissingCredentials(m))
                && m@ == "IBM NS1 Connect 需要配置 API Key (Secret)"@),
            !is_blank(api_key@) && !header_value_ok(trim(api_key@)) ==> (r matches Err(DnsProviderError::MissingCredentials(m))
                && m@ == "无效的 NS1 API Key: failed to parse header value"@),
            !is_blank(api_key@) && header_value_ok(trim(api_key@)) ==> (r matches Ok(p) && p.api_key@ == trim(api_key@)),
    {
        if blank(api_key.as_str()) {
            return Err(DnsProviderError::MissingCredentials("IBM NS1 Connect 需要配置 API Key (Secret)".to_string()));
        }
        let k = trim_chars(chars_of(api_key.as_str()).as_slice());
        if !is_header_value(k.as_slice()) {
            return Err(DnsProviderError::MissingCredentials("无效的 NS1 API Key: failed to parse header value".to_string()));
        }
        Ok(NsOneProvider { api_key: string_of(k.as_slice()) })
    }

    /// `req` is a request of the provider: JSON type and key headers, this method, URL and body.
    pub open spec fn is_request(&self, req: HttpRequest, method: HttpMethod, url: Seq<char>, body: Option<Json>) -> bool {
        &&& req.method == method
        &&& req.url@ == url
        &&& req.headers@.len() == 2
        &&& req.headers@[0].0@ == "Content-Type"@ && req.headers@[0].1@ == "application/json"@
        &&& req.headers@[1].0@ == "X-NSONE-Key"@ && req.headers@[1].1@ == self.api_key@
        &&& match body {
            Some(b) => req.body matches Some(t) && t@ == render(b),
            None => req.body is None,
        }
    }

    fn request(&self, method: HttpMethod, url: String, body: Option<JsonValue>) -> (r: HttpRequest)
        ensures self.is_request(r, method, url@, match body { Some(b) => Some(deep(b)), None => None }),
    {
        let mut headers: Vec<(String, String)> = Vec::new();
        headers.push(("Content-Type".to_string(), "application/json".to_string()));
        headers.push(("X-NSONE-Key".to_string(), self.api_key.clone()));
        let text = match body {
            Some(b) => Some(b.to_text()),
            None => None,
        };
        HttpRequest { method, url, headers, body: text }
    }

    fn record_url(domain: &ParsedDomain, t: DnsRecordType) -> (r: String)
        ensures r@ == nsone_record_url(domain.root_domain@, full_name(domain.sub_domain@, domain.root_domain@), t),
    {
        let mut v: Vec<char> = Vec::new();
        append_str(&mut v, "https://api.nsone.net/v1/zones");
        append_str(&mut v, "/");
        append_str(&mut v, domain.root_domain.as_str());
        append_str(&mut v, "/");
        append_str(&mut v, domain.full_domain().as_str());
        append_str(&mut v, "/");
        append_str(&mut v, t.as_str());
        string_of(v.as_slice())
    }

    /// The first request: the zone of the root domain, without its records.
    pub fn start(&self, domain: &ParsedDomain) -> (r: (HttpRequest, NsOneState))
        ensures
            self.is_request(r.0, HttpMethod::Get, nsone_base() + "/"@ + domain.root_domain@ + "?records=false"@, None),
            r.1 == NsOneState::ZoneCheck,
    {
        let mut v: Vec<char> = Vec::new();
        append_str(&mut v, "https://api.nsone.net/v1/zones");
        append_str(&mut v, "/");
        append_str(&mut v, domain.root_domain.as_str());
        append_str(&mut v, "?records=false");
        (self.request(HttpMethod::Get, string_of(v.as_slice()), None), NsOneState::ZoneCheck)
    }

    /// The decision on the zone (`parsed`: `Err` with the client's message where the body
    /// could not be read as a zone): a 404 means no zone; another failure is an error;
    /// otherwise the record is asked for.
    pub fn on_zone(&self, domain: &ParsedDomain, record_type: DnsRecordType, reply: &HttpReply, parsed: Result<(), String>)
        -> (r: SyncStep<NsOneState>)
        ensures
            reply.status@ == not_found_status() ==> (r matches SyncStep::Done(Err(DnsProviderError::ZoneNotFound(m)))
                && m@ == "在 IBM NS1 Connect 中未找到根域名 ["@ + domain.root_domain@ + "]"@),
            reply.status@ != not_found_status() && !reply.success ==> (r matches SyncStep::Done(res)
                && is_api_error(res, "ZoneCheckFailed"@, "查询 Zone 失败: "@ + reply.body@)),
            reply.status@ != not_found_status() && reply.success ==> match parsed {
                Err(e) => r matches SyncStep::Done(Err(DnsProviderError::Http(m))) && m@ == sanitized(e@),
                Ok(_) => r matches SyncStep::Send(req, NsOneState::RecordLookup) && self.is_request(req, HttpMethod::Get,
                    nsone_record_url(domain.root_domain@, full_name(domain.sub_domain@, domain.root_domain@), record_type)
                        + "?records=false"@, None),
            },
    {
        if eq_exact(reply.status.as_str(), "404 Not Found") {
            return SyncStep::Done(Err(DnsProviderError::ZoneNotFound(
                joined("在 IBM NS1 Connect 中未找到根域名 [", domain.root_domain.as_str(), "]"),
            )));
        }
        if !reply.success {
            return SyncStep::Done(Err(DnsProviderError::ApiError {
                code: "ZoneCheckFailed".to_string(),
                message: with_prefix("查询 Zone 失败: ", reply.body.as_str()),
            }));
        }
        match parsed {
            Err(e) => SyncStep::Done(Err(DnsProviderError::Http(sanitize_sensitive_url_params(e.as_str())))),
            Ok(_) => {
                let url = with_prefix(Self::record_url(domain, record_type).as_str(), "?records=false");
                SyncStep::Send(self.request(HttpMethod::Get, url, None), NsOneState::RecordLookup)
            },
        }
    }

    /// The decision on the record (`parsed` as for the zone): a 404 means the record is to
    /// be created; another failure is an error; a record whose first answer is the address
    /// is unchanged, any other is updated.
    pub fn on_record(
        &self,
        domain: &ParsedDomain,
        record_type: DnsRecordType,
        ip: &IpAddress,
        ttl: Option<u32>,
        reply: &HttpReply,
        parsed: Result<NsOneRecordResp, String>,
    ) -> (r: SyncStep<NsOneState>)
        ensures
            ({
                let full = full_name(domain.sub_domain@, domain.root_domain@);
                let url = nsone_record_url(domain.root_domain@, full, record_type);
                let body = nsone_body(domain.root_domain@, full, record_type, ip_text(*ip), ttl);
                if reply.status@ == not_found_status() {
                    r matches SyncStep::Send(req, NsOneState::Write { update: false })
                        && self.is_request(req, HttpMethod::Put, url, Some(body))
                } else if !reply.success {
                    r matches SyncStep::Done(res) && is_api_error(res, reply.status@, "查询 NS1 记录失败: "@ + reply.body@)
                } else {
                    match parsed {
                        Err(e) => r matches SyncStep::Done(Err(DnsProviderError::Http(m))) && m@ == sanitized(e@),
                        Ok(rec) => if nsone_current(rec) == Some(ip_text(*ip)) {
                            r matches SyncStep::Done(Ok(res))
                                && res.is(full, record_type, ip_text(*ip), SyncStatus::Unchanged, unchanged_message())
                        } else {
                            r matches SyncStep::Send(req, NsOneState::Write { update: true })
                                && self.is_request(req, HttpMethod::Post, url, Some(body))
                        },
                    }
                }
            }),
    {
        let full = domain.full_domain();
        let target = ip.to_text();
        let t: u32 = match ttl { Some(v) => v, None => 60 };
        let ttl_val: u32 = if t < 1 { 1 } else { t };
        let mut answer: Vec<JsonValue> = Vec::new();
        push_item(&mut answer, JsonValue::Str(target.clone()));
        let mut one: Vec<(String, JsonValue)> = Vec::new();
        push_member(&mut one, "answer", JsonValue::array(answer));
        let mut answers: Vec<JsonValue> = Vec::new();
        push_item(&mut answers, JsonValue::object(one));
        let mut body: Vec<(String, JsonValue)> = Vec::new();
        push_member(&mut body, "zone", JsonValue::Str(domain.root_domain.clone()));
        push_member(&mut body, "domain", JsonValue::Str(full.clone()));
        push_member(&mut body, "type", JsonValue::text(record_type.as_str()));
        push_member(&mut body, "ttl", JsonValue::UInt(ttl_val as u64));
        push_member(&mut body, "answers", JsonValue::array(answers));
        let payload = JsonValue::object(body);
        if eq_exact(reply.status.as_str(), "404 Not Found") {
            let req = self.request(HttpMethod::Put, Self::record_url(domain, record_type), Some(payload));
            return SyncStep::Send(req, NsOneState::Write { update: false });
        }
        if !reply.success {
            return SyncStep::Done(Err(DnsProviderError::ApiError {
                code: reply.status.clone(),
                message: with_prefix("查询 NS1 记录失败: ", reply.body.as_str()),
            }));
        }
        let rec = match parsed {
            Err(e) => { return SyncStep::Done(Err(DnsProviderError::Http(sanitize_sensitive_url_params(e.as_str())))); },
            Ok(r) => r,
        };
        let same = match &rec.answers {
            Some(a) => if a.len() > 0 && a[0].answer.len() > 0 { eq_exact(a[0].answer[0].as_str(), target.as_str()) } else { false },
            None => false,
        };
        if same {
            return SyncStep::Done(Ok(SyncRecordResult::unchanged(full.as_str(), record_type, target.as_str())));
        }
        let req = self.request(HttpMethod::Post, Self::record_url(domain, record_type), Some(payload));
        SyncStep::Send(req, NsOneState::Write { update: true })
    }

    /// The outcome of the update (`update`) or creation.
    pub fn on_write(&self, update: bool, domain: &ParsedDomain, record_type: DnsRecordType, ip: &IpAddress,
        reply: &HttpReply) -> (r: Result<SyncRecordResult, DnsProviderError>)
        ensures
            reply.success ==> (r matches Ok(res) && res.is(full_name(domain.sub_domain@, domain.root_domain@),
                record_type, ip_text(*ip), if update { SyncStatus::Updated } else { SyncStatus::Created },
                if update { updated_message() } else { "解析记录创建成功"@ })),
            !reply.success ==> is_api_error(r, reply.status@,
                (if update { "NS1 更新记录失败: "@ } else { "NS1 创建记录失败: "@ }) + reply.body@),
    {
        if !reply.success {
            let prefix = if update { "NS1 更新记录失败: " } else { "NS1 创建记录失败: " };
            return Err(DnsProviderError::ApiError { code: reply.status.clone(), message: with_prefix(prefix, reply.body.as_str()) });
        }
        let full = domain.full_domain();
        let target = ip.to_text();
        if update {
            Ok(SyncRecordResult::updated(full.as_str(), record_type, target.as_str()))
        } else {
            Ok(SyncRecordResult {
                domain: full,
                record_type,
                target_ip: target,
                status: SyncStatus::Created,
                message: "解析记录创建成功".to_string(),
            })
        }
    }
}

} // verus!
