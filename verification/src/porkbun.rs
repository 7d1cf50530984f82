//! Porkbun: look the record up by name and type, then edit it or create it.
use vstd::prelude::*;
use crate::domain::{ParsedDomain, full_name, is_root_label};
use crate::engine::{IpAddress, ip_text};
use crate::json::{Json, JsonValue, deep, push_member};
use crate::net::{dec_text, decimal_text};
use crate::providers::{DnsProviderError, HttpMethod, HttpReply, HttpRequest, SyncStep, is_json_request, json_request, with_prefix};
use crate::records::{DnsRecordType, SyncRecordResult, SyncStatus, record_type_name, unchanged_message, updated_message};
use crate::text::{append_str, chars_of, eq_exact, eq_ignore_case, lower, string_of};

verus! {

broadcast use vstd::string::group_string_axioms;

/// Base of the Porkbun DNS API.
pub open spec fn porkbun_endpoint() -> Seq<char> {
    "https://api.porkbun.com/api/json/v3/dns"@
}

/// A record as the lookup returns it.
#[derive(Debug, Clone)]
pub struct PorkbunRecord {
    pub record_type: Option<String>,
    pub content: Option<String>,
}

/// The lookup's reply.
#[derive(Debug, Clone)]
pub struct PorkbunQueryResponse {
    pub status: String,
    pub message: Option<String>,
    pub records: Option<Vec<PorkbunRecord>>,
}

/// The reply to an edit or a creation.
#[derive(Debug, Clone)]
pub struct PorkbunBaseResponse {
    pub status: String,
    pub message: Option<String>,
}

/// Which write follows the lookup.
#[derive(Debug, Clone, Copy, PartialEq, Eq, Structural)]
pub enum PorkbunWrite {
    Edit,
    Create,
}

/// Porkbun credentials.
pub struct PorkbunProvider {
    pub api_key: String,
    pub secret_key: String,
}

/// The host part used in paths and as the record name: empty for the root.
pub open spec fn porkbun_name(sub: Seq<char>) -> Seq<char> {
    if is_root_label(sub) { Seq::empty() } else { sub }
}

/// `/{action}/{root}/{type}` with `/{name}` where the name is not empty.
pub open spec fn porkbun_name_type_url(action: Seq<char>, root: Seq<char>, t: DnsRecordType, sub: Seq<char>) -> Seq<char> {
    let base = porkbun_endpoint() + "/"@ + action + "/"@ + root + "/"@ + record_type_name(t);
    if porkbun_name(sub).len() == 0 { base } else { base + "/"@ + porkbun_name(sub) }
}

/// The TTL sent: the given one or 600, and never below 600.
pub open spec fn porkbun_ttl(ttl: Option<u32>) -> nat {
    let t: nat = match ttl { Some(v) => v as nat, None => 600 };
    if t < 600 { 600 } else { t }
}

/// The first record of a lookup, where there is one.
pub open spec fn first_record(q: PorkbunQueryResponse) -> Option<PorkbunRecord> {
    match q.records {
        Some(rs) => if rs@.len() > 0 { Some(rs@[0]) } else { None },
        None => None,
    }
}

/// The record's content is the address.
pub open spec fn holds_address(rec: PorkbunRecord, ip: Seq<char>) -> bool {
    rec.content matches Some(c) && c@ == ip
}

/// `"success"` in any case.
pub open spec fn is_success_status(s: Seq<char>) -> bool {
    lower(s) == lower("SUCCESS"@)
}

impl PorkbunProvider {
    /// A provider with the given API keys.
    pub fn new(api_key: String, secret_key: String) -> (r: Self)
        ensures r.api_key == api_key, r.secret_key == secret_key,
    {
        PorkbunProvider { api_key, secret_key }
    }

    /// The credentials object.
    pub open spec fn auth_members(&self) -> Seq<(Seq<char>, Json)> {
        seq![("apikey"@, Json::Str(self.api_key@))].push(("secretapikey"@, Json::Str(self.secret_key@)))
    }

    fn auth_payload(&self) -> (r: Vec<(String, JsonValue)>)
        ensures crate::json::deep_members(r@) == self.auth_members(),
    {
        let mut m: Vec<(String, JsonValue)> = Vec::new();
        push_member(&mut m, "apikey", JsonValue::Str(self.api_key.clone()));
        push_member(&mut m, "secretapikey", JsonValue::Str(self.secret_key.clone()));
        m
    }

    /// The body of an edit.
    pub open spec fn edit_body(&self, ip: Seq<char>, ttl: Option<u32>) -> Json {
        Json::Object(self.auth_members()
            .push(("content"@, Json::Str(ip)))
            .push(("ttl"@, Json::Str(dec_text(porkbun_ttl(ttl))))))
    }

    /// The body of a creation.
    pub open spec fn create_body(&self, sub: Seq<char>, t: DnsRecordType, ip: Seq<char>, ttl: Option<u32>) -> Json {
        Json::Object(self.auth_members()
            .push(("name"@, Json::Str(porkbun_name(sub))))
            .push(("type"@, Json::Str(record_type_name(t))))
            .push(("content"@, Json::Str(ip)))
            .push(("ttl"@, Json::Str(dec_text(porkbun_ttl(ttl))))))
    }

    /// The lookup of the record by name and type.
    pub fn query_request(&self, domain: &ParsedDomain, record_type: DnsRecordType) -> (r: HttpRequest)
        ensures
            is_json_request(r, HttpMethod::Post,
                porkbun_name_type_url("retrieveByNameType"@, domain.root_domain@, record_type, domain.sub_domain@),
                Json::Object(self.auth_members())),
    {
        let url = name_type_url("retrieveByNameType", domain, record_type);
        json_request(HttpMethod::Post, url, &JsonValue::object(self.auth_payload()))
    }

    /// The decision on the lookup's reply: an HTTP or API error, the record already
    /// holding the address, or the edit of the first record found, or else a creation.
    pub fn on_query(
        &self,
        domain: &ParsedDomain,
        record_type: DnsRecordType,
        ip: &IpAddress,
        ttl: Option<u32>,
        reply: &HttpReply,
        parsed: Result<PorkbunQueryResponse, String>,
    ) -> (r: SyncStep<PorkbunWrite>)
        ensures
            !reply.success ==> (r matches SyncStep::Done(Err(DnsProviderError::ApiError { code, message }))
                && code == reply.status && message@ == "Porkbun 查询记录 HTTP 错误: "@ + reply.body@),
            reply.success ==> match parsed {
                Err(e) => r == SyncStep::<PorkbunWrite>::Done(Err(DnsProviderError::Json(e))),
                Ok(q) => if !is_success_status(q.status@) {
                    r matches SyncStep::Done(Err(DnsProviderError::ApiError { code, message }))
                        && code == q.status
                        && message@ == match q.message { Some(m) => m@, None => "查询 Porkbun 解析记录失败"@ }
                } else if first_record(q) is Some {
                    if holds_address(first_record(q)->0, ip_text(*ip)) {
                        r matches SyncStep::Done(Ok(res)) && res.is(
                            full_name(domain.sub_domain@, domain.root_domain@), record_type, ip_text(*ip),
                            SyncStatus::Unchanged, unchanged_message())
                    } else {
                        r matches SyncStep::Send(req, PorkbunWrite::Edit) && is_json_request(req, HttpMethod::Post,
                            porkbun_name_type_url("editByNameType"@, domain.root_domain@, record_type, domain.sub_domain@),
                            self.edit_body(ip_text(*ip), ttl))
                    }
                } else {
                    r matches SyncStep::Send(req, PorkbunWrite::Create) && is_json_request(req, HttpMethod::Post,
                        porkbun_endpoint() + "/create/"@ + domain.root_domain@,
                        self.create_body(domain.sub_domain@, record_type, ip_text(*ip), ttl))
                },
            },
    {
        if !reply.success {
            return SyncStep::Done(Err(DnsProviderError::ApiError {
                code: reply.status.clone(),
                message: with_prefix("Porkbun 查询记录 HTTP 错误: ", reply.body.as_str()),
            }));
        }
        let q = match parsed {
            Err(e) => { return SyncStep::Done(Err(DnsProviderError::Json(e))); },
            Ok(q) => q,
        };
        if !eq_ignore_case(q.status.as_str(), "SUCCESS") {
            let message = match q.message {
                Some(m) => m,
                None => "查询 Porkbun 解析记录失败".to_string(),
            };
            return SyncStep::Done(Err(DnsProviderError::ApiError { code: q.status, message }));
        }
        let target = ip.to_text();
        let has_first = match &q.records {
            Some(rs) => rs.len() > 0,
            None => false,
        };
        if has_first {
            let rs = q.records.unwrap();
            let same = match &rs[0].content {
                Some(c) => eq_exact(c.as_str(), target.as_str()),
                None => false,
            };
            if same {
                let full = domain.full_domain();
                return SyncStep::Done(Ok(SyncRecordResult::unchanged(full.as_str(), record_type, target.as_str())));
            }
            let url = name_type_url("editByNameType", domain, record_type);
            let mut body = self.auth_payload();
            push_member(&mut body, "content", JsonValue::Str(target));
            push_member(&mut body, "ttl", JsonValue::Str(ttl_text(ttl)));
            SyncStep::Send(json_request(HttpMethod::Post, url, &JsonValue::object(body)), PorkbunWrite::Edit)
        } else {
            let mut url: Vec<char> = Vec::new();
            append_str(&mut url, "https://api.porkbun.com/api/json/v3/dns");
            append_str(&mut url, "/create/");
            append_str(&mut url, domain.root_domain.as_str());
            let mut body = self.auth_payload();
            push_member(&mut body, "name", JsonValue::Str(name_of(domain)));
            push_member(&mut body, "type", JsonValue::text(record_type.as_str()));
            push_member(&mut body, "content", JsonValue::Str(target));
            push_member(&mut body, "ttl", JsonValue::Str(ttl_text(ttl)));
            SyncStep::Send(
                json_request(HttpMethod::Post, string_of(url.as_slice()), &JsonValue::object(body)),
                PorkbunWrite::Create,
            )
        }
    }

    /// The outcome of the edit or creation.
    pub fn on_write(
        &self,
        write: PorkbunWrite,
        domain: &ParsedDomain,
        record_type: DnsRecordType,
        ip: &IpAddress,
        reply: &HttpReply,
        parsed: Result<PorkbunBaseResponse, String>,
    ) -> (r: Result<SyncRecordResult, DnsProviderError>)
        ensures
            !reply.success ==> (r matches Err(DnsProviderError::ApiError { code, message })
                && code == reply.status && message@ == write_http_error(write) + reply.body@),
            reply.success ==> match parsed {
                Err(e) => r == Err::<SyncRecordResult, DnsProviderError>(DnsProviderError::Json(e)),
                Ok(b) => if is_success_status(b.status@) {
                    r matches Ok(res) && res.is(full_name(domain.sub_domain@, domain.root_domain@), record_type,
                        ip_text(*ip), write_status(write), write_message(write))
                } else {
                    r matches Err(DnsProviderError::ApiError { code, message }) && code == b.status
                        && message@ == match b.message { Some(m) => m@, None => write_api_error(write) }
                },
            },
    {
        if !reply.success {
            let prefix = match write {
                PorkbunWrite::Edit => "Porkbun 更新记录 HTTP 错误: ",
                PorkbunWrite::Create => "Porkbun 创建记录 HTTP 错误: ",
            };
            return Err(DnsProviderError::ApiError {
                code: reply.status.clone(),
                message: with_prefix(prefix, reply.body.as_str()),
            });
        }
        let b = match parsed {
            Err(e) => { return Err(DnsProviderError::Json(e)); },
            Ok(b) => b,
        };
        if eq_ignore_case(b.status.as_str(), "SUCCESS") {
            let full = domain.full_domain();
            let target = ip.to_text();
            let (status, message) = match write {
                PorkbunWrite::Edit => (SyncStatus::Updated, "记录更新成功"),
                PorkbunWrite::Create => (SyncStatus::Created, "解析记录创建成功"),
            };
            Ok(SyncRecordResult {
                domain: full,
                record_type,
                target_ip: target,
                status,
                message: message.to_string(),
            })
        } else {
            let message = match b.message {
                Some(m) => m,
                None => match write {
                    PorkbunWrite::Edit => "更新 Porkbun 记录失败".to_string(),
                    PorkbunWrite::Create => "新增 Porkbun 记录失败".to_string(),
                },
            };
            Err(DnsProviderError::ApiError { code: b.status, message })
        }
    }
}

/// Prefix of the HTTP error of a write.
pub open spec fn write_http_error(w: PorkbunWrite) -> Seq<char> {
    match w {
        PorkbunWrite::Edit => "Porkbun 更新记录 HTTP 错误: "@,
        PorkbunWrite::Create => "Porkbun 创建记录 HTTP 错误: "@,
    }
}

/// Message of a refused write without one from the API.
pub open spec fn write_api_error(w: PorkbunWrite) -> Seq<char> {
    match w {
        PorkbunWrite::Edit => "更新 Porkbun 记录失败"@,
        PorkbunWrite::Create => "新增 Porkbun 记录失败"@,
    }
}

/// Status of a successful write.
pub open spec fn write_status(w: PorkbunWrite) -> SyncStatus {
    match w {
        PorkbunWrite::Edit => SyncStatus::Updated,
        PorkbunWrite::Create => SyncStatus::Created,
    }
}

/// Message of a successful write.
pub open spec fn write_message(w: PorkbunWrite) -> Seq<char> {
    match w {
        PorkbunWrite::Edit => updated_message(),
        PorkbunWrite::Create => "解析记录创建成功"@,
    }
}

fn name_of(domain: &ParsedDomain) -> (r: String)
    ensures r@ == porkbun_name(domain.sub_domain@),
{
    let sc = chars_of(domain.sub_domain.as_str());
    if sc.len() == 0 || (sc.len() == 1 && sc[0] == '@') {
        assert(is_root_label(domain.sub_domain@)) by {
            if sc@.len() == 1 { assert(sc@ =~= seq!['@']); }
        }
        String::new()
    } else {
        domain.sub_domain.clone()
    }
}

fn ttl_text(ttl: Option<u32>) -> (r: String)
    ensures r@ == dec_text(porkbun_ttl(ttl)),
{
    let t: u32 = match ttl { Some(v) => v, None => 600 };
    decimal_text(if t < 600 { 600 } else { t as u64 })
}

fn name_type_url(action: &str, domain: &ParsedDomain, record_type: DnsRecordType) -> (r: String)
    ensures r@ == porkbun_name_type_url(action@, domain.root_domain@, record_type, domain.sub_domain@),
{
    let mut v: Vec<char> = Vec::new();
    append_str(&mut v, "https://api.porkbun.com/api/json/v3/dns");
    append_str(&mut v, "/");
    append_str(&mut v, action);
    append_str(&mut v, "/");
    append_str(&mut v, domain.root_domain.as_str());
    append_str(&mut v, "/");
    append_str(&mut v, record_type.as_str());
    let ghost base = v@;
    proof {
        assert(base =~= porkbun_endpoint() + "/"@ + action@ + "/"@ + domain.root_domain@ + "/"@
            + record_type_name(record_type));
    }
    let name = name_of(domain);
    let nc = chars_of(name.as_str());
    if nc.len() > 0 {
        append_str(&mut v, "/");
        append_str(&mut v, name.as_str());
        assert(v@ =~= base + "/"@ + name@);
    }
    string_of(v.as_slice())
}

} // verus!
