//! Name.com: list the records of the domain, then update the name's record or create one.
use vstd::prelude::*;
use vstd::string::StringSliceAdditionalSpecFns;
use crate::crypto::{base64_encode, base64_standard};
use crate::domain::{ParsedDomain, full_name, is_root_label};
use crate::engine::{IpAddress, ip_text};
use crate::json::{Json, JsonValue, deep, push_member, render};
use crate::notify::{signed_decimal_text, signed_text};
use crate::providers::{DnsProviderError, HttpMethod, HttpReply, HttpRequest, SyncStep, is_api_error, joined, with_prefix};
use crate::records::{DnsRecordType, SyncRecordResult, SyncStatus, created_message, record_type_name, unchanged_message,
    updated_message};
use crate::text::{append_str, eq_exact, eq_ignore_case, lower, string_of};

verus! {

broadcast use vstd::string::group_string_axioms;

/// A record of the list.
#[derive(Debug, Clone)]
pub struct NameComRecordItem {
    pub id: i64,
    pub record_type: String,
    pub host: Option<String>,
    pub answer: String,
}

/// The record list.
#[derive(Debug, Clone)]
pub struct NameComListResp {
    pub records: Option<Vec<NameComRecordItem>>,
}

/// Name.com credentials.
pub struct NameComProvider {
    pub username: String,
    pub api_token: String,
}

/// Where a Name.com synchronisation stands.
#[derive(Debug, Clone, PartialEq)]
pub enum NameComState {
    /// The record list was asked for.
    Lookup,
    /// The record was updated (`update`) or created.
    Write { update: bool },
}

/// The host as Name.com names it: empty for the root.
pub open spec fn namecom_host(sub: Seq<char>) -> Seq<char> {
    if is_root_label(sub) { Seq::empty() } else { sub }
}

/// URL of the records of a domain.
pub open spec fn namecom_records_url(root: Seq<char>) -> Seq<char> {
    "https://api.name.com/core/v1/domains/"@ + root + "/records"@
}

/// The TTL sent: the given one or 300, at least 1.
pub open spec fn namecom_ttl(ttl: Option<u32>) -> int {
    let t: int = match ttl { Some(v) => v as int, None => 300 };
    if t < 1 { 1 } else { t }
}

/// The record sent.
pub open spec fn namecom_body(host: Seq<char>, t: DnsRecordType, ip: Seq<char>, ttl: Option<u32>) -> Json {
    Json::Object(seq![("answer"@, Json::Str(ip))]
        .push(("host"@, Json::Str(host)))
        .push(("ttl"@, Json::Int(namecom_ttl(ttl))))
        .push(("type"@, Json::Str(record_type_name(t)))))
}

/// The record is the name's record of the type: same type and host (ignoring ASCII
/// case), or `@` for the root.
pub open spec fn namecom_record_is(r: NameComRecordItem, host: Seq<char>, t: DnsRecordType) -> bool {
    &&& lower(r.record_type@) == lower(record_type_name(t))
    &&& lower(match r.host { Some(h) => h@, None => Seq::empty() }) == lower(host)
        || (host.len() == 0 && (r.host matches Some(h) && h@ == seq!['@']))
}

/// Position of the first such record.
pub open spec fn namecom_index(records: Seq<NameComRecordItem>, host: Seq<char>, t: DnsRecordType) -> Option<int>
    decreases records.len(),
{
    if records.len() == 0 {
        None
    } else {
        match namecom_index(records.drop_last(), host, t) {
            Some(i) => Some(i),
            None => if namecom_record_is(records.last(), host, t) { Some(records.len() - 1) } else { None },
        }
    }
}

proof fn lemma_index_prefix(records: Seq<NameComRecordItem>, host: Seq<char>, t: DnsRecordType, i: int)
    requires
        0 <= i < records.len(),
        namecom_index(records.take(i), host, t) is None,
        namecom_record_is(records[i], host, t),
    ensures namecom_index(records, host, t) == Some(i),
    decreases records.len() - i,
{
    if i == records.len() - 1 {
        assert(records.drop_last() =~= records.take(i));
    } else {
        assert(records.drop_last().take(i) =~= records.take(i));
        lemma_index_prefix(records.drop_last(), host, t, i);
    }
}

impl NameComProvider {
    /// A provider with the given user name and token.
    pub fn new(username: String, api_token: String) -> (r: Self)
        ensures r.username == username, r.api_token == api_token,
    {
        NameComProvider { username, api_token }
    }

    /// The Authorization value: `Basic` and the Base64 of `user:token`.
    pub open spec fn authorization(&self) -> Seq<char> {
        "Basic "@ + base64_standard(vstd::utf8::encode_utf8(self.username@ + seq![':'] + self.api_token@))
    }

    /// `req` is a request of the provider with these method, URL and body.
    pub open spec fn is_request(&self, req: HttpRequest, method: HttpMethod, url: Seq<char>, body: Option<Json>) -> bool {
        &&& req.method == method
        &&& req.url@ == url
        &&& req.headers@.len() == 2
        &&& req.headers@[0].0@ == "Authorization"@ && req.headers@[0].1@ == self.authorization()
        &&& req.headers@[1].0@ == "Content-Type"@ && req.headers@[1].1@ == "application/json"@
        &&& match body {
            Some(b) => req.body matches Some(t) && t@ == render(b),
            None => req.body is None,
        }
    }

    fn request(&self, method: HttpMethod, url: String, body: Option<JsonValue>) -> (r: HttpRequest)
        requires self.username@.len() + self.api_token@.len() < usize::MAX / 16,
        ensures self.is_request(r, method, url@, match body { Some(b) => Some(deep(b)), None => None }),
    {
        let raw = joined(self.username.as_str(), ":", self.api_token.as_str());
        proof {
            reveal_strlit(":");
            assert(raw@ =~= self.username@ + seq![':'] + self.api_token@);
            crate::dnsla::lemma_utf8_len(raw@);
        }
        let encoded = base64_encode(raw.as_str().as_bytes());
        let mut headers: Vec<(String, String)> = Vec::new();
        headers.push(("Authorization".to_string(), with_prefix("Basic ", encoded.as_str())));
        headers.push(("Content-Type".to_string(), "application/json".to_string()));
        let text = match body {
            Some(b) => Some(b.to_text()),
            None => None,
        };
        HttpRequest { method, url, headers, body: text }
    }

    fn records_url(root: &str) -> (r: String)
        ensures r@ == namecom_records_url(root@),
    {
        joined("https://api.name.com/core/v1/domains/", root, "/records")
    }

    /// The first request: the records of the root domain.
    pub fn start(&self, domain: &ParsedDomain) -> (r: (HttpRequest, NameComState))
        requires self.username@.len() + self.api_token@.len() < usize::MAX / 16,
        ensures
            self.is_request(r.0, HttpMethod::Get, namecom_records_url(domain.root_domain@), None),
            r.1 == NameComState::Lookup,
    {
        (self.request(HttpMethod::Get, Self::records_url(domain.root_domain.as_str()), None), NameComState::Lookup)
    }

    /// The decision on the record list: the record already holding the address, its
    /// update, or a creation.
    pub fn on_list(
        &self,
        domain: &ParsedDomain,
        record_type: DnsRecordType,
        ip: &IpAddress,
        ttl: Option<u32>,
        reply: &HttpReply,
        parsed: Result<NameComListResp, String>,
    ) -> (r: SyncStep<NameComState>)
        requires self.username@.len() + self.api_token@.len() < usize::MAX / 16,
        ensures
            !reply.success ==> (r matches SyncStep::Done(res)
                && is_api_error(res, reply.status@, "Name.com 查询解析记录失败: "@ + reply.body@)),
            reply.success ==> match parsed {
                Err(e) => r == SyncStep::<NameComState>::Done(Err(DnsProviderError::Json(e))),
                Ok(list) => {
                    let records = match list.records { Some(v) => v@, None => Seq::empty() };
                    let host = namecom_host(domain.sub_domain@);
                    let full = full_name(domain.sub_domain@, domain.root_domain@);
                    let body = namecom_body(host, record_type, ip_text(*ip), ttl);
                    match namecom_index(records, host, record_type) {
                        Some(i) => if records[i].answer@ == ip_text(*ip) {
                            r matches SyncStep::Done(Ok(res))
                                && res.is(full, record_type, ip_text(*ip), SyncStatus::Unchanged, unchanged_message())
                        } else {
                            r matches SyncStep::Send(req, NameComState::Write { update: true })
                                && self.is_request(req, HttpMethod::Put,
                                    namecom_records_url(domain.root_domain@) + "/"@ + signed_text(records[i].id as int),
                                    Some(body))
                        },
                        None => r matches SyncStep::Send(req, NameComState::Write { update: false })
                            && self.is_request(req, HttpMethod::Post, namecom_records_url(domain.root_domain@), Some(body)),
                    }
                },
            },
    {
        if !reply.success {
            return SyncStep::Done(Err(DnsProviderError::ApiError {
                code: reply.status.clone(),
                message: with_prefix("Name.com 查询解析记录失败: ", reply.body.as_str()),
            }));
        }
        let list = match parsed {
            Err(e) => { return SyncStep::Done(Err(DnsProviderError::Json(e))); },
            Ok(l) => l,
        };
        let records: Vec<NameComRecordItem> = match list.records { Some(v) => v, None => Vec::new() };
        let sc = crate::text::chars_of(domain.sub_domain.as_str());
        let is_root = sc.len() == 0 || (sc.len() == 1 && sc[0] == '@');
        proof {
            if sc@.len() == 1 && sc@[0] == '@' {
                assert(sc@ =~= seq!['@']);
            }
            reveal_strlit("@");
        }
        let host: String = if is_root { String::new() } else { domain.sub_domain.clone() };
        assert(host@ == namecom_host(domain.sub_domain@));
        let full = domain.full_domain();
        let target = ip.to_text();
        let t: u32 = match ttl { Some(v) => v, None => 300 };
        let ttl_val: u32 = if t < 1 { 1 } else { t };
        let mut body: Vec<(String, JsonValue)> = Vec::new();
        push_member(&mut body, "answer", JsonValue::Str(target.clone()));
        push_member(&mut body, "host", JsonValue::Str(host.clone()));
        push_member(&mut body, "ttl", JsonValue::UInt(ttl_val as u64));
        push_member(&mut body, "type", JsonValue::text(record_type.as_str()));
        let payload = JsonValue::object(body);
        let mut i: usize = 0;
        while i < records.len()
            invariant
                i <= records@.len(),
                reply.success,
                parsed is Ok,
                records@ == match parsed->Ok_0.records { Some(v) => v@, None => Seq::<NameComRecordItem>::empty() },
                host@ == namecom_host(domain.sub_domain@),
                full@ == full_name(domain.sub_domain@, domain.root_domain@),
                target@ == ip_text(*ip),
                deep(payload) == namecom_body(host@, record_type, ip_text(*ip), ttl),
                self.username@.len() + self.api_token@.len() < usize::MAX / 16,
                namecom_index(records@.take(i as int), host@, record_type) is None,
            decreases records@.len() - i,
        {
            assert(records@.take(i + 1).drop_last() =~= records@.take(i as int));
            let rec = &records[i];
            proof {
                reveal_strlit("@");
                assert("@"@ =~= seq!['@']);
                assert(lower(Seq::<char>::empty()) =~= Seq::<char>::empty());
                assert(lower(host@).len() == host@.len());
                if host@.len() == 0 {
                    assert(lower(host@) =~= Seq::<char>::empty());
                }
            }
            let host_ok = match &rec.host {
                Some(h) => eq_ignore_case(h.as_str(), host.as_str())
                    || (crate::text::chars_of(host.as_str()).len() == 0 && eq_exact(h.as_str(), "@")),
                None => crate::text::chars_of(host.as_str()).len() == 0,
            };
            proof {
                assert(lower(Seq::<char>::empty()) =~= Seq::<char>::empty());
                assert(lower(host@).len() == host@.len());
            }
            assert(host_ok == (lower(match rec.host { Some(h) => h@, None => Seq::<char>::empty() }) == lower(host@)
                || (host@.len() == 0 && (rec.host matches Some(h) && h@ == seq!['@']))));
            if eq_ignore_case(rec.record_type.as_str(), record_type.as_str()) && host_ok {
                proof { lemma_index_prefix(records@, host@, record_type, i as int); }
                if eq_exact(rec.answer.as_str(), target.as_str()) {
                    return SyncStep::Done(Ok(SyncRecordResult::unchanged_log("Name.com", full.as_str(), record_type,
                        target.as_str())));
                }
                let mut url: Vec<char> = Vec::new();
                append_str(&mut url, Self::records_url(domain.root_domain.as_str()).as_str());
                append_str(&mut url, "/");
                append_str(&mut url, signed_decimal_text(rec.id).as_str());
                let req = self.request(HttpMethod::Put, string_of(url.as_slice()), Some(payload));
                return SyncStep::Send(req, NameComState::Write { update: true });
            }
            i = i + 1;
        }
        assert(records@.take(records@.len() as int) =~= records@);
        let req = self.request(HttpMethod::Post, Self::records_url(domain.root_domain.as_str()), Some(payload));
        SyncStep::Send(req, NameComState::Write { update: false })
    }

    /// The outcome of the update (`update`) or creation.
    pub fn on_write(&self, update: bool, domain: &ParsedDomain, record_type: DnsRecordType, ip: &IpAddress,
        reply: &HttpReply) -> (r: Result<SyncRecordResult, DnsProviderError>)
        ensures
            reply.success ==> (r matches Ok(res) && res.is(full_name(domain.sub_domain@, domain.root_domain@),
                record_type, ip_text(*ip), if update { SyncStatus::Updated } else { SyncStatus::Created },
                if update { updated_message() } else { created_message() })),
            !reply.success ==> is_api_error(r, reply.status@,
                (if update { "Name.com 更新记录失败: "@ } else { "Name.com 创建记录失败: "@ }) + reply.body@),
    {
        if reply.success {
            let full = domain.full_domain();
            let target = ip.to_text();
            if update {
                Ok(SyncRecordResult::updated_log("Name.com", full.as_str(), record_type, target.as_str()))
            } else {
                Ok(SyncRecordResult::created_log("Name.com", full.as_str(), record_type, target.as_str()))
            }
        } else {
            let prefix = if update { "Name.com 更新记录失败: " } else { "Name.com 创建记录失败: " };
            Err(DnsProviderError::ApiError { code: reply.status.clone(), message: with_prefix(prefix, reply.body.as_str()) })
        }
    }
}

} // verus!
