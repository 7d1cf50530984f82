//! GoDaddy: read the records of the name, then put the address (the put creates or
//! replaces).
use vstd::prelude::*;
use crate::cloudflare::header_value_ok;
use crate::domain::{ParsedDomain, full_name, is_root_label};
use crate::engine::{IpAddress, ip_text};
use crate::json::{Json, JsonValue, deep, push_item, push_member};
use crate::providers::{DnsProviderError, HttpMethod, HttpReply, HttpRequest, SyncStep, is_api_error, with_prefix};
use crate::records::{DnsRecordType, SyncRecordResult, SyncStatus, record_type_name, unchanged_message, updated_message};
use crate::text::{append_str, string_of};
use crate::urlencode::pair_views;

verus! {

broadcast use vstd::string::group_string_axioms;

/// GoDaddy credentials.
pub struct GoDaddyProvider {
    pub api_key: String,
    pub api_secret: String,
}

/// A record as GoDaddy lists it.
#[derive(Debug, Clone)]
pub struct GoDaddyRecord {
    pub data: Option<String>,
}

/// Where a GoDaddy synchronisation stands.
#[derive(Debug, Clone, PartialEq)]
pub enum GoDaddyState {
    /// The records of the name were asked for.
    Lookup,
    /// The address was put.
    Write,
}

/// The record name: the host part, `@` for the root.
pub open spec fn sub_or_at(sub: Seq<char>) -> Seq<char> {
    if is_root_label(sub) { seq!['@'] } else { sub }
}

/// URL of the records of a name and type.
pub open spec fn godaddy_url(root: Seq<char>, sub: Seq<char>, t: DnsRecordType) -> Seq<char> {
    "https://api.godaddy.com/v1/domains/"@ + root + "/records/"@ + record_type_name(t) + "/"@ + sub_or_at(sub)
}

/// The headers: `sso-key key:secret` where it is a valid value, then the JSON type.
pub open spec fn godaddy_headers(key: Seq<char>, secret: Seq<char>) -> Seq<(Seq<char>, Seq<char>)> {
    let auth = "sso-key "@ + key + ":"@ + secret;
    let first: Seq<(Seq<char>, Seq<char>)> = if header_value_ok(auth) { seq![("Authorization"@, auth)] } else { Seq::empty() };
    first.push(("Content-Type"@, "application/json"@))
}

/// The TTL sent: the given one or 600, at least 1.
pub open spec fn godaddy_ttl(ttl: Option<u32>) -> int {
    let t: int = match ttl { Some(v) => v as int, None => 600 };
    if t < 1 { 1 } else { t }
}

/// The body of the put: one record with the address and TTL.
pub open spec fn godaddy_body(ip: Seq<char>, ttl: Option<u32>) -> Json {
    Json::Array(seq![Json::Object(seq![("data"@, Json::Str(ip))].push(("ttl"@, Json::Int(godaddy_ttl(ttl)))))])
}

/// The first listed record holds the address.
pub open spec fn godaddy_holds(records: Seq<GoDaddyRecord>, ip: Seq<char>) -> bool {
    records.len() > 0 && (records[0].data matches Some(d) && d@ == ip)
}

impl GoDaddyProvider {
    /// A provider with the given key and secret.
    pub fn new(api_key: String, api_secret: String) -> (r: Self)
        ensures r.api_key == api_key, r.api_secret == api_secret,
    {
        GoDaddyProvider { api_key, api_secret }
    }

    fn headers(&self) -> (r: Vec<(String, String)>)
        ensures pair_views(r@) == godaddy_headers(self.api_key@, self.api_secret@),
    {
        let mut v: Vec<char> = Vec::new();
        append_str(&mut v, "sso-key ");
        append_str(&mut v, self.api_key.as_str());
        append_str(&mut v, ":");
        append_str(&mut v, self.api_secret.as_str());
        let mut h: Vec<(String, String)> = Vec::new();
        if crate::cloudflare::is_header_value(v.as_slice()) {
            h.push(("Authorization".to_string(), string_of(v.as_slice())));
        }
        h.push(("Content-Type".to_string(), "application/json".to_string()));
        assert(pair_views(h@) =~= godaddy_headers(self.api_key@, self.api_secret@));
        h
    }

    fn url(domain: &ParsedDomain, record_type: DnsRecordType) -> (r: String)
        ensures r@ == godaddy_url(domain.root_domain@, domain.sub_domain@, record_type),
    {
        let mut v: Vec<char> = Vec::new();
        append_str(&mut v, "https://api.godaddy.com/v1/domains/");
        append_str(&mut v, domain.root_domain.as_str());
        append_str(&mut v, "/records/");
        append_str(&mut v, record_type.as_str());
        append_str(&mut v, "/");
        append_str(&mut v, domain.sub_domain_or_at());
        string_of(v.as_slice())
    }

    /// The first request: the records of the name and type.
    pub fn start(&self, domain: &ParsedDomain, record_type: DnsRecordType) -> (r: (HttpRequest, GoDaddyState))
        ensures
            r.0.method == HttpMethod::Get,
            r.0.url@ == godaddy_url(domain.root_domain@, domain.sub_domain@, record_type),
            pair_views(r.0.headers@) == godaddy_headers(self.api_key@, self.api_secret@),
            r.0.body is None,
            r.1 == GoDaddyState::Lookup,
    {
        let req = HttpRequest { method: HttpMethod::Get, url: Self::url(domain, record_type), headers: self.headers(), body: None };
        (req, GoDaddyState::Lookup)
    }

    /// The decision on the lookup: unchanged where it succeeded and its first record
    /// holds the address; otherwise the address is put (whatever went wrong reading).
    pub fn on_lookup(
        &self,
        domain: &ParsedDomain,
        record_type: DnsRecordType,
        ip: &IpAddress,
        ttl: Option<u32>,
        reply: &HttpReply,
        parsed: Result<Vec<GoDaddyRecord>, String>,
    ) -> (r: SyncStep<GoDaddyState>)
        ensures
            if reply.success && (parsed matches Ok(recs) && godaddy_holds(recs@, ip_text(*ip))) {
                r matches SyncStep::Done(Ok(res)) && res.is(full_name(domain.sub_domain@, domain.root_domain@), record_type,
                    ip_text(*ip), SyncStatus::Unchanged, unchanged_message())
            } else {
                r matches SyncStep::Send(req, GoDaddyState::Write) && req.method == HttpMethod::Put
                    && req.url@ == godaddy_url(domain.root_domain@, domain.sub_domain@, record_type)
                    && pair_views(req.headers@) == godaddy_headers(self.api_key@, self.api_secret@)
                    && (req.body matches Some(b) && b@ == crate::json::render(godaddy_body(ip_text(*ip), ttl)))
            },
    {
        let target = ip.to_text();
        if reply.success {
            match &parsed {
                Ok(recs) => {
                    if recs.len() > 0 {
                        match &recs[0].data {
                            Some(d) => {
                                if crate::text::eq_exact(d.as_str(), target.as_str()) {
                                    let full = domain.full_domain();
                                    return SyncStep::Done(Ok(SyncRecordResult::unchanged_log("GoDaddy", full.as_str(),
                                        record_type, target.as_str())));
                                }
                            },
                            None => {},
                        }
                    }
                },
                Err(_) => {},
            }
        }
        let t: u32 = match ttl { Some(v) => v, None => 600 };
        let ttl_val: u32 = if t < 1 { 1 } else { t };
        let mut rec: Vec<(String, JsonValue)> = Vec::new();
        push_member(&mut rec, "data", JsonValue::Str(target));
        push_member(&mut rec, "ttl", JsonValue::UInt(ttl_val as u64));
        let mut items: Vec<JsonValue> = Vec::new();
        push_item(&mut items, JsonValue::object(rec));
        let body = JsonValue::array(items);
        let req = HttpRequest {
            method: HttpMethod::Put,
            url: Self::url(domain, record_type),
            headers: self.headers(),
            body: Some(body.to_text()),
        };
        SyncStep::Send(req, GoDaddyState::Write)
    }

    /// The outcome of the put.
    pub fn on_write(&self, domain: &ParsedDomain, record_type: DnsRecordType, ip: &IpAddress, reply: &HttpReply)
        -> (r: Result<SyncRecordResult, DnsProviderError>)
        ensures
            reply.success ==> (r matches Ok(res) && res.is(full_name(domain.sub_domain@, domain.root_domain@),
                record_type, ip_text(*ip), SyncStatus::Updated, updated_message())),
            !reply.success ==> is_api_error(r, reply.status@, "GoDaddy 响应错误: "@ + reply.body@),
    {
        if reply.success {
            let full = domain.full_domain();
            let target = ip.to_text();
            Ok(SyncRecordResult::updated(full.as_str(), record_type, target.as_str()))
        } else {
            Err(DnsProviderError::ApiError {
                code: reply.status.clone(),
                message: with_prefix("GoDaddy 响应错误: ", reply.body.as_str()),
            })
        }
    }
}

} // verus!
