//! Vercel DNS: list the domain's records, then patch the name's record or create one;
//! every URL carries the team where one is set.
use vstd::prelude::*;
use crate::cloudflare::{header_value_ok, is_header_value};
use crate::domain::{ParsedDomain, full_name, is_root_label, record_name_matches};
use crate::engine::{IpAddress, ip_text};
use crate::json::{Json, JsonValue, deep, push_member, render};
use crate::providers::{DnsProviderError, HttpMethod, HttpReply, HttpRequest, SyncStep, is_api_error, joined, with_prefix};
use crate::records::{DnsRecordType, SyncRecordResult, SyncStatus, created_message, record_type_name, unchanged_message,
    updated_message};
use crate::text::{append_str, blank, chars_of, eq_ignore_case, find_char, is_blank, lower, lower_chars, position_of,
    string_of};
use crate::urlencode::pair_views;

verus! {

broadcast use vstd::string::group_string_axioms;

/// A record of the list.
#[derive(Debug, Clone)]
pub struct VercelRecord {
    pub id: String,
    pub name: String,
    pub record_type: String,
    pub value: String,
}

/// The record list.
#[derive(Debug, Clone)]
pub struct VercelRecordsResp {
    pub records: Option<Vec<VercelRecord>>,
}

/// Vercel credentials: the token, and the team where one is set (not blank).
pub struct VercelProvider {
    pub token: String,
    pub team_id: Option<String>,
}

/// Where a Vercel synchronisation stands.
#[derive(Debug, Clone, PartialEq)]
pub enum VercelState {
    /// The record list was asked for.
    Lookup,
    /// The record was patched (`update`) or created.
    Write { update: bool },
}

/// `url` with the team as query parameter, after `&` where it already has a query.
pub open spec fn with_team(url: Seq<char>, team: Option<String>) -> Seq<char> {
    match team {
        Some(t) => url + (if find_char(url, '?') is Some { "&teamId="@ } else { "?teamId="@ }) + t@,
        None => url,
    }
}

/// The headers: the bearer token where it is a valid value, then the JSON type.
pub open spec fn vercel_headers(token: Seq<char>) -> Seq<(Seq<char>, Seq<char>)> {
    let auth = "Bearer "@ + token;
    let first: Seq<(Seq<char>, Seq<char>)> = if header_value_ok(auth) { seq![("Authorization"@, auth)] } else { Seq::empty() };
    first.push(("Content-Type"@, "application/json"@))
}

/// The TTL sent: the given one or 60, at least 60.
pub open spec fn vercel_ttl(ttl: Option<u32>) -> int {
    let t: int = match ttl { Some(v) => v as int, None => 60 };
    if t < 60 { 60 } else { t }
}

/// The record name of a creation: empty for the root.
pub open spec fn vercel_name(sub: Seq<char>) -> Seq<char> {
    if is_root_label(sub) { Seq::empty() } else { sub }
}

/// The body of a patch.
pub open spec fn vercel_patch_body(t: DnsRecordType, ip: Seq<char>, ttl: Option<u32>) -> Json {
    Json::Object(seq![("ttl"@, Json::Int(vercel_ttl(ttl)))]
        .push(("type"@, Json::Str(record_type_name(t))))
        .push(("value"@, Json::Str(ip))))
}

/// The body of a creation.
pub open spec fn vercel_create_body(sub: Seq<char>, t: DnsRecordType, ip: Seq<char>, ttl: Option<u32>) -> Json {
    Json::Object(seq![("comment"@, Json::Str("Created by rddns"@))]
        .push(("name"@, Json::Str(vercel_name(sub))))
        .push(("ttl"@, Json::Int(vercel_ttl(ttl))))
        .push(("type"@, Json::Str(record_type_name(t))))
        .push(("value"@, Json::Str(ip))))
}

/// The record is the entry's record of the type.
pub open spec fn vercel_record_is(r: VercelRecord, d: ParsedDomain, t: DnsRecordType) -> bool {
    lower(r.record_type@) == lower(record_type_name(t)) && record_name_matches(d.sub_domain@, d.root_domain@, r.name@)
}

/// Position of the first such record.
pub open spec fn vercel_index(records: Seq<VercelRecord>, d: ParsedDomain, t: DnsRecordType) -> Option<int>
    decreases records.len(),
{
    if records.len() == 0 {
        None
    } else {
        match vercel_index(records.drop_last(), d, t) {
            Some(i) => Some(i),
            None => if vercel_record_is(records.last(), d, t) { Some(records.len() - 1) } else { None },
        }
    }
}

proof fn lemma_index_prefix(records: Seq<VercelRecord>, d: ParsedDomain, t: DnsRecordType, i: int)
    requires
        0 <= i < records.len(),
        vercel_index(records.take(i), d, t) is None,
        vercel_record_is(records[i], d, t),
    ensures vercel_index(records, d, t) == Some(i),
    decreases records.len() - i,
{
    if i == records.len() - 1 {
        assert(records.drop_last() =~= records.take(i));
    } else {
        assert(records.drop_last().take(i) =~= records.take(i));
        lemma_index_prefix(records.drop_last(), d, t, i);
    }
}

impl VercelProvider {
    /// A provider with the given token; a blank team counts as none.
    pub fn new(token: String, team_id: Option<String>) -> (r: Self)
        ensures
            r.token == token,
            r.team_id == (match team_id { Some(t) => if is_blank(t@) { None } else { Some(t) }, None => None }),
    {
        let team = match team_id {
            Some(t) => if blank(t.as_str()) { None } else { Some(t) },
            None => None,
        };
        VercelProvider { token, team_id: team }
    }

    /// `req` is a request of the provider with these method, URL and body.
    pub open spec fn is_request(&self, req: HttpRequest, method: HttpMethod, url: Seq<char>, body: Option<Json>) -> bool {
        &&& req.method == method
        &&& req.url@ == with_team(url, self.team_id)
        &&& pair_views(req.headers@) == vercel_headers(self.token@)
        &&& match body {
            Some(b) => req.body matches Some(t) && t@ == render(b),
            None => req.body is None,
        }
    }

    fn request(&self, method: HttpMethod, url: &str, body: Option<JsonValue>) -> (r: HttpRequest)
        ensures self.is_request(r, method, url@, match body { Some(b) => Some(deep(b)), None => None }),
    {
        let mut v: Vec<char> = Vec::new();
        append_str(&mut v, "Bearer ");
        append_str(&mut v, self.token.as_str());
        let mut headers: Vec<(String, String)> = Vec::new();
        if is_header_value(v.as_slice()) {
            headers.push(("Authorization".to_string(), string_of(v.as_slice())));
        }
        headers.push(("Content-Type".to_string(), "application/json".to_string()));
        assert(pair_views(headers@) =~= vercel_headers(self.token@));
        let full_url = match &self.team_id {
            Some(t) => {
                let uc = chars_of(url);
                let sep = if position_of(uc.as_slice(), '?').is_some() { "&teamId=" } else { "?teamId=" };
                joined(url, sep, t.as_str())
            },
            None => url.to_string(),
        };
        let text = match body {
            Some(b) => Some(b.to_text()),
            None => None,
        };
        HttpRequest { method, url: full_url, headers, body: text }
    }

    /// The first request: the domain's records (at most 100).
    pub fn start(&self, domain: &ParsedDomain) -> (r: (HttpRequest, VercelState))
        ensures
            self.is_request(r.0, HttpMethod::Get,
                "https://api.vercel.com/v4/domains/"@ + domain.root_domain@ + "/records?limit=100"@, None),
            r.1 == VercelState::Lookup,
    {
        let url = joined("https://api.vercel.com/v4/domains/", domain.root_domain.as_str(), "/records?limit=100");
        (self.request(HttpMethod::Get, url.as_str(), None), VercelState::Lookup)
    }

    /// The decision on the record list: the record already holding the address (ignoring
    /// ASCII case), its patch, or a creation.
    pub fn on_list(
        &self,
        domain: &ParsedDomain,
        record_type: DnsRecordType,
        ip: &IpAddress,
        ttl: Option<u32>,
        reply: &HttpReply,
        parsed: Result<VercelRecordsResp, String>,
    ) -> (r: SyncStep<VercelState>)
        ensures
            !reply.success ==> (r matches SyncStep::Done(res)
                && is_api_error(res, reply.status@, "Vercel 查询记录失败: "@ + reply.body@)),
            reply.success ==> match parsed {
                Err(e) => r == SyncStep::<VercelState>::Done(Err(DnsProviderError::Json(e))),
                Ok(list) => {
                    let records = match list.records { Some(v) => v@, None => Seq::empty() };
                    let full = full_name(domain.sub_domain@, domain.root_domain@);
                    match vercel_index(records, *domain, record_type) {
                        Some(i) => if lower(records[i].value@) == ip_text(*ip) {
                            r matches SyncStep::Done(Ok(res))
                                && res.is(full, record_type, ip_text(*ip), SyncStatus::Unchanged, unchanged_message())
                        } else {
                            r matches SyncStep::Send(req, VercelState::Write { update: true })
                                && self.is_request(req, HttpMethod::Patch,
                                    "https://api.vercel.com/v1/domains/records/"@ + records[i].id@,
                                    Some(vercel_patch_body(record_type, ip_text(*ip), ttl)))
                        },
                        None => r matches SyncStep::Send(req, VercelState::Write { update: false })
                            && self.is_request(req, HttpMethod::Post,
                                "https://api.vercel.com/v2/domains/"@ + domain.root_domain@ + "/records"@,
                                Some(vercel_create_body(domain.sub_domain@, record_type, ip_text(*ip), ttl))),
                    }
                },
            },
    {
        if !reply.success {
            return SyncStep::Done(Err(DnsProviderError::ApiError {
                code: reply.status.clone(),
                message: with_prefix("Vercel 查询记录失败: ", reply.body.as_str()),
            }));
        }
        let list = match parsed {
            Err(e) => { return SyncStep::Done(Err(DnsProviderError::Json(e))); },
            Ok(l) => l,
        };
        let records: Vec<VercelRecord> = match list.records { Some(v) => v, None => Vec::new() };
        let full = domain.full_domain();
        let target = ip.to_text();
        let t: u32 = match ttl { Some(v) => v, None => 60 };
        let ttl_val: u32 = if t < 60 { 60 } else { t };
        let mut i: usize = 0;
        while i < records.len()
            invariant
                i <= records@.len(),
                reply.success,
                parsed is Ok,
                records@ == match parsed->Ok_0.records { Some(v) => v@, None => Seq::<VercelRecord>::empty() },
                full@ == full_name(domain.sub_domain@, domain.root_domain@),
                target@ == ip_text(*ip),
                ttl_val as int == vercel_ttl(ttl),
                vercel_index(records@.take(i as int), *domain, record_type) is None,
            decreases records@.len() - i,
        {
            assert(records@.take(i + 1).drop_last() =~= records@.take(i as int));
            let rec = &records[i];
            if eq_ignore_case(rec.record_type.as_str(), record_type.as_str()) && domain.matches_record_name(rec.name.as_str()) {
                proof { lemma_index_prefix(records@, *domain, record_type, i as int); }
                let lv = lower_chars(chars_of(rec.value.as_str()).as_slice());
                if crate::text::chars_eq(lv.as_slice(), chars_of(target.as_str()).as_slice()) {
                    return SyncStep::Done(Ok(SyncRecordResult::unchanged_log("Vercel DNS", full.as_str(), record_type,
                        target.as_str())));
                }
                let mut body: Vec<(String, JsonValue)> = Vec::new();
                push_member(&mut body, "ttl", JsonValue::UInt(ttl_val as u64));
                push_member(&mut body, "type", JsonValue::text(record_type.as_str()));
                push_member(&mut body, "value", JsonValue::Str(target));
                let url = with_prefix("https://api.vercel.com/v1/domains/records/", rec.id.as_str());
                let req = self.request(HttpMethod::Patch, url.as_str(), Some(JsonValue::object(body)));
                return SyncStep::Send(req, VercelState::Write { update: true });
            }
            i = i + 1;
        }
        assert(records@.take(records@.len() as int) =~= records@);
        let sc = chars_of(domain.sub_domain.as_str());
        let is_root = sc.len() == 0 || (sc.len() == 1 && sc[0] == '@');
        proof {
            if sc@.len() == 1 && sc@[0] == '@' {
                assert(sc@ =~= seq!['@']);
            }
        }
        let name: String = if is_root { String::new() } else { domain.sub_domain.clone() };
        let mut body: Vec<(String, JsonValue)> = Vec::new();
        push_member(&mut body, "comment", JsonValue::text("Created by rddns"));
        push_member(&mut body, "name", JsonValue::Str(name));
        push_member(&mut body, "ttl", JsonValue::UInt(ttl_val as u64));
        push_member(&mut body, "type", JsonValue::text(record_type.as_str()));
        push_member(&mut body, "value", JsonValue::Str(target));
        let url = joined("https://api.vercel.com/v2/domains/", domain.root_domain.as_str(), "/records");
        let req = self.request(HttpMethod::Post, url.as_str(), Some(JsonValue::object(body)));
        SyncStep::Send(req, VercelState::Write { update: false })
    }

    /// The outcome of the patch (`update`) or creation.
    pub fn on_write(&self, update: bool, domain: &ParsedDomain, record_type: DnsRecordType, ip: &IpAddress,
        reply: &HttpReply) -> (r: Result<SyncRecordResult, DnsProviderError>)
        ensures
            reply.success ==> (r matches Ok(res) && res.is(full_name(domain.sub_domain@, domain.root_domain@),
                record_type, ip_text(*ip), if update { SyncStatus::Updated } else { SyncStatus::Created },
                if update { updated_message() } else { created_message() })),
            !reply.success ==> is_api_error(r, reply.status@,
                (if update { "Vercel 更新记录失败: "@ } else { "Vercel 创建记录失败: "@ }) + reply.body@),
    {
        if !reply.success {
            let prefix = if update { "Vercel 更新记录失败: " } else { "Vercel 创建记录失败: " };
            return Err(DnsProviderError::ApiError { code: reply.status.clone(), message: with_prefix(prefix, reply.body.as_str()) });
        }
        let full = domain.full_domain();
        let target = ip.to_text();
        if update {
            Ok(SyncRecordResult::updated_log("Vercel DNS", full.as_str(), record_type, target.as_str()))
        } else {
            Ok(SyncRecordResult::created_log("Vercel DNS", full.as_str(), record_type, target.as_str()))
        }
    }
}

} // verus!
