//! Dynv6: find the zone holding the domain; a zone's own address is patched on the zone,
//! a host below it is patched or created among the zone's records.
use vstd::prelude::*;
use crate::domain::{ParsedDomain, full_name};
use crate::engine::{IpAddress, ip_text};
use crate::json::{Json, JsonValue, deep, push_member, render};
use crate::net::{dec_text, decimal_text};
use crate::providers::{DnsProviderError, HttpMethod, HttpReply, HttpRequest, SyncStep, is_api_error, joined, with_prefix};
use crate::records::{DnsRecordType, SyncRecordResult, SyncStatus, record_type_name, unchanged_message, updated_message};
use crate::text::{append_str, chars_eq, chars_of, eq_exact, eq_ignore_case, lower, string_of, sub_chars};

verus! {

broadcast use vstd::string::group_string_axioms;

/// Base of the Dynv6 API.
pub open spec fn dynv6_base() -> Seq<char> {
    "https://dynv6.com/api/v2"@
}

/// A zone of the account.
#[derive(Debug, Clone)]
pub struct Dynv6Zone {
    pub id: u64,
    pub name: String,
    pub ipv4_address: Option<String>,
    pub ipv6_prefix: Option<String>,
}

/// A record of a zone.
#[derive(Debug, Clone)]
pub struct Dynv6Record {
    pub id: u64,
    pub name: Option<String>,
    pub record_type: Option<String>,
    pub data: Option<String>,
}

/// Where a Dynv6 synchronisation stands.
#[derive(Debug, Clone, PartialEq, Eq)]
pub enum Dynv6State {
    /// The zones were asked for.
    ZoneLookup,
    /// The records of zone `zone_id` were asked for, to find host `sub_name`.
    RecordLookup { zone_id: u64, sub_name: String },
    /// A change was sent: the zone's address, a record's update, or a creation.
    Write { created: bool },
}

/// Dynv6 credentials.
pub struct Dynv6Provider {
    pub token: String,
}

/// `s` ends with `suffix`.
pub open spec fn ends_with(s: Seq<char>, suffix: Seq<char>) -> bool {
    suffix.len() <= s.len() && s.subrange(s.len() - suffix.len(), s.len() as int) == suffix
}

/// The zone holds the domain: it is the zone's name, or ends with `.` and the name.
pub open spec fn zone_holds(z: Dynv6Zone, full: Seq<char>) -> bool {
    full == z.name@ || ends_with(full, seq!['.'] + z.name@)
}

/// Position of the first zone holding the domain.
pub open spec fn dynv6_zone_index(zones: Seq<Dynv6Zone>, full: Seq<char>) -> Option<int>
    decreases zones.len(),
{
    if zones.len() == 0 {
        None
    } else {
        match dynv6_zone_index(zones.drop_last(), full) {
            Some(i) => Some(i),
            None => if zone_holds(zones.last(), full) { Some(zones.len() - 1) } else { None },
        }
    }
}

/// The host below the zone: the domain without `.` and the zone name, or else the
/// configured host.
pub open spec fn host_below(full: Seq<char>, zone: Seq<char>, sub: Seq<char>) -> Seq<char> {
    let suffix = seq!['.'] + zone;
    if ends_with(full, suffix) { full.subrange(0, full.len() - suffix.len()) } else { sub }
}

/// The record is the host's record of type `t`.
pub open spec fn record_is(r: Dynv6Record, host: Seq<char>, t: DnsRecordType) -> bool {
    (r.name matches Some(n) && n@ == host) && (r.record_type matches Some(x) && x@ == record_type_name(t))
}

/// Position of the first record of the host and type.
pub open spec fn dynv6_record_index(records: Seq<Dynv6Record>, host: Seq<char>, t: DnsRecordType) -> Option<int>
    decreases records.len(),
{
    if records.len() == 0 {
        None
    } else {
        match dynv6_record_index(records.drop_last(), host, t) {
            Some(i) => Some(i),
            None => if record_is(records.last(), host, t) { Some(records.len() - 1) } else { None },
        }
    }
}

/// The optional text equals `ip`.
pub open spec fn is_text(o: Option<String>, ip: Seq<char>) -> bool {
    o matches Some(s) && s@ == ip
}

/// A request of the provider: `Authorization: Bearer` and a JSON content type, with
/// the body's text where there is one.
pub open spec fn is_dynv6_request(req: HttpRequest, token: Seq<char>, method: HttpMethod, path: Seq<char>, body: Option<Json>) -> bool {
    &&& req.method == method
    &&& req.url@ == dynv6_base() + path
    &&& req.headers@.len() == 2
    &&& req.headers@[0].0@ == "Authorization"@ && req.headers@[0].1@ == "Bearer "@ + token
    &&& req.headers@[1].0@ == "Content-Type"@ && req.headers@[1].1@ == "application/json"@
    &&& match body {
        Some(b) => req.body matches Some(t) && t@ == render(b),
        None => req.body is None,
    }
}

/// The error of a reply whose status is not 2xx.
pub open spec fn dynv6_status_error(reply: HttpReply) -> Seq<char> {
    "Dynv6 API 响应异常: "@ + reply.body@
}

/// The body patching the zone's own address.
pub open spec fn zone_patch_body(t: DnsRecordType, ip: Seq<char>) -> Json {
    match t {
        DnsRecordType::A => Json::Object(seq![("ipv4address"@, Json::Str(ip))]),
        DnsRecordType::AAAA => Json::Object(seq![("ipv6prefix"@, Json::Str(ip))]),
    }
}

/// The body of a record's update.
pub open spec fn record_patch_body(t: DnsRecordType, ip: Seq<char>) -> Json {
    Json::Object(seq![("type"@, Json::Str(record_type_name(t)))].push(("data"@, Json::Str(ip))))
}

/// The body of a record's creation.
pub open spec fn record_post_body(host: Seq<char>, t: DnsRecordType, ip: Seq<char>) -> Json {
    Json::Object(seq![("name"@, Json::Str(host))].push(("type"@, Json::Str(record_type_name(t))))
        .push(("data"@, Json::Str(ip))))
}

impl Dynv6Provider {
    /// A provider with the given token.
    pub fn new(token: String) -> (r: Self)
        ensures r.token == token,
    {
        Dynv6Provider { token }
    }

    fn request(&self, method: HttpMethod, path: String, body: Option<JsonValue>) -> (r: HttpRequest)
        ensures
            is_dynv6_request(r, self.token@, method, path@, match body { Some(b) => Some(deep(b)), None => None }),
    {
        let mut url: Vec<char> = Vec::new();
        append_str(&mut url, "https://dynv6.com/api/v2");
        append_str(&mut url, path.as_str());
        let mut headers: Vec<(String, String)> = Vec::new();
        headers.push(("Authorization".to_string(), with_prefix("Bearer ", self.token.as_str())));
        headers.push(("Content-Type".to_string(), "application/json".to_string()));
        let text = match body {
            Some(b) => Some(b.to_text()),
            None => None,
        };
        HttpRequest { method, url: string_of(url.as_slice()), headers, body: text }
    }

    /// The first request: the account's zones.
    pub fn start(&self) -> (r: (HttpRequest, Dynv6State))
        ensures is_dynv6_request(r.0, self.token@, HttpMethod::Get, "/zones"@, None), r.1 == Dynv6State::ZoneLookup,
    {
        (self.request(HttpMethod::Get, "/zones".to_string(), None), Dynv6State::ZoneLookup)
    }

    /// The decision on the zones: the zone's own address, or the host's records.
    pub fn on_zones(
        &self,
        domain: &ParsedDomain,
        record_type: DnsRecordType,
        ip: &IpAddress,
        reply: &HttpReply,
        parsed: Result<Vec<Dynv6Zone>, String>,
    ) -> (r: SyncStep<Dynv6State>)
        ensures
            !reply.success ==> (r matches SyncStep::Done(res) && is_api_error(res, reply.status@, dynv6_status_error(*reply))),
            reply.success ==> match parsed {
                Err(e) => r == SyncStep::<Dynv6State>::Done(Err(DnsProviderError::Json(e))),
                Ok(zones) => {
                    let full = full_name(domain.sub_domain@, domain.root_domain@);
                    match dynv6_zone_index(zones@, full) {
                        None => r matches SyncStep::Done(Err(DnsProviderError::ZoneNotFound(m)))
                            && m@ == "在 Dynv6 账户中未找到与域名 ["@ + full + "] 匹配的 Zone"@,
                        Some(i) => {
                            let z = zones@[i];
                            if lower(full) == lower(z.name@) {
                                let cur = match record_type { DnsRecordType::A => z.ipv4_address, DnsRecordType::AAAA => z.ipv6_prefix };
                                if is_text(cur, ip_text(*ip)) {
                                    r matches SyncStep::Done(Ok(res))
                                        && res.is(full, record_type, ip_text(*ip), SyncStatus::Unchanged, unchanged_message())
                                } else {
                                    r matches SyncStep::Send(req, Dynv6State::Write { created: false })
                                        && is_dynv6_request(req, self.token@, HttpMethod::Patch,
                                            "/zones/"@ + dec_text(z.id as nat), Some(zone_patch_body(record_type, ip_text(*ip))))
                                }
                            } else {
                                r matches SyncStep::Send(req, Dynv6State::RecordLookup { zone_id, sub_name })
                                    && zone_id == z.id && sub_name@ == host_below(full, z.name@, domain.sub_domain@)
                                    && is_dynv6_request(req, self.token@, HttpMethod::Get,
                                        "/zones/"@ + dec_text(z.id as nat) + "/records"@, None)
                            }
                        },
                    }
                },
            },
    {
        if !reply.success {
            return SyncStep::Done(Err(DnsProviderError::ApiError {
                code: reply.status.clone(),
                message: with_prefix("Dynv6 API 响应异常: ", reply.body.as_str()),
            }));
        }
        let zones = match parsed {
            Err(e) => { return SyncStep::Done(Err(DnsProviderError::Json(e))); },
            Ok(z) => z,
        };
        let full = domain.full_domain();
        let fc = chars_of(full.as_str());
        let mut i: usize = 0;
        while i < zones.len()
            invariant
                i <= zones@.len(),
                reply.success,
                parsed == Ok::<Vec<Dynv6Zone>, String>(zones),
                full@ == full_name(domain.sub_domain@, domain.root_domain@),
                fc@ == full@,
                dynv6_zone_index(zones@.take(i as int), full@) is None,
            decreases zones@.len() - i,
        {
            assert(zones@.take(i + 1).drop_last() =~= zones@.take(i as int));
            let z = &zones[i];
            let suffix = dotted(z.name.as_str());
            if eq_exact(full.as_str(), z.name.as_str()) || ends_with_chars(fc.as_slice(), suffix.as_slice()) {
                proof { lemma_zone_prefix(zones@, full@, i as int); }
                let target = ip.to_text();
                if eq_ignore_case(full.as_str(), z.name.as_str()) {
                    let cur = match record_type {
                        DnsRecordType::A => &z.ipv4_address,
                        DnsRecordType::AAAA => &z.ipv6_prefix,
                    };
                    let same = match cur {
                        Some(c) => eq_exact(c.as_str(), target.as_str()),
                        None => false,
                    };
                    if same {
                        return SyncStep::Done(Ok(SyncRecordResult::unchanged(full.as_str(), record_type, target.as_str())));
                    }
                    let key = match record_type {
                        DnsRecordType::A => "ipv4address",
                        DnsRecordType::AAAA => "ipv6prefix",
                    };
                    let mut body: Vec<(String, JsonValue)> = Vec::new();
                    push_member(&mut body, key, JsonValue::Str(target));
                    let path = with_prefix("/zones/", decimal_text(z.id).as_str());
                    let req = self.request(HttpMethod::Patch, path, Some(JsonValue::object(body)));
                    return SyncStep::Send(req, Dynv6State::Write { created: false });
                }
                let sub_name = host_of(fc.as_slice(), z.name.as_str(), domain.sub_domain.as_str());
                let path = joined("/zones/", decimal_text(z.id).as_str(), "/records");
                let req = self.request(HttpMethod::Get, path, None);
                return SyncStep::Send(req, Dynv6State::RecordLookup { zone_id: z.id, sub_name });
            }
            i = i + 1;
        }
        assert(zones@.take(zones@.len() as int) =~= zones@);
        SyncStep::Done(Err(DnsProviderError::ZoneNotFound(
            joined("在 Dynv6 账户中未找到与域名 [", full.as_str(), "] 匹配的 Zone"),
        )))
    }

    /// The decision on the zone's records: the host's record already holds the address,
    /// is updated, or is created.
    pub fn on_records(
        &self,
        domain: &ParsedDomain,
        record_type: DnsRecordType,
        ip: &IpAddress,
        zone_id: u64,
        sub_name: &str,
        reply: &HttpReply,
        parsed: Result<Vec<Dynv6Record>, String>,
    ) -> (r: SyncStep<Dynv6State>)
        ensures
            !reply.success ==> (r matches SyncStep::Done(res) && is_api_error(res, reply.status@, dynv6_status_error(*reply))),
            reply.success ==> match parsed {
                Err(e) => r == SyncStep::<Dynv6State>::Done(Err(DnsProviderError::Json(e))),
                Ok(records) => {
                    let full = full_name(domain.sub_domain@, domain.root_domain@);
                    match dynv6_record_index(records@, sub_name@, record_type) {
                        Some(i) => if is_text(records@[i].data, ip_text(*ip)) {
                            r matches SyncStep::Done(Ok(res))
                                && res.is(full, record_type, ip_text(*ip), SyncStatus::Unchanged, unchanged_message())
                        } else {
                            r matches SyncStep::Send(req, Dynv6State::Write { created: false })
                                && is_dynv6_request(req, self.token@, HttpMethod::Patch,
                                    "/zones/"@ + dec_text(zone_id as nat) + "/records/"@ + dec_text(records@[i].id as nat),
                                    Some(record_patch_body(record_type, ip_text(*ip))))
                        },
                        None => r matches SyncStep::Send(req, Dynv6State::Write { created: true })
                            && is_dynv6_request(req, self.token@, HttpMethod::Post,
                                "/zones/"@ + dec_text(zone_id as nat) + "/records"@,
                                Some(record_post_body(sub_name@, record_type, ip_text(*ip)))),
                    }
                },
            },
    {
        if !reply.success {
            return SyncStep::Done(Err(DnsProviderError::ApiError {
                code: reply.status.clone(),
                message: with_prefix("Dynv6 API 响应异常: ", reply.body.as_str()),
            }));
        }
        let records = match parsed {
            Err(e) => { return SyncStep::Done(Err(DnsProviderError::Json(e))); },
            Ok(v) => v,
        };
        let full = domain.full_domain();
        let target = ip.to_text();
        let mut i: usize = 0;
        while i < records.len()
            invariant
                i <= records@.len(),
                reply.success,
                parsed == Ok::<Vec<Dynv6Record>, String>(records),
                full@ == full_name(domain.sub_domain@, domain.root_domain@),
                target@ == ip_text(*ip),
                dynv6_record_index(records@.take(i as int), sub_name@, record_type) is None,
            decreases records@.len() - i,
        {
            assert(records@.take(i + 1).drop_last() =~= records@.take(i as int));
            let rec = &records[i];
            let name_ok = match &rec.name { Some(n) => eq_exact(n.as_str(), sub_name), None => false };
            let type_ok = match &rec.record_type { Some(t) => eq_exact(t.as_str(), record_type.as_str()), None => false };
            if name_ok && type_ok {
                proof { lemma_record_prefix(records@, sub_name@, record_type, i as int); }
                let same = match &rec.data { Some(d) => eq_exact(d.as_str(), target.as_str()), None => false };
                if same {
                    return SyncStep::Done(Ok(SyncRecordResult::unchanged(full.as_str(), record_type, target.as_str())));
                }
                let mut body: Vec<(String, JsonValue)> = Vec::new();
                push_member(&mut body, "type", JsonValue::text(record_type.as_str()));
                push_member(&mut body, "data", JsonValue::Str(target));
                let zid = decimal_text(zone_id);
                let rid = decimal_text(rec.id);
                let path = joined("/zones/", zid.as_str(), "/records/");
                let path = with_prefix(path.as_str(), rid.as_str());
                let req = self.request(HttpMethod::Patch, path, Some(JsonValue::object(body)));
                return SyncStep::Send(req, Dynv6State::Write { created: false });
            }
            i = i + 1;
        }
        assert(records@.take(records@.len() as int) =~= records@);
        let mut body: Vec<(String, JsonValue)> = Vec::new();
        push_member(&mut body, "name", JsonValue::text(sub_name));
        push_member(&mut body, "type", JsonValue::text(record_type.as_str()));
        push_member(&mut body, "data", JsonValue::Str(target));
        let path = joined("/zones/", decimal_text(zone_id).as_str(), "/records");
        let req = self.request(HttpMethod::Post, path, Some(JsonValue::object(body)));
        SyncStep::Send(req, Dynv6State::Write { created: true })
    }

    /// The outcome of the change: an error status, an unreadable reply, or the record
    /// updated or created.
    pub fn on_write(
        &self,
        created: bool,
        domain: &ParsedDomain,
        record_type: DnsRecordType,
        ip: &IpAddress,
        reply: &HttpReply,
        parsed: Result<(), String>,
    ) -> (r: Result<SyncRecordResult, DnsProviderError>)
        ensures
            !reply.success ==> is_api_error(r, reply.status@, dynv6_status_error(*reply)),
            reply.success ==> match parsed {
                Err(e) => r == Err::<SyncRecordResult, DnsProviderError>(DnsProviderError::Json(e)),
                Ok(_) => if created {
                    r matches Ok(res) && res.is(full_name(domain.sub_domain@, domain.root_domain@), record_type,
                        ip_text(*ip), SyncStatus::Created, "解析记录创建成功"@)
                } else {
                    r matches Ok(res) && res.is(full_name(domain.sub_domain@, domain.root_domain@), record_type,
                        ip_text(*ip), SyncStatus::Updated, updated_message())
                },
            },
    {
        if !reply.success {
            return Err(DnsProviderError::ApiError {
                code: reply.status.clone(),
                message: with_prefix("Dynv6 API 响应异常: ", reply.body.as_str()),
            });
        }
        if let Err(e) = parsed {
            return Err(DnsProviderError::Json(e));
        }
        let full = domain.full_domain();
        let target = ip.to_text();
        if created {
            Ok(SyncRecordResult {
                domain: full,
                record_type,
                target_ip: target,
                status: SyncStatus::Created,
                message: "解析记录创建成功".to_string(),
            })
        } else {
            Ok(SyncRecordResult::updated(full.as_str(), record_type, target.as_str()))
        }
    }
}

fn dotted(name: &str) -> (r: Vec<char>)
    ensures r@ == seq!['.'] + name@,
{
    let mut v: Vec<char> = Vec::new();
    v.push('.');
    append_str(&mut v, name);
    assert(v@ =~= seq!['.'] + name@);
    v
}

fn ends_with_chars(s: &[char], suffix: &[char]) -> (r: bool)
    ensures r == ends_with(s@, suffix@),
{
    if suffix.len() > s.len() {
        return false;
    }
    let tail = sub_chars(s, s.len() - suffix.len(), s.len());
    chars_eq(tail.as_slice(), suffix)
}

fn host_of(full: &[char], zone_name: &str, sub: &str) -> (r: String)
    ensures r@ == host_below(full@, zone_name@, sub@),
{
    let suffix = dotted(zone_name);
    if ends_with_chars(full, suffix.as_slice()) {
        let head = sub_chars(full, 0, full.len() - suffix.len());
        string_of(head.as_slice())
    } else {
        sub.to_string()
    }
}

proof fn lemma_zone_prefix(zones: Seq<Dynv6Zone>, full: Seq<char>, i: int)
    requires
        0 <= i < zones.len(),
        dynv6_zone_index(zones.take(i), full) is None,
        zone_holds(zones[i], full),
    ensures dynv6_zone_index(zones, full) == Some(i),
    decreases zones.len() - i,
{
    if i == zones.len() - 1 {
        assert(zones.drop_last() =~= zones.take(i));
    } else {
        assert(zones.drop_last().take(i) =~= zones.take(i));
        lemma_zone_prefix(zones.drop_last(), full, i);
    }
}

proof fn lemma_record_prefix(records: Seq<Dynv6Record>, host: Seq<char>, t: DnsRecordType, i: int)
    requires
        0 <= i < records.len(),
        dynv6_record_index(records.take(i), host, t) is None,
        record_is(records[i], host, t),
    ensures dynv6_record_index(records, host, t) == Some(i),
    decreases records.len() - i,
{
    if i == records.len() - 1 {
        assert(records.drop_last() =~= records.take(i));
    } else {
        assert(records.drop_last().take(i) =~= records.take(i));
        lemma_record_prefix(records.drop_last(), host, t, i);
    }
}

} // verus!
