//! Gcore DNS: find the zone, look for the record set, then replace it or create it.
use vstd::prelude::*;
use crate::domain::{ParsedDomain, full_name, is_root_label};
use crate::engine::{IpAddress, ip_text};
use crate::json::{Json, JsonValue, deep, push_item, push_member};
use crate::providers::{DnsProviderError, HttpMethod, HttpReply, HttpRequest, SyncStep, is_api_error, joined, with_prefix};
use crate::records::{DnsRecordType, SyncRecordResult, SyncStatus, record_type_name, unchanged_message, updated_message};
use crate::text::{append_str, chars_of, eq_exact, eq_ignore_case, has_prefix, lower, starts_with, string_of};

verus! {

broadcast use vstd::string::group_string_axioms;

/// Base of the Gcore DNS API.
pub open spec fn gcore_base() -> Seq<char> {
    "https://api.gcore.com/dns/v2"@
}

/// A zone of the zone list.
#[derive(Debug, Clone)]
pub struct GcoreZone {
    pub name: String,
}

/// The zone list.
#[derive(Debug, Clone)]
pub struct GcoreZoneResponse {
    pub zones: Option<Vec<GcoreZone>>,
}

/// One resource record: its content values, each the text of a JSON string or
/// `None` for any other JSON value.
#[derive(Debug, Clone)]
pub struct GcoreResourceRecord {
    pub content: Option<Vec<Option<String>>>,
}

/// A record set.
#[derive(Debug, Clone)]
pub struct GcoreRRSet {
    pub name: String,
    pub record_type: String,
    pub resource_records: Option<Vec<GcoreResourceRecord>>,
}

/// The record-set list.
#[derive(Debug, Clone)]
pub struct GcoreRRSetListResponse {
    pub rrsets: Option<Vec<GcoreRRSet>>,
}

/// Where a Gcore synchronisation stands.
#[derive(Debug, Clone)]
pub enum GcoreState {
    /// The zone list was asked for.
    ZoneLookup,
    /// The record sets of the zone were asked for.
    RRSetLookup { zone_name: String },
    /// The record set was sent: replaced (`update`) or created.
    Write { update: bool },
}

/// Gcore credentials.
pub struct GcoreProvider {
    pub api_key: String,
}

/// `s` without its trailing dots (`trim_end_matches('.')`).
pub open spec fn trim_dots(s: Seq<char>) -> Seq<char>
    decreases s.len(),
{
    if s.len() > 0 && s.last() == '.' { trim_dots(s.drop_last()) } else { s }
}

/// Position of the first zone named `root` (ignoring ASCII case).
pub open spec fn zone_index(zones: Seq<GcoreZone>, root: Seq<char>) -> Option<int>
    decreases zones.len(),
{
    if zones.len() == 0 {
        None
    } else {
        match zone_index(zones.drop_last(), root) {
            Some(i) => Some(i),
            None => if lower(zones.last().name@) == lower(root) { Some(zones.len() - 1) } else { None },
        }
    }
}

/// The record set is the one for `full` and type `t`.
pub open spec fn rrset_matches(r: GcoreRRSet, t: DnsRecordType, full: Seq<char>) -> bool {
    lower(r.record_type@) == lower(record_type_name(t)) && lower(trim_dots(r.name@)) == lower(trim_dots(full))
}

/// Position of the first matching record set.
pub open spec fn rrset_index(sets: Seq<GcoreRRSet>, t: DnsRecordType, full: Seq<char>) -> Option<int>
    decreases sets.len(),
{
    if sets.len() == 0 {
        None
    } else {
        match rrset_index(sets.drop_last(), t, full) {
            Some(i) => Some(i),
            None => if rrset_matches(sets.last(), t, full) { Some(sets.len() - 1) } else { None },
        }
    }
}

/// The `k`-th content value of the set's last resource record is the address.
pub open spec fn last_content_is(r: GcoreRRSet, k: int, ip: Seq<char>) -> bool {
    match r.resource_records {
        Some(rrs) => rrs@.len() > 0 && match rrs@.last().content {
            Some(cs) => 0 <= k < cs@.len() && content_is(cs@[k], ip),
            None => false,
        },
        None => false,
    }
}

/// The last resource record of the set holds the address among its contents.
pub open spec fn rrset_holds(r: GcoreRRSet, ip: Seq<char>) -> bool {
    exists|k: int| #[trigger] last_content_is(r, k, ip)
}

/// A content value is the text `ip`.
pub open spec fn content_is(c: Option<String>, ip: Seq<char>) -> bool {
    c matches Some(s) && s@ == ip
}

/// The Authorization value: the key as given where it already names its scheme.
pub open spec fn gcore_auth(key: Seq<char>) -> Seq<char> {
    if has_prefix(key, "APIKey "@) || has_prefix(key, "Bearer "@) { key } else { "APIKey "@ + key }
}

/// The TTL sent: the given one or 120, at least 1.
pub open spec fn gcore_ttl(ttl: Option<u32>) -> int {
    let t: int = match ttl { Some(v) => v as int, None => 120 };
    if t < 1 { 1 } else { t }
}

/// The record name under the zone.
pub open spec fn gcore_record_name(sub: Seq<char>, zone: Seq<char>) -> Seq<char> {
    if is_root_label(sub) { zone } else { sub + "."@ + zone }
}

/// URL of the record set of a given name and type.
pub open spec fn gcore_record_url(zone: Seq<char>, sub: Seq<char>, t: DnsRecordType) -> Seq<char> {
    gcore_base() + "/zones/"@ + zone + "/"@ + gcore_record_name(sub, zone) + "/"@ + record_type_name(t)
}

/// The record set sent.
pub open spec fn gcore_payload(ip: Seq<char>, ttl: Option<u32>) -> Json {
    let record = Json::Object(seq![("content"@, Json::Array(seq![Json::Str(ip)]))]
        .push(("enabled"@, Json::Bool(true))));
    Json::Object(seq![("ttl"@, Json::Int(gcore_ttl(ttl)))]
        .push(("resource_records"@, Json::Array(seq![record]))))
}

/// A GET with the provider's headers.
pub open spec fn is_gcore_get(req: HttpRequest, key: Seq<char>, url: Seq<char>) -> bool {
    &&& req.method == HttpMethod::Get
    &&& req.url@ == url
    &&& req.headers@.len() == 2
    &&& req.headers@[0].0@ == "Authorization"@ && req.headers@[0].1@ == gcore_auth(key)
    &&& req.headers@[1].0@ == "Content-Type"@ && req.headers@[1].1@ == "application/json"@
    &&& req.body is None
}

/// A write with the provider's headers and the record set as body.
pub open spec fn is_gcore_write(req: HttpRequest, key: Seq<char>, method: HttpMethod, url: Seq<char>, body: Json) -> bool {
    &&& req.method == method
    &&& req.url@ == url
    &&& req.headers@.len() == 2
    &&& req.headers@[0].0@ == "Authorization"@ && req.headers@[0].1@ == gcore_auth(key)
    &&& req.headers@[1].0@ == "Content-Type"@ && req.headers@[1].1@ == "application/json"@
    &&& req.body matches Some(b) && b@ == crate::json::render(body)
}

impl GcoreProvider {
    /// A provider with the given API key.
    pub fn new(api_key: String) -> (r: Self)
        ensures r.api_key == api_key,
    {
        GcoreProvider { api_key }
    }

    fn headers(&self) -> (r: Vec<(String, String)>)
        ensures
            r@.len() == 2,
            r@[0].0@ == "Authorization"@ && r@[0].1@ == gcore_auth(self.api_key@),
            r@[1].0@ == "Content-Type"@ && r@[1].1@ == "application/json"@,
    {
        let kc = chars_of(self.api_key.as_str());
        let p1 = chars_of("APIKey ");
        let p2 = chars_of("Bearer ");
        let auth = if starts_with(kc.as_slice(), p1.as_slice()) || starts_with(kc.as_slice(), p2.as_slice()) {
            self.api_key.clone()
        } else {
            let mut v: Vec<char> = Vec::new();
            append_str(&mut v, "APIKey ");
            append_str(&mut v, self.api_key.as_str());
            string_of(v.as_slice())
        };
        let mut h: Vec<(String, String)> = Vec::new();
        h.push(("Authorization".to_string(), auth));
        h.push(("Content-Type".to_string(), "application/json".to_string()));
        h
    }

    /// The first request: the zone list filtered by the root domain's name.
    pub fn start(&self, domain: &ParsedDomain) -> (r: (HttpRequest, GcoreState))
        ensures
            is_gcore_get(r.0, self.api_key@, gcore_base() + "/zones?name="@ + domain.root_domain@),
            r.1 is ZoneLookup,
    {
        let mut url: Vec<char> = Vec::new();
        append_str(&mut url, "https://api.gcore.com/dns/v2");
        append_str(&mut url, "/zones?name=");
        append_str(&mut url, domain.root_domain.as_str());
        (HttpRequest { method: HttpMethod::Get, url: string_of(url.as_slice()), headers: self.headers(), body: None },
            GcoreState::ZoneLookup)
    }

    /// The decision on the zone list: the zone named like the root domain, or no zone.
    pub fn on_zones(
        &self,
        domain: &ParsedDomain,
        reply: &HttpReply,
        parsed: Result<GcoreZoneResponse, String>,
    ) -> (r: SyncStep<GcoreState>)
        ensures
            !reply.success ==> (r matches SyncStep::Done(res)
                && is_api_error(res, reply.status@, "查询 Gcore Zone 失败: "@ + reply.body@)),
            reply.success ==> match parsed {
                Err(e) => r == SyncStep::<GcoreState>::Done(Err(DnsProviderError::Json(e))),
                Ok(z) => {
                    let zones = match z.zones { Some(v) => v@, None => Seq::empty() };
                    match zone_index(zones, domain.root_domain@) {
                        None => r matches SyncStep::Done(Err(DnsProviderError::ZoneNotFound(m)))
                            && m@ == "在 Gcore 中未找到域名 ["@ + domain.root_domain@ + "] 对应的 Zone"@,
                        Some(i) => r matches SyncStep::Send(req, GcoreState::RRSetLookup { zone_name })
                            && zone_name@ == zones[i].name@
                            && is_gcore_get(req, self.api_key@,
                                gcore_base() + "/zones/"@ + zones[i].name@ + "/rrsets?limit=100"@),
                    }
                },
            },
    {
        if !reply.success {
            return SyncStep::Done(Err(DnsProviderError::ApiError {
                code: reply.status.clone(),
                message: with_prefix("查询 Gcore Zone 失败: ", reply.body.as_str()),
            }));
        }
        let z = match parsed {
            Err(e) => { return SyncStep::Done(Err(DnsProviderError::Json(e))); },
            Ok(z) => z,
        };
        let zones: Vec<GcoreZone> = match z.zones { Some(v) => v, None => Vec::new() };
        let mut i: usize = 0;
        while i < zones.len()
            invariant
                i <= zones@.len(),
                reply.success,
                parsed is Ok,
                zones@ == match parsed->Ok_0.zones { Some(v) => v@, None => Seq::<GcoreZone>::empty() },
                zone_index(zones@.take(i as int), domain.root_domain@) is None,
            decreases zones@.len() - i,
        {
            assert(zones@.take(i + 1).drop_last() =~= zones@.take(i as int));
            if eq_ignore_case(zones[i].name.as_str(), domain.root_domain.as_str()) {
                proof { lemma_zone_index_prefix(zones@, domain.root_domain@, i as int); }
                let zone_name = zones[i].name.clone();
                let mut url: Vec<char> = Vec::new();
                append_str(&mut url, "https://api.gcore.com/dns/v2");
                append_str(&mut url, "/zones/");
                append_str(&mut url, zone_name.as_str());
                append_str(&mut url, "/rrsets?limit=100");
                let req = HttpRequest {
                    method: HttpMethod::Get,
                    url: string_of(url.as_slice()),
                    headers: self.headers(),
                    body: None,
                };
                return SyncStep::Send(req, GcoreState::RRSetLookup { zone_name });
            }
            i = i + 1;
        }
        assert(zones@.take(zones@.len() as int) =~= zones@);
        SyncStep::Done(Err(DnsProviderError::ZoneNotFound(
            joined("在 Gcore 中未找到域名 [", domain.root_domain.as_str(), "] 对应的 Zone"),
        )))
    }

    /// The decision on the record sets of zone `zone_name`: the record already holds
    /// the address, or the set is replaced (PUT), or it is created (POST).
    pub fn on_rrsets(
        &self,
        domain: &ParsedDomain,
        record_type: DnsRecordType,
        ip: &IpAddress,
        ttl: Option<u32>,
        zone_name: &str,
        reply: &HttpReply,
        parsed: Result<GcoreRRSetListResponse, String>,
    ) -> (r: SyncStep<GcoreState>)
        ensures
            !reply.success ==> (r matches SyncStep::Done(res)
                && is_api_error(res, reply.status@, "Gcore 查询 RRSet 失败: "@ + reply.body@)),
            reply.success ==> match parsed {
                Err(e) => r == SyncStep::<GcoreState>::Done(Err(DnsProviderError::Json(e))),
                Ok(l) => {
                    let sets = match l.rrsets { Some(v) => v@, None => Seq::empty() };
                    let full = full_name(domain.sub_domain@, domain.root_domain@);
                    let url = gcore_record_url(zone_name@, domain.sub_domain@, record_type);
                    match rrset_index(sets, record_type, full) {
                        Some(i) => if rrset_holds(sets[i], ip_text(*ip)) {
                            r matches SyncStep::Done(Ok(res))
                                && res.is(full, record_type, ip_text(*ip), SyncStatus::Unchanged, unchanged_message())
                        } else {
                            r matches SyncStep::Send(req, GcoreState::Write { update: true })
                                && is_gcore_write(req, self.api_key@, HttpMethod::Put, url, gcore_payload(ip_text(*ip), ttl))
                        },
                        None => r matches SyncStep::Send(req, GcoreState::Write { update: false })
                            && is_gcore_write(req, self.api_key@, HttpMethod::Post, url, gcore_payload(ip_text(*ip), ttl)),
                    }
                },
            },
    {
        if !reply.success {
            return SyncStep::Done(Err(DnsProviderError::ApiError {
                code: reply.status.clone(),
                message: with_prefix("Gcore 查询 RRSet 失败: ", reply.body.as_str()),
            }));
        }
        let l = match parsed {
            Err(e) => { return SyncStep::Done(Err(DnsProviderError::Json(e))); },
            Ok(l) => l,
        };
        let sets: Vec<GcoreRRSet> = match l.rrsets { Some(v) => v, None => Vec::new() };
        let full = domain.full_domain();
        let target = ip.to_text();
        let url = record_url(zone_name, domain, record_type);
        let mut i: usize = 0;
        while i < sets.len()
            invariant
                i <= sets@.len(),
                reply.success,
                parsed is Ok,
                sets@ == match parsed->Ok_0.rrsets { Some(v) => v@, None => Seq::<GcoreRRSet>::empty() },
                url@ == gcore_record_url(zone_name@, domain.sub_domain@, record_type),
                target@ == ip_text(*ip),
                full@ == full_name(domain.sub_domain@, domain.root_domain@),
                rrset_index(sets@.take(i as int), record_type, full@) is None,
            decreases sets@.len() - i,
        {
            assert(sets@.take(i + 1).drop_last() =~= sets@.take(i as int));
            if set_matches(&sets[i], record_type, full.as_str()) {
                proof { lemma_rrset_index_prefix(sets@, record_type, full@, i as int); }
                if set_holds(&sets[i], target.as_str()) {
                    return SyncStep::Done(Ok(SyncRecordResult::unchanged(full.as_str(), record_type, target.as_str())));
                }
                let req = self.write_request(HttpMethod::Put, url, target, ttl);
                return SyncStep::Send(req, GcoreState::Write { update: true });
            }
            i = i + 1;
        }
        assert(sets@.take(sets@.len() as int) =~= sets@);
        let req = self.write_request(HttpMethod::Post, url, target, ttl);
        SyncStep::Send(req, GcoreState::Write { update: false })
    }

    /// The outcome of the replacement (`update`) or creation.
    pub fn on_write(
        &self,
        update: bool,
        domain: &ParsedDomain,
        record_type: DnsRecordType,
        ip: &IpAddress,
        reply: &HttpReply,
    ) -> (r: Result<SyncRecordResult, DnsProviderError>)
        ensures
            reply.success && update ==> (r matches Ok(res) && res.is(full_name(domain.sub_domain@, domain.root_domain@),
                record_type, ip_text(*ip), SyncStatus::Updated, updated_message())),
            reply.success && !update ==> (r matches Ok(res) && res.is(full_name(domain.sub_domain@, domain.root_domain@),
                record_type, ip_text(*ip), SyncStatus::Created, "解析记录创建成功"@)),
            !reply.success && update ==> is_api_error(r, reply.status@, "Gcore 更新记录失败: "@ + reply.body@),
            !reply.success && !update ==> is_api_error(r, reply.status@, "Gcore 创建记录失败: "@ + reply.body@),
    {
        if reply.success {
            let full = domain.full_domain();
            let target = ip.to_text();
            if update {
                Ok(SyncRecordResult::updated(full.as_str(), record_type, target.as_str()))
            } else {
                Ok(SyncRecordResult {
                    domain: full,
                    record_type,
                    target_ip: target,
                    status: SyncStatus::Created,
                    message: "解析记录创建成功".to_string(),
                })
            }
        } else {
            let prefix = if update { "Gcore 更新记录失败: " } else { "Gcore 创建记录失败: " };
            Err(DnsProviderError::ApiError {
                code: reply.status.clone(),
                message: with_prefix(prefix, reply.body.as_str()),
            })
        }
    }

    fn write_request(&self, method: HttpMethod, url: String, ip: String, ttl: Option<u32>) -> (r: HttpRequest)
        ensures is_gcore_write(r, self.api_key@, method, url@, gcore_payload(ip@, ttl)),
    {
        let t: u32 = match ttl { Some(v) => v, None => 120 };
        let ttl_val: u32 = if t < 1 { 1 } else { t };
        let mut content: Vec<JsonValue> = Vec::new();
        push_item(&mut content, JsonValue::Str(ip));
        let mut record: Vec<(String, JsonValue)> = Vec::new();
        push_member(&mut record, "content", JsonValue::array(content));
        push_member(&mut record, "enabled", JsonValue::Bool(true));
        let mut records: Vec<JsonValue> = Vec::new();
        push_item(&mut records, JsonValue::object(record));
        let mut payload: Vec<(String, JsonValue)> = Vec::new();
        push_member(&mut payload, "ttl", JsonValue::UInt(ttl_val as u64));
        push_member(&mut payload, "resource_records", JsonValue::array(records));
        let body = JsonValue::object(payload);
        HttpRequest { method, url, headers: self.headers(), body: Some(body.to_text()) }
    }
}

proof fn lemma_zone_index_prefix(zones: Seq<GcoreZone>, root: Seq<char>, i: int)
    requires
        0 <= i < zones.len(),
        zone_index(zones.take(i), root) is None,
        lower(zones[i].name@) == lower(root),
    ensures zone_index(zones, root) == Some(i),
    decreases zones.len() - i,
{
    if i == zones.len() - 1 {
        assert(zones.drop_last() =~= zones.take(i));
    } else {
        assert(zones.drop_last().take(i) =~= zones.take(i));
        lemma_zone_index_prefix(zones.drop_last(), root, i);
    }
}

proof fn lemma_rrset_index_prefix(sets: Seq<GcoreRRSet>, t: DnsRecordType, full: Seq<char>, i: int)
    requires
        0 <= i < sets.len(),
        rrset_index(sets.take(i), t, full) is None,
        rrset_matches(sets[i], t, full),
    ensures rrset_index(sets, t, full) == Some(i),
    decreases sets.len() - i,
{
    if i == sets.len() - 1 {
        assert(sets.drop_last() =~= sets.take(i));
    } else {
        assert(sets.drop_last().take(i) =~= sets.take(i));
        lemma_rrset_index_prefix(sets.drop_last(), t, full, i);
    }
}

fn trim_dots_chars(s: &[char]) -> (r: Vec<char>)
    ensures r@ == trim_dots(s@),
{
    let mut n: usize = s.len();
    assert(s@.take(n as int) =~= s@);
    while n > 0 && s[n - 1] == '.'
        invariant
            n <= s@.len(),
            trim_dots(s@.take(n as int)) == trim_dots(s@),
        decreases n,
    {
        assert(s@.take(n as int).drop_last() =~= s@.take(n - 1));
        n = n - 1;
    }
    assert(s@.take(n as int) =~= s@.subrange(0, n as int));
    let r = crate::text::sub_chars(s, 0, n);
    assert(n > 0 ==> r@.last() != '.');
    r
}

fn set_matches(r: &GcoreRRSet, t: DnsRecordType, full: &str) -> (b: bool)
    ensures b == rrset_matches(*r, t, full@),
{
    if !eq_ignore_case(r.record_type.as_str(), t.as_str()) {
        return false;
    }
    let nc = chars_of(r.name.as_str());
    let fc = chars_of(full);
    let a = trim_dots_chars(nc.as_slice());
    let b = trim_dots_chars(fc.as_slice());
    let al = crate::text::lower_chars(a.as_slice());
    let bl = crate::text::lower_chars(b.as_slice());
    crate::text::chars_eq(al.as_slice(), bl.as_slice())
}

fn set_holds(r: &GcoreRRSet, ip: &str) -> (b: bool)
    ensures b == rrset_holds(*r, ip@),
{
    match &r.resource_records {
        None => false,
        Some(rrs) => {
            if rrs.len() == 0 {
                return false;
            }
            match &rrs[rrs.len() - 1].content {
                None => false,
                Some(cs) => {
                    let mut k: usize = 0;
                    while k < cs.len()
                        invariant
                            k <= cs@.len(),
                            r.resource_records == Some(*rrs),
                            rrs@.len() > 0,
                            rrs@.last().content == Some(*cs),
                            forall|j: int| 0 <= j < k ==> !content_is(#[trigger] cs@[j], ip@),
                        decreases cs@.len() - k,
                    {
                        match &cs[k] {
                            Some(c) => {
                                if eq_exact(c.as_str(), ip) {
                                    assert(last_content_is(*r, k as int, ip@));
                                    return true;
                                }
                            },
                            None => {},
                        }
                        k = k + 1;
                    }
                    proof {
                        assert forall|j: int| !last_content_is(*r, j, ip@) by {
                            if 0 <= j < cs@.len() {
                                assert(!content_is(cs@[j], ip@));
                            }
                        }
                    }
                    false
                },
            }
        },
    }
}

fn record_url(zone: &str, domain: &ParsedDomain, t: DnsRecordType) -> (r: String)
    ensures r@ == gcore_record_url(zone@, domain.sub_domain@, t),
{
    let sc = chars_of(domain.sub_domain.as_str());
    let mut v: Vec<char> = Vec::new();
    append_str(&mut v, "https://api.gcore.com/dns/v2");
    append_str(&mut v, "/zones/");
    append_str(&mut v, zone);
    append_str(&mut v, "/");
    let ghost head = v@;
    if sc.len() == 0 || (sc.len() == 1 && sc[0] == '@') {
        assert(is_root_label(domain.sub_domain@)) by {
            if sc@.len() == 1 { assert(sc@ =~= seq!['@']); }
        }
        append_str(&mut v, zone);
    } else {
        append_str(&mut v, domain.sub_domain.as_str());
        append_str(&mut v, ".");
        append_str(&mut v, zone);
    }
    append_str(&mut v, "/");
    append_str(&mut v, t.as_str());
    proof {
        let name = gcore_record_name(domain.sub_domain@, zone@);
        assert(v@ =~= head + name + "/"@ + record_type_name(t));
    }
    string_of(v.as_slice())
}

} // verus!
