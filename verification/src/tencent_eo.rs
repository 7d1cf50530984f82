//! Tencent Cloud EdgeOne: find the zone of the root domain, then either merge the address
//! into an origin group (where the domain names one) or keep a DNS record; calls are
//! TC3-signed.
use vstd::prelude::*;
use crate::domain::{ParsedDomain, full_name, record_name_matches, text_values};
use crate::engine::{IpAddress, ip_text};
use crate::json::{Json, JsonValue, deep, deep_members, deep_seq, push_item, push_member, render};
use crate::providers::{DnsProviderError, HttpReply, HttpRequest, SyncStep};
use crate::records::{DnsRecordType, SyncRecordResult, SyncStatus, created_message, record_type_name, unchanged_message,
    updated_message};
use crate::tc3::{Tc3ApiEndpoint, Tc3ApiError, Tc3Response, is_tc3_request, read_reply, tc3_request};
use crate::text::{append_str, blank, chars_of, eq_exact, eq_ignore_case, is_blank, lower, parse_unsigned,
    parse_unsigned_chars, string_of};

verus! {

broadcast use vstd::string::group_string_axioms;

/// EdgeOne credentials.
pub struct TencentEoProvider {
    pub secret_id: String,
    pub secret_key: String,
}

/// A zone as `DescribeZones` lists it.
#[derive(Debug, Clone)]
pub struct TeoZoneItem {
    pub zone_id: String,
    pub zone_name: String,
}

/// The data of `DescribeZones`.
#[derive(Debug, Clone)]
pub struct TeoZoneData {
    pub zones: Option<Vec<TeoZoneItem>>,
    pub error: Option<Tc3ApiError>,
}

/// A DNS record as `DescribeDnsRecords` lists it.
#[derive(Debug, Clone)]
pub struct TeoRecordItem {
    pub record_id: Option<String>,
    pub name: String,
    pub record_type: String,
    pub content: String,
}

/// The data of `DescribeDnsRecords`.
#[derive(Debug, Clone)]
pub struct TeoRecordData {
    pub dns_records: Option<Vec<TeoRecordItem>>,
    pub error: Option<Tc3ApiError>,
}

/// The data of a modifying call.
#[derive(Debug, Clone)]
pub struct TeoActionData {
    pub error: Option<Tc3ApiError>,
}

/// One origin of an origin group.
#[derive(Debug, Clone)]
pub struct TeoOriginRecord {
    pub record: String,
    pub record_type: String,
    pub weight: Option<u32>,
}

/// An origin group.
#[derive(Debug, Clone)]
pub struct TeoOriginGroup {
    pub group_id: String,
    pub name: String,
    pub records: Option<Vec<TeoOriginRecord>>,
}

/// The data of `DescribeOriginGroup`.
#[derive(Debug, Clone)]
pub struct TeoOriginGroupData {
    pub origin_groups: Option<Vec<TeoOriginGroup>>,
    pub error: Option<Tc3ApiError>,
}

/// Where an EdgeOne synchronisation stands.
#[derive(Debug, Clone)]
pub enum TeoState {
    /// The zones were asked for.
    Zones,
    /// The origin groups of the zone were asked for.
    Groups(String),
    /// The origin group was modified.
    GroupModified,
    /// The DNS records of the zone were asked for.
    Records(String),
    /// A DNS record was modified.
    RecordModified,
    /// A DNS record was created.
    RecordCreated,
}

/// The EdgeOne API.
pub open spec fn teo_host() -> Seq<char> { "teo.tencentcloudapi.com"@ }

/// A `{"Name": .., "Values": [..]}` filter.
pub open spec fn filter(name: Seq<char>, value: Seq<char>) -> Json {
    Json::Object(seq![("Name"@, Json::Str(name)), ("Values"@, Json::Array(seq![Json::Str(value)]))])
}

/// The zone query.
pub open spec fn zones_payload(root: Seq<char>) -> Json {
    Json::Object(seq![("Filters"@, Json::Array(seq![filter("zone-name"@, root)]))])
}

/// The value of the first of two parameter spellings that is given.
pub open spec fn param2(params: Map<Seq<char>, Seq<char>>, a: Seq<char>, b: Seq<char>) -> Option<Seq<char>> {
    if params.contains_key(a) { Some(params[a]) } else if params.contains_key(b) { Some(params[b]) } else { None }
}

/// The origin weight: the `Weight` (or `weight`) parameter where it is a `u32`, else 100.
pub open spec fn origin_weight(params: Map<Seq<char>, Seq<char>>) -> int {
    match param2(params, "Weight"@, "weight"@) {
        Some(w) => match parse_unsigned(w, 10, u32::MAX as int) { Some(v) => v, None => 100 },
        None => 100,
    }
}

/// The domain names an origin group (by id or by name).
pub open spec fn is_origin_group(params: Map<Seq<char>, Seq<char>>) -> bool {
    params.contains_key("GroupId"@) || params.contains_key("group_id"@) || params.contains_key("OriginGroupName"@)
        || params.contains_key("origin_group_name"@)
}

/// The origin group query of a zone: by id where one is given, else by name, else all.
pub open spec fn groups_payload(zone: Seq<char>, gid: Option<Seq<char>>, gname: Option<Seq<char>>) -> Json {
    let filters: Seq<Json> = match gid {
        Some(g) => seq![filter("origin-group-id"@, g)],
        None => match gname { Some(n) => seq![filter("origin-group-name"@, n)], None => Seq::empty() },
    };
    Json::Object(seq![("Filters"@, Json::Array(filters)), ("ZoneId"@, Json::Str(zone))])
}

/// The group sought: by id where one is given, else by name, else any (ASCII case ignored).
pub open spec fn group_is(g: TeoOriginGroup, gid: Option<Seq<char>>, gname: Option<Seq<char>>) -> bool {
    match gid {
        Some(x) => lower(g.group_id@) == lower(x),
        None => match gname { Some(n) => lower(g.name@) == lower(n), None => true },
    }
}

/// The first group sought.
pub open spec fn group_match(groups: Seq<TeoOriginGroup>, gid: Option<Seq<char>>, gname: Option<Seq<char>>) -> Option<int>
    decreases groups.len(),
{
    if groups.len() == 0 {
        None
    } else {
        match group_match(groups.drop_last(), gid, gname) {
            Some(i) => Some(i),
            None => if group_is(groups.last(), gid, gname) { Some(groups.len() - 1) } else { None },
        }
    }
}

/// An origin entry `{"Record", "Type", "Weight"}`.
pub open spec fn origin_json(record: Seq<char>, t: Seq<char>, weight: int) -> Json {
    Json::Object(seq![("Record"@, Json::Str(record)), ("Type"@, Json::Str(t)), ("Weight"@, Json::Int(weight))])
}

/// An origin's weight, 100 where it has none.
pub open spec fn weight_or_default(r: TeoOriginRecord) -> int {
    match r.weight { Some(w) => w as int, None => 100 }
}

/// The origins kept: the one at the address gets the new weight, the others keep theirs.
pub open spec fn kept_origins(cur: Seq<TeoOriginRecord>, ip: Seq<char>, weight: int) -> Seq<Json> {
    Seq::new(cur.len(), |i: int| if cur[i].record@ == ip { origin_json(ip, cur[i].record_type@, weight) } else {
        origin_json(cur[i].record@, cur[i].record_type@, weight_or_default(cur[i])) })
}

/// The address is among the origins.
pub open spec fn has_origin(cur: Seq<TeoOriginRecord>, ip: Seq<char>) -> bool {
    exists|i: int| 0 <= i < cur.len() && cur[i].record@ == ip
}

/// The merged origins: the kept ones where the address is among them; otherwise the
/// address alone (replacing at most one origin) or added after the others.
pub open spec fn merged_origins(cur: Seq<TeoOriginRecord>, ip: Seq<char>, weight: int) -> Seq<Json> {
    if has_origin(cur, ip) {
        kept_origins(cur, ip, weight)
    } else if cur.len() <= 1 {
        seq![origin_json(ip, "IP_DOMAIN"@, weight)]
    } else {
        kept_origins(cur, ip, weight).push(origin_json(ip, "IP_DOMAIN"@, weight))
    }
}

/// Nothing changes: the address is an origin with that weight already.
pub open spec fn origins_unchanged(cur: Seq<TeoOriginRecord>, ip: Seq<char>, weight: int) -> bool {
    exists|i: int| 0 <= i < cur.len() && cur[i].record@ == ip && weight_or_default(cur[i]) == weight
}

/// Merging puts the address among the origins with the chosen weight, and keeps every
/// other origin, with its type and weight, unless it was the only one.
pub proof fn law_merge_keeps_origins(cur: Seq<TeoOriginRecord>, ip: Seq<char>, weight: int)
    ensures
        exists|k: int| 0 <= k < merged_origins(cur, ip, weight).len()
            && #[trigger] merged_origins(cur, ip, weight)[k] == origin_json(ip,
                if has_origin(cur, ip) { cur[k].record_type@ } else { "IP_DOMAIN"@ }, weight),
        has_origin(cur, ip) || cur.len() > 1 ==> forall|i: int| 0 <= i < cur.len() && cur[i].record@ != ip
            ==> #[trigger] merged_origins(cur, ip, weight)[i] == origin_json(cur[i].record@, cur[i].record_type@,
                weight_or_default(cur[i])),
{
    let m = merged_origins(cur, ip, weight);
    if has_origin(cur, ip) {
        let k = choose|k: int| 0 <= k < cur.len() && cur[k].record@ == ip;
        assert(m[k] == origin_json(ip, cur[k].record_type@, weight));
    } else if cur.len() <= 1 {
        assert(m[0] == origin_json(ip, "IP_DOMAIN"@, weight));
    } else {
        assert(m[cur.len() as int] == origin_json(ip, "IP_DOMAIN"@, weight));
    }
}

/// The group modification.
pub open spec fn modify_group_payload(zone: Seq<char>, g: TeoOriginGroup, records: Seq<Json>) -> Json {
    Json::Object(seq![("GroupId"@, Json::Str(g.group_id@)), ("Name"@, Json::Str(g.name@)), ("Records"@, Json::Array(records)),
        ("Type"@, Json::Str("GENERAL"@)), ("ZoneId"@, Json::Str(zone))])
}

/// The DNS record query of a zone.
pub open spec fn records_payload(zone: Seq<char>, full: Seq<char>, t: DnsRecordType) -> Json {
    Json::Object(seq![("Filters"@, Json::Array(seq![filter("name"@, full), filter("type"@, record_type_name(t))])),
        ("ZoneId"@, Json::Str(zone))])
}

/// The TTL sent: the given one or 600, at least 1.
pub open spec fn teo_ttl(ttl: Option<u32>) -> int {
    let t: int = match ttl { Some(v) => v as int, None => 600 };
    if t < 1 { 1 } else { t }
}

/// A record body (with its id for a modification).
pub open spec fn record_json(id: Option<Seq<char>>, zone: Seq<char>, full: Seq<char>, t: DnsRecordType, ip: Seq<char>,
    ttl: Option<u32>) -> Json {
    let head = seq![("Content"@, Json::Str(ip)), ("Location"@, Json::Str("Default"@)), ("Name"@, Json::Str(full))];
    let with_id = match id { Some(x) => head.push(("RecordId"@, Json::Str(x))), None => head };
    Json::Object(with_id + seq![("TTL"@, Json::Int(teo_ttl(ttl))), ("Type"@, Json::Str(record_type_name(t))),
        ("ZoneId"@, Json::Str(zone))])
}

/// The modification of a record.
pub open spec fn modify_record_payload(id: Seq<char>, zone: Seq<char>, full: Seq<char>, t: DnsRecordType, ip: Seq<char>,
    ttl: Option<u32>) -> Json {
    Json::Object(seq![("DnsRecords"@, Json::Array(seq![record_json(Some(id), zone, full, t, ip, ttl)])),
        ("ZoneId"@, Json::Str(zone))])
}

/// The first listed record of the domain's name and the type.
pub open spec fn record_match(records: Seq<TeoRecordItem>, sub: Seq<char>, root: Seq<char>, t: DnsRecordType) -> Option<int>
    decreases records.len(),
{
    if records.len() == 0 {
        None
    } else {
        match record_match(records.drop_last(), sub, root, t) {
            Some(i) => Some(i),
            None => {
                let r = records.last();
                if record_name_matches(sub, root, r.name@) && lower(r.record_type@) == lower(record_type_name(t)) {
                    Some(records.len() - 1)
                } else {
                    None
                }
            },
        }
    }
}

/// The first zone named like the root domain.
pub open spec fn zone_match(zones: Seq<TeoZoneItem>, root: Seq<char>) -> Option<int>
    decreases zones.len(),
{
    if zones.len() == 0 {
        None
    } else {
        match zone_match(zones.drop_last(), root) {
            Some(i) => Some(i),
            None => if lower(zones.last().zone_name@) == lower(root) { Some(zones.len() - 1) } else { None },
        }
    }
}

/// `Some("..")` or `None`, as `{:?}` writes an optional text.
pub open spec fn debug_opt(o: Option<Seq<char>>) -> Seq<char> {
    match o {
        Some(s) => "Some(\""@ + debug_escape(s) + "\")"@,
        None => "None"@,
    }
}

/// A character as `{:?}` writes it inside a quoted text: quotes, backslashes, tab, line
/// feed, carriage return and NUL get their escapes, other control characters below
/// U+0020 and DEL `\u{..}`.
pub open spec fn debug_char(c: char) -> Seq<char> {
    if c == '"' { seq!['\\', '"'] }
    else if c == '\\' { seq!['\\', '\\'] }
    else if c == '\t' { seq!['\\', 't'] }
    else if c == '\n' { seq!['\\', 'n'] }
    else if c == '\r' { seq!['\\', 'r'] }
    else if c == '\0' { seq!['\\', '0'] }
    else if (c as u32) < 0x20 || c as u32 == 0x7f {
        "\\u{"@ + (if (c as u32) >= 16 { seq![hex_digit_lower((c as u32) / 16)] } else { Seq::empty() })
            + seq![hex_digit_lower((c as u32) % 16)] + seq!['}']
    }
    else { seq![c] }
}

/// Lower-case hexadecimal digit.
pub open spec fn hex_digit_lower(n: u32) -> char {
    if n < 10 { ((48 + n) as u8) as char } else { ((87 + n) as u8) as char }
}

/// The escaped characters of a text.
pub open spec fn debug_escape(s: Seq<char>) -> Seq<char>
    decreases s.len(),
{
    if s.len() == 0 { Seq::empty() } else { debug_escape(s.drop_last()) + debug_char(s.last()) }
}

fn hex_digit_of(n: u32) -> (c: char)
    requires n < 16,
    ensures c == hex_digit_lower(n),
{
    if n < 10 { ((48 + n) as u8) as char } else { ((87 + n) as u8) as char }
}

fn debug_opt_text(o: &Option<String>) -> (r: String)
    ensures r@ == debug_opt(match *o { Some(s) => Some(s@), None => None }),
{
    match o {
        None => "None".to_string(),
        Some(s) => {
            let c = chars_of(s.as_str());
            let mut v: Vec<char> = Vec::new();
            append_str(&mut v, "Some(\"");
            let ghost head = v@;
            let mut i: usize = 0;
            while i < c.len()
                invariant
                    i <= c@.len(),
                    v@ == head + debug_escape(c@.take(i as int)),
                decreases c@.len() - i,
            {
                let ch = c[i];
                let ghost before = v@;
                if ch == '"' { v.push('\\'); v.push('"'); }
                else if ch == '\\' { v.push('\\'); v.push('\\'); }
                else if ch == '\t' { v.push('\\'); v.push('t'); }
                else if ch == '\n' { v.push('\\'); v.push('n'); }
                else if ch == '\r' { v.push('\\'); v.push('r'); }
                else if ch == '\0' { v.push('\\'); v.push('0'); }
                else if (ch as u32) < 0x20 || ch as u32 == 0x7f {
                    append_str(&mut v, "\\u{");
                    let n = ch as u32;
                    if n >= 16 { v.push(hex_digit_of(n / 16)); }
                    v.push(hex_digit_of(n % 16));
                    v.push('}');
                }
                else { v.push(ch); }
                proof {
                    assert(c@.take(i + 1).drop_last() =~= c@.take(i as int));
                    assert(v@ =~= before + debug_char(ch));
                }
                i = i + 1;
            }
            assert(c@.take(c@.len() as int) =~= c@);
            append_str(&mut v, "\")");
            string_of(v.as_slice())
        },
    }
}

proof fn lemma_has_origin_prefix(cur: Seq<TeoOriginRecord>, ip: Seq<char>, i: int)
    requires 0 <= i <= cur.len(),
    ensures has_origin(cur.take(i), ip) == exists|j: int| 0 <= j < i && cur[j].record@ == ip,
{
    if has_origin(cur.take(i), ip) {
        let j = choose|j: int| 0 <= j < cur.take(i).len() && cur.take(i)[j].record@ == ip;
        assert(cur[j].record@ == ip);
    }
    if exists|j: int| 0 <= j < i && cur[j].record@ == ip {
        let j = choose|j: int| 0 <= j < i && cur[j].record@ == ip;
        assert(cur.take(i)[j].record@ == ip);
    }
}

fn origin_value(record: &str, t: &str, weight: u32) -> (r: JsonValue)
    ensures deep(r) == origin_json(record@, t@, weight as int),
{
    let mut m: Vec<(String, JsonValue)> = Vec::new();
    push_member(&mut m, "Record", JsonValue::Str(record.to_string()));
    push_member(&mut m, "Type", JsonValue::Str(t.to_string()));
    push_member(&mut m, "Weight", JsonValue::UInt(weight as u64));
    assert(deep_members(m@) =~= seq![("Record"@, Json::Str(record@)), ("Type"@, Json::Str(t@)),
        ("Weight"@, Json::Int(weight as int))]);
    JsonValue::object(m)
}

/// The origins after merging the address with `weight` into `current`, and whether
/// nothing changes.
pub fn compute_updated_origin_records(current: &Vec<TeoOriginRecord>, target_ip: &str, weight: u32)
    -> (r: (Vec<JsonValue>, bool))
    ensures
        deep_seq(r.0@) == merged_origins(current@, target_ip@, weight as int),
        r.1 == origins_unchanged(current@, target_ip@, weight as int),
{
    let mut out: Vec<JsonValue> = Vec::new();
    let mut matched = false;
    let mut same = false;
    let mut i: usize = 0;
    while i < current.len()
        invariant
            i <= current@.len(),
            deep_seq(out@) == kept_origins(current@, target_ip@, weight as int).take(i as int),
            matched == exists|j: int| 0 <= j < i && current@[j].record@ == target_ip@,
            same == exists|j: int| 0 <= j < i && current@[j].record@ == target_ip@
                && weight_or_default(current@[j]) == weight,
        decreases current@.len() - i,
    {
        let r = &current[i];
        let w: u32 = match r.weight { Some(x) => x, None => 100 };
        let v = if eq_exact(r.record.as_str(), target_ip) {
            matched = true;
            if w == weight {
                same = true;
            }
            origin_value(target_ip, r.record_type.as_str(), weight)
        } else {
            origin_value(r.record.as_str(), r.record_type.as_str(), w)
        };
        push_item(&mut out, v);
        assert(kept_origins(current@, target_ip@, weight as int).take(i + 1)
            =~= kept_origins(current@, target_ip@, weight as int).take(i as int)
                .push(kept_origins(current@, target_ip@, weight as int)[i as int]));
        i = i + 1;
    }
    assert(kept_origins(current@, target_ip@, weight as int).take(current@.len() as int)
        =~= kept_origins(current@, target_ip@, weight as int));
    if !matched {
        let fresh = origin_value(target_ip, "IP_DOMAIN", weight);
        if current.len() <= 1 {
            let mut one: Vec<JsonValue> = Vec::new();
            push_item(&mut one, fresh);
            assert(deep_seq(one@) =~= seq![origin_json(target_ip@, "IP_DOMAIN"@, weight as int)]);
            out = one;
        } else {
            push_item(&mut out, fresh);
        }
    }
    (out, same)
}

impl TencentEoProvider {
    /// A provider; both keys are needed.
    pub fn new(secret_id: String, secret_key: String) -> (r: Result<Self, DnsProviderError>)
        ensures
            (is_blank(secret_id@) || is_blank(secret_key@)) ==> (r matches Err(DnsProviderError::MissingCredentials(m))
                && m@ == "腾讯云 EdgeOne 需要配置 SecretId 与 SecretKey"@),
            !(is_blank(secret_id@) || is_blank(secret_key@)) ==> (r matches Ok(p) && p.secret_id == secret_id
                && p.secret_key == secret_key),
    {
        if blank(secret_id.as_str()) || blank(secret_key.as_str()) {
            return Err(DnsProviderError::MissingCredentials("腾讯云 EdgeOne 需要配置 SecretId 与 SecretKey".to_string()));
        }
        Ok(TencentEoProvider { secret_id, secret_key })
    }

    /// `req` is the signed EdgeOne call of `action` with `payload`.
    pub open spec fn is_call(&self, req: HttpRequest, action: Seq<char>, payload: Json, timestamp: int, date: Seq<char>) -> bool {
        is_tc3_request(req, self.secret_id@, self.secret_key@, teo_host(), "teo"@, "2022-09-01"@, action, render(payload),
            timestamp, date)
    }

    fn call(&self, action: &str, payload: JsonValue, timestamp: i64, date: &str) -> (r: HttpRequest)
        ensures self.is_call(r, action@, deep(payload), timestamp as int, date@),
    {
        let endpoint = Tc3ApiEndpoint::edgeone();
        let text = payload.to_text();
        tc3_request(self.secret_id.as_str(), self.secret_key.as_str(), &endpoint, action, text, timestamp, date)
    }

    fn filter_value(name: &str, value: &str) -> (r: JsonValue)
        ensures deep(r) == filter(name@, value@),
    {
        let mut vals: Vec<JsonValue> = Vec::new();
        push_item(&mut vals, JsonValue::Str(value.to_string()));
        let mut m: Vec<(String, JsonValue)> = Vec::new();
        push_member(&mut m, "Name", JsonValue::Str(name.to_string()));
        push_member(&mut m, "Values", JsonValue::array(vals));
        assert(deep_seq(vals@) =~= seq![Json::Str(value@)]);
        assert(deep_members(m@) =~= seq![("Name"@, Json::Str(name@)), ("Values"@, Json::Array(seq![Json::Str(value@)]))]);
        JsonValue::object(m)
    }

    /// The first call: the zones named like the root domain, at `timestamp` (seconds) on
    /// `date` (`YYYY-MM-DD`, UTC).
    pub fn start(&self, domain: &ParsedDomain, timestamp: i64, date: &str) -> (r: (HttpRequest, TeoState))
        ensures
            self.is_call(r.0, "DescribeZones"@, zones_payload(domain.root_domain@), timestamp as int, date@),
            r.1 is Zones,
    {
        let f = Self::filter_value("zone-name", domain.root_domain.as_str());
        let mut fs: Vec<JsonValue> = Vec::new();
        push_item(&mut fs, f);
        let mut m: Vec<(String, JsonValue)> = Vec::new();
        push_member(&mut m, "Filters", JsonValue::array(fs));
        assert(deep_members(m@) =~= seq![("Filters"@, Json::Array(seq![filter("zone-name"@, domain.root_domain@)]))]);
        (self.call("DescribeZones", JsonValue::object(m), timestamp, date), TeoState::Zones)
    }

    /// The decision on the zones: an error, no zone of that name, or the next query in the
    /// zone: its origin groups where the domain names one, else its DNS records.
    pub fn on_zones(
        &self,
        domain: &ParsedDomain,
        record_type: DnsRecordType,
        reply: &HttpReply,
        parsed: Result<Tc3Response<TeoZoneData>, String>,
        timestamp: i64,
        date: &str,
    ) -> (r: SyncStep<TeoState>)
        requires domain.wf(),
        ensures
            ({
                let params = text_values(domain.custom_params@);
                match crate::tc3::reply_data(*reply, parsed) {
                    None => r matches SyncStep::Done(Err(e)) && crate::tc3::reply_error_is(e, *reply, parsed),
                    Some(d) => match d.error {
                        Some(err) => r == SyncStep::<TeoState>::Done(Err(DnsProviderError::ApiError {
                            code: err.code, message: err.message })),
                        None => {
                            let zones: Seq<TeoZoneItem> = match d.zones { Some(z) => z@, None => Seq::empty() };
                            match zone_match(zones, domain.root_domain@) {
                                None => r matches SyncStep::Done(Err(DnsProviderError::ZoneNotFound(m)))
                                    && m@ == "在腾讯云 EdgeOne 中未找到根域名 ["@ + domain.root_domain@ + "] 对应的 Zone"@,
                                Some(i) => if is_origin_group(params) {
                                    r matches SyncStep::Send(req, TeoState::Groups(z)) && z@ == zones[i].zone_id@
                                        && self.is_call(req, "DescribeOriginGroup"@, groups_payload(zones[i].zone_id@,
                                            param2(params, "GroupId"@, "group_id"@),
                                            param2(params, "OriginGroupName"@, "origin_group_name"@)), timestamp as int, date@)
                                } else {
                                    r matches SyncStep::Send(req, TeoState::Records(z)) && z@ == zones[i].zone_id@
                                        && self.is_call(req, "DescribeDnsRecords"@, records_payload(zones[i].zone_id@,
                                            full_name(domain.sub_domain@, domain.root_domain@), record_type),
                                            timestamp as int, date@)
                                },
                            }
                        },
                    },
                }
            }),
    {
        let d = match read_reply(reply, parsed) {
            Err(e) => { return SyncStep::Done(Err(e)); },
            Ok(d) => d,
        };
        match d.error {
            Some(err) => { return SyncStep::Done(Err(DnsProviderError::ApiError { code: err.code, message: err.message })); },
            None => {},
        }
        let zones: Vec<TeoZoneItem> = match d.zones { Some(z) => z, None => Vec::new() };
        let mut i: usize = 0;
        let mut found = false;
        while i < zones.len() && !found
            invariant
                i <= zones@.len(),
                !found ==> zone_match(zones@.take(i as int), domain.root_domain@) is None,
                found ==> i < zones@.len() && zone_match(zones@, domain.root_domain@) == Some(i as int),
            decreases zones@.len() - i + (if found { 0int } else { 1int }),
        {
            assert(zones@.take(i + 1).drop_last() =~= zones@.take(i as int));
            if eq_ignore_case(zones[i].zone_name.as_str(), domain.root_domain.as_str()) {
                proof { lemma_zone_prefix(zones@, domain.root_domain@, i as int); }
                found = true;
            } else {
                i = i + 1;
            }
        }
        if !found {
            assert(zones@.take(zones@.len() as int) =~= zones@);
            let mut m: Vec<char> = Vec::new();
            append_str(&mut m, "在腾讯云 EdgeOne 中未找到根域名 [");
            append_str(&mut m, domain.root_domain.as_str());
            append_str(&mut m, "] 对应的 Zone");
            return SyncStep::Done(Err(DnsProviderError::ZoneNotFound(string_of(m.as_slice()))));
        }
        let zone = zones[i].zone_id.clone();
        let p = &domain.custom_params;
        if p.contains_key("GroupId") || p.contains_key("group_id") || p.contains_key("OriginGroupName")
            || p.contains_key("origin_group_name") {
            let gid = Self::param_of(domain, "GroupId", "group_id");
            let gname = Self::param_of(domain, "OriginGroupName", "origin_group_name");
            let mut fs: Vec<JsonValue> = Vec::new();
            match &gid {
                Some(g) => push_item(&mut fs, Self::filter_value("origin-group-id", g.as_str())),
                None => match &gname {
                    Some(n) => push_item(&mut fs, Self::filter_value("origin-group-name", n.as_str())),
                    None => {},
                },
            }
            let mut m: Vec<(String, JsonValue)> = Vec::new();
            push_member(&mut m, "Filters", JsonValue::array(fs));
            push_member(&mut m, "ZoneId", JsonValue::Str(zone.clone()));
            proof {
                let filters: Seq<Json> = match opt_view(gid) {
                    Some(g) => seq![filter("origin-group-id"@, g)],
                    None => match opt_view(gname) { Some(n) => seq![filter("origin-group-name"@, n)], None => Seq::empty() },
                };
                assert(deep_seq(fs@) =~= filters);
                assert(deep_members(m@) =~= seq![("Filters"@, Json::Array(filters)), ("ZoneId"@, Json::Str(zone@))]);
            }
            let req = self.call("DescribeOriginGroup", JsonValue::object(m), timestamp, date);
            SyncStep::Send(req, TeoState::Groups(zone))
        } else {
            let full = domain.full_domain();
            let f1 = Self::filter_value("name", full.as_str());
            let f2 = Self::filter_value("type", record_type.as_str());
            let mut fs: Vec<JsonValue> = Vec::new();
            push_item(&mut fs, f1);
            push_item(&mut fs, f2);
            let mut m: Vec<(String, JsonValue)> = Vec::new();
            assert(deep_seq(fs@) =~= seq![filter("name"@, full@), filter("type"@, record_type_name(record_type))]);
            push_member(&mut m, "Filters", JsonValue::array(fs));
            push_member(&mut m, "ZoneId", JsonValue::Str(zone.clone()));
            assert(deep_members(m@) =~= seq![("Filters"@, Json::Array(seq![filter("name"@, full@),
                filter("type"@, record_type_name(record_type))])), ("ZoneId"@, Json::Str(zone@))]);
            let req = self.call("DescribeDnsRecords", JsonValue::object(m), timestamp, date);
            SyncStep::Send(req, TeoState::Records(zone))
        }
    }

    fn param_of(domain: &ParsedDomain, a: &str, b: &str) -> (r: Option<String>)
        requires domain.wf(),
        ensures opt_view(r) == param2(text_values(domain.custom_params@), a@, b@),
    {
        match domain.custom_params.get(a) {
            Some(v) => Some(v.clone()),
            None => match domain.custom_params.get(b) {
                Some(v) => Some(v.clone()),
                None => None,
            },
        }
    }

    fn group_error(code: String, prefix: &str, message: &str) -> (r: DnsProviderError)
        ensures r matches DnsProviderError::ApiError { code: c, message: m } && c == code && m@ == prefix@ + message@,
    {
        DnsProviderError::ApiError { code, message: crate::providers::with_prefix(prefix, message) }
    }

    /// The decision on the origin groups of zone `zone`: an error, no such group, the
    /// address already an origin with its weight, or the group's modification with the
    /// merged origins.
    pub fn on_groups(
        &self,
        zone: &str,
        domain: &ParsedDomain,
        record_type: DnsRecordType,
        ip: &IpAddress,
        reply: &HttpReply,
        parsed: Result<Tc3Response<TeoOriginGroupData>, String>,
        timestamp: i64,
        date: &str,
    ) -> (r: SyncStep<TeoState>)
        requires domain.wf(),
        ensures
            ({
                let params = text_values(domain.custom_params@);
                let gid = param2(params, "GroupId"@, "group_id"@);
                let gname = param2(params, "OriginGroupName"@, "origin_group_name"@);
                let weight = origin_weight(params);
                match crate::tc3::reply_data(*reply, parsed) {
                    None => r matches SyncStep::Done(Err(e)) && crate::tc3::reply_error_is(e, *reply, parsed),
                    Some(d) => match d.error {
                        Some(err) => r matches SyncStep::Done(Err(DnsProviderError::ApiError { code, message }))
                            && code == err.code && message@ == "查询 EdgeOne 源站组失败: "@ + err.message@,
                        None => {
                            let groups: Seq<TeoOriginGroup> = match d.origin_groups { Some(g) => g@, None => Seq::empty() };
                            match group_match(groups, gid, gname) {
                                None => r matches SyncStep::Done(Err(DnsProviderError::ApiError { code, message }))
                                    && code@ == "OriginGroupNotFound"@
                                    && message@ == "未找到指定的 EdgeOne 源站组 (ZoneId: "@ + zone@ + ", GroupId: "@
                                        + debug_opt(gid) + ", GroupName: "@ + debug_opt(gname) + ")"@,
                                Some(i) => {
                                    let cur: Seq<TeoOriginRecord> = match groups[i].records { Some(x) => x@, None => Seq::empty() };
                                    if origins_unchanged(cur, ip_text(*ip), weight) {
                                        r matches SyncStep::Done(Ok(res)) && res.is(full_name(domain.sub_domain@,
                                            domain.root_domain@), record_type, ip_text(*ip), SyncStatus::Unchanged,
                                            unchanged_message())
                                    } else {
                                        r matches SyncStep::Send(req, TeoState::GroupModified) && self.is_call(req,
                                            "ModifyOriginGroup"@, modify_group_payload(zone@, groups[i],
                                                merged_origins(cur, ip_text(*ip), weight)), timestamp as int, date@)
                                    }
                                },
                            }
                        },
                    },
                }
            }),
    {
        let d = match read_reply(reply, parsed) {
            Err(e) => { return SyncStep::Done(Err(e)); },
            Ok(d) => d,
        };
        match d.error {
            Some(err) => { return SyncStep::Done(Err(Self::group_error(err.code, "查询 EdgeOne 源站组失败: ", err.message.as_str()))); },
            None => {},
        }
        let gid = Self::param_of(domain, "GroupId", "group_id");
        let gname = Self::param_of(domain, "OriginGroupName", "origin_group_name");
        let weight: u32 = match Self::param_of(domain, "Weight", "weight") {
            Some(w) => {
                let c = chars_of(w.as_str());
                match parse_unsigned_chars(c.as_slice(), 10, 0xffff_ffff) {
                    Some(v) => {
                        proof { crate::text::lemma_parse_unsigned_bounds(c@, 10, 0xffff_ffff); }
                        v as u32
                    },
                    None => 100,
                }
            },
            None => 100,
        };
        let groups: Vec<TeoOriginGroup> = match d.origin_groups { Some(g) => g, None => Vec::new() };
        let mut i: usize = 0;
        let mut found = false;
        while i < groups.len() && !found
            invariant
                i <= groups@.len(),
                !found ==> group_match(groups@.take(i as int), opt_view(gid), opt_view(gname)) is None,
                found ==> i < groups@.len() && group_match(groups@, opt_view(gid), opt_view(gname)) == Some(i as int),
            decreases groups@.len() - i + (if found { 0int } else { 1int }),
        {
            assert(groups@.take(i + 1).drop_last() =~= groups@.take(i as int));
            let g = &groups[i];
            let hit = match &gid {
                Some(x) => eq_ignore_case(g.group_id.as_str(), x.as_str()),
                None => match &gname {
                    Some(n) => eq_ignore_case(g.name.as_str(), n.as_str()),
                    None => true,
                },
            };
            if hit {
                proof { lemma_group_prefix(groups@, opt_view(gid), opt_view(gname), i as int); }
                found = true;
            } else {
                i = i + 1;
            }
        }
        if !found {
            assert(groups@.take(groups@.len() as int) =~= groups@);
            let mut m: Vec<char> = Vec::new();
            append_str(&mut m, "未找到指定的 EdgeOne 源站组 (ZoneId: ");
            append_str(&mut m, zone);
            append_str(&mut m, ", GroupId: ");
            append_str(&mut m, debug_opt_text(&gid).as_str());
            append_str(&mut m, ", GroupName: ");
            append_str(&mut m, debug_opt_text(&gname).as_str());
            append_str(&mut m, ")");
            return SyncStep::Done(Err(DnsProviderError::ApiError {
                code: "OriginGroupNotFound".to_string(),
                message: string_of(m.as_slice()),
            }));
        }
        let g = &groups[i];
        let empty: Vec<TeoOriginRecord> = Vec::new();
        let cur: &Vec<TeoOriginRecord> = match &g.records { Some(x) => x, None => &empty };
        let target = ip.to_text();
        let (records, same) = compute_updated_origin_records(cur, target.as_str(), weight);
        if same {
            let full = domain.full_domain();
            return SyncStep::Done(Ok(SyncRecordResult::unchanged(full.as_str(), record_type, target.as_str())));
        }
        let mut m: Vec<(String, JsonValue)> = Vec::new();
        push_member(&mut m, "GroupId", JsonValue::Str(g.group_id.clone()));
        push_member(&mut m, "Name", JsonValue::Str(g.name.clone()));
        push_member(&mut m, "Records", JsonValue::array(records));
        push_member(&mut m, "Type", JsonValue::Str("GENERAL".to_string()));
        push_member(&mut m, "ZoneId", JsonValue::Str(zone.to_string()));
        assert(deep_members(m@) =~= seq![("GroupId"@, Json::Str(g.group_id@)), ("Name"@, Json::Str(g.name@)),
            ("Records"@, Json::Array(deep_seq(records@))), ("Type"@, Json::Str("GENERAL"@)), ("ZoneId"@, Json::Str(zone@))]);
        let req = self.call("ModifyOriginGroup", JsonValue::object(m), timestamp, date);
        SyncStep::Send(req, TeoState::GroupModified)
    }

    /// The decision on the DNS records of zone `zone`: an error, the record already holding
    /// the address, its modification, or a creation.
    pub fn on_records(
        &self,
        zone: &str,
        domain: &ParsedDomain,
        record_type: DnsRecordType,
        ip: &IpAddress,
        ttl: Option<u32>,
        reply: &HttpReply,
        parsed: Result<Tc3Response<TeoRecordData>, String>,
        timestamp: i64,
        date: &str,
    ) -> (r: SyncStep<TeoState>)
        ensures
            ({
                let full = full_name(domain.sub_domain@, domain.root_domain@);
                match crate::tc3::reply_data(*reply, parsed) {
                    None => r matches SyncStep::Done(Err(e)) && crate::tc3::reply_error_is(e, *reply, parsed),
                    Some(d) => match d.error {
                        Some(err) => r == SyncStep::<TeoState>::Done(Err(DnsProviderError::ApiError {
                            code: err.code, message: err.message })),
                        None => {
                            let recs: Seq<TeoRecordItem> = match d.dns_records { Some(x) => x@, None => Seq::empty() };
                            match record_match(recs, domain.sub_domain@, domain.root_domain@, record_type) {
                                Some(i) => if recs[i].content@ == ip_text(*ip) {
                                    r matches SyncStep::Done(Ok(res)) && res.is(full, record_type, ip_text(*ip),
                                        SyncStatus::Unchanged, unchanged_message())
                                } else {
                                    r matches SyncStep::Send(req, TeoState::RecordModified) && self.is_call(req,
                                        "ModifyDnsRecords"@, modify_record_payload(match recs[i].record_id {
                                            Some(x) => x@, None => Seq::empty() }, zone@, full, record_type, ip_text(*ip), ttl),
                                        timestamp as int, date@)
                                },
                                None => r matches SyncStep::Send(req, TeoState::RecordCreated) && self.is_call(req,
                                    "CreateDnsRecord"@, record_json(None, zone@, full, record_type, ip_text(*ip), ttl),
                                    timestamp as int, date@),
                            }
                        },
                    },
                }
            }),
    {
        let d = match read_reply(reply, parsed) {
            Err(e) => { return SyncStep::Done(Err(e)); },
            Ok(d) => d,
        };
        match d.error {
            Some(err) => { return SyncStep::Done(Err(DnsProviderError::ApiError { code: err.code, message: err.message })); },
            None => {},
        }
        let recs: Vec<TeoRecordItem> = match d.dns_records { Some(x) => x, None => Vec::new() };
        let tname = record_type.as_str();
        let mut i: usize = 0;
        let mut found = false;
        while i < recs.len() && !found
            invariant
                i <= recs@.len(),
                tname@ == record_type_name(record_type),
                !found ==> record_match(recs@.take(i as int), domain.sub_domain@, domain.root_domain@, record_type) is None,
                found ==> i < recs@.len() && record_match(recs@, domain.sub_domain@, domain.root_domain@, record_type)
                    == Some(i as int),
            decreases recs@.len() - i + (if found { 0int } else { 1int }),
        {
            assert(recs@.take(i + 1).drop_last() =~= recs@.take(i as int));
            if domain.matches_record_name(recs[i].name.as_str()) && eq_ignore_case(recs[i].record_type.as_str(), tname) {
                proof { lemma_record_prefix(recs@, domain.sub_domain@, domain.root_domain@, record_type, i as int); }
                found = true;
            } else {
                i = i + 1;
            }
        }
        let target = ip.to_text();
        let full = domain.full_domain();
        if !found {
            assert(recs@.take(recs@.len() as int) =~= recs@);
            let body = record_value(None, zone, full.as_str(), record_type, target.as_str(), ttl);
            let req = self.call("CreateDnsRecord", body, timestamp, date);
            return SyncStep::Send(req, TeoState::RecordCreated);
        }
        if eq_exact(recs[i].content.as_str(), target.as_str()) {
            return SyncStep::Done(Ok(SyncRecordResult::unchanged_log("腾讯云 EdgeOne (EO)", full.as_str(), record_type,
                target.as_str())));
        }
        let rid: String = match &recs[i].record_id { Some(x) => x.clone(), None => String::new() };
        let body = record_value(Some(rid.as_str()), zone, full.as_str(), record_type, target.as_str(), ttl);
        let mut items: Vec<JsonValue> = Vec::new();
        push_item(&mut items, body);
        let mut m: Vec<(String, JsonValue)> = Vec::new();
        push_member(&mut m, "DnsRecords", JsonValue::array(items));
        push_member(&mut m, "ZoneId", JsonValue::Str(zone.to_string()));
        proof {
            let x: Seq<char> = match recs@[i as int].record_id { Some(v) => v@, None => Seq::empty() };
            assert(rid@ == x);
            assert(deep_seq(items@) =~= seq![record_json(Some(x), zone@, full@, record_type, ip_text(*ip), ttl)]);
            assert(deep_members(m@) =~= seq![("DnsRecords"@, Json::Array(seq![record_json(Some(x), zone@, full@, record_type,
                ip_text(*ip), ttl)])), ("ZoneId"@, Json::Str(zone@))]);
        }
        let req = self.call("ModifyDnsRecords", JsonValue::object(m), timestamp, date);
        SyncStep::Send(req, TeoState::RecordModified)
    }

    /// The outcome of a modifying call (`state` says which): an error, or success.
    pub fn on_write(
        &self,
        state: &TeoState,
        domain: &ParsedDomain,
        record_type: DnsRecordType,
        ip: &IpAddress,
        reply: &HttpReply,
        parsed: Result<Tc3Response<TeoActionData>, String>,
    ) -> (r: Result<SyncRecordResult, DnsProviderError>)
        ensures
            ({
                let full = full_name(domain.sub_domain@, domain.root_domain@);
                match crate::tc3::reply_data(*reply, parsed) {
                    None => r matches Err(e) && crate::tc3::reply_error_is(e, *reply, parsed),
                    Some(d) => match d.error {
                        Some(err) => r matches Err(DnsProviderError::ApiError { code, message }) && code == err.code
                            && message@ == (match *state {
                                TeoState::GroupModified => "修改 EdgeOne 源站组失败: "@,
                                TeoState::RecordCreated => "EdgeOne 创建记录失败: "@,
                                _ => "EdgeOne 更新记录失败: "@,
                            }) + err.message@,
                        None => r matches Ok(res) && res.is(full, record_type, ip_text(*ip),
                            if *state is RecordCreated { SyncStatus::Created } else { SyncStatus::Updated },
                            if *state is RecordCreated { created_message() } else { updated_message() }),
                    },
                }
            }),
    {
        let d = match read_reply(reply, parsed) {
            Err(e) => { return Err(e); },
            Ok(d) => d,
        };
        match d.error {
            Some(err) => {
                let prefix = match state {
                    TeoState::GroupModified => "修改 EdgeOne 源站组失败: ",
                    TeoState::RecordCreated => "EdgeOne 创建记录失败: ",
                    _ => "EdgeOne 更新记录失败: ",
                };
                return Err(Self::group_error(err.code, prefix, err.message.as_str()));
            },
            None => {},
        }
        let full = domain.full_domain();
        let target = ip.to_text();
        match state {
            TeoState::RecordCreated => Ok(SyncRecordResult::created(full.as_str(), record_type, target.as_str())),
            _ => Ok(SyncRecordResult::updated(full.as_str(), record_type, target.as_str())),
        }
    }
}

/// The views of an optional text.
pub open spec fn opt_view(o: Option<String>) -> Option<Seq<char>> {
    match o { Some(s) => Some(s@), None => None }
}

fn record_value(id: Option<&str>, zone: &str, full: &str, record_type: DnsRecordType, ip: &str, ttl: Option<u32>)
    -> (r: JsonValue)
    ensures deep(r) == record_json(match id { Some(x) => Some(x@), None => None }, zone@, full@, record_type, ip@, ttl),
{
    let t: u32 = match ttl { Some(v) => v, None => 600 };
    let mut m: Vec<(String, JsonValue)> = Vec::new();
    push_member(&mut m, "Content", JsonValue::Str(ip.to_string()));
    push_member(&mut m, "Location", JsonValue::Str("Default".to_string()));
    push_member(&mut m, "Name", JsonValue::Str(full.to_string()));
    match id {
        Some(x) => push_member(&mut m, "RecordId", JsonValue::Str(x.to_string())),
        None => {},
    }
    push_member(&mut m, "TTL", JsonValue::UInt((if t < 1 { 1 } else { t }) as u64));
    push_member(&mut m, "Type", JsonValue::Str(record_type.as_str().to_string()));
    push_member(&mut m, "ZoneId", JsonValue::Str(zone.to_string()));
    proof {
        let head = seq![("Content"@, Json::Str(ip@)), ("Location"@, Json::Str("Default"@)), ("Name"@, Json::Str(full@))];
        let tail = seq![("TTL"@, Json::Int(teo_ttl(ttl))), ("Type"@, Json::Str(record_type_name(record_type))),
            ("ZoneId"@, Json::Str(zone@))];
        match id {
            Some(x) => assert(deep_members(m@) =~= head.push(("RecordId"@, Json::Str(x@))) + tail),
            None => assert(deep_members(m@) =~= head + tail),
        }
    }
    JsonValue::object(m)
}

proof fn lemma_zone_prefix(zones: Seq<TeoZoneItem>, root: Seq<char>, i: int)
    requires
        0 <= i < zones.len(),
        zone_match(zones.take(i), root) is None,
        lower(zones[i].zone_name@) == lower(root),
    ensures
        zone_match(zones, root) == Some(i),
    decreases zones.len(),
{
    if zones.len() - 1 == i {
        assert(zones.drop_last() =~= zones.take(i));
    } else {
        assert(zones.drop_last().take(i) =~= zones.take(i));
        lemma_zone_prefix(zones.drop_last(), root, i);
    }
}

proof fn lemma_group_prefix(groups: Seq<TeoOriginGroup>, gid: Option<Seq<char>>, gname: Option<Seq<char>>, i: int)
    requires
        0 <= i < groups.len(),
        group_match(groups.take(i), gid, gname) is None,
        group_is(groups[i], gid, gname),
    ensures
        group_match(groups, gid, gname) == Some(i),
    decreases groups.len(),
{
    if groups.len() - 1 == i {
        assert(groups.drop_last() =~= groups.take(i));
    } else {
        assert(groups.drop_last().take(i) =~= groups.take(i));
        lemma_group_prefix(groups.drop_last(), gid, gname, i);
    }
}

proof fn lemma_record_prefix(recs: Seq<TeoRecordItem>, sub: Seq<char>, root: Seq<char>, t: DnsRecordType, i: int)
    requires
        0 <= i < recs.len(),
        record_match(recs.take(i), sub, root, t) is None,
        record_name_matches(sub, root, recs[i].name@),
        lower(recs[i].record_type@) == lower(record_type_name(t)),
    ensures
        record_match(recs, sub, root, t) == Some(i),
    decreases recs.len(),
{
    if recs.len() - 1 == i {
        assert(recs.drop_last() =~= recs.take(i));
    } else {
        assert(recs.drop_last().take(i) =~= recs.take(i));
        lemma_record_prefix(recs.drop_last(), sub, root, t, i);
    }
}

} // verus!
