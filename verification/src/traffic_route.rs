//! Volcengine TrafficRoute DNS: find the zone, list its records of the host and type,
//! then leave, update or create one; requests carry an HMAC-SHA256 signature derived
//! per day, region and service.
use vstd::prelude::*;
use crate::cloudflare::header_value_ok;
use crate::crypto::{hmac256, hmac_sha256, hex_encode, lower_hex, sha256, sha256_hex};
use crate::domain::{ParsedDomain, full_name, is_root_label};
use crate::engine::{IpAddress, ip_text};
use crate::huawei::{header_if, push_header_if, sort_pairs, sorted_by_name};
use crate::json::{Json, JsonValue, deep, deep_members, push_member, render};
use crate::providers::{DnsProviderError, HttpMethod, HttpReply, HttpRequest, SyncStep, query_string, with_prefix, with_query};
use crate::records::{DnsRecordType, SyncRecordResult, SyncStatus, record_type_name, unchanged_message, updated_message};
use crate::tc3::utf8;
use crate::text::{append_str, chars_of, eq_exact, eq_ignore_case, lower, string_of};
use crate::urlencode::pair_views;

verus! {

broadcast use vstd::string::group_string_axioms;

/// TrafficRoute credentials.
pub struct TrafficRouteProvider {
    pub ak: String,
    pub sk: String,
}

/// A zone as `ListZones` lists it.
#[derive(Debug, Clone)]
pub struct VolcZone {
    pub zid: u64,
    pub zone_name: String,
}

/// A record as `ListRecords` lists it.
#[derive(Debug, Clone)]
pub struct VolcRecord {
    pub record_id: String,
    pub host: String,
    pub record_type: String,
    pub value: String,
}

/// The error in a reply's metadata.
#[derive(Debug, Clone)]
pub struct VolcError {
    pub code: Option<String>,
    pub message: Option<String>,
}

/// The result of a call.
#[derive(Debug, Clone)]
pub struct VolcResult {
    pub zones: Option<Vec<VolcZone>>,
    pub records: Option<Vec<VolcRecord>>,
}

/// A reply: the metadata's error, if any, and the result.
#[derive(Debug, Clone)]
pub struct VolcResponse {
    pub error: Option<VolcError>,
    pub result: Option<VolcResult>,
}

/// Where a TrafficRoute synchronisation stands.
#[derive(Debug, Clone, Copy, PartialEq, Eq, Structural)]
pub enum VolcState {
    /// The zones were asked for.
    Zones,
    /// The records of zone `zid` were asked for.
    Records(u64),
    /// A record was updated.
    Update,
    /// A record was created.
    Create,
}

/// The signed headers.
pub open spec fn volc_signed_headers() -> Seq<char> {
    "content-type;host;x-content-sha256;x-date"@
}

/// The credential scope of a day (`%Y%m%d`).
pub open spec fn volc_scope(short_date: Seq<char>) -> Seq<char> {
    short_date + "/cn-north-1/DNS/request"@
}

/// The canonical request of a call with canonical query `q` and body hash `hash`.
pub open spec fn volc_canonical_request(q: Seq<char>, hash: Seq<char>, x_date: Seq<char>) -> Seq<char> {
    "POST\n/\n"@ + q + "\n"@ + "content-type:application/json\nhost:open.volcengineapi.com\nx-content-sha256:"@ + hash
        + "\nx-date:"@ + x_date + "\n"@ + "\n"@ + volc_signed_headers() + "\n"@ + hash
}

/// The Authorization value of a call at `x_date` (`%Y%m%dT%H%M%SZ`) on `short_date`.
#[verifier::opaque]
pub open spec fn volc_auth(ak: Seq<char>, sk: Seq<char>, q: Seq<char>, body: Seq<char>, x_date: Seq<char>,
    short_date: Seq<char>) -> Seq<char> {
    let hash = lower_hex(sha256(utf8(body)));
    let scope = volc_scope(short_date);
    let sts = "HMAC-SHA256\n"@ + x_date + "\n"@ + scope + "\n"@ + lower_hex(sha256(utf8(volc_canonical_request(q, hash, x_date))));
    let k_date = hmac256(utf8(sk), utf8(short_date));
    let k_region = hmac256(k_date, utf8("cn-north-1"@));
    let k_service = hmac256(k_region, utf8("DNS"@));
    let k_signing = hmac256(k_service, utf8("request"@));
    "HMAC-SHA256 Credential="@ + ak + "/"@ + scope + ", SignedHeaders="@ + volc_signed_headers() + ", Signature="@
        + lower_hex(hmac256(k_signing, utf8(sts)))
}

/// The host label: the sub-domain, `@` for the root.
pub open spec fn volc_host(sub: Seq<char>) -> Seq<char> {
    if is_root_label(sub) { seq!['@'] } else { sub }
}

/// The TTL sent: the given one or 600, at least 1.
pub open spec fn volc_ttl(ttl: Option<u32>) -> int {
    let t: int = match ttl { Some(v) => v as int, None => 600 };
    if t < 1 { 1 } else { t }
}

/// The first zone named like the root domain.
pub open spec fn volc_zone_match(zones: Seq<VolcZone>, root: Seq<char>) -> Option<int>
    decreases zones.len(),
{
    if zones.len() == 0 {
        None
    } else {
        match volc_zone_match(zones.drop_last(), root) {
            Some(i) => Some(i),
            None => if lower(zones.last().zone_name@) == lower(root) { Some(zones.len() - 1) } else { None },
        }
    }
}

/// The first record of the host and type.
pub open spec fn volc_record_match(recs: Seq<VolcRecord>, host: Seq<char>, t: DnsRecordType) -> Option<int>
    decreases recs.len(),
{
    if recs.len() == 0 {
        None
    } else {
        match volc_record_match(recs.drop_last(), host, t) {
            Some(i) => Some(i),
            None => if lower(recs.last().host@) == lower(host) && lower(recs.last().record_type@) == lower(record_type_name(t)) {
                Some(recs.len() - 1)
            } else {
                None
            },
        }
    }
}

/// The result of a reply: a reply that is not the expected JSON gives `Other` with the
/// status and the parser's message; an error in the metadata its code (or the status)
/// and message (or a fixed text); otherwise the result, empty where there is none.
pub open spec fn volc_result_is(r: Result<VolcResult, DnsProviderError>, reply: HttpReply,
    parsed: Result<VolcResponse, String>) -> bool {
    match parsed {
        Err(e) => r matches Err(DnsProviderError::Other(m)) && m@ == "解析火山引擎响应失败 ["@ + reply.status@ + "]: "@ + e@,
        Ok(resp) => match resp.error {
            Some(err) => r matches Err(DnsProviderError::ApiError { code, message })
                && code@ == (match err.code { Some(c) => c@, None => reply.status@ })
                && message@ == (match err.message { Some(m) => m@, None => "火山引擎未知错误"@ }),
            None => match resp.result {
                Some(res) => r == Ok::<VolcResult, DnsProviderError>(res),
                None => r matches Ok(res) && res.zones is None && res.records is None,
            },
        },
    }
}

/// Reads a reply (see `volc_result_is`).
pub fn read_volc(reply: &HttpReply, parsed: Result<VolcResponse, String>) -> (r: Result<VolcResult, DnsProviderError>)
    ensures volc_result_is(r, *reply, parsed),
{
    let resp = match parsed {
        Err(e) => {
            let mut m: Vec<char> = Vec::new();
            append_str(&mut m, "解析火山引擎响应失败 [");
            append_str(&mut m, reply.status.as_str());
            append_str(&mut m, "]: ");
            append_str(&mut m, e.as_str());
            return Err(DnsProviderError::Other(string_of(m.as_slice())));
        },
        Ok(x) => x,
    };
    match resp.error {
        Some(err) => Err(DnsProviderError::ApiError {
            code: match err.code { Some(c) => c, None => reply.status.clone() },
            message: match err.message { Some(m) => m, None => "火山引擎未知错误".to_string() },
        }),
        None => match resp.result {
            Some(res) => Ok(res),
            None => Ok(VolcResult { zones: None, records: None }),
        },
    }
}

impl TrafficRouteProvider {
    /// A provider with the given keys.
    pub fn new(ak: String, sk: String) -> (r: Self)
        ensures r.ak == ak, r.sk == sk,
    {
        TrafficRouteProvider { ak, sk }
    }

    /// `req` is the signed call of `action` with query `custom` (plus `Action` and
    /// `Version`, sorted by name) and body `body` (empty for none).
    pub open spec fn is_volc_request(&self, req: HttpRequest, action: Seq<char>, custom: Seq<(Seq<char>, Seq<char>)>,
        body: Seq<char>, x_date: Seq<char>, short_date: Seq<char>) -> bool {
        let q = query_string(sorted_by_name(custom + seq![("Action"@, action), ("Version"@, "2018-08-01"@)]));
        &&& req.method == HttpMethod::Post
        &&& req.url@ == "https://open.volcengineapi.com/?"@ + q
        &&& pair_views(req.headers@) == seq![("Host"@, "open.volcengineapi.com"@), ("Content-Type"@, "application/json"@)]
            + header_if("x-date"@, x_date) + header_if("x-content-sha256"@, lower_hex(sha256(utf8(body))))
            + header_if("authorization"@, volc_auth(self.ak@, self.sk@, q, body, x_date, short_date))
        &&& (if body.len() == 0 { req.body is None } else { req.body matches Some(b) && b@ == body })
    }

    fn auth_value(&self, q: &str, body: &str, hash: &str, x_date: &str, short_date: &str) -> (r: String)
        requires hash@ == lower_hex(sha256(utf8(body@))),
        ensures r@ == volc_auth(self.ak@, self.sk@, q@, body@, x_date@, short_date@),
    {
        let mut scope: Vec<char> = Vec::new();
        append_str(&mut scope, short_date);
        append_str(&mut scope, "/cn-north-1/DNS/request");
        let scope_text = string_of(scope.as_slice());
        let mut creq: Vec<char> = Vec::new();
        append_str(&mut creq, "POST\n/\n");
        append_str(&mut creq, q);
        append_str(&mut creq, "\n");
        append_str(&mut creq, "content-type:application/json\nhost:open.volcengineapi.com\nx-content-sha256:");
        append_str(&mut creq, hash);
        append_str(&mut creq, "\nx-date:");
        append_str(&mut creq, x_date);
        append_str(&mut creq, "\n");
        append_str(&mut creq, "\n");
        append_str(&mut creq, "content-type;host;x-content-sha256;x-date");
        append_str(&mut creq, "\n");
        append_str(&mut creq, hash);
        let creq_text = string_of(creq.as_slice());
        let mut sts: Vec<char> = Vec::new();
        append_str(&mut sts, "HMAC-SHA256\n");
        append_str(&mut sts, x_date);
        append_str(&mut sts, "\n");
        append_str(&mut sts, scope_text.as_str());
        append_str(&mut sts, "\n");
        append_str(&mut sts, sha256_hex(creq_text.as_str().as_bytes()).as_str());
        let sts_text = string_of(sts.as_slice());
        let k_date = hmac_sha256(self.sk.as_str().as_bytes(), short_date.as_bytes());
        let k_region = hmac_sha256(k_date.as_slice(), "cn-north-1".as_bytes());
        let k_service = hmac_sha256(k_region.as_slice(), "DNS".as_bytes());
        let k_signing = hmac_sha256(k_service.as_slice(), "request".as_bytes());
        let sig = hex_encode(hmac_sha256(k_signing.as_slice(), sts_text.as_str().as_bytes()).as_slice());
        let mut auth: Vec<char> = Vec::new();
        append_str(&mut auth, "HMAC-SHA256 Credential=");
        append_str(&mut auth, self.ak.as_str());
        append_str(&mut auth, "/");
        append_str(&mut auth, scope_text.as_str());
        append_str(&mut auth, ", SignedHeaders=");
        append_str(&mut auth, "content-type;host;x-content-sha256;x-date");
        append_str(&mut auth, ", Signature=");
        append_str(&mut auth, sig.as_str());
        proof {
            reveal(volc_auth);
            assert(creq_text@ =~= volc_canonical_request(q@, hash@, x_date@));
        }
        string_of(auth.as_slice())
    }

    fn volc_request(&self, action: &str, custom: &Vec<(String, String)>, body: String, x_date: &str, short_date: &str)
        -> (r: HttpRequest)
        ensures self.is_volc_request(r, action@, pair_views(custom@), body@, x_date@, short_date@),
    {
        let mut list: Vec<(String, String)> = Vec::new();
        let mut i: usize = 0;
        while i < custom.len()
            invariant
                i <= custom@.len(),
                pair_views(list@) == pair_views(custom@).take(i as int),
            decreases custom@.len() - i,
        {
            let ghost before = list@;
            list.push((custom[i].0.clone(), custom[i].1.clone()));
            proof {
                crate::pop::lemma_pair_views_push(before, list@.last());
                assert(before.push(list@.last()) =~= list@);
                assert(pair_views(custom@).take(i + 1) =~= pair_views(custom@).take(i as int).push(pair_views(custom@)[i as int]));
            }
            i = i + 1;
        }
        assert(pair_views(custom@).take(custom@.len() as int) =~= pair_views(custom@));
        let ghost before = list@;
        list.push(("Action".to_string(), action.to_string()));
        list.push(("Version".to_string(), "2018-08-01".to_string()));
        proof {
            assert(pair_views(list@) =~= pair_views(custom@) + seq![("Action"@, action@), ("Version"@, "2018-08-01"@)]);
        }
        let sorted = sort_pairs(&list);
        let q = with_query("", &sorted);
        proof { reveal_strlit(""); }
        let hash = sha256_hex(body.as_str().as_bytes());
        let auth = self.auth_value(q.as_str(), body.as_str(), hash.as_str(), x_date, short_date);
        let mut headers: Vec<(String, String)> = Vec::new();
        headers.push(("Host".to_string(), "open.volcengineapi.com".to_string()));
        headers.push(("Content-Type".to_string(), "application/json".to_string()));
        assert(pair_views(headers@) =~= seq![("Host"@, "open.volcengineapi.com"@), ("Content-Type"@, "application/json"@)]);
        push_header_if(&mut headers, "x-date", x_date);
        push_header_if(&mut headers, "x-content-sha256", hash.as_str());
        push_header_if(&mut headers, "authorization", auth.as_str());
        let url = with_prefix("https://open.volcengineapi.com/?", q.as_str());
        let ghost bv = body@;
        let req_body = if chars_of(body.as_str()).len() == 0 { None } else { Some(body) };
        assert(if bv.len() == 0 { req_body is None } else { req_body matches Some(b) && b@ == bv });
        HttpRequest { method: HttpMethod::Post, url, headers, body: req_body }
    }

    /// The first call: the zones matching the root domain, at `x_date` on `short_date`.
    pub fn start(&self, domain: &ParsedDomain, x_date: &str, short_date: &str) -> (r: (HttpRequest, VolcState))
        ensures
            self.is_volc_request(r.0, "ListZones"@, seq![("Key"@, domain.root_domain@)], Seq::empty(), x_date@, short_date@),
            r.1 == VolcState::Zones,
    {
        let mut q: Vec<(String, String)> = Vec::new();
        q.push(("Key".to_string(), domain.root_domain.clone()));
        assert(pair_views(q@) =~= seq![("Key"@, domain.root_domain@)]);
        (self.volc_request("ListZones", &q, String::new(), x_date, short_date), VolcState::Zones)
    }

    /// The decision on the zones: an error, no zone of that name, or the record list of the zone.
    pub fn on_zones(
        &self,
        domain: &ParsedDomain,
        record_type: DnsRecordType,
        reply: &HttpReply,
        parsed: Result<VolcResponse, String>,
        x_date: &str,
        short_date: &str,
    ) -> (r: SyncStep<VolcState>)
        ensures
            match parsed {
                Ok(resp) if resp.error is None => {
                    let zones: Seq<VolcZone> = match resp.result { Some(x) => match x.zones { Some(z) => z@,
                        None => Seq::empty() }, None => Seq::empty() };
                    match volc_zone_match(zones, domain.root_domain@) {
                        None => r matches SyncStep::Done(Err(DnsProviderError::ZoneNotFound(m)))
                            && m@ == "在火山引擎中未找到根域名 ["@ + domain.root_domain@ + "] 对应的 Zone"@,
                        Some(i) => r matches SyncStep::Send(req, VolcState::Records(z)) && z == zones[i].zid
                            && self.is_volc_request(req, "ListRecords"@, Seq::empty(), render(Json::Object(seq![
                                ("Host"@, Json::Str(volc_host(domain.sub_domain@))),
                                ("Type"@, Json::Str(record_type_name(record_type))), ("ZID"@, Json::Int(z as int))])),
                                x_date@, short_date@),
                    }
                },
                _ => r matches SyncStep::Done(Err(e)) && volc_result_is(Err(e), *reply, parsed),
            },
    {
        let res = match read_volc(reply, parsed) {
            Err(e) => { return SyncStep::Done(Err(e)); },
            Ok(x) => x,
        };
        let zones: Vec<VolcZone> = match res.zones { Some(z) => z, None => Vec::new() };
        let mut i: usize = 0;
        let mut found = false;
        while i < zones.len() && !found
            invariant
                i <= zones@.len(),
                !found ==> volc_zone_match(zones@.take(i as int), domain.root_domain@) is None,
                found ==> i < zones@.len() && volc_zone_match(zones@, domain.root_domain@) == Some(i as int),
            decreases zones@.len() - i + (if found { 0int } else { 1int }),
        {
            assert(zones@.take(i + 1).drop_last() =~= zones@.take(i as int));
            if eq_ignore_case(zones[i].zone_name.as_str(), domain.root_domain.as_str()) {
                proof { lemma_zone_prefix(zones@, domain.root_domain@, i as int); }
                found = true;
            } else {
                i = i + 1;
            }
        }
        if !found {
            assert(zones@.take(zones@.len() as int) =~= zones@);
            let mut m: Vec<char> = Vec::new();
            append_str(&mut m, "在火山引擎中未找到根域名 [");
            append_str(&mut m, domain.root_domain.as_str());
            append_str(&mut m, "] 对应的 Zone");
            return SyncStep::Done(Err(DnsProviderError::ZoneNotFound(string_of(m.as_slice()))));
        }
        let zid = zones[i].zid;
        let mut b: Vec<(String, JsonValue)> = Vec::new();
        push_member(&mut b, "Host", JsonValue::Str(domain.sub_domain_or_at().to_string()));
        push_member(&mut b, "Type", JsonValue::Str(record_type.as_str().to_string()));
        push_member(&mut b, "ZID", JsonValue::UInt(zid));
        assert(deep_members(b@) =~= seq![("Host"@, Json::Str(volc_host(domain.sub_domain@))),
            ("Type"@, Json::Str(record_type_name(record_type))), ("ZID"@, Json::Int(zid as int))]);
        let body = JsonValue::object(b).to_text();
        let empty: Vec<(String, String)> = Vec::new();
        assert(pair_views(empty@) =~= Seq::<(Seq<char>, Seq<char>)>::empty());
        SyncStep::Send(self.volc_request("ListRecords", &empty, body, x_date, short_date), VolcState::Records(zid))
    }

    /// The decision on the records of zone `zid`: an error, the record already holding the
    /// address, its update, or a creation.
    pub fn on_records(
        &self,
        zid: u64,
        domain: &ParsedDomain,
        record_type: DnsRecordType,
        ip: &IpAddress,
        ttl: Option<u32>,
        reply: &HttpReply,
        parsed: Result<VolcResponse, String>,
        x_date: &str,
        short_date: &str,
    ) -> (r: SyncStep<VolcState>)
        ensures
            match parsed {
                Ok(resp) if resp.error is None => {
                    let recs: Seq<VolcRecord> = match resp.result { Some(x) => match x.records { Some(z) => z@,
                        None => Seq::empty() }, None => Seq::empty() };
                    let host = volc_host(domain.sub_domain@);
                    let tn = record_type_name(record_type);
                    match volc_record_match(recs, host, record_type) {
                        Some(i) => if recs[i].value@ == ip_text(*ip) {
                            r matches SyncStep::Done(Ok(res)) && res.is(full_name(domain.sub_domain@, domain.root_domain@),
                                record_type, ip_text(*ip), SyncStatus::Unchanged, unchanged_message())
                        } else {
                            r matches SyncStep::Send(req, VolcState::Update) && self.is_volc_request(req, "UpdateRecord"@,
                                Seq::empty(), render(Json::Object(seq![("Host"@, Json::Str(host)),
                                    ("RecordID"@, Json::Str(recs[i].record_id@)), ("TTL"@, Json::Int(volc_ttl(ttl))),
                                    ("Type"@, Json::Str(tn)), ("Value"@, Json::Str(ip_text(*ip)))])), x_date@, short_date@)
                        },
                        None => r matches SyncStep::Send(req, VolcState::Create) && self.is_volc_request(req, "CreateRecord"@,
                            Seq::empty(), render(Json::Object(seq![("Host"@, Json::Str(host)), ("TTL"@, Json::Int(volc_ttl(ttl))),
                                ("Type"@, Json::Str(tn)), ("Value"@, Json::Str(ip_text(*ip))), ("ZID"@, Json::Int(zid as int))])),
                            x_date@, short_date@),
                    }
                },
                _ => r matches SyncStep::Done(Err(e)) && volc_result_is(Err(e), *reply, parsed),
            },
    {
        let res = match read_volc(reply, parsed) {
            Err(e) => { return SyncStep::Done(Err(e)); },
            Ok(x) => x,
        };
        let recs: Vec<VolcRecord> = match res.records { Some(z) => z, None => Vec::new() };
        let host = domain.sub_domain_or_at();
        let tname = record_type.as_str();
        let target = ip.to_text();
        let mut i: usize = 0;
        let mut found = false;
        while i < recs.len() && !found
            invariant
                i <= recs@.len(),
                host@ == volc_host(domain.sub_domain@),
                tname@ == record_type_name(record_type),
                !found ==> volc_record_match(recs@.take(i as int), host@, record_type) is None,
                found ==> i < recs@.len() && volc_record_match(recs@, host@, record_type) == Some(i as int),
            decreases recs@.len() - i + (if found { 0int } else { 1int }),
        {
            assert(recs@.take(i + 1).drop_last() =~= recs@.take(i as int));
            if eq_ignore_case(recs[i].host.as_str(), host) && eq_ignore_case(recs[i].record_type.as_str(), tname) {
                proof { lemma_record_prefix(recs@, host@, record_type, i as int); }
                found = true;
            } else {
                i = i + 1;
            }
        }
        let t: u32 = match ttl { Some(v) => v, None => 600 };
        let ttl_val: u64 = (if t < 1 { 1 } else { t }) as u64;
        let empty: Vec<(String, String)> = Vec::new();
        assert(pair_views(empty@) =~= Seq::<(Seq<char>, Seq<char>)>::empty());
        if !found {
            assert(recs@.take(recs@.len() as int) =~= recs@);
            let mut b: Vec<(String, JsonValue)> = Vec::new();
            push_member(&mut b, "Host", JsonValue::Str(host.to_string()));
            push_member(&mut b, "TTL", JsonValue::UInt(ttl_val));
            push_member(&mut b, "Type", JsonValue::Str(tname.to_string()));
            push_member(&mut b, "Value", JsonValue::Str(target));
            push_member(&mut b, "ZID", JsonValue::UInt(zid));
            assert(deep_members(b@) =~= seq![("Host"@, Json::Str(host@)), ("TTL"@, Json::Int(volc_ttl(ttl))),
                ("Type"@, Json::Str(tname@)), ("Value"@, Json::Str(ip_text(*ip))), ("ZID"@, Json::Int(zid as int))]);
            let body = JsonValue::object(b).to_text();
            return SyncStep::Send(self.volc_request("CreateRecord", &empty, body, x_date, short_date), VolcState::Create);
        }
        if eq_exact(recs[i].value.as_str(), target.as_str()) {
            let full = domain.full_domain();
            return SyncStep::Done(Ok(SyncRecordResult::unchanged(full.as_str(), record_type, target.as_str())));
        }
        let mut b: Vec<(String, JsonValue)> = Vec::new();
        push_member(&mut b, "Host", JsonValue::Str(host.to_string()));
        push_member(&mut b, "RecordID", JsonValue::Str(recs[i].record_id.clone()));
        push_member(&mut b, "TTL", JsonValue::UInt(ttl_val));
        push_member(&mut b, "Type", JsonValue::Str(tname.to_string()));
        push_member(&mut b, "Value", JsonValue::Str(target));
        assert(deep_members(b@) =~= seq![("Host"@, Json::Str(host@)), ("RecordID"@, Json::Str(recs@[i as int].record_id@)),
            ("TTL"@, Json::Int(volc_ttl(ttl))), ("Type"@, Json::Str(tname@)), ("Value"@, Json::Str(ip_text(*ip)))]);
        let body = JsonValue::object(b).to_text();
        SyncStep::Send(self.volc_request("UpdateRecord", &empty, body, x_date, short_date), VolcState::Update)
    }

    /// The outcome of the update or creation: the reply's error, or success.
    pub fn on_write(
        &self,
        state: VolcState,
        domain: &ParsedDomain,
        record_type: DnsRecordType,
        ip: &IpAddress,
        reply: &HttpReply,
        parsed: Result<VolcResponse, String>,
    ) -> (r: Result<SyncRecordResult, DnsProviderError>)
        ensures
            match parsed {
                Ok(resp) if resp.error is None => r matches Ok(res) && res.is(full_name(domain.sub_domain@,
                    domain.root_domain@), record_type, ip_text(*ip),
                    if state == VolcState::Create { SyncStatus::Created } else { SyncStatus::Updated },
                    if state == VolcState::Create { "解析记录创建成功"@ } else { updated_message() }),
                _ => r matches Err(e) && volc_result_is(Err(e), *reply, parsed),
            },
    {
        match read_volc(reply, parsed) {
            Err(e) => Err(e),
            Ok(_) => {
                let full = domain.full_domain();
                let target = ip.to_text();
                if state == VolcState::Create {
                    Ok(SyncRecordResult {
                        domain: full,
                        record_type,
                        target_ip: target,
                        status: SyncStatus::Created,
                        message: "解析记录创建成功".to_string(),
                    })
                } else {
                    Ok(SyncRecordResult::updated(full.as_str(), record_type, target.as_str()))
                }
            },
        }
    }
}

proof fn lemma_zone_prefix(zones: Seq<VolcZone>, root: Seq<char>, i: int)
    requires
        0 <= i < zones.len(),
        volc_zone_match(zones.take(i), root) is None,
        lower(zones[i].zone_name@) == lower(root),
    ensures
        volc_zone_match(zones, root) == Some(i),
    decreases zones.len(),
{
    if zones.len() - 1 == i {
        assert(zones.drop_last() =~= zones.take(i));
    } else {
        assert(zones.drop_last().take(i) =~= zones.take(i));
        lemma_zone_prefix(zones.drop_last(), root, i);
    }
}

proof fn lemma_record_prefix(recs: Seq<VolcRecord>, host: Seq<char>, t: DnsRecordType, i: int)
    requires
        0 <= i < recs.len(),
        volc_record_match(recs.take(i), host, t) is None,
        lower(recs[i].host@) == lower(host),
        lower(recs[i].record_type@) == lower(record_type_name(t)),
    ensures
        volc_record_match(recs, host, t) == Some(i),
    decreases recs.len(),
{
    if recs.len() - 1 == i {
        assert(recs.drop_last() =~= recs.take(i));
    } else {
        assert(recs.drop_last().take(i) =~= recs.take(i));
        lemma_record_prefix(recs.drop_last(), host, t, i);
    }
}

} // verus!
