//! Baidu AI Cloud DNS: list the zone's records, then leave, edit or add the record of the
//! host and type; requests carry a BCE-AUTH-V1 authorization.
use vstd::prelude::*;
use crate::crypto::{hmac256, hmac_sha256_hex, lower_hex};
use crate::domain::{ParsedDomain, full_name, is_root_label};
use crate::engine::{IpAddress, ip_text};
use crate::huawei::{header_if, push_header_if};
use crate::json::{Json, JsonValue, deep, deep_members, push_member, render};
use crate::providers::{DnsProviderError, HttpMethod, HttpReply, HttpRequest, SyncStep, with_prefix};
use crate::records::{DnsRecordType, SyncRecordResult, SyncStatus, record_type_name, unchanged_message, updated_message};
use crate::tc3::utf8;
use crate::text::{append_str, eq_exact, eq_ignore_case, lower, string_of};
use crate::urlencode::pair_views;

verus! {

broadcast use vstd::string::group_string_axioms;

/// Baidu Cloud credentials.
pub struct BaiduCloudProvider {
    pub ak: String,
    pub sk: String,
}

/// A record as the list call gives it.
#[derive(Debug, Clone)]
pub struct BaiduRecord {
    pub record_id: u64,
    pub domain: String,
    pub view: Option<String>,
    pub rd_type: String,
    pub rdata: String,
}

/// Where a Baidu synchronisation stands.
#[derive(Debug, Clone, Copy, PartialEq, Eq, Structural)]
pub enum BaiduState {
    /// The records were asked for.
    Lookup,
    /// A record was edited.
    Edit,
    /// A record was added.
    Add,
}

/// The authorization of a request `method uri` at `now` (`%Y-%m-%dT%H:%M:%SZ`, UTC): the
/// prefix, `/host/`, and the signature keyed by the hexadecimal HMAC of the prefix.
#[verifier::opaque]
pub open spec fn bce_auth(ak: Seq<char>, sk: Seq<char>, method: Seq<char>, uri: Seq<char>, now: Seq<char>) -> Seq<char> {
    let prefix = "bce-auth-v1/"@ + ak + "/"@ + now + "/1800"@;
    let canonical = method + "\n"@ + uri + "\n\nhost:bcd.baidubce.com"@;
    let signing_key = lower_hex(hmac256(utf8(sk), utf8(prefix)));
    prefix + "/host/"@ + lower_hex(hmac256(utf8(signing_key), utf8(canonical)))
}

/// The host label: the sub-domain, `@` for the root.
pub open spec fn baidu_host(sub: Seq<char>) -> Seq<char> {
    if is_root_label(sub) { seq!['@'] } else { sub }
}

/// The TTL sent: the given one or 300, at least 1.
pub open spec fn baidu_ttl(ttl: Option<u32>) -> int {
    let t: int = match ttl { Some(v) => v as int, None => 300 };
    if t < 1 { 1 } else { t }
}

/// The first record of the host and type.
pub open spec fn baidu_match(recs: Seq<BaiduRecord>, host: Seq<char>, t: DnsRecordType) -> Option<int>
    decreases recs.len(),
{
    if recs.len() == 0 {
        None
    } else {
        match baidu_match(recs.drop_last(), host, t) {
            Some(i) => Some(i),
            None => if lower(recs.last().domain@) == lower(host) && lower(recs.last().rd_type@) == lower(record_type_name(t)) {
                Some(recs.len() - 1)
            } else {
                None
            },
        }
    }
}

/// The list payload.
pub open spec fn baidu_list_payload(root: Seq<char>) -> Json {
    Json::Object(seq![("domain"@, Json::Str(root)), ("pageNum"@, Json::Int(1)), ("pageSize"@, Json::Int(1000))])
}

/// The edit payload.
pub open spec fn baidu_edit_payload(r: BaiduRecord, host: Seq<char>, t: DnsRecordType, ip: Seq<char>, ttl: Option<u32>,
    root: Seq<char>) -> Json {
    Json::Object(seq![("domain"@, Json::Str(host)), ("rdType"@, Json::Str(record_type_name(t))), ("rdata"@, Json::Str(ip)),
        ("recordId"@, Json::Int(r.record_id as int)), ("ttl"@, Json::Int(baidu_ttl(ttl))),
        ("view"@, Json::Str(match r.view { Some(v) => v@, None => "default"@ })), ("zoneName"@, Json::Str(root))])
}

/// The add payload.
pub open spec fn baidu_add_payload(host: Seq<char>, t: DnsRecordType, ip: Seq<char>, ttl: Option<u32>, root: Seq<char>) -> Json {
    Json::Object(seq![("domain"@, Json::Str(host)), ("rdType"@, Json::Str(record_type_name(t))), ("rdata"@, Json::Str(ip)),
        ("ttl"@, Json::Int(baidu_ttl(ttl))), ("zoneName"@, Json::Str(root))])
}

/// `e` is the error of a refused request: the status, and the body's `message` (or the
/// body itself) after a fixed prefix.
pub open spec fn baidu_error_is(e: DnsProviderError, reply: HttpReply, message: Option<String>) -> bool {
    e matches DnsProviderError::ApiError { code, message: m } && code@ == reply.status@
        && m@ == "百度云 API 请求失败: "@ + (match message { Some(x) => x@, None => reply.body@ })
}

impl BaiduCloudProvider {
    /// A provider with the given keys.
    pub fn new(ak: String, sk: String) -> (r: Self)
        ensures r.ak == ak, r.sk == sk,
    {
        BaiduCloudProvider { ak, sk }
    }

    /// The authorization of a request.
    pub fn build_auth_header(&self, method: &str, uri: &str, now: &str) -> (r: String)
        ensures r@ == bce_auth(self.ak@, self.sk@, method@, uri@, now@),
    {
        let mut p: Vec<char> = Vec::new();
        append_str(&mut p, "bce-auth-v1/");
        append_str(&mut p, self.ak.as_str());
        append_str(&mut p, "/");
        append_str(&mut p, now);
        append_str(&mut p, "/1800");
        let prefix = string_of(p.as_slice());
        let mut c: Vec<char> = Vec::new();
        append_str(&mut c, method);
        append_str(&mut c, "\n");
        append_str(&mut c, uri);
        append_str(&mut c, "\n\nhost:bcd.baidubce.com");
        let canonical = string_of(c.as_slice());
        let signing_key = hmac_sha256_hex(self.sk.as_str().as_bytes(), prefix.as_str().as_bytes());
        let sig = hmac_sha256_hex(signing_key.as_str().as_bytes(), canonical.as_str().as_bytes());
        let mut a: Vec<char> = Vec::new();
        append_str(&mut a, prefix.as_str());
        append_str(&mut a, "/host/");
        append_str(&mut a, sig.as_str());
        proof { reveal(bce_auth); }
        string_of(a.as_slice())
    }

    /// `req` is the signed POST of `payload` to `path`.
    pub open spec fn is_post(&self, req: HttpRequest, path: Seq<char>, payload: Json, now: Seq<char>) -> bool {
        &&& req.method == HttpMethod::Post
        &&& req.url@ == "https://bcd.baidubce.com"@ + path
        &&& pair_views(req.headers@) == seq![("Host"@, "bcd.baidubce.com"@), ("Content-Type"@, "application/json"@)]
            + header_if("Authorization"@, bce_auth(self.ak@, self.sk@, "POST"@, path, now))
        &&& (req.body matches Some(b) && b@ == render(payload))
    }

    fn post_json(&self, path: &str, payload: JsonValue, now: &str) -> (r: HttpRequest)
        ensures self.is_post(r, path@, deep(payload), now@),
    {
        let auth = self.build_auth_header("POST", path, now);
        let mut headers: Vec<(String, String)> = Vec::new();
        headers.push(("Host".to_string(), "bcd.baidubce.com".to_string()));
        headers.push(("Content-Type".to_string(), "application/json".to_string()));
        assert(pair_views(headers@) =~= seq![("Host"@, "bcd.baidubce.com"@), ("Content-Type"@, "application/json"@)]);
        push_header_if(&mut headers, "Authorization", auth.as_str());
        HttpRequest {
            method: HttpMethod::Post,
            url: with_prefix("https://bcd.baidubce.com", path),
            headers,
            body: Some(payload.to_text()),
        }
    }

    fn refused(reply: &HttpReply, message: Option<String>) -> (r: DnsProviderError)
        ensures baidu_error_is(r, *reply, message),
    {
        let m = match message { Some(x) => x, None => reply.body.clone() };
        DnsProviderError::ApiError { code: reply.status.clone(), message: with_prefix("百度云 API 请求失败: ", m.as_str()) }
    }

    /// The first request: the zone's records, signed at `now`.
    pub fn start(&self, domain: &ParsedDomain, now: &str) -> (r: (HttpRequest, BaiduState))
        ensures
            self.is_post(r.0, "/v1/domain/resolve/list"@, baidu_list_payload(domain.root_domain@), now@),
            r.1 == BaiduState::Lookup,
    {
        let mut m: Vec<(String, JsonValue)> = Vec::new();
        push_member(&mut m, "domain", JsonValue::Str(domain.root_domain.clone()));
        push_member(&mut m, "pageNum", JsonValue::Int(1));
        push_member(&mut m, "pageSize", JsonValue::Int(1000));
        assert(deep_members(m@) =~= seq![("domain"@, Json::Str(domain.root_domain@)), ("pageNum"@, Json::Int(1)),
            ("pageSize"@, Json::Int(1000))]);
        (self.post_json("/v1/domain/resolve/list", JsonValue::object(m), now), BaiduState::Lookup)
    }

    /// The decision on the records: an error (`message` is the error body's message, where
    /// it has one), the record already holding the address, its edit, or an addition.
    pub fn on_list(
        &self,
        domain: &ParsedDomain,
        record_type: DnsRecordType,
        ip: &IpAddress,
        ttl: Option<u32>,
        reply: &HttpReply,
        message: Option<String>,
        listed: Result<Vec<BaiduRecord>, String>,
        now: &str,
    ) -> (r: SyncStep<BaiduState>)
        ensures
            !reply.success ==> (r matches SyncStep::Done(Err(e)) && baidu_error_is(e, *reply, message)),
            reply.success ==> match listed {
                Err(e) => r == SyncStep::<BaiduState>::Done(Err(DnsProviderError::Json(e))),
                Ok(recs) => {
                    let host = baidu_host(domain.sub_domain@);
                    match baidu_match(recs@, host, record_type) {
                        Some(i) => if recs@[i].rdata@ == ip_text(*ip) {
                            r matches SyncStep::Done(Ok(res)) && res.is(full_name(domain.sub_domain@, domain.root_domain@),
                                record_type, ip_text(*ip), SyncStatus::Unchanged, unchanged_message())
                        } else {
                            r matches SyncStep::Send(req, BaiduState::Edit) && self.is_post(req, "/v1/domain/resolve/edit"@,
                                baidu_edit_payload(recs@[i], host, record_type, ip_text(*ip), ttl, domain.root_domain@), now@)
                        },
                        None => r matches SyncStep::Send(req, BaiduState::Add) && self.is_post(req, "/v1/domain/resolve/add"@,
                            baidu_add_payload(host, record_type, ip_text(*ip), ttl, domain.root_domain@), now@),
                    }
                },
            },
    {
        if !reply.success {
            return SyncStep::Done(Err(Self::refused(reply, message)));
        }
        let recs = match listed {
            Err(e) => { return SyncStep::Done(Err(DnsProviderError::Json(e))); },
            Ok(l) => l,
        };
        let host = domain.sub_domain_or_at();
        let tname = record_type.as_str();
        let target = ip.to_text();
        let mut i: usize = 0;
        let mut found = false;
        while i < recs.len() && !found
            invariant
                i <= recs@.len(),
                host@ == baidu_host(domain.sub_domain@),
                tname@ == record_type_name(record_type),
                !found ==> baidu_match(recs@.take(i as int), host@, record_type) is None,
                found ==> i < recs@.len() && baidu_match(recs@, host@, record_type) == Some(i as int),
            decreases recs@.len() - i + (if found { 0int } else { 1int }),
        {
            assert(recs@.take(i + 1).drop_last() =~= recs@.take(i as int));
            if eq_ignore_case(recs[i].domain.as_str(), host) && eq_ignore_case(recs[i].rd_type.as_str(), tname) {
                proof { lemma_match_prefix(recs@, host@, record_type, i as int); }
                found = true;
            } else {
                i = i + 1;
            }
        }
        let t: u32 = match ttl { Some(v) => v, None => 300 };
        let ttl_val: u64 = (if t < 1 { 1 } else { t }) as u64;
        if !found {
            assert(recs@.take(recs@.len() as int) =~= recs@);
            let mut m: Vec<(String, JsonValue)> = Vec::new();
            push_member(&mut m, "domain", JsonValue::Str(host.to_string()));
            push_member(&mut m, "rdType", JsonValue::Str(tname.to_string()));
            push_member(&mut m, "rdata", JsonValue::Str(target));
            push_member(&mut m, "ttl", JsonValue::UInt(ttl_val));
            push_member(&mut m, "zoneName", JsonValue::Str(domain.root_domain.clone()));
            assert(deep_members(m@) =~= seq![("domain"@, Json::Str(host@)), ("rdType"@, Json::Str(tname@)),
                ("rdata"@, Json::Str(ip_text(*ip))), ("ttl"@, Json::Int(baidu_ttl(ttl))),
                ("zoneName"@, Json::Str(domain.root_domain@))]);
            return SyncStep::Send(self.post_json("/v1/domain/resolve/add", JsonValue::object(m), now), BaiduState::Add);
        }
        if eq_exact(recs[i].rdata.as_str(), target.as_str()) {
            let full = domain.full_domain();
            return SyncStep::Done(Ok(SyncRecordResult::unchanged(full.as_str(), record_type, target.as_str())));
        }
        let view: String = match &recs[i].view { Some(v) => v.clone(), None => "default".to_string() };
        let mut m: Vec<(String, JsonValue)> = Vec::new();
        push_member(&mut m, "domain", JsonValue::Str(host.to_string()));
        push_member(&mut m, "rdType", JsonValue::Str(tname.to_string()));
        push_member(&mut m, "rdata", JsonValue::Str(target));
        push_member(&mut m, "recordId", JsonValue::UInt(recs[i].record_id));
        push_member(&mut m, "ttl", JsonValue::UInt(ttl_val));
        push_member(&mut m, "view", JsonValue::Str(view));
        push_member(&mut m, "zoneName", JsonValue::Str(domain.root_domain.clone()));
        assert(deep_members(m@) =~= seq![("domain"@, Json::Str(host@)), ("rdType"@, Json::Str(tname@)),
            ("rdata"@, Json::Str(ip_text(*ip))), ("recordId"@, Json::Int(recs@[i as int].record_id as int)),
            ("ttl"@, Json::Int(baidu_ttl(ttl))),
            ("view"@, Json::Str(match recs@[i as int].view { Some(v) => v@, None => "default"@ })),
            ("zoneName"@, Json::Str(domain.root_domain@))]);
        proof {
            let r = recs@[i as int];
            let lit = seq![("domain"@, Json::Str(baidu_host(domain.sub_domain@))),
                ("rdType"@, Json::Str(record_type_name(record_type))), ("rdata"@, Json::Str(ip_text(*ip))),
                ("recordId"@, Json::Int(r.record_id as int)), ("ttl"@, Json::Int(baidu_ttl(ttl))),
                ("view"@, Json::Str(match r.view { Some(v) => v@, None => "default"@ })), ("zoneName"@, Json::Str(domain.root_domain@))];
            assert(deep_members(m@) =~= lit);
            assert(baidu_edit_payload(r, baidu_host(domain.sub_domain@), record_type, ip_text(*ip), ttl, domain.root_domain@)
                == Json::Object(lit));
        }
        let obj = JsonValue::object(m);
        assert(deep(obj) == baidu_edit_payload(recs@[i as int], baidu_host(domain.sub_domain@), record_type, ip_text(*ip), ttl,
            domain.root_domain@));
        SyncStep::Send(self.post_json("/v1/domain/resolve/edit", obj, now), BaiduState::Edit)
    }

    /// The outcome of the edit or addition: an error, a body that is not JSON, or success.
    pub fn on_write(
        &self,
        state: BaiduState,
        domain: &ParsedDomain,
        record_type: DnsRecordType,
        ip: &IpAddress,
        reply: &HttpReply,
        message: Option<String>,
        parsed: Result<(), String>,
    ) -> (r: Result<SyncRecordResult, DnsProviderError>)
        ensures
            !reply.success ==> (r matches Err(e) && baidu_error_is(e, *reply, message)),
            reply.success ==> match parsed {
                Err(e) => r == Err::<SyncRecordResult, DnsProviderError>(DnsProviderError::Json(e)),
                Ok(_) => r matches Ok(res) && res.is(full_name(domain.sub_domain@, domain.root_domain@), record_type,
                    ip_text(*ip), if state == BaiduState::Add { SyncStatus::Created } else { SyncStatus::Updated },
                    if state == BaiduState::Add { "解析记录创建成功"@ } else { updated_message() }),
            },
    {
        if !reply.success {
            return Err(Self::refused(reply, message));
        }
        match parsed {
            Err(e) => Err(DnsProviderError::Json(e)),
            Ok(_) => {
                let full = domain.full_domain();
                let target = ip.to_text();
                if state == BaiduState::Add {
                    Ok(SyncRecordResult {
                        domain: full,
                        record_type,
                        target_ip: target,
                        status: SyncStatus::Created,
                        message: "解析记录创建成功".to_string(),
                    })
                } else {
                    Ok(SyncRecordResult::updated(full.as_str(), record_type, target.as_str()))
                }
            },
        }
    }
}

proof fn lemma_match_prefix(recs: Seq<BaiduRecord>, host: Seq<char>, t: DnsRecordType, i: int)
    requires
        0 <= i < recs.len(),
        baidu_match(recs.take(i), host, t) is None,
        lower(recs[i].domain@) == lower(host),
        lower(recs[i].rd_type@) == lower(record_type_name(t)),
    ensures
        baidu_match(recs, host, t) == Some(i),
    decreases recs.len(),
{
    if recs.len() - 1 == i {
        assert(recs.drop_last() =~= recs.take(i));
    } else {
        assert(recs.drop_last().take(i) =~= recs.take(i));
        lemma_match_prefix(recs.drop_last(), host, t, i);
    }
}

} // verus!
