//! Tencent Cloud DNSPod: list the records of the name and type, then leave, modify or
//! create one on the chosen line; calls are TC3-signed.
use vstd::prelude::*;
use crate::domain::{ParsedDomain, full_name, is_root_label, text_values};
use crate::engine::{IpAddress, ip_text};
use crate::json::{Json, JsonValue, deep, deep_members, push_member, render};
use crate::providers::{DnsProviderError, HttpReply, HttpRequest, SyncStep};
use crate::records::{DnsRecordType, SyncRecordResult, SyncStatus, created_message, record_type_name, unchanged_message,
    updated_message};
use crate::tc3::{Tc3ApiEndpoint, Tc3Response, is_tc3_request, read_reply, tc3_request};
use crate::text::{blank, eq_exact, eq_ignore_case, is_blank, lower};

verus! {

broadcast use vstd::string::group_string_axioms;

/// DNSPod credentials.
pub struct TencentCloudProvider {
    pub secret_id: String,
    pub secret_key: String,
}

/// A record as `DescribeRecordList` lists it.
#[derive(Debug, Clone)]
pub struct TcRecordItem {
    pub record_id: u64,
    pub name: String,
    pub record_type: String,
    pub value: String,
    pub line: Option<String>,
}

/// The data of `DescribeRecordList`.
#[derive(Debug, Clone)]
pub struct TcRecordListResponse {
    pub record_list: Option<Vec<TcRecordItem>>,
}

/// Where a DNSPod synchronisation stands.
#[derive(Debug, Clone, Copy, PartialEq, Eq, Structural)]
pub enum DnspodState {
    /// The records were asked for.
    Lookup,
    /// An existing record was modified.
    Modify,
    /// A record was created.
    Create,
}

/// The sub-domain label: `@` for the root.
pub open spec fn dnspod_sub(sub: Seq<char>) -> Seq<char> {
    if is_root_label(sub) { seq!['@'] } else { sub }
}

/// The line: the domain's `line` parameter, `默认` (default) without one.
pub open spec fn dnspod_line(params: Map<Seq<char>, Seq<char>>) -> Seq<char> {
    if params.contains_key("line"@) { params["line"@] } else { "默认"@ }
}

/// The TTL sent: the given one or 600, at least 1.
pub open spec fn dnspod_ttl(ttl: Option<u32>) -> int {
    let t: int = match ttl { Some(v) => v as int, None => 600 };
    if t < 1 { 1 } else { t }
}

/// The list call's payload (members in name order, as the JSON map writes them).
pub open spec fn list_payload(root: Seq<char>, sub: Seq<char>, t: DnsRecordType) -> Json {
    Json::Object(seq![("Domain"@, Json::Str(root)), ("Limit"@, Json::Int(100)), ("RecordType"@, Json::Str(record_type_name(t))),
        ("Subdomain"@, Json::Str(sub))])
}

/// The modification's payload.
pub open spec fn modify_payload(root: Seq<char>, id: u64, sub: Seq<char>, t: DnsRecordType, line: Seq<char>, ip: Seq<char>,
    ttl: Option<u32>) -> Json {
    Json::Object(seq![("Domain"@, Json::Str(root)), ("RecordId"@, Json::Int(id as int)), ("RecordLine"@, Json::Str(line)),
        ("RecordType"@, Json::Str(record_type_name(t))), ("SubDomain"@, Json::Str(sub)), ("TTL"@, Json::Int(dnspod_ttl(ttl))),
        ("Value"@, Json::Str(ip))])
}

/// The creation's payload.
pub open spec fn create_payload(root: Seq<char>, sub: Seq<char>, t: DnsRecordType, line: Seq<char>, ip: Seq<char>,
    ttl: Option<u32>) -> Json {
    Json::Object(seq![("Domain"@, Json::Str(root)), ("RecordLine"@, Json::Str(line)), ("RecordType"@, Json::Str(record_type_name(t))),
        ("SubDomain"@, Json::Str(sub)), ("TTL"@, Json::Int(dnspod_ttl(ttl))), ("Value"@, Json::Str(ip))])
}

/// A listed record is of the name, type and line (ASCII case ignored; a record without
/// a line matches any).
pub open spec fn dnspod_is(r: TcRecordItem, sub: Seq<char>, t: DnsRecordType, line: Seq<char>) -> bool {
    lower(r.name@) == lower(sub) && lower(r.record_type@) == lower(record_type_name(t))
        && match r.line { Some(l) => lower(l@) == lower(line), None => true }
}

/// The first listed record of the name, type and line.
pub open spec fn dnspod_match(records: Seq<TcRecordItem>, sub: Seq<char>, t: DnsRecordType, line: Seq<char>) -> Option<int>
    decreases records.len(),
{
    if records.len() == 0 {
        None
    } else {
        match dnspod_match(records.drop_last(), sub, t, line) {
            Some(i) => Some(i),
            None => if dnspod_is(records.last(), sub, t, line) { Some(records.len() - 1) } else { None },
        }
    }
}

/// An error code that means the list is empty.
pub open spec fn no_data_code(code: Seq<char>) -> bool {
    code == "ResourceNotFound.NoDataOfRecord"@ || code == "ResourceNotFound.NoDataOfDomain"@
}

proof fn lemma_match_prefix(recs: Seq<TcRecordItem>, sub: Seq<char>, t: DnsRecordType, line: Seq<char>, i: int)
    requires
        0 <= i < recs.len(),
        dnspod_match(recs.take(i), sub, t, line) is None,
        dnspod_is(recs[i], sub, t, line),
    ensures
        dnspod_match(recs, sub, t, line) == Some(i),
    decreases recs.len(),
{
    if recs.len() - 1 == i {
        assert(recs.drop_last() =~= recs.take(i));
    } else {
        assert(recs.drop_last().take(i) =~= recs.take(i));
        lemma_match_prefix(recs.drop_last(), sub, t, line, i);
    }
}

impl TencentCloudProvider {
    /// A provider; both keys are needed.
    pub fn new(secret_id: String, secret_key: String) -> (r: Result<Self, DnsProviderError>)
        ensures
            (is_blank(secret_id@) || is_blank(secret_key@)) ==> (r matches Err(DnsProviderError::MissingCredentials(m))
                && m@ == "腾讯云 DNSPod 需要配置 SecretId 与 SecretKey"@),
            !(is_blank(secret_id@) || is_blank(secret_key@)) ==> (r matches Ok(p) && p.secret_id == secret_id
                && p.secret_key == secret_key),
    {
        if blank(secret_id.as_str()) || blank(secret_key.as_str()) {
            return Err(DnsProviderError::MissingCredentials("腾讯云 DNSPod 需要配置 SecretId 与 SecretKey".to_string()));
        }
        Ok(TencentCloudProvider { secret_id, secret_key })
    }

    /// `req` is the signed DNSPod call of `action` with `payload`.
    pub open spec fn is_call(&self, req: HttpRequest, action: Seq<char>, payload: Json, timestamp: int, date: Seq<char>) -> bool {
        is_tc3_request(req, self.secret_id@, self.secret_key@, "dnspod.tencentcloudapi.com"@, "dnspod"@, "2021-03-23"@,
            action, render(payload), timestamp, date)
    }

    fn call(&self, action: &str, payload: JsonValue, timestamp: i64, date: &str) -> (r: HttpRequest)
        ensures self.is_call(r, action@, deep(payload), timestamp as int, date@),
    {
        let endpoint = Tc3ApiEndpoint::dnspod();
        let text = payload.to_text();
        tc3_request(self.secret_id.as_str(), self.secret_key.as_str(), &endpoint, action, text, timestamp, date)
    }

    /// The first call: the records of the name and type, at `timestamp` (seconds) on
    /// `date` (`YYYY-MM-DD`, UTC).
    pub fn start(&self, domain: &ParsedDomain, record_type: DnsRecordType, timestamp: i64, date: &str)
        -> (r: (HttpRequest, DnspodState))
        ensures
            self.is_call(r.0, "DescribeRecordList"@, list_payload(domain.root_domain@, dnspod_sub(domain.sub_domain@),
                record_type), timestamp as int, date@),
            r.1 == DnspodState::Lookup,
    {
        let mut m: Vec<(String, JsonValue)> = Vec::new();
        push_member(&mut m, "Domain", JsonValue::Str(domain.root_domain.clone()));
        push_member(&mut m, "Limit", JsonValue::Int(100));
        push_member(&mut m, "RecordType", JsonValue::Str(record_type.as_str().to_string()));
        push_member(&mut m, "Subdomain", JsonValue::Str(domain.sub_domain_or_at().to_string()));
        assert(deep_members(m@) =~= seq![("Domain"@, Json::Str(domain.root_domain@)), ("Limit"@, Json::Int(100)),
            ("RecordType"@, Json::Str(record_type_name(record_type))), ("Subdomain"@, Json::Str(dnspod_sub(domain.sub_domain@)))]);
        (self.call("DescribeRecordList", JsonValue::object(m), timestamp, date), DnspodState::Lookup)
    }

    fn write_call(&self, rid: Option<u64>, domain: &ParsedDomain, record_type: DnsRecordType, line: &str, ip: &IpAddress,
        ttl: Option<u32>, timestamp: i64, date: &str) -> (r: HttpRequest)
        ensures
            rid matches Some(n) ==> self.is_call(r, "ModifyRecord"@, modify_payload(domain.root_domain@, n, dnspod_sub(domain.sub_domain@),
                    record_type, line@, ip_text(*ip), ttl), timestamp as int, date@),
            rid is None ==> self.is_call(r, "CreateRecord"@, create_payload(domain.root_domain@, dnspod_sub(domain.sub_domain@),
                    record_type, line@, ip_text(*ip), ttl), timestamp as int, date@),
    {
        let t: u32 = match ttl { Some(v) => v, None => 600 };
        let ttl_val: u32 = if t < 1 { 1 } else { t };
        let mut m: Vec<(String, JsonValue)> = Vec::new();
        push_member(&mut m, "Domain", JsonValue::Str(domain.root_domain.clone()));
        match rid {
            Some(n) => push_member(&mut m, "RecordId", JsonValue::UInt(n)),
            None => {},
        }
        push_member(&mut m, "RecordLine", JsonValue::Str(line.to_string()));
        push_member(&mut m, "RecordType", JsonValue::Str(record_type.as_str().to_string()));
        push_member(&mut m, "SubDomain", JsonValue::Str(domain.sub_domain_or_at().to_string()));
        push_member(&mut m, "TTL", JsonValue::UInt(ttl_val as u64));
        push_member(&mut m, "Value", JsonValue::Str(ip.to_text()));
        let ghost root = domain.root_domain@;
        let ghost sub = dnspod_sub(domain.sub_domain@);
        let ghost tn = record_type_name(record_type);
        let ghost tail = seq![("RecordLine"@, Json::Str(line@)), ("RecordType"@, Json::Str(tn)), ("SubDomain"@, Json::Str(sub)),
            ("TTL"@, Json::Int(dnspod_ttl(ttl))), ("Value"@, Json::Str(ip_text(*ip)))];
        match rid {
            Some(n) => {
                assert(deep_members(m@) =~= seq![("Domain"@, Json::Str(root)), ("RecordId"@, Json::Int(n as int))] + tail);
                assert(seq![("Domain"@, Json::Str(root)), ("RecordId"@, Json::Int(n as int))] + tail =~= seq![
                    ("Domain"@, Json::Str(root)), ("RecordId"@, Json::Int(n as int)), ("RecordLine"@, Json::Str(line@)),
                    ("RecordType"@, Json::Str(tn)), ("SubDomain"@, Json::Str(sub)), ("TTL"@, Json::Int(dnspod_ttl(ttl))),
                    ("Value"@, Json::Str(ip_text(*ip)))]);
                let obj = JsonValue::object(m);
                assert(deep(obj) == modify_payload(root, n, sub, record_type, line@, ip_text(*ip), ttl));
                self.call("ModifyRecord", obj, timestamp, date)
            },
            None => {
                assert(deep_members(m@) =~= seq![("Domain"@, Json::Str(root))] + tail);
                assert(seq![("Domain"@, Json::Str(root))] + tail =~= seq![("Domain"@, Json::Str(root)),
                    ("RecordLine"@, Json::Str(line@)), ("RecordType"@, Json::Str(tn)), ("SubDomain"@, Json::Str(sub)),
                    ("TTL"@, Json::Int(dnspod_ttl(ttl))), ("Value"@, Json::Str(ip_text(*ip)))]);
                self.call("CreateRecord", JsonValue::object(m), timestamp, date)
            },
        }
    }

    /// The decision on the list: an error (the "no data" codes count as an empty list),
    /// the record already holding the address, its modification, or a creation.
    pub fn on_list(
        &self,
        domain: &ParsedDomain,
        record_type: DnsRecordType,
        ip: &IpAddress,
        ttl: Option<u32>,
        reply: &HttpReply,
        parsed: Result<Tc3Response<TcRecordListResponse>, String>,
        timestamp: i64,
        date: &str,
    ) -> (r: SyncStep<DnspodState>)
        requires domain.wf(),
        ensures
            ({
                let sub = dnspod_sub(domain.sub_domain@);
                let line = dnspod_line(text_values(domain.custom_params@));
                let listed: Option<Seq<TcRecordItem>> = if !reply.success {
                    if no_data_code(reply.status@) { Some(Seq::empty()) } else { None }
                } else {
                    match parsed {
                        Err(_) => None,
                        Ok(resp) => match resp.error {
                            Some(err) => if no_data_code(err.code@) { Some(Seq::empty()) } else { None },
                            None => match resp.data {
                                Some(d) => Some(match d.record_list { Some(l) => l@, None => Seq::empty() }),
                                None => None,
                            },
                        },
                    }
                };
                match listed {
                    None => r matches SyncStep::Done(Err(e)) && (if !reply.success {
                        e == DnsProviderError::ApiError { code: reply.status, message: reply.body }
                    } else {
                        match parsed {
                            Err(m) => e == DnsProviderError::Json(m),
                            Ok(resp) => match resp.error {
                                Some(err) => e == DnsProviderError::ApiError { code: err.code, message: err.message },
                                None => e matches DnsProviderError::Other(m) && m@ == "腾讯云 API 响应缺少数据实体"@,
                            },
                        }
                    }),
                    Some(recs) => match dnspod_match(recs, sub, record_type, line) {
                        Some(i) => if recs[i].value@ == ip_text(*ip) {
                            r matches SyncStep::Done(Ok(res)) && res.is(full_name(domain.sub_domain@, domain.root_domain@),
                                record_type, ip_text(*ip), SyncStatus::Unchanged, unchanged_message())
                        } else {
                            r matches SyncStep::Send(req, DnspodState::Modify) && self.is_call(req, "ModifyRecord"@,
                                modify_payload(domain.root_domain@, recs[i].record_id, sub, record_type, line, ip_text(*ip), ttl),
                                timestamp as int, date@)
                        },
                        None => r matches SyncStep::Send(req, DnspodState::Create) && self.is_call(req, "CreateRecord"@,
                            create_payload(domain.root_domain@, sub, record_type, line, ip_text(*ip), ttl), timestamp as int, date@),
                    },
                }
            }),
    {
        let res = read_reply(reply, parsed);
        let recs: Vec<TcRecordItem> = match res {
            Ok(d) => match d.record_list { Some(l) => l, None => Vec::new() },
            Err(e) => {
                let empty = match &e {
                    DnsProviderError::ApiError { code, message: _ } =>
                        eq_exact(code.as_str(), "ResourceNotFound.NoDataOfRecord")
                            || eq_exact(code.as_str(), "ResourceNotFound.NoDataOfDomain"),
                    _ => false,
                };
                if !empty {
                    return SyncStep::Done(Err(e));
                }
                Vec::new()
            },
        };
        let line: String = match domain.custom_params.get("line") {
            Some(l) => l.clone(),
            None => "默认".to_string(),
        };
        let sub = domain.sub_domain_or_at();
        let tname = record_type.as_str();
        let target = ip.to_text();
        let mut i: usize = 0;
        let mut found = false;
        while i < recs.len() && !found
            invariant
                i <= recs@.len(),
                sub@ == dnspod_sub(domain.sub_domain@),
                tname@ == record_type_name(record_type),
                !found ==> dnspod_match(recs@.take(i as int), sub@, record_type, line@) is None,
                found ==> i < recs@.len() && dnspod_match(recs@, sub@, record_type, line@) == Some(i as int),
            decreases recs@.len() - i + (if found { 0int } else { 1int }),
        {
            assert(recs@.take(i + 1).drop_last() =~= recs@.take(i as int));
            let line_ok = match &recs[i].line {
                Some(l) => eq_ignore_case(l.as_str(), line.as_str()),
                None => true,
            };
            if eq_ignore_case(recs[i].name.as_str(), sub) && eq_ignore_case(recs[i].record_type.as_str(), tname) && line_ok {
                proof { lemma_match_prefix(recs@, sub@, record_type, line@, i as int); }
                found = true;
            } else {
                i = i + 1;
            }
        }
        if !found {
            assert(recs@.take(recs@.len() as int) =~= recs@);
            let req = self.write_call(None, domain, record_type, line.as_str(), ip, ttl, timestamp, date);
            return SyncStep::Send(req, DnspodState::Create);
        }
        if eq_exact(recs[i].value.as_str(), target.as_str()) {
            let full = domain.full_domain();
            return SyncStep::Done(Ok(SyncRecordResult::unchanged(full.as_str(), record_type, target.as_str())));
        }
        let req = self.write_call(Some(recs[i].record_id), domain, record_type, line.as_str(), ip, ttl, timestamp, date);
        SyncStep::Send(req, DnspodState::Modify)
    }

    /// The outcome of the modification or creation.
    pub fn on_write(
        &self,
        state: DnspodState,
        domain: &ParsedDomain,
        record_type: DnsRecordType,
        ip: &IpAddress,
        reply: &HttpReply,
        parsed: Result<Tc3Response<()>, String>,
    ) -> (r: Result<SyncRecordResult, DnsProviderError>)
        ensures
            !reply.success ==> r == Err::<SyncRecordResult, DnsProviderError>(DnsProviderError::ApiError {
                code: reply.status, message: reply.body }),
            reply.success ==> match parsed {
                Err(e) => r == Err::<SyncRecordResult, DnsProviderError>(DnsProviderError::Json(e)),
                Ok(resp) => match resp.error {
                    Some(err) => r == Err::<SyncRecordResult, DnsProviderError>(DnsProviderError::ApiError {
                        code: err.code, message: err.message }),
                    None => match resp.data {
                        Some(_) => r matches Ok(res) && res.is(full_name(domain.sub_domain@, domain.root_domain@),
                            record_type, ip_text(*ip),
                            if state == DnspodState::Create { SyncStatus::Created } else { SyncStatus::Updated },
                            if state == DnspodState::Create { created_message() } else { updated_message() }),
                        None => r matches Err(DnsProviderError::Other(m)) && m@ == "腾讯云 API 响应缺少数据实体"@,
                    },
                },
            },
    {
        match read_reply(reply, parsed) {
            Err(e) => Err(e),
            Ok(_) => {
                let full = domain.full_domain();
                let target = ip.to_text();
                if state == DnspodState::Create {
                    Ok(SyncRecordResult::created(full.as_str(), record_type, target.as_str()))
                } else {
                    Ok(SyncRecordResult::updated(full.as_str(), record_type, target.as_str()))
                }
            },
        }
    }
}

} // verus!
