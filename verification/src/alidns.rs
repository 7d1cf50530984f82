//! Alibaba Cloud DNS (AliDNS): list the records of the name and type, then leave,
//! update or add one, every request signed with the POP scheme.
use vstd::prelude::*;
use crate::domain::{ParsedDomain, full_name, is_root_label};
use crate::engine::{IpAddress, ip_text};
use crate::net::{dec_text, decimal_text};
use crate::pop::{pop_params, pop_params_of, pop_signed_url, pop_url};
use crate::providers::{DnsProviderError, HttpMethod, HttpReply, HttpRequest, SyncStep};
use crate::records::{DnsRecordType, SyncRecordResult, SyncStatus, created_message, record_type_name, unchanged_message,
    updated_message};
use crate::text::{blank, eq_exact, eq_ignore_case, is_blank, lower};
use crate::urlencode::pair_views;

verus! {

broadcast use vstd::string::group_string_axioms;

/// AliDNS credentials and endpoint.
pub struct AliDnsProvider {
    pub access_key_id: String,
    pub access_key_secret: String,
    pub endpoint: String,
}

/// A record as `DescribeDomainRecords` lists it.
#[derive(Debug, Clone)]
pub struct AliRecordItem {
    pub record_id: String,
    pub rr: String,
    pub record_type: String,
    pub value: String,
}

/// The error body of a refused request.
#[derive(Debug, Clone)]
pub struct AliErrorResponse {
    pub code: String,
    pub message: String,
}

/// Where an AliDNS synchronisation stands.
#[derive(Debug, Clone, Copy, PartialEq, Eq, Structural)]
pub enum AliDnsState {
    /// The records were asked for.
    Lookup,
    /// An existing record was updated.
    Update,
    /// A record was added.
    Add,
}

/// The endpoint used where none is configured.
pub open spec fn alidns_default_endpoint() -> Seq<char> {
    "https://alidns.aliyuncs.com"@
}

/// The record name: the host part, `@` for the root.
pub open spec fn ali_rr(sub: Seq<char>) -> Seq<char> {
    if is_root_label(sub) { seq!['@'] } else { sub }
}

/// The TTL sent: the given one or 600, at least 1.
pub open spec fn ali_ttl(ttl: Option<u32>) -> nat {
    let t: nat = match ttl { Some(v) => v as nat, None => 600 };
    if t < 1 { 1 } else { t }
}

/// The first listed record of the name and type (both compared ignoring ASCII case).
pub open spec fn ali_match(records: Seq<AliRecordItem>, rr: Seq<char>, t: DnsRecordType) -> Option<int>
    decreases records.len(),
{
    if records.len() == 0 {
        None
    } else {
        match ali_match(records.drop_last(), rr, t) {
            Some(i) => Some(i),
            None => {
                let r = records.last();
                if lower(r.rr@) == lower(rr) && lower(r.record_type@) == lower(record_type_name(t)) {
                    Some(records.len() - 1)
                } else {
                    None
                }
            },
        }
    }
}

/// The error of a refused request: the body's code and message where it has them,
/// otherwise the status and the body.
pub open spec fn ali_error(reply: HttpReply, error: Option<AliErrorResponse>) -> DnsProviderError {
    match error {
        Some(e) => DnsProviderError::ApiError { code: e.code, message: e.message },
        None => DnsProviderError::ApiError { code: reply.status, message: reply.body },
    }
}

/// The parameters of the list request.
pub open spec fn ali_list_params(root: Seq<char>, rr: Seq<char>, t: DnsRecordType) -> Seq<(Seq<char>, Seq<char>)> {
    seq![("DomainName"@, root), ("RRKeyWord"@, rr), ("Type"@, record_type_name(t))]
}

/// The parameters of the update of record `id`.
pub open spec fn ali_update_params(id: Seq<char>, rr: Seq<char>, t: DnsRecordType, ip: Seq<char>, ttl: Option<u32>)
    -> Seq<(Seq<char>, Seq<char>)> {
    seq![("RecordId"@, id), ("RR"@, rr), ("Type"@, record_type_name(t)), ("Value"@, ip), ("TTL"@, dec_text(ali_ttl(ttl)))]
}

/// The parameters of the addition.
pub open spec fn ali_add_params(root: Seq<char>, rr: Seq<char>, t: DnsRecordType, ip: Seq<char>, ttl: Option<u32>)
    -> Seq<(Seq<char>, Seq<char>)> {
    seq![("DomainName"@, root), ("RR"@, rr), ("Type"@, record_type_name(t)), ("Value"@, ip), ("TTL"@, dec_text(ali_ttl(ttl)))]
}

impl AliDnsProvider {
    /// A provider; both keys are needed, and a blank or missing endpoint means the default.
    pub fn new(access_key_id: String, access_key_secret: String, endpoint: Option<String>) -> (r: Result<Self, DnsProviderError>)
        ensures
            (is_blank(access_key_id@) || is_blank(access_key_secret@)) ==> (r matches Err(DnsProviderError::MissingCredentials(m))
                && m@ == "阿里云 AliDNS 需要配置 AccessKeyId 与 AccessKeySecret"@),
            !(is_blank(access_key_id@) || is_blank(access_key_secret@)) ==> (r matches Ok(p)
                && p.access_key_id == access_key_id && p.access_key_secret == access_key_secret
                && p.endpoint@ == (match endpoint { Some(e) => if is_blank(e@) { alidns_default_endpoint() } else { e@ },
                    None => alidns_default_endpoint() })),
    {
        if blank(access_key_id.as_str()) || blank(access_key_secret.as_str()) {
            return Err(DnsProviderError::MissingCredentials("阿里云 AliDNS 需要配置 AccessKeyId 与 AccessKeySecret".to_string()));
        }
        let endpoint = match endpoint {
            Some(e) => if blank(e.as_str()) { "https://alidns.aliyuncs.com".to_string() } else { e },
            None => "https://alidns.aliyuncs.com".to_string(),
        };
        Ok(AliDnsProvider { access_key_id, access_key_secret, endpoint })
    }

    /// `req` is the signed GET of `action` with its own parameters `custom`.
    pub open spec fn is_pop_get(&self, req: HttpRequest, action: Seq<char>, custom: Seq<(Seq<char>, Seq<char>)>,
        timestamp: Seq<char>, nonce: Seq<char>) -> bool {
        &&& req.method == HttpMethod::Get
        &&& req.url@ == pop_url(self.endpoint@, "GET"@, self.access_key_secret@,
            pop_params("2015-01-09"@, self.access_key_id@, action, timestamp, nonce, custom))
        &&& req.headers@.len() == 0
        &&& req.body is None
    }

    fn pop_get(&self, action: &str, custom: &Vec<(String, String)>, timestamp: &str, nonce: &str) -> (r: HttpRequest)
        ensures self.is_pop_get(r, action@, pair_views(custom@), timestamp@, nonce@),
    {
        let params = pop_params_of("2015-01-09", self.access_key_id.as_str(), action, timestamp, nonce, custom);
        let url = pop_signed_url(self.endpoint.as_str(), "GET", self.access_key_secret.as_str(), &params);
        proof {
            reveal_strlit("2015-01-09");
            reveal_strlit("GET");
        }
        HttpRequest { method: HttpMethod::Get, url, headers: Vec::new(), body: None }
    }

    /// The first request: the records of the name and type, signed with `timestamp`
    /// (`%Y-%m-%dT%H:%M:%SZ`, UTC) and `nonce`.
    pub fn start(&self, domain: &ParsedDomain, record_type: DnsRecordType, timestamp: &str, nonce: &str)
        -> (r: (HttpRequest, AliDnsState))
        ensures
            self.is_pop_get(r.0, "DescribeDomainRecords"@,
                ali_list_params(domain.root_domain@, ali_rr(domain.sub_domain@), record_type), timestamp@, nonce@),
            r.1 == AliDnsState::Lookup,
    {
        let mut custom: Vec<(String, String)> = Vec::new();
        custom.push(("DomainName".to_string(), domain.root_domain.clone()));
        custom.push(("RRKeyWord".to_string(), domain.sub_domain_or_at().to_string()));
        custom.push(("Type".to_string(), record_type.as_str().to_string()));
        assert(pair_views(custom@) =~= ali_list_params(domain.root_domain@, ali_rr(domain.sub_domain@), record_type));
        (self.pop_get("DescribeDomainRecords", &custom, timestamp, nonce), AliDnsState::Lookup)
    }

    fn write_request(&self, action: &str, first: (String, String), rr: &str, record_type: DnsRecordType,
        ip: &IpAddress, ttl: Option<u32>, timestamp: &str, nonce: &str) -> (r: HttpRequest)
        ensures self.is_pop_get(r, action@, seq![(first.0@, first.1@), ("RR"@, rr@), ("Type"@, record_type_name(record_type)),
            ("Value"@, ip_text(*ip)), ("TTL"@, dec_text(ali_ttl(ttl)))], timestamp@, nonce@),
    {
        let t: u32 = match ttl { Some(v) => v, None => 600 };
        let ttl_val: u32 = if t < 1 { 1 } else { t };
        let mut custom: Vec<(String, String)> = Vec::new();
        let ghost fv = (first.0@, first.1@);
        custom.push(first);
        custom.push(("RR".to_string(), rr.to_string()));
        custom.push(("Type".to_string(), record_type.as_str().to_string()));
        custom.push(("Value".to_string(), ip.to_text()));
        custom.push(("TTL".to_string(), decimal_text(ttl_val as u64)));
        assert(pair_views(custom@) =~= seq![fv, ("RR"@, rr@), ("Type"@, record_type_name(record_type)),
            ("Value"@, ip_text(*ip)), ("TTL"@, dec_text(ali_ttl(ttl)))]);
        self.pop_get(action, &custom, timestamp, nonce)
    }

    fn refused(reply: &HttpReply, error: Option<AliErrorResponse>) -> (r: DnsProviderError)
        ensures r == ali_error(*reply, error),
    {
        match error {
            Some(e) => DnsProviderError::ApiError { code: e.code, message: e.message },
            None => DnsProviderError::ApiError { code: reply.status.clone(), message: reply.body.clone() },
        }
    }

    /// The decision on the record list: an error, the record already holding the
    /// address, its update, or an addition; write requests are signed anew with
    /// `timestamp` and `nonce`.
    pub fn on_list(
        &self,
        domain: &ParsedDomain,
        record_type: DnsRecordType,
        ip: &IpAddress,
        ttl: Option<u32>,
        reply: &HttpReply,
        error: Option<AliErrorResponse>,
        listed: Result<Vec<AliRecordItem>, String>,
        timestamp: &str,
        nonce: &str,
    ) -> (r: SyncStep<AliDnsState>)
        ensures
            !reply.success ==> r == SyncStep::<AliDnsState>::Done(Err(ali_error(*reply, error))),
            reply.success ==> match listed {
                Err(e) => r == SyncStep::<AliDnsState>::Done(Err(DnsProviderError::Json(e))),
                Ok(recs) => {
                    let rr = ali_rr(domain.sub_domain@);
                    match ali_match(recs@, rr, record_type) {
                        Some(i) => if recs@[i].value@ == ip_text(*ip) {
                            r matches SyncStep::Done(Ok(res)) && res.is(full_name(domain.sub_domain@, domain.root_domain@),
                                record_type, ip_text(*ip), SyncStatus::Unchanged, unchanged_message())
                        } else {
                            r matches SyncStep::Send(req, AliDnsState::Update) && self.is_pop_get(req, "UpdateDomainRecord"@,
                                ali_update_params(recs@[i].record_id@, rr, record_type, ip_text(*ip), ttl), timestamp@, nonce@)
                        },
                        None => r matches SyncStep::Send(req, AliDnsState::Add) && self.is_pop_get(req, "AddDomainRecord"@,
                            ali_add_params(domain.root_domain@, rr, record_type, ip_text(*ip), ttl), timestamp@, nonce@),
                    }
                },
            },
    {
        if !reply.success {
            return SyncStep::Done(Err(Self::refused(reply, error)));
        }
        let recs = match listed {
            Err(e) => { return SyncStep::Done(Err(DnsProviderError::Json(e))); },
            Ok(l) => l,
        };
        let rr = domain.sub_domain_or_at().to_string();
        let tname = record_type.as_str();
        let target = ip.to_text();
        let mut i: usize = 0;
        let mut found = false;
        while i < recs.len() && !found
            invariant
                i <= recs@.len(),
                rr@ == ali_rr(domain.sub_domain@),
                tname@ == record_type_name(record_type),
                !found ==> ali_match(recs@.take(i as int), rr@, record_type) is None,
                found ==> i < recs@.len() && ali_match(recs@, rr@, record_type) == Some(i as int),
            decreases recs@.len() - i + (if found { 0int } else { 1int }),
        {
            assert(recs@.take(i + 1).drop_last() =~= recs@.take(i as int));
            if eq_ignore_case(recs[i].rr.as_str(), rr.as_str()) && eq_ignore_case(recs[i].record_type.as_str(), tname) {
                proof { lemma_match_prefix(recs@, rr@, record_type, i as int); }
                found = true;
            } else {
                i = i + 1;
            }
        }
        if !found {
            assert(recs@.take(recs@.len() as int) =~= recs@);
            let req = self.write_request("AddDomainRecord", ("DomainName".to_string(), domain.root_domain.clone()),
                rr.as_str(), record_type, ip, ttl, timestamp, nonce);
            return SyncStep::Send(req, AliDnsState::Add);
        }
        if eq_exact(recs[i].value.as_str(), target.as_str()) {
            let full = domain.full_domain();
            return SyncStep::Done(Ok(SyncRecordResult::unchanged_log("阿里云 (AliDNS)", full.as_str(), record_type,
                target.as_str())));
        }
        let req = self.write_request("UpdateDomainRecord", ("RecordId".to_string(), recs[i].record_id.clone()),
            rr.as_str(), record_type, ip, ttl, timestamp, nonce);
        SyncStep::Send(req, AliDnsState::Update)
    }

    /// The outcome of the update or addition: a refusal, a body that is not JSON, or success.
    pub fn on_write(
        &self,
        state: AliDnsState,
        domain: &ParsedDomain,
        record_type: DnsRecordType,
        ip: &IpAddress,
        reply: &HttpReply,
        error: Option<AliErrorResponse>,
        parsed: Result<(), String>,
    ) -> (r: Result<SyncRecordResult, DnsProviderError>)
        ensures
            !reply.success ==> r == Err::<SyncRecordResult, DnsProviderError>(ali_error(*reply, error)),
            reply.success ==> match parsed {
                Err(e) => r == Err::<SyncRecordResult, DnsProviderError>(DnsProviderError::Json(e)),
                Ok(_) => r matches Ok(res) && res.is(full_name(domain.sub_domain@, domain.root_domain@), record_type,
                    ip_text(*ip), if state == AliDnsState::Add { SyncStatus::Created } else { SyncStatus::Updated },
                    if state == AliDnsState::Add { created_message() } else { updated_message() }),
            },
    {
        if !reply.success {
            return Err(Self::refused(reply, error));
        }
        match parsed {
            Err(e) => Err(DnsProviderError::Json(e)),
            Ok(_) => {
                let full = domain.full_domain();
                let target = ip.to_text();
                if state == AliDnsState::Add {
                    Ok(SyncRecordResult::created_log("阿里云 (AliDNS)", full.as_str(), record_type, target.as_str()))
                } else {
                    Ok(SyncRecordResult::updated_log("阿里云 (AliDNS)", full.as_str(), record_type, target.as_str()))
                }
            },
        }
    }
}

proof fn lemma_match_prefix(recs: Seq<AliRecordItem>, rr: Seq<char>, t: DnsRecordType, i: int)
    requires
        0 <= i < recs.len(),
        ali_match(recs.take(i), rr, t) is None,
        lower(recs[i].rr@) == lower(rr),
        lower(recs[i].record_type@) == lower(record_type_name(t)),
    ensures
        ali_match(recs, rr, t) == Some(i),
    decreases recs.len(),
{
    if recs.len() - 1 == i {
        assert(recs.drop_last() =~= recs.take(i));
    } else {
        assert(recs.drop_last().take(i) =~= recs.take(i));
        lemma_match_prefix(recs.drop_last(), rr, t, i);
    }
}

} // verus!
