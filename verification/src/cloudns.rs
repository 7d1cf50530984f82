//! ClouDNS: list the host's records of the type, then modify the matching one or add one.
//! Every call is a form POST that carries the credentials.
use vstd::prelude::*;
use crate::domain::{ParsedDomain, full_name};
use crate::engine::{IpAddress, ip_text};
use crate::godaddy::sub_or_at;
use crate::net::{dec_text, decimal_text};
use crate::providers::{DnsProviderError, HttpMethod, HttpReply, HttpRequest, SyncStep, is_api_error, query_string,
    with_prefix};
use crate::records::{DnsRecordType, SyncRecordResult, SyncStatus, created_message, record_type_name, unchanged_message,
    updated_message};
use crate::text::{eq_exact, eq_ignore_case, lower};
use crate::urlencode::pair_views;

verus! {

broadcast use vstd::string::group_string_axioms;

/// A record of the list.
#[derive(Debug, Clone)]
pub struct ClouDnsRecordItem {
    pub id: String,
    pub record_type: String,
    pub host: String,
    pub record: String,
}

/// The answer to a change.
#[derive(Debug, Clone)]
pub struct ClouDnsActionResp {
    pub status: Option<String>,
    pub status_description: Option<String>,
}

/// ClouDNS credentials.
pub struct ClouDnsProvider {
    pub auth_id: String,
    pub auth_password: String,
}

/// Where a ClouDNS synchronisation stands.
#[derive(Debug, Clone, PartialEq)]
pub enum ClouDnsState {
    /// The record list was asked for.
    Lookup,
    /// The record was modified (`update`) or added.
    Write { update: bool },
}

/// The TTL sent: the given one or 3600, at least 60.
pub open spec fn cloudns_ttl(ttl: Option<u32>) -> nat {
    let t: nat = match ttl { Some(v) => v as nat, None => 3600 };
    if t < 60 { 60 } else { t }
}

/// The record is the host's record of the type (ignoring ASCII case).
pub open spec fn cloudns_record_is(r: ClouDnsRecordItem, host: Seq<char>, t: DnsRecordType) -> bool {
    lower(r.record_type@) == lower(record_type_name(t)) && lower(r.host@) == lower(host)
}

/// Position of the first such record.
pub open spec fn cloudns_index(records: Seq<ClouDnsRecordItem>, host: Seq<char>, t: DnsRecordType) -> Option<int>
    decreases records.len(),
{
    if records.len() == 0 {
        None
    } else {
        match cloudns_index(records.drop_last(), host, t) {
            Some(i) => Some(i),
            None => if cloudns_record_is(records.last(), host, t) { Some(records.len() - 1) } else { None },
        }
    }
}

proof fn lemma_index_prefix(records: Seq<ClouDnsRecordItem>, host: Seq<char>, t: DnsRecordType, i: int)
    requires
        0 <= i < records.len(),
        cloudns_index(records.take(i), host, t) is None,
        cloudns_record_is(records[i], host, t),
    ensures cloudns_index(records, host, t) == Some(i),
    decreases records.len() - i,
{
    if i == records.len() - 1 {
        assert(records.drop_last() =~= records.take(i));
    } else {
        assert(records.drop_last().take(i) =~= records.take(i));
        lemma_index_prefix(records.drop_last(), host, t, i);
    }
}

/// `req` is a form POST to `url` with these fields.
pub open spec fn is_form_post(req: HttpRequest, url: Seq<char>, fields: Seq<(Seq<char>, Seq<char>)>) -> bool {
    &&& req.method == HttpMethod::Post
    &&& req.url@ == url
    &&& req.headers@.len() == 1
    &&& req.headers@[0].0@ == "Content-Type"@ && req.headers@[0].1@ == "application/x-www-form-urlencoded"@
    &&& req.body matches Some(b) && b@ == query_string(fields)
}

/// A form POST.
pub fn form_post(url: &str, fields: &Vec<(String, String)>) -> (r: HttpRequest)
    ensures is_form_post(r, url@, pair_views(fields@)),
{
    let mut headers: Vec<(String, String)> = Vec::new();
    headers.push(("Content-Type".to_string(), "application/x-www-form-urlencoded".to_string()));
    let body = crate::providers::with_query("", fields);
    proof {
        reveal_strlit("");
        assert(body@ =~= query_string(pair_views(fields@)));
    }
    HttpRequest { method: HttpMethod::Post, url: url.to_string(), headers, body: Some(body) }
}

impl ClouDnsProvider {
    /// A provider with the given credentials.
    pub fn new(auth_id: String, auth_password: String) -> (r: Self)
        ensures r.auth_id == auth_id, r.auth_password == auth_password,
    {
        ClouDnsProvider { auth_id, auth_password }
    }

    /// The fields of the list request.
    pub open spec fn list_fields(&self, domain: ParsedDomain, t: DnsRecordType) -> Seq<(Seq<char>, Seq<char>)> {
        seq![("auth-id"@, self.auth_id@)]
            .push(("auth-password"@, self.auth_password@))
            .push(("domain-name"@, domain.root_domain@))
            .push(("host"@, sub_or_at(domain.sub_domain@)))
            .push(("type"@, record_type_name(t)))
    }

    /// The fields of a modification.
    pub open spec fn modify_fields(&self, domain: ParsedDomain, id: Seq<char>, ip: Seq<char>, ttl: Option<u32>)
        -> Seq<(Seq<char>, Seq<char>)> {
        seq![("auth-id"@, self.auth_id@)]
            .push(("auth-password"@, self.auth_password@))
            .push(("domain-name"@, domain.root_domain@))
            .push(("record-id"@, id))
            .push(("host"@, sub_or_at(domain.sub_domain@)))
            .push(("record"@, ip))
            .push(("ttl"@, dec_text(cloudns_ttl(ttl))))
    }

    /// The fields of an addition.
    pub open spec fn add_fields(&self, domain: ParsedDomain, t: DnsRecordType, ip: Seq<char>, ttl: Option<u32>)
        -> Seq<(Seq<char>, Seq<char>)> {
        seq![("auth-id"@, self.auth_id@)]
            .push(("auth-password"@, self.auth_password@))
            .push(("domain-name"@, domain.root_domain@))
            .push(("host"@, sub_or_at(domain.sub_domain@)))
            .push(("type"@, record_type_name(t)))
            .push(("record"@, ip))
            .push(("ttl"@, dec_text(cloudns_ttl(ttl))))
    }

    /// The first request: the host's records of the type.
    pub fn start(&self, domain: &ParsedDomain, record_type: DnsRecordType) -> (r: (HttpRequest, ClouDnsState))
        ensures
            is_form_post(r.0, "https://api.cloudns.net/dns/records.json"@, self.list_fields(*domain, record_type)),
            r.1 == ClouDnsState::Lookup,
    {
        let mut f: Vec<(String, String)> = Vec::new();
        f.push(("auth-id".to_string(), self.auth_id.clone()));
        f.push(("auth-password".to_string(), self.auth_password.clone()));
        f.push(("domain-name".to_string(), domain.root_domain.clone()));
        f.push(("host".to_string(), domain.sub_domain_or_at().to_string()));
        f.push(("type".to_string(), record_type.as_str().to_string()));
        assert(pair_views(f@) =~= self.list_fields(*domain, record_type));
        (form_post("https://api.cloudns.net/dns/records.json", &f), ClouDnsState::Lookup)
    }

    /// The decision on the list (`records`: the values of the answer's map in the order
    /// the map was walked, or `None` where the answer is not such a map): the record
    /// already holding the address, its modification, or an addition.
    pub fn on_list(
        &self,
        domain: &ParsedDomain,
        record_type: DnsRecordType,
        ip: &IpAddress,
        ttl: Option<u32>,
        records: Option<Vec<ClouDnsRecordItem>>,
    ) -> (r: SyncStep<ClouDnsState>)
        ensures
            ({
                let recs = match records { Some(v) => v@, None => Seq::empty() };
                let host = sub_or_at(domain.sub_domain@);
                match cloudns_index(recs, host, record_type) {
                    Some(i) => if recs[i].record@ == ip_text(*ip) {
                        r matches SyncStep::Done(Ok(res)) && res.is(full_name(domain.sub_domain@, domain.root_domain@),
                            record_type, ip_text(*ip), SyncStatus::Unchanged, unchanged_message())
                    } else {
                        r matches SyncStep::Send(req, ClouDnsState::Write { update: true })
                            && is_form_post(req, "https://api.cloudns.net/dns/modify-record.json"@,
                                self.modify_fields(*domain, recs[i].id@, ip_text(*ip), ttl))
                    },
                    None => r matches SyncStep::Send(req, ClouDnsState::Write { update: false })
                        && is_form_post(req, "https://api.cloudns.net/dns/add-record.json"@,
                            self.add_fields(*domain, record_type, ip_text(*ip), ttl)),
                }
            }),
    {
        let recs: Vec<ClouDnsRecordItem> = match records { Some(v) => v, None => Vec::new() };
        let host = domain.sub_domain_or_at();
        let target = ip.to_text();
        let t: u32 = match ttl { Some(v) => v, None => 3600 };
        let ttl_val: u32 = if t < 60 { 60 } else { t };
        let mut i: usize = 0;
        while i < recs.len()
            invariant
                i <= recs@.len(),
                recs@ == match records { Some(v) => v@, None => Seq::<ClouDnsRecordItem>::empty() },
                host@ == sub_or_at(domain.sub_domain@),
                target@ == ip_text(*ip),
                ttl_val as nat == cloudns_ttl(ttl),
                cloudns_index(recs@.take(i as int), host@, record_type) is None,
            decreases recs@.len() - i,
        {
            assert(recs@.take(i + 1).drop_last() =~= recs@.take(i as int));
            let rec = &recs[i];
            if eq_ignore_case(rec.record_type.as_str(), record_type.as_str()) && eq_ignore_case(rec.host.as_str(), host) {
                proof { lemma_index_prefix(recs@, host@, record_type, i as int); }
                if eq_exact(rec.record.as_str(), target.as_str()) {
                    let full = domain.full_domain();
                    return SyncStep::Done(Ok(SyncRecordResult::unchanged_log("ClouDNS", full.as_str(), record_type,
                        target.as_str())));
                }
                let mut f: Vec<(String, String)> = Vec::new();
                f.push(("auth-id".to_string(), self.auth_id.clone()));
                f.push(("auth-password".to_string(), self.auth_password.clone()));
                f.push(("domain-name".to_string(), domain.root_domain.clone()));
                f.push(("record-id".to_string(), rec.id.clone()));
                f.push(("host".to_string(), host.to_string()));
                f.push(("record".to_string(), target));
                f.push(("ttl".to_string(), decimal_text(ttl_val as u64)));
                assert(pair_views(f@) =~= self.modify_fields(*domain, rec.id@, ip_text(*ip), ttl));
                let req = form_post("https://api.cloudns.net/dns/modify-record.json", &f);
                return SyncStep::Send(req, ClouDnsState::Write { update: true });
            }
            i = i + 1;
        }
        assert(recs@.take(recs@.len() as int) =~= recs@);
        let mut f: Vec<(String, String)> = Vec::new();
        f.push(("auth-id".to_string(), self.auth_id.clone()));
        f.push(("auth-password".to_string(), self.auth_password.clone()));
        f.push(("domain-name".to_string(), domain.root_domain.clone()));
        f.push(("host".to_string(), host.to_string()));
        f.push(("type".to_string(), record_type.as_str().to_string()));
        f.push(("record".to_string(), target));
        f.push(("ttl".to_string(), decimal_text(ttl_val as u64)));
        assert(pair_views(f@) =~= self.add_fields(*domain, record_type, ip_text(*ip), ttl));
        SyncStep::Send(form_post("https://api.cloudns.net/dns/add-record.json", &f), ClouDnsState::Write { update: false })
    }

    /// The outcome of the modification (`update`) or addition (`parsed`: the answer read
    /// as JSON, `None` where it is not): success where its status is `Success`, else
    /// its description or the body.
    pub fn on_write(
        &self,
        update: bool,
        domain: &ParsedDomain,
        record_type: DnsRecordType,
        ip: &IpAddress,
        body: &str,
        parsed: Option<ClouDnsActionResp>,
    ) -> (r: Result<SyncRecordResult, DnsProviderError>)
        ensures
            ({
                let res = match parsed { Some(a) => a, None => ClouDnsActionResp { status: None, status_description: None } };
                let detail = match res.status_description { Some(d) => d@, None => body@ };
                if res.status matches Some(s) && s@ == "Success"@ {
                    r matches Ok(x) && x.is(full_name(domain.sub_domain@, domain.root_domain@), record_type, ip_text(*ip),
                        if update { SyncStatus::Updated } else { SyncStatus::Created },
                        if update { updated_message() } else { created_message() })
                } else if update {
                    is_api_error(r, "ClouDnsModifyError"@, "ClouDNS 更新失败: "@ + detail)
                } else {
                    is_api_error(r, "ClouDnsAddError"@, "ClouDNS 创建记录失败: "@ + detail)
                }
            }),
    {
        let res = match parsed { Some(a) => a, None => ClouDnsActionResp { status: None, status_description: None } };
        let ok = match &res.status { Some(s) => eq_exact(s.as_str(), "Success"), None => false };
        if ok {
            let full = domain.full_domain();
            let target = ip.to_text();
            if update {
                Ok(SyncRecordResult::updated_log("ClouDNS", full.as_str(), record_type, target.as_str()))
            } else {
                Ok(SyncRecordResult::created_log("ClouDNS", full.as_str(), record_type, target.as_str()))
            }
        } else {
            let detail = match res.status_description { Some(d) => d, None => body.to_string() };
            if update {
                Err(DnsProviderError::ApiError {
                    code: "ClouDnsModifyError".to_string(),
                    message: with_prefix("ClouDNS 更新失败: ", detail.as_str()),
                })
            } else {
                Err(DnsProviderError::ApiError {
                    code: "ClouDnsAddError".to_string(),
                    message: with_prefix("ClouDNS 创建记录失败: ", detail.as_str()),
                })
            }
        }
    }
}

} // verus!
