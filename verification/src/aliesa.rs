//! Alibaba Cloud ESA: find the site of the root domain, list its records of the name
//! and type, then leave, update or create one; every request is POP-signed.
use vstd::prelude::*;
use crate::domain::{ParsedDomain, full_name};
use crate::engine::{IpAddress, ip_text};
use crate::net::{dec_text, decimal_text};
use crate::notify::{signed_decimal_text, signed_text};
use crate::pop::{pop_params, pop_params_of, pop_signed_url, pop_url};
use crate::providers::{DnsProviderError, HttpMethod, HttpReply, HttpRequest, SyncStep};
use crate::records::{DnsRecordType, SyncRecordResult, SyncStatus, record_type_name, unchanged_message, updated_message};
use crate::text::{append_str, blank, chars_of, eq_exact, eq_ignore_case, is_blank, lower, string_of, trim_end, trim_end_chars};
use crate::urlencode::pair_views;

verus! {

broadcast use vstd::string::group_string_axioms;

/// ESA credentials and endpoint.
pub struct AliEsaProvider {
    pub access_key_id: String,
    pub access_key_secret: String,
    pub endpoint: String,
}

/// A site as `ListSites` lists it.
#[derive(Debug, Clone)]
pub struct AliEsaSite {
    pub site_id: i64,
    pub site_name: String,
}

/// A record as `ListRecords` lists it: its id, name and value (`Data.Value`).
#[derive(Debug, Clone)]
pub struct AliEsaRecord {
    pub record_id: i64,
    pub record_name: String,
    pub value: Option<String>,
}

/// What `CreateRecord` answers.
#[derive(Debug, Clone)]
pub struct AliEsaActionResp {
    pub record_id: Option<i64>,
    pub request_id: Option<String>,
}

/// The error body of a refused request.
#[derive(Debug, Clone)]
pub struct AliEsaErrorResp {
    pub code: Option<String>,
    pub message: Option<String>,
}

/// Where an ESA synchronisation stands.
#[derive(Debug, Clone, Copy, PartialEq, Eq, Structural)]
pub enum AliEsaState {
    /// The sites were asked for.
    Sites,
    /// The records of the site were asked for.
    Records(i64),
    /// An existing record was updated.
    Update,
    /// A record was created.
    Create,
}

/// The endpoint used where none is configured.
pub open spec fn aliesa_default_endpoint() -> Seq<char> {
    "https://esa.cn-hangzhou.aliyuncs.com"@
}

/// The TTL sent: the given one or 600, at least 1.
pub open spec fn esa_ttl(ttl: Option<u32>) -> nat {
    let t: nat = match ttl { Some(v) => v as nat, None => 600 };
    if t < 1 { 1 } else { t }
}

/// The record data: `{"Value":"<address>"}`.
pub open spec fn esa_data(ip: Seq<char>) -> Seq<char> {
    "{\"Value\":\""@ + ip + "\"}"@
}

/// The first site whose name is the root domain, ignoring ASCII case.
pub open spec fn esa_site(sites: Seq<AliEsaSite>, root: Seq<char>) -> Option<int>
    decreases sites.len(),
{
    if sites.len() == 0 {
        None
    } else {
        match esa_site(sites.drop_last(), root) {
            Some(i) => Some(i),
            None => if lower(sites.last().site_name@) == lower(root) { Some(sites.len() - 1) } else { None },
        }
    }
}

/// The first record whose name, without trailing dots, is the full domain's, ignoring ASCII case.
pub open spec fn esa_record(records: Seq<AliEsaRecord>, full: Seq<char>) -> Option<int>
    decreases records.len(),
{
    if records.len() == 0 {
        None
    } else {
        match esa_record(records.drop_last(), full) {
            Some(i) => Some(i),
            None => if lower(trim_end(records.last().record_name@, '.')) == lower(trim_end(full, '.')) {
                Some(records.len() - 1)
            } else {
                None
            },
        }
    }
}

/// `e` is the error of a refused request: the body's code (or the status) and message (or
/// a fixed text) where the body is the error JSON, otherwise the status and the body.
pub open spec fn esa_error_is(e: DnsProviderError, reply: HttpReply, error: Option<AliEsaErrorResp>) -> bool {
    e matches DnsProviderError::ApiError { code, message } && match error {
        Some(x) => code@ == (match x.code { Some(c) => c@, None => reply.status@ })
            && message@ == (match x.message { Some(m) => m@, None => "阿里云 ESA 请求失败"@ }),
        None => code@ == reply.status@ && message@ == reply.body@,
    }
}

fn trim_dots_of(s: &str) -> (r: String)
    ensures r@ == trim_end(s@, '.'),
{
    let c = chars_of(s);
    let t = trim_end_chars(c.as_slice(), '.');
    string_of(t.as_slice())
}

impl AliEsaProvider {
    /// A provider; both keys are needed, and a blank or missing endpoint means the default.
    pub fn new(access_key_id: String, access_key_secret: String, endpoint: Option<String>) -> (r: Result<Self, DnsProviderError>)
        ensures
            (is_blank(access_key_id@) || is_blank(access_key_secret@)) ==> (r matches Err(DnsProviderError::MissingCredentials(m))
                && m@ == "阿里云 ESA 需要配置 AccessKeyId 与 AccessKeySecret"@),
            !(is_blank(access_key_id@) || is_blank(access_key_secret@)) ==> (r matches Ok(p)
                && p.access_key_id == access_key_id && p.access_key_secret == access_key_secret
                && p.endpoint@ == (match endpoint { Some(e) => if is_blank(e@) { aliesa_default_endpoint() } else { e@ },
                    None => aliesa_default_endpoint() })),
    {
        if blank(access_key_id.as_str()) || blank(access_key_secret.as_str()) {
            return Err(DnsProviderError::MissingCredentials("阿里云 ESA 需要配置 AccessKeyId 与 AccessKeySecret".to_string()));
        }
        let endpoint = match endpoint {
            Some(e) => if blank(e.as_str()) { "https://esa.cn-hangzhou.aliyuncs.com".to_string() } else { e },
            None => "https://esa.cn-hangzhou.aliyuncs.com".to_string(),
        };
        Ok(AliEsaProvider { access_key_id, access_key_secret, endpoint })
    }

    /// `req` is the signed request (`GET` or `POST`, no body) of `action` with its own
    /// parameters `custom`.
    pub open spec fn is_pop_request(&self, req: HttpRequest, post: bool, action: Seq<char>,
        custom: Seq<(Seq<char>, Seq<char>)>, timestamp: Seq<char>, nonce: Seq<char>) -> bool {
        &&& req.method == (if post { HttpMethod::Post } else { HttpMethod::Get })
        &&& req.url@ == pop_url(self.endpoint@, if post { "POST"@ } else { "GET"@ }, self.access_key_secret@,
            pop_params("2024-09-10"@, self.access_key_id@, action, timestamp, nonce, custom))
        &&& req.headers@.len() == 0
        &&& req.body is None
    }

    fn pop_request(&self, post: bool, action: &str, custom: &Vec<(String, String)>, timestamp: &str, nonce: &str)
        -> (r: HttpRequest)
        ensures self.is_pop_request(r, post, action@, pair_views(custom@), timestamp@, nonce@),
    {
        let params = pop_params_of("2024-09-10", self.access_key_id.as_str(), action, timestamp, nonce, custom);
        let method = if post { "POST" } else { "GET" };
        let url = pop_signed_url(self.endpoint.as_str(), method, self.access_key_secret.as_str(), &params);
        proof {
            reveal_strlit("2024-09-10");
            reveal_strlit("GET");
            reveal_strlit("POST");
        }
        HttpRequest { method: if post { HttpMethod::Post } else { HttpMethod::Get }, url, headers: Vec::new(), body: None }
    }

    fn refused(reply: &HttpReply, error: Option<AliEsaErrorResp>) -> (r: DnsProviderError)
        ensures esa_error_is(r, *reply, error),
    {
        match error {
            Some(e) => DnsProviderError::ApiError {
                code: match e.code { Some(c) => c, None => reply.status.clone() },
                message: match e.message { Some(m) => m, None => "阿里云 ESA 请求失败".to_string() },
            },
            None => DnsProviderError::ApiError { code: reply.status.clone(), message: reply.body.clone() },
        }
    }

    /// The first request: the sites named like the root domain.
    pub fn start(&self, domain: &ParsedDomain, timestamp: &str, nonce: &str) -> (r: (HttpRequest, AliEsaState))
        ensures
            self.is_pop_request(r.0, false, "ListSites"@, seq![("SiteName"@, domain.root_domain@)], timestamp@, nonce@),
            r.1 == AliEsaState::Sites,
    {
        let mut custom: Vec<(String, String)> = Vec::new();
        custom.push(("SiteName".to_string(), domain.root_domain.clone()));
        assert(pair_views(custom@) =~= seq![("SiteName"@, domain.root_domain@)]);
        (self.pop_request(false, "ListSites", &custom, timestamp, nonce), AliEsaState::Sites)
    }

    /// The decision on the sites: an error, no site of that name, or the record list of the site.
    pub fn on_sites(
        &self,
        domain: &ParsedDomain,
        record_type: DnsRecordType,
        reply: &HttpReply,
        error: Option<AliEsaErrorResp>,
        listed: Result<Vec<AliEsaSite>, String>,
        timestamp: &str,
        nonce: &str,
    ) -> (r: SyncStep<AliEsaState>)
        ensures
            !reply.success ==> (r matches SyncStep::Done(Err(e)) && esa_error_is(e, *reply, error)),
            reply.success ==> match listed {
                Err(e) => r == SyncStep::<AliEsaState>::Done(Err(DnsProviderError::Json(e))),
                Ok(sites) => match esa_site(sites@, domain.root_domain@) {
                    None => r matches SyncStep::Done(Err(DnsProviderError::ZoneNotFound(m)))
                        && m@ == "在阿里云 ESA 中未找到根域名 ["@ + domain.root_domain@ + "] 对应的站点"@,
                    Some(i) => r matches SyncStep::Send(req, AliEsaState::Records(id)) && id == sites@[i].site_id
                        && self.is_pop_request(req, false, "ListRecords"@, seq![("SiteId"@, signed_text(id as int)),
                            ("RecordName"@, full_name(domain.sub_domain@, domain.root_domain@)),
                            ("Type"@, record_type_name(record_type))], timestamp@, nonce@),
                },
            },
    {
        if !reply.success {
            return SyncStep::Done(Err(Self::refused(reply, error)));
        }
        let sites = match listed {
            Err(e) => { return SyncStep::Done(Err(DnsProviderError::Json(e))); },
            Ok(l) => l,
        };
        let mut i: usize = 0;
        let mut found = false;
        while i < sites.len() && !found
            invariant
                i <= sites@.len(),
                !found ==> esa_site(sites@.take(i as int), domain.root_domain@) is None,
                found ==> i < sites@.len() && esa_site(sites@, domain.root_domain@) == Some(i as int),
            decreases sites@.len() - i + (if found { 0int } else { 1int }),
        {
            assert(sites@.take(i + 1).drop_last() =~= sites@.take(i as int));
            if eq_ignore_case(sites[i].site_name.as_str(), domain.root_domain.as_str()) {
                proof { lemma_site_prefix(sites@, domain.root_domain@, i as int); }
                found = true;
            } else {
                i = i + 1;
            }
        }
        if !found {
            assert(sites@.take(sites@.len() as int) =~= sites@);
            let mut m: Vec<char> = Vec::new();
            append_str(&mut m, "在阿里云 ESA 中未找到根域名 [");
            append_str(&mut m, domain.root_domain.as_str());
            append_str(&mut m, "] 对应的站点");
            return SyncStep::Done(Err(DnsProviderError::ZoneNotFound(string_of(m.as_slice()))));
        }
        let id = sites[i].site_id;
        let mut custom: Vec<(String, String)> = Vec::new();
        custom.push(("SiteId".to_string(), signed_decimal_text(id)));
        custom.push(("RecordName".to_string(), domain.full_domain()));
        custom.push(("Type".to_string(), record_type.as_str().to_string()));
        assert(pair_views(custom@) =~= seq![("SiteId"@, signed_text(id as int)),
            ("RecordName"@, full_name(domain.sub_domain@, domain.root_domain@)), ("Type"@, record_type_name(record_type))]);
        SyncStep::Send(self.pop_request(false, "ListRecords", &custom, timestamp, nonce), AliEsaState::Records(id))
    }

    /// The decision on the records of site `site_id`: an error, the record already holding
    /// the address, its update, or a creation.
    pub fn on_records(
        &self,
        site_id: i64,
        domain: &ParsedDomain,
        record_type: DnsRecordType,
        ip: &IpAddress,
        ttl: Option<u32>,
        reply: &HttpReply,
        error: Option<AliEsaErrorResp>,
        listed: Result<Vec<AliEsaRecord>, String>,
        timestamp: &str,
        nonce: &str,
    ) -> (r: SyncStep<AliEsaState>)
        ensures
            !reply.success ==> (r matches SyncStep::Done(Err(e)) && esa_error_is(e, *reply, error)),
            reply.success ==> match listed {
                Err(e) => r == SyncStep::<AliEsaState>::Done(Err(DnsProviderError::Json(e))),
                Ok(recs) => {
                    let full = full_name(domain.sub_domain@, domain.root_domain@);
                    match esa_record(recs@, full) {
                        Some(i) => if (recs@[i].value matches Some(v) && v@ == ip_text(*ip)) {
                            r matches SyncStep::Done(Ok(res)) && res.is(full, record_type, ip_text(*ip),
                                SyncStatus::Unchanged, unchanged_message())
                        } else {
                            r matches SyncStep::Send(req, AliEsaState::Update) && self.is_pop_request(req, true,
                                "UpdateRecord"@, seq![("RecordId"@, signed_text(recs@[i].record_id as int)),
                                    ("Type"@, record_type_name(record_type)), ("Data"@, esa_data(ip_text(*ip))),
                                    ("Ttl"@, dec_text(esa_ttl(ttl)))], timestamp@, nonce@)
                        },
                        None => r matches SyncStep::Send(req, AliEsaState::Create) && self.is_pop_request(req, true,
                            "CreateRecord"@, seq![("SiteId"@, signed_text(site_id as int)), ("RecordName"@, full),
                                ("Type"@, record_type_name(record_type)), ("Data"@, esa_data(ip_text(*ip))),
                                ("Ttl"@, dec_text(esa_ttl(ttl)))], timestamp@, nonce@),
                    }
                },
            },
    {
        if !reply.success {
            return SyncStep::Done(Err(Self::refused(reply, error)));
        }
        let recs = match listed {
            Err(e) => { return SyncStep::Done(Err(DnsProviderError::Json(e))); },
            Ok(l) => l,
        };
        let full = domain.full_domain();
        let full_trim = trim_dots_of(full.as_str());
        let target = ip.to_text();
        let mut i: usize = 0;
        let mut found = false;
        while i < recs.len() && !found
            invariant
                i <= recs@.len(),
                full_trim@ == trim_end(full@, '.'),
                !found ==> esa_record(recs@.take(i as int), full@) is None,
                found ==> i < recs@.len() && esa_record(recs@, full@) == Some(i as int),
            decreases recs@.len() - i + (if found { 0int } else { 1int }),
        {
            assert(recs@.take(i + 1).drop_last() =~= recs@.take(i as int));
            let name = trim_dots_of(recs[i].record_name.as_str());
            if eq_ignore_case(name.as_str(), full_trim.as_str()) {
                proof { lemma_record_prefix(recs@, full@, i as int); }
                found = true;
            } else {
                i = i + 1;
            }
        }
        let mut data: Vec<char> = Vec::new();
        append_str(&mut data, "{\"Value\":\"");
        append_str(&mut data, target.as_str());
        append_str(&mut data, "\"}");
        let data_text = string_of(data.as_slice());
        let t: u32 = match ttl { Some(v) => v, None => 600 };
        let ttl_text = decimal_text((if t < 1 { 1 } else { t }) as u64);
        if !found {
            assert(recs@.take(recs@.len() as int) =~= recs@);
            let mut custom: Vec<(String, String)> = Vec::new();
            custom.push(("SiteId".to_string(), signed_decimal_text(site_id)));
            custom.push(("RecordName".to_string(), full));
            custom.push(("Type".to_string(), record_type.as_str().to_string()));
            custom.push(("Data".to_string(), data_text));
            custom.push(("Ttl".to_string(), ttl_text));
            assert(pair_views(custom@) =~= seq![("SiteId"@, signed_text(site_id as int)),
                ("RecordName"@, full_name(domain.sub_domain@, domain.root_domain@)),
                ("Type"@, record_type_name(record_type)), ("Data"@, esa_data(ip_text(*ip))), ("Ttl"@, dec_text(esa_ttl(ttl)))]);
            return SyncStep::Send(self.pop_request(true, "CreateRecord", &custom, timestamp, nonce), AliEsaState::Create);
        }
        let same = match &recs[i].value {
            Some(v) => eq_exact(v.as_str(), target.as_str()),
            None => false,
        };
        if same {
            return SyncStep::Done(Ok(SyncRecordResult::unchanged_log("阿里云 ESA", full.as_str(), record_type,
                target.as_str())));
        }
        let mut custom: Vec<(String, String)> = Vec::new();
        custom.push(("RecordId".to_string(), signed_decimal_text(recs[i].record_id)));
        custom.push(("Type".to_string(), record_type.as_str().to_string()));
        custom.push(("Data".to_string(), data_text));
        custom.push(("Ttl".to_string(), ttl_text));
        assert(pair_views(custom@) =~= seq![("RecordId"@, signed_text(recs@[i as int].record_id as int)),
            ("Type"@, record_type_name(record_type)), ("Data"@, esa_data(ip_text(*ip))), ("Ttl"@, dec_text(esa_ttl(ttl)))]);
        SyncStep::Send(self.pop_request(true, "UpdateRecord", &custom, timestamp, nonce), AliEsaState::Update)
    }

    /// The outcome of the update (`created` false) or creation: a refusal, a body that is
    /// not the expected JSON, or success; a creation answered with neither a record id nor
    /// a request id is an error.
    pub fn on_write(
        &self,
        created: bool,
        domain: &ParsedDomain,
        record_type: DnsRecordType,
        ip: &IpAddress,
        reply: &HttpReply,
        error: Option<AliEsaErrorResp>,
        parsed: Result<AliEsaActionResp, String>,
    ) -> (r: Result<SyncRecordResult, DnsProviderError>)
        ensures
            !reply.success ==> (r matches Err(e) && esa_error_is(e, *reply, error)),
            reply.success ==> match parsed {
                Err(e) => r == Err::<SyncRecordResult, DnsProviderError>(DnsProviderError::Json(e)),
                Ok(act) => if !created {
                    r matches Ok(res) && res.is(full_name(domain.sub_domain@, domain.root_domain@), record_type,
                        ip_text(*ip), SyncStatus::Updated, updated_message())
                } else if act.record_id is Some || act.request_id is Some {
                    r matches Ok(res) && res.is(full_name(domain.sub_domain@, domain.root_domain@), record_type,
                        ip_text(*ip), SyncStatus::Created, "解析记录创建成功"@)
                } else {
                    r matches Err(DnsProviderError::ApiError { code, message }) && code@ == "AliEsaCreateError"@
                        && message@ == "阿里云 ESA 创建解析记录未返回有效结果"@
                },
            },
    {
        if !reply.success {
            return Err(Self::refused(reply, error));
        }
        let act = match parsed {
            Err(e) => { return Err(DnsProviderError::Json(e)); },
            Ok(a) => a,
        };
        let full = domain.full_domain();
        let target = ip.to_text();
        if !created {
            return Ok(SyncRecordResult::updated_log("阿里云 ESA", full.as_str(), record_type, target.as_str()));
        }
        if act.record_id.is_some() || act.request_id.is_some() {
            Ok(SyncRecordResult {
                domain: full,
                record_type,
                target_ip: target,
                status: SyncStatus::Created,
                message: "解析记录创建成功".to_string(),
            })
        } else {
            Err(DnsProviderError::ApiError {
                code: "AliEsaCreateError".to_string(),
                message: "阿里云 ESA 创建解析记录未返回有效结果".to_string(),
            })
        }
    }
}

proof fn lemma_site_prefix(sites: Seq<AliEsaSite>, root: Seq<char>, i: int)
    requires
        0 <= i < sites.len(),
        esa_site(sites.take(i), root) is None,
        lower(sites[i].site_name@) == lower(root),
    ensures
        esa_site(sites, root) == Some(i),
    decreases sites.len(),
{
    if sites.len() - 1 == i {
        assert(sites.drop_last() =~= sites.take(i));
    } else {
        assert(sites.drop_last().take(i) =~= sites.take(i));
        lemma_site_prefix(sites.drop_last(), root, i);
    }
}

proof fn lemma_record_prefix(recs: Seq<AliEsaRecord>, full: Seq<char>, i: int)
    requires
        0 <= i < recs.len(),
        esa_record(recs.take(i), full) is None,
        lower(trim_end(recs[i].record_name@, '.')) == lower(trim_end(full, '.')),
    ensures
        esa_record(recs, full) == Some(i),
    decreases recs.len(),
{
    if recs.len() - 1 == i {
        assert(recs.drop_last() =~= recs.take(i));
    } else {
        assert(recs.drop_last().take(i) =~= recs.take(i));
        lemma_record_prefix(recs.drop_last(), full, i);
    }
}

} // verus!
