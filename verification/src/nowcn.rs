//! NowCN, Eranet and TNetHK (one API on three endpoints): list the records of the
//! host and type, then leave, update or add one; requests carry a POP signature among
//! their sorted parameters.
use vstd::prelude::*;
use crate::domain::{ParsedDomain, full_name, is_root_label};
use crate::engine::{IpAddress, ip_text};
use crate::net::{dec_text, decimal_text};
use crate::pop::{canonical_query, canonical_query_of, param_insert, params_with, pop_signature, pop_sign, insert_param,
    with_params};
use crate::providers::{DnsProviderError, HttpMethod, HttpReply, HttpRequest, SyncStep};
use crate::records::{DnsRecordType, SyncRecordResult, SyncStatus, created_message, record_type_name, unchanged_message,
    updated_message};
use crate::text::{append_str, blank, eq_exact, eq_ignore_case, is_blank, lower, string_of};
use crate::urlencode::pair_views;

verus! {

broadcast use vstd::string::group_string_axioms;

/// Credentials, endpoint and display name of one of the three services.
pub struct NowcnProvider {
    pub access_instance_id: String,
    pub secret_key: String,
    pub endpoint: String,
    pub provider_name: String,
}

/// A record as `DescribeRecordIndex` lists it.
#[derive(Debug, Clone)]
pub struct NowcnRecordItem {
    pub id: i64,
    pub host: Option<String>,
    pub record_type: Option<String>,
    pub value: Option<String>,
}

/// What the list request answers.
#[derive(Debug, Clone)]
pub struct NowcnListResp {
    pub data: Option<Vec<NowcnRecordItem>>,
    pub error: Option<String>,
}

/// Where a synchronisation stands.
#[derive(Debug, Clone, Copy, PartialEq, Eq, Structural)]
pub enum NowcnState {
    /// The records were asked for.
    Lookup,
    /// An existing record was updated.
    Update,
    /// A record was added.
    Add,
}

/// The parameters of a request: its own, then the instance id, signature method, nonce
/// and timestamp, sorted by name.
pub open spec fn nowcn_params(id: Seq<char>, nonce: Seq<char>, timestamp: Seq<char>,
    custom: Seq<(Seq<char>, Seq<char>)>) -> Seq<(Seq<char>, Seq<char>)> {
    params_with(Seq::empty(), custom + seq![("AccessInstanceID"@, id), ("SignatureMethod"@, "HMAC-SHA1"@),
        ("SignatureNonce"@, nonce), ("Timestamp"@, timestamp)])
}

/// The URL of a request to `path`: the parameters with the signature of their canonical
/// query added among them.
#[verifier::opaque]
pub open spec fn nowcn_url(endpoint: Seq<char>, path: Seq<char>, secret: Seq<char>,
    params: Seq<(Seq<char>, Seq<char>)>) -> Seq<char> {
    let signed = param_insert(params, "Signature"@, pop_signature(secret, "GET"@, canonical_query(params)));
    endpoint + path + seq!['?'] + canonical_query(signed)
}

/// The error of a list or write whose body names one (a non-blank `error`).
pub open spec fn named_error(e: Option<String>) -> Option<Seq<char>> {
    match e {
        Some(m) => if is_blank(m@) { None } else { Some(m@) },
        None => None,
    }
}

/// The first listed record of the type and host (ASCII case ignored; a missing field
/// counts as empty).
pub open spec fn nowcn_match(records: Seq<NowcnRecordItem>, host: Seq<char>, t: DnsRecordType) -> Option<int>
    decreases records.len(),
{
    if records.len() == 0 {
        None
    } else {
        match nowcn_match(records.drop_last(), host, t) {
            Some(i) => Some(i),
            None => {
                let r = records.last();
                let rt = match r.record_type { Some(x) => x@, None => Seq::<char>::empty() };
                let rh = match r.host { Some(x) => x@, None => Seq::<char>::empty() };
                if lower(rt) == lower(record_type_name(t)) && lower(rh) == lower(host) { Some(records.len() - 1) } else { None }
            },
        }
    }
}

/// The TTL sent: the given one or 600, at least 1.
pub open spec fn nowcn_ttl(ttl: Option<u32>) -> nat {
    let t: nat = match ttl { Some(v) => v as nat, None => 600 };
    if t < 1 { 1 } else { t }
}

/// The host label: the sub-domain, `@` for the root.
pub open spec fn nowcn_host(sub: Seq<char>) -> Seq<char> {
    if is_root_label(sub) { seq!['@'] } else { sub }
}

proof fn lemma_match_prefix(recs: Seq<NowcnRecordItem>, host: Seq<char>, t: DnsRecordType, i: int)
    requires
        0 <= i < recs.len(),
        nowcn_match(recs.take(i), host, t) is None,
        lower(match recs[i].record_type { Some(x) => x@, None => Seq::<char>::empty() }) == lower(record_type_name(t)),
        lower(match recs[i].host { Some(x) => x@, None => Seq::<char>::empty() }) == lower(host),
    ensures
        nowcn_match(recs, host, t) == Some(i),
    decreases recs.len(),
{
    if recs.len() - 1 == i {
        assert(recs.drop_last() =~= recs.take(i));
    } else {
        assert(recs.drop_last().take(i) =~= recs.take(i));
        lemma_match_prefix(recs.drop_last(), host, t, i);
    }
}

fn opt_text(o: &Option<String>) -> (r: &str)
    ensures r@ == (match *o { Some(x) => x@, None => Seq::<char>::empty() }),
{
    match o {
        Some(x) => x.as_str(),
        None => {
            proof { reveal_strlit(""); }
            ""
        },
    }
}

impl NowcnProvider {
    /// The spec of `new`: credentials needed; otherwise the given values.
    pub open spec fn made(r: Result<Self, DnsProviderError>, id: Seq<char>, key: Seq<char>, endpoint: Seq<char>,
        name: Seq<char>) -> bool {
        if is_blank(id) || is_blank(key) {
            r matches Err(DnsProviderError::MissingCredentials(m)) && m@ == name + " 需要配置 AccessInstanceID 与 SecretKey"@
        } else {
            r matches Ok(p) && p.access_instance_id@ == id && p.secret_key@ == key && p.endpoint@ == endpoint
                && p.provider_name@ == name
        }
    }

    /// A provider for `endpoint`, shown as `provider_name`.
    pub fn new(access_instance_id: String, secret_key: String, endpoint: String, provider_name: &str)
        -> (r: Result<Self, DnsProviderError>)
        ensures Self::made(r, access_instance_id@, secret_key@, endpoint@, provider_name@),
    {
        if blank(access_instance_id.as_str()) || blank(secret_key.as_str()) {
            let mut m: Vec<char> = Vec::new();
            append_str(&mut m, provider_name);
            append_str(&mut m, " 需要配置 AccessInstanceID 与 SecretKey");
            return Err(DnsProviderError::MissingCredentials(string_of(m.as_slice())));
        }
        Ok(NowcnProvider { access_instance_id, secret_key, endpoint, provider_name: provider_name.to_string() })
    }

    /// NowCN (`https://api.now.cn`).
    pub fn new_nowcn(access_instance_id: String, secret_key: String) -> (r: Result<Self, DnsProviderError>)
        ensures Self::made(r, access_instance_id@, secret_key@, "https://api.now.cn"@, "时代互联 (NowCN)"@),
    {
        Self::new(access_instance_id, secret_key, "https://api.now.cn".to_string(), "时代互联 (NowCN)")
    }

    /// Eranet (`https://www.eranet.com`).
    pub fn new_eranet(access_instance_id: String, secret_key: String) -> (r: Result<Self, DnsProviderError>)
        ensures Self::made(r, access_instance_id@, secret_key@, "https://www.eranet.com"@, "时代互联国际版 (Eranet)"@),
    {
        Self::new(access_instance_id, secret_key, "https://www.eranet.com".to_string(), "时代互联国际版 (Eranet)")
    }

    /// TNetHK (`https://www.tnet.hk`).
    pub fn new_tnethk(access_instance_id: String, secret_key: String) -> (r: Result<Self, DnsProviderError>)
        ensures Self::made(r, access_instance_id@, secret_key@, "https://www.tnet.hk"@, "TNetHK"@),
    {
        Self::new(access_instance_id, secret_key, "https://www.tnet.hk".to_string(), "TNetHK")
    }

    /// `req` is the signed GET of `path` with its own parameters `custom`.
    pub open spec fn is_api_get(&self, req: HttpRequest, path: Seq<char>, custom: Seq<(Seq<char>, Seq<char>)>,
        timestamp: Seq<char>, nonce: Seq<char>) -> bool {
        &&& req.method == HttpMethod::Get
        &&& req.url@ == nowcn_url(self.endpoint@, path, self.secret_key@,
            nowcn_params(self.access_instance_id@, nonce, timestamp, custom))
        &&& pair_views(req.headers@) == seq![("Accept"@, "application/json"@)]
        &&& req.body is None
    }

    fn api_get(&self, path: &str, custom: &Vec<(String, String)>, timestamp: &str, nonce: &str) -> (r: HttpRequest)
        ensures self.is_api_get(r, path@, pair_views(custom@), timestamp@, nonce@),
    {
        let mut list: Vec<(String, String)> = Vec::new();
        let mut i: usize = 0;
        while i < custom.len()
            invariant
                i <= custom@.len(),
                pair_views(list@) == pair_views(custom@).take(i as int),
            decreases custom@.len() - i,
        {
            let ghost before = list@;
            list.push((custom[i].0.clone(), custom[i].1.clone()));
            proof {
                crate::pop::lemma_pair_views_push(before, list@.last());
                assert(before.push(list@.last()) =~= list@);
                assert(pair_views(custom@).take(i + 1) =~= pair_views(custom@).take(i as int).push(pair_views(custom@)[i as int]));
            }
            i = i + 1;
        }
        assert(pair_views(custom@).take(custom@.len() as int) =~= pair_views(custom@));
        list.push(("AccessInstanceID".to_string(), self.access_instance_id.clone()));
        list.push(("SignatureMethod".to_string(), "HMAC-SHA1".to_string()));
        list.push(("SignatureNonce".to_string(), nonce.to_string()));
        list.push(("Timestamp".to_string(), timestamp.to_string()));
        assert(pair_views(list@) =~= pair_views(custom@) + seq![("AccessInstanceID"@, self.access_instance_id@),
            ("SignatureMethod"@, "HMAC-SHA1"@), ("SignatureNonce"@, nonce@), ("Timestamp"@, timestamp@)]);
        let empty: Vec<(String, String)> = Vec::new();
        assert(pair_views(empty@) =~= Seq::<(Seq<char>, Seq<char>)>::empty());
        let params = with_params(&empty, &list);
        let q = canonical_query_of(&params);
        let sig = pop_sign("GET", self.secret_key.as_str(), q.as_str());
        let signed = insert_param(&params, "Signature", sig.as_str());
        let fq = canonical_query_of(&signed);
        let mut url: Vec<char> = Vec::new();
        append_str(&mut url, self.endpoint.as_str());
        append_str(&mut url, path);
        url.push('?');
        append_str(&mut url, fq.as_str());
        let mut headers: Vec<(String, String)> = Vec::new();
        headers.push(("Accept".to_string(), "application/json".to_string()));
        let ghost pv = nowcn_params(self.access_instance_id@, nonce@, timestamp@, pair_views(custom@));
        assert(pair_views(params@) == pv);
        assert(q@ == canonical_query(pv));
        assert(sig@ == pop_signature(self.secret_key@, "GET"@, canonical_query(pv)));
        assert(pair_views(signed@) == param_insert(pv, "Signature"@, sig@));
        assert(url@ == self.endpoint@ + path@ + seq!['?'] + canonical_query(param_insert(pv, "Signature"@, sig@)));
        proof {
            reveal(nowcn_url);
            assert(pair_views(headers@) =~= seq![("Accept"@, "application/json"@)]);
        }
        HttpRequest { method: HttpMethod::Get, url: string_of(url.as_slice()), headers, body: None }
    }

    fn refused(&self, reply: &HttpReply) -> (r: DnsProviderError)
        ensures r matches DnsProviderError::ApiError { code, message } && code@ == reply.status@
            && message@ == self.provider_name@ + " 请求失败: "@ + reply.body@,
    {
        let mut m: Vec<char> = Vec::new();
        append_str(&mut m, self.provider_name.as_str());
        append_str(&mut m, " 请求失败: ");
        append_str(&mut m, reply.body.as_str());
        DnsProviderError::ApiError { code: reply.status.clone(), message: string_of(m.as_slice()) }
    }

    fn list_params(domain: &ParsedDomain, record_type: DnsRecordType) -> (r: Vec<(String, String)>)
        ensures pair_views(r@) == seq![("Domain"@, domain.root_domain@), ("Type"@, record_type_name(record_type)),
            ("Host"@, nowcn_host(domain.sub_domain@))],
    {
        let mut v: Vec<(String, String)> = Vec::new();
        v.push(("Domain".to_string(), domain.root_domain.clone()));
        v.push(("Type".to_string(), record_type.as_str().to_string()));
        v.push(("Host".to_string(), domain.sub_domain_or_at().to_string()));
        assert(pair_views(v@) =~= seq![("Domain"@, domain.root_domain@), ("Type"@, record_type_name(record_type)),
            ("Host"@, nowcn_host(domain.sub_domain@))]);
        v
    }

    /// The first request: the records of the host and type.
    pub fn start(&self, domain: &ParsedDomain, record_type: DnsRecordType, timestamp: &str, nonce: &str)
        -> (r: (HttpRequest, NowcnState))
        ensures
            self.is_api_get(r.0, "/api/Dns/DescribeRecordIndex"@, seq![("Domain"@, domain.root_domain@),
                ("Type"@, record_type_name(record_type)), ("Host"@, nowcn_host(domain.sub_domain@))], timestamp@, nonce@),
            r.1 == NowcnState::Lookup,
    {
        let custom = Self::list_params(domain, record_type);
        (self.api_get("/api/Dns/DescribeRecordIndex", &custom, timestamp, nonce), NowcnState::Lookup)
    }

    fn write_request(&self, id: Option<i64>, domain: &ParsedDomain, record_type: DnsRecordType, ip: &IpAddress,
        ttl: Option<u32>, timestamp: &str, nonce: &str) -> (r: HttpRequest)
        ensures
            ({
                let tail = seq![("Domain"@, domain.root_domain@), ("Host"@, nowcn_host(domain.sub_domain@)),
                    ("Type"@, record_type_name(record_type)), ("Value"@, ip_text(*ip)), ("Ttl"@, dec_text(nowcn_ttl(ttl)))];
                match id {
                    Some(n) => self.is_api_get(r, "/api/Dns/UpdateDomainRecord"@,
                        seq![("Id"@, crate::notify::signed_text(n as int))] + tail, timestamp@, nonce@),
                    None => self.is_api_get(r, "/api/Dns/AddDomainRecord"@, tail, timestamp@, nonce@),
                }
            }),
    {
        let t: u32 = match ttl { Some(v) => v, None => 600 };
        let mut v: Vec<(String, String)> = Vec::new();
        match id {
            Some(n) => v.push(("Id".to_string(), crate::notify::signed_decimal_text(n))),
            None => {},
        }
        let ghost head = v@;
        v.push(("Domain".to_string(), domain.root_domain.clone()));
        v.push(("Host".to_string(), domain.sub_domain_or_at().to_string()));
        v.push(("Type".to_string(), record_type.as_str().to_string()));
        v.push(("Value".to_string(), ip.to_text()));
        v.push(("Ttl".to_string(), decimal_text((if t < 1 { 1 } else { t }) as u64)));
        let ghost tail = seq![("Domain"@, domain.root_domain@), ("Host"@, nowcn_host(domain.sub_domain@)),
            ("Type"@, record_type_name(record_type)), ("Value"@, ip_text(*ip)), ("Ttl"@, dec_text(nowcn_ttl(ttl)))];
        match id {
            Some(n) => {
                assert(pair_views(v@) =~= seq![("Id"@, crate::notify::signed_text(n as int))] + tail);
                self.api_get("/api/Dns/UpdateDomainRecord", &v, timestamp, nonce)
            },
            None => {
                assert(pair_views(v@) =~= tail);
                self.api_get("/api/Dns/AddDomainRecord", &v, timestamp, nonce)
            },
        }
    }

    /// The decision on the list: an HTTP error, an error the body names, the record
    /// already holding the address, its update, or an addition.
    pub fn on_list(
        &self,
        domain: &ParsedDomain,
        record_type: DnsRecordType,
        ip: &IpAddress,
        ttl: Option<u32>,
        reply: &HttpReply,
        parsed: Result<NowcnListResp, String>,
        timestamp: &str,
        nonce: &str,
    ) -> (r: SyncStep<NowcnState>)
        ensures
            !reply.success ==> (r matches SyncStep::Done(Err(DnsProviderError::ApiError { code, message }))
                && code@ == reply.status@ && message@ == self.provider_name@ + " 请求失败: "@ + reply.body@),
            reply.success ==> match parsed {
                Err(e) => r == SyncStep::<NowcnState>::Done(Err(DnsProviderError::Json(e))),
                Ok(list) => match named_error(list.error) {
                    Some(m) => r matches SyncStep::Done(Err(DnsProviderError::ApiError { code, message }))
                        && code@ == "NowcnListError"@ && message@ == self.provider_name@ + " 查询记录失败: "@ + m,
                    None => {
                        let recs: Seq<NowcnRecordItem> = match list.data { Some(d) => d@, None => Seq::empty() };
                        let tail = seq![("Domain"@, domain.root_domain@), ("Host"@, nowcn_host(domain.sub_domain@)),
                            ("Type"@, record_type_name(record_type)), ("Value"@, ip_text(*ip)),
                            ("Ttl"@, dec_text(nowcn_ttl(ttl)))];
                        match nowcn_match(recs, nowcn_host(domain.sub_domain@), record_type) {
                            Some(i) => if (recs[i].value matches Some(v) && v@ == ip_text(*ip)) {
                                r matches SyncStep::Done(Ok(res)) && res.is(full_name(domain.sub_domain@,
                                    domain.root_domain@), record_type, ip_text(*ip), SyncStatus::Unchanged, unchanged_message())
                            } else {
                                r matches SyncStep::Send(req, NowcnState::Update) && self.is_api_get(req,
                                    "/api/Dns/UpdateDomainRecord"@, seq![("Id"@, crate::notify::signed_text(recs[i].id as int))]
                                    + tail, timestamp@, nonce@)
                            },
                            None => r matches SyncStep::Send(req, NowcnState::Add) && self.is_api_get(req,
                                "/api/Dns/AddDomainRecord"@, tail, timestamp@, nonce@),
                        }
                    },
                },
            },
    {
        if !reply.success {
            return SyncStep::Done(Err(self.refused(reply)));
        }
        let list = match parsed {
            Err(e) => { return SyncStep::Done(Err(DnsProviderError::Json(e))); },
            Ok(l) => l,
        };
        match &list.error {
            Some(m) => {
                if !blank(m.as_str()) {
                    let mut t: Vec<char> = Vec::new();
                    append_str(&mut t, self.provider_name.as_str());
                    append_str(&mut t, " 查询记录失败: ");
                    append_str(&mut t, m.as_str());
                    return SyncStep::Done(Err(DnsProviderError::ApiError {
                        code: "NowcnListError".to_string(),
                        message: string_of(t.as_slice()),
                    }));
                }
            },
            None => {},
        }
        let recs: Vec<NowcnRecordItem> = match list.data { Some(d) => d, None => Vec::new() };
        let host = domain.sub_domain_or_at();
        let tname = record_type.as_str();
        let target = ip.to_text();
        let mut i: usize = 0;
        let mut found = false;
        while i < recs.len() && !found
            invariant
                i <= recs@.len(),
                host@ == nowcn_host(domain.sub_domain@),
                tname@ == record_type_name(record_type),
                !found ==> nowcn_match(recs@.take(i as int), host@, record_type) is None,
                found ==> i < recs@.len() && nowcn_match(recs@, host@, record_type) == Some(i as int),
            decreases recs@.len() - i + (if found { 0int } else { 1int }),
        {
            assert(recs@.take(i + 1).drop_last() =~= recs@.take(i as int));
            if eq_ignore_case(opt_text(&recs[i].record_type), tname) && eq_ignore_case(opt_text(&recs[i].host), host) {
                proof { lemma_match_prefix(recs@, host@, record_type, i as int); }
                found = true;
            } else {
                i = i + 1;
            }
        }
        if !found {
            assert(recs@.take(recs@.len() as int) =~= recs@);
            return SyncStep::Send(self.write_request(None, domain, record_type, ip, ttl, timestamp, nonce), NowcnState::Add);
        }
        let same = match &recs[i].value {
            Some(v) => eq_exact(v.as_str(), target.as_str()),
            None => false,
        };
        if same {
            let full = domain.full_domain();
            return SyncStep::Done(Ok(SyncRecordResult::unchanged(full.as_str(), record_type, target.as_str())));
        }
        SyncStep::Send(self.write_request(Some(recs[i].id), domain, record_type, ip, ttl, timestamp, nonce), NowcnState::Update)
    }

    /// The outcome of the update or addition: an HTTP error, an error the body names,
    /// or success.
    pub fn on_write(
        &self,
        state: NowcnState,
        domain: &ParsedDomain,
        record_type: DnsRecordType,
        ip: &IpAddress,
        reply: &HttpReply,
        parsed: Result<Option<String>, String>,
    ) -> (r: Result<SyncRecordResult, DnsProviderError>)
        ensures
            !reply.success ==> (r matches Err(DnsProviderError::ApiError { code, message })
                && code@ == reply.status@ && message@ == self.provider_name@ + " 请求失败: "@ + reply.body@),
            reply.success ==> match parsed {
                Err(e) => r == Err::<SyncRecordResult, DnsProviderError>(DnsProviderError::Json(e)),
                Ok(err) => match named_error(err) {
                    Some(m) => r matches Err(DnsProviderError::ApiError { code, message }) && if state == NowcnState::Add {
                        code@ == "NowcnCreateError"@ && message@ == self.provider_name@ + " 创建记录失败: "@ + m
                    } else {
                        code@ == "NowcnUpdateError"@ && message@ == self.provider_name@ + " 更新记录失败: "@ + m
                    },
                    None => r matches Ok(res) && res.is(full_name(domain.sub_domain@, domain.root_domain@), record_type,
                        ip_text(*ip), if state == NowcnState::Add { SyncStatus::Created } else { SyncStatus::Updated },
                        if state == NowcnState::Add { created_message() } else { updated_message() }),
                },
            },
    {
        if !reply.success {
            return Err(self.refused(reply));
        }
        let err = match parsed {
            Err(e) => { return Err(DnsProviderError::Json(e)); },
            Ok(x) => x,
        };
        match &err {
            Some(m) => {
                if !blank(m.as_str()) {
                    let mut t: Vec<char> = Vec::new();
                    append_str(&mut t, self.provider_name.as_str());
                    if state == NowcnState::Add {
                        append_str(&mut t, " 创建记录失败: ");
                    } else {
                        append_str(&mut t, " 更新记录失败: ");
                    }
                    append_str(&mut t, m.as_str());
                    let code = if state == NowcnState::Add { "NowcnCreateError".to_string() } else { "NowcnUpdateError".to_string() };
                    return Err(DnsProviderError::ApiError { code, message: string_of(t.as_slice()) });
                }
            },
            None => {},
        }
        let full = domain.full_domain();
        let target = ip.to_text();
        if state == NowcnState::Add {
            Ok(SyncRecordResult::created(full.as_str(), record_type, target.as_str()))
        } else {
            Ok(SyncRecordResult::updated(full.as_str(), record_type, target.as_str()))
        }
    }
}

} // verus!
