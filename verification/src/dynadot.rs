//! Dynadot and Namecheap dynamic DNS: one GET with the record in its query, then a
//! verdict on the answer.
use vstd::prelude::*;
use crate::domain::{ParsedDomain, full_name, is_root_label};
use crate::engine::{IpAddress, ip_text};
use crate::godaddy::sub_or_at;
use crate::net::{dec_text, decimal_text};
use crate::providers::{DnsProviderError, HttpMethod, HttpReply, HttpRequest, SyncStep, is_api_error, query_string,
    with_prefix, with_query};
use crate::records::{DnsRecordType, SyncRecordResult, SyncStatus, record_type_name, updated_message};
use crate::text::{append_str, chars_of, find, find_from, lower_char, string_of};
use crate::urlencode::pair_views;

verus! {

broadcast use vstd::string::group_string_axioms;

/// Dynadot credentials: the dynamic DNS password.
pub struct DynadotProvider {
    pub password: String,
}

/// The Dynadot answer, where it is JSON.
#[derive(Debug, Clone)]
pub struct DynadotResp {
    pub error_code: Option<i32>,
    pub content: Option<Vec<String>>,
}

/// The TTL sent: the given one or 600, at least 1.
pub open spec fn dynadot_ttl(ttl: Option<u32>) -> nat {
    let t: nat = match ttl { Some(v) => v as nat, None => 600 };
    if t < 1 { 1 } else { t }
}

/// The query of the update.
pub open spec fn dynadot_query(domain: ParsedDomain, t: DnsRecordType, ip: Seq<char>, pwd: Seq<char>, ttl: Option<u32>)
    -> Seq<(Seq<char>, Seq<char>)> {
    seq![("domain"@, domain.root_domain@)]
        .push(("subDomain"@, sub_or_at(domain.sub_domain@)))
        .push(("type"@, record_type_name(t)))
        .push(("ip"@, ip))
        .push(("pwd"@, pwd))
        .push(("ttl"@, dec_text(dynadot_ttl(ttl))))
        .push(("containRoot"@, if is_root_label(domain.sub_domain@) { "true"@ } else { "false"@ }))
}

/// Letter folding as `str::to_lowercase` does it for ASCII letters: ASCII capitals and
/// the Kelvin sign become small ASCII letters; other characters stay (no other character
/// lower-cases to one of the letters that the searched words hold).
pub open spec fn fold_char(c: char) -> char {
    if c == '\u{212A}' { 'k' } else { lower_char(c) }
}

/// `fold_char` over a text.
pub open spec fn folded(s: Seq<char>) -> Seq<char> {
    s.map_values(|c: char| fold_char(c))
}

/// `p` occurs in `s`.
pub open spec fn contains(s: Seq<char>, p: Seq<char>) -> bool {
    find_from(s, p, 0) is Some
}

/// The contents of a failed answer joined with `, `.
pub open spec fn joined_contents(c: Seq<String>) -> Seq<char>
    decreases c.len(),
{
    if c.len() == 0 {
        Seq::empty()
    } else if c.len() == 1 {
        c[0]@
    } else {
        joined_contents(c.drop_last()) + ", "@ + c.last()@
    }
}

fn join_contents(c: &Vec<String>) -> (r: String)
    ensures r@ == joined_contents(c@),
{
    let mut v: Vec<char> = Vec::new();
    let mut i: usize = 0;
    while i < c.len()
        invariant
            i <= c@.len(),
            v@ == joined_contents(c@.take(i as int)),
        decreases c@.len() - i,
    {
        assert(c@.take(i + 1).drop_last() =~= c@.take(i as int));
        if i > 0 {
            append_str(&mut v, ", ");
        }
        append_str(&mut v, c[i].as_str());
        i = i + 1;
    }
    assert(c@.take(c@.len() as int) =~= c@);
    string_of(v.as_slice())
}

fn contains_text(s: &[char], p: &str) -> (r: bool)
    ensures r == contains(s@, p@),
{
    let pc = chars_of(p);
    find(s, pc.as_slice()).is_some()
}

fn fold_chars(s: &[char]) -> (r: Vec<char>)
    ensures r@ == folded(s@),
{
    let mut r: Vec<char> = Vec::new();
    let mut i: usize = 0;
    while i < s.len()
        invariant
            i <= s@.len(),
            r@ == folded(s@.take(i as int)),
        decreases s@.len() - i,
    {
        let c = s[i];
        let f = if c == '\u{212A}' { 'k' } else { crate::text::to_lower_char(c) };
        r.push(f);
        assert(folded(s@.take(i + 1)) =~= folded(s@.take(i as int)).push(fold_char(s@[i as int])));
        i = i + 1;
    }
    assert(s@.take(s@.len() as int) =~= s@);
    r
}

impl DynadotProvider {
    /// A provider with the given password.
    pub fn new(password: String) -> (r: Self)
        ensures r.password == password,
    {
        DynadotProvider { password }
    }

    /// The update request.
    pub fn request(&self, domain: &ParsedDomain, record_type: DnsRecordType, ip: &IpAddress, ttl: Option<u32>)
        -> (r: HttpRequest)
        ensures
            r.method == HttpMethod::Get,
            r.url@ == "https://www.dynadot.com/set_ddns?"@
                + query_string(dynadot_query(*domain, record_type, ip_text(*ip), self.password@, ttl)),
            r.headers@.len() == 0,
            r.body is None,
    {
        let t: u32 = match ttl { Some(v) => v, None => 600 };
        let ttl_val: u32 = if t < 1 { 1 } else { t };
        let sc = chars_of(domain.sub_domain.as_str());
        let is_root = sc.len() == 0 || (sc.len() == 1 && sc[0] == '@');
        proof {
            if sc@.len() == 1 && sc@[0] == '@' {
                assert(sc@ =~= seq!['@']);
            }
        }
        let mut q: Vec<(String, String)> = Vec::new();
        q.push(("domain".to_string(), domain.root_domain.clone()));
        q.push(("subDomain".to_string(), domain.sub_domain_or_at().to_string()));
        q.push(("type".to_string(), record_type.as_str().to_string()));
        q.push(("ip".to_string(), ip.to_text()));
        q.push(("pwd".to_string(), self.password.clone()));
        q.push(("ttl".to_string(), decimal_text(ttl_val as u64)));
        q.push(("containRoot".to_string(), if is_root { "true".to_string() } else { "false".to_string() }));
        proof {
            assert(is_root == is_root_label(domain.sub_domain@));
            assert(pair_views(q@) =~= dynadot_query(*domain, record_type, ip_text(*ip), self.password@, ttl));
        }
        HttpRequest {
            method: HttpMethod::Get,
            url: with_query("https://www.dynadot.com/set_ddns?", &q),
            headers: Vec::new(),
            body: None,
        }
    }

    /// The verdict on the answer (`parsed`: the answer read as JSON, or the parser's
    /// message): a failed status is an error; a JSON answer succeeds unless its error
    /// code is -1; any other answer succeeds where it mentions `success` or `ok`.
    pub fn outcome(
        &self,
        domain: &ParsedDomain,
        record_type: DnsRecordType,
        ip: &IpAddress,
        reply: &HttpReply,
        parsed: Result<DynadotResp, String>,
    ) -> (r: Result<SyncRecordResult, DnsProviderError>)
        ensures
            !reply.success ==> is_api_error(r, reply.status@, "Dynadot 请求失败: "@ + reply.body@),
            reply.success ==> match parsed {
                Ok(res) => if res.error_code != Some(-1i32) {
                    r matches Ok(x) && x.is(full_name(domain.sub_domain@, domain.root_domain@), record_type,
                        ip_text(*ip), SyncStatus::Updated, updated_message())
                } else {
                    is_api_error(r, "-1"@, "Dynadot 更新失败: "@
                        + joined_contents(match res.content { Some(c) => c@, None => Seq::empty() }))
                },
                Err(_) => if contains(folded(reply.body@), "success"@) || contains(folded(reply.body@), "ok"@) {
                    r matches Ok(x) && x.is(full_name(domain.sub_domain@, domain.root_domain@), record_type,
                        ip_text(*ip), SyncStatus::Updated, "Dynadot 更新成功: "@ + reply.body@)
                } else {
                    is_api_error(r, reply.status@, "Dynadot 返回未知格式响应: "@ + reply.body@)
                },
            },
    {
        if !reply.success {
            return Err(DnsProviderError::ApiError {
                code: reply.status.clone(),
                message: with_prefix("Dynadot 请求失败: ", reply.body.as_str()),
            });
        }
        let full = domain.full_domain();
        let target = ip.to_text();
        match parsed {
            Ok(res) => {
                let failed = match res.error_code { Some(c) => c == -1, None => false };
                if !failed {
                    Ok(SyncRecordResult::updated_log("Dynadot", full.as_str(), record_type, target.as_str()))
                } else {
                    let contents: Vec<String> = match res.content { Some(c) => c, None => Vec::new() };
                    let msg = join_contents(&contents);
                    Err(DnsProviderError::ApiError {
                        code: "-1".to_string(),
                        message: with_prefix("Dynadot 更新失败: ", msg.as_str()),
                    })
                }
            },
            Err(_) => {
                let f = fold_chars(chars_of(reply.body.as_str()).as_slice());
                if contains_text(f.as_slice(), "success") || contains_text(f.as_slice(), "ok") {
                    Ok(SyncRecordResult {
                        domain: full,
                        record_type,
                        target_ip: target,
                        status: SyncStatus::Updated,
                        message: with_prefix("Dynadot 更新成功: ", reply.body.as_str()),
                    })
                } else {
                    Err(DnsProviderError::ApiError {
                        code: reply.status.clone(),
                        message: with_prefix("Dynadot 返回未知格式响应: ", reply.body.as_str()),
                    })
                }
            },
        }
    }
}

/// Namecheap credentials: the dynamic DNS password.
pub struct NamecheapProvider {
    pub password: String,
}

/// The query of a Namecheap update.
pub open spec fn namecheap_query(domain: ParsedDomain, ip: Seq<char>, pwd: Seq<char>) -> Seq<(Seq<char>, Seq<char>)> {
    seq![("host"@, sub_or_at(domain.sub_domain@))]
        .push(("domain"@, domain.root_domain@))
        .push(("password"@, pwd))
        .push(("ip"@, ip))
}

/// A Namecheap answer that reports success.
pub open spec fn namecheap_ok(body: Seq<char>) -> bool {
    contains(body, "<ErrCount>0</ErrCount>"@) || contains(body, "<Done>true</Done>"@) || contains(body, "Success"@)
}

impl NamecheapProvider {
    /// A provider with the given password.
    pub fn new(password: String) -> (r: Self)
        ensures r.password == password,
    {
        NamecheapProvider { password }
    }

    /// The update request; AAAA records are refused (the interface takes IPv4 only).
    pub fn start(&self, domain: &ParsedDomain, record_type: DnsRecordType, ip: &IpAddress) -> (r: SyncStep<()>)
        ensures
            record_type == DnsRecordType::AAAA ==> (r matches SyncStep::Done(Err(DnsProviderError::Other(m)))
                && m@ == "Namecheap 动态 DNS 官方接口目前仅支持 IPv4 (A 记录)，不支持 IPv6"@),
            record_type == DnsRecordType::A ==> (r matches SyncStep::Send(req, _) && req.method == HttpMethod::Get
                && req.url@ == "https://dynamicdns.park-your-domain.com/update?"@
                    + query_string(namecheap_query(*domain, ip_text(*ip), self.password@))
                && req.headers@.len() == 0 && req.body is None),
    {
        match record_type {
            DnsRecordType::AAAA => SyncStep::Done(Err(DnsProviderError::Other(
                "Namecheap 动态 DNS 官方接口目前仅支持 IPv4 (A 记录)，不支持 IPv6".to_string(),
            ))),
            DnsRecordType::A => {
                let mut q: Vec<(String, String)> = Vec::new();
                q.push(("host".to_string(), domain.sub_domain_or_at().to_string()));
                q.push(("domain".to_string(), domain.root_domain.clone()));
                q.push(("password".to_string(), self.password.clone()));
                q.push(("ip".to_string(), ip.to_text()));
                assert(pair_views(q@) =~= namecheap_query(*domain, ip_text(*ip), self.password@));
                let req = HttpRequest {
                    method: HttpMethod::Get,
                    url: with_query("https://dynamicdns.park-your-domain.com/update?", &q),
                    headers: Vec::new(),
                    body: None,
                };
                SyncStep::Send(req, ())
            },
        }
    }

    /// The verdict on the answer.
    pub fn outcome(&self, domain: &ParsedDomain, record_type: DnsRecordType, ip: &IpAddress, reply: &HttpReply)
        -> (r: Result<SyncRecordResult, DnsProviderError>)
        ensures
            !reply.success ==> is_api_error(r, reply.status@, "Namecheap HTTP 请求异常: "@ + reply.body@),
            reply.success && namecheap_ok(reply.body@) ==> (r matches Ok(x)
                && x.is(full_name(domain.sub_domain@, domain.root_domain@), record_type, ip_text(*ip),
                    SyncStatus::Updated, updated_message())),
            reply.success && !namecheap_ok(reply.body@) ==> is_api_error(r, "NamecheapError"@,
                "Namecheap 更新失败: "@ + reply.body@),
    {
        if !reply.success {
            return Err(DnsProviderError::ApiError {
                code: reply.status.clone(),
                message: with_prefix("Namecheap HTTP 请求异常: ", reply.body.as_str()),
            });
        }
        let b = chars_of(reply.body.as_str());
        if contains_text(b.as_slice(), "<ErrCount>0</ErrCount>") || contains_text(b.as_slice(), "<Done>true</Done>")
            || contains_text(b.as_slice(), "Success") {
            let full = domain.full_domain();
            let target = ip.to_text();
            Ok(SyncRecordResult::updated_log("Namecheap", full.as_str(), record_type, target.as_str()))
        } else {
            Err(DnsProviderError::ApiError {
                code: "NamecheapError".to_string(),
                message: with_prefix("Namecheap 更新失败: ", reply.body.as_str()),
            })
        }
    }
}

} // verus!
