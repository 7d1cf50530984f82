//! NameSilo: list the domain's records (XML), then update the matching one or add it.
use vstd::prelude::*;
use crate::domain::{ParsedDomain, full_name, is_root_label};
use crate::engine::{IpAddress, ip_text};
use crate::net::{dec_text, decimal_text};
use crate::notify::{encode_value, template_value};
use crate::urlencode::pair_views;
use crate::providers::{DnsProviderError, HttpMethod, HttpRequest, SyncStep, query_string, with_query};
use crate::records::{DnsRecordType, SyncRecordResult, SyncStatus, record_type_name, unchanged_message, updated_message};
use crate::text::{
    append_chars, append_str, chars_eq, chars_of, find, find_from, lemma_find_from, lower, lower_chars,
    string_of, sub_chars, trim, trim_chars,
};

verus! {

broadcast use vstd::string::group_string_axioms;

/// The text of the first `<tag>…</tag>` element, trimmed; `None` where either tag is
/// missing (the close tag is looked for after the open tag).
pub open spec fn xml_tag(xml: Seq<char>, tag: Seq<char>) -> Option<Seq<char>> {
    let open = seq!['<'] + tag + seq!['>'];
    let close = seq!['<', '/'] + tag + seq!['>'];
    match find_from(xml, open, 0) {
        Some(i) => {
            let start = i + open.len();
            match find_from(xml.subrange(start, xml.len() as int), close, 0) {
                Some(j) => Some(trim(xml.subrange(start, start + j))),
                None => None,
            }
        },
        None => None,
    }
}

/// The reply's `<code>` is `300`.
pub open spec fn is_success_code(xml: Seq<char>) -> bool {
    xml_tag(xml, "code"@) == Some("300"@)
}

/// Pieces of `s` between occurrences of the non-empty `p` (as `str::split`).
pub open spec fn split_text(s: Seq<char>, p: Seq<char>) -> Seq<Seq<char>>
    decreases s.len(),
{
    if p.len() == 0 {
        seq![s]
    } else {
        match find_from(s, p, 0) {
            Some(i) => if 0 <= i && i + p.len() <= s.len() {
                seq![s.take(i)] + split_text(s.subrange(i + p.len(), s.len() as int), p)
            } else {
                seq![s]
            },
            None => seq![s],
        }
    }
}

/// The record blocks of a record list: what follows each `<resource_record>`, up to the
/// next `</resource_record>`.
pub open spec fn record_blocks(xml: Seq<char>) -> Seq<Seq<char>> {
    split_text(xml, "<resource_record>"@).drop_first()
        .map_values(|item: Seq<char>| split_text(item, "</resource_record>"@)[0])
}

/// A tag's text, or empty where it is missing.
pub open spec fn tag_or_empty(xml: Seq<char>, tag: Seq<char>) -> Seq<char> {
    match xml_tag(xml, tag) { Some(t) => t, None => Seq::empty() }
}

/// The block is the record of `full` and type `t` (host and type compared ignoring ASCII case).
pub open spec fn block_matches(block: Seq<char>, full: Seq<char>, t: DnsRecordType) -> bool {
    lower(tag_or_empty(block, "host"@)) == lower(full) && lower(tag_or_empty(block, "type"@)) == lower(record_type_name(t))
}

/// Position of the first matching block.
pub open spec fn block_index(blocks: Seq<Seq<char>>, full: Seq<char>, t: DnsRecordType) -> Option<int>
    decreases blocks.len(),
{
    if blocks.len() == 0 {
        None
    } else {
        match block_index(blocks.drop_last(), full, t) {
            Some(i) => Some(i),
            None => if block_matches(blocks.last(), full, t) { Some(blocks.len() - 1) } else { None },
        }
    }
}

/// Base of the NameSilo API.
pub open spec fn namesilo_base() -> Seq<char> {
    "https://www.namesilo.com/api"@
}

/// The host sent for the record: empty for the root.
pub open spec fn namesilo_host(sub: Seq<char>) -> Seq<char> {
    if is_root_label(sub) { Seq::empty() } else { sub }
}

/// The TTL sent: the given one or 3600, never below 3600.
pub open spec fn namesilo_ttl(ttl: Option<u32>) -> nat {
    let t: nat = match ttl { Some(v) => v as nat, None => 3600 };
    if t < 3600 { 3600 } else { t }
}

/// Which write follows the list.
#[derive(Debug, Clone, PartialEq, Eq)]
pub enum NameSiloWrite {
    /// Update the record with this id.
    Update { record_id: String },
    /// Add a record.
    Add,
}

/// NameSilo credentials.
pub struct NameSiloProvider {
    pub api_key: String,
}

impl NameSiloProvider {
    /// A provider with the given API key.
    pub fn new(api_key: String) -> (r: Self)
        ensures r.api_key == api_key,
    {
        NameSiloProvider { api_key }
    }

    /// The common first pairs of every request.
    pub open spec fn base_pairs(&self, root: Seq<char>) -> Seq<(Seq<char>, Seq<char>)> {
        seq![("version"@, "1"@)].push(("type"@, "xml"@)).push(("key"@, self.api_key@)).push(("domain"@, root))
    }

    /// URL of the record list.
    pub open spec fn list_url(&self, root: Seq<char>) -> Seq<char> {
        namesilo_base() + "/dnsListRecords?"@ + query_string(self.base_pairs(root))
    }

    /// URL of the update of record `id`.
    pub open spec fn update_url(&self, root: Seq<char>, id: Seq<char>, sub: Seq<char>, ip: Seq<char>, ttl: Option<u32>) -> Seq<char> {
        namesilo_base() + "/dnsUpdateRecord?"@ + query_string(self.base_pairs(root)
            .push(("rrid"@, id)).push(("rrhost"@, namesilo_host(sub))).push(("rrvalue"@, ip))
            .push(("rrttl"@, dec_text(namesilo_ttl(ttl)))))
    }

    /// URL of the addition of a record.
    pub open spec fn add_url(&self, root: Seq<char>, sub: Seq<char>, t: DnsRecordType, ip: Seq<char>, ttl: Option<u32>) -> Seq<char> {
        namesilo_base() + "/dnsAddRecord?"@ + query_string(self.base_pairs(root)
            .push(("rrhost"@, namesilo_host(sub))).push(("rrtype"@, record_type_name(t))).push(("rrvalue"@, ip))
            .push(("rrttl"@, dec_text(namesilo_ttl(ttl)))))
    }

    /// The request for the record list.
    pub fn list_request(&self, domain: &ParsedDomain) -> (r: HttpRequest)
        ensures r.method == HttpMethod::Get, r.url@ == self.list_url(domain.root_domain@), r.headers@.len() == 0,
            r.body is None,
    {
        let mut pairs: Vec<(String, String)> = self.base_pair_values(domain);
        let url = with_query("https://www.namesilo.com/api/dnsListRecords?", &pairs);
        proof { reveal_strlit("https://www.namesilo.com/api/dnsListRecords?"); reveal_strlit("https://www.namesilo.com/api"); reveal_strlit("/dnsListRecords?"); }
        assert(url@ == self.list_url(domain.root_domain@));
        HttpRequest { method: HttpMethod::Get, url, headers: Vec::new(), body: None }
    }

    fn base_pair_values(&self, domain: &ParsedDomain) -> (r: Vec<(String, String)>)
        ensures pair_views(r@) == self.base_pairs(domain.root_domain@),
    {
        let mut v: Vec<(String, String)> = Vec::new();
        v.push(("version".to_string(), "1".to_string()));
        v.push(("type".to_string(), "xml".to_string()));
        v.push(("key".to_string(), self.api_key.clone()));
        v.push(("domain".to_string(), domain.root_domain.clone()));
        assert(pair_views(v@) =~= self.base_pairs(domain.root_domain@));
        v
    }

    /// The decision on the record list: an API error, the matching record already holding
    /// the address, its update, or else the addition of a record.
    pub fn on_list(
        &self,
        domain: &ParsedDomain,
        record_type: DnsRecordType,
        ip: &IpAddress,
        ttl: Option<u32>,
        xml: &str,
    ) -> (r: SyncStep<NameSiloWrite>)
        ensures
            !is_success_code(xml@) ==> (r matches SyncStep::Done(Err(DnsProviderError::ApiError { code, message }))
                && code@ == "NameSiloQueryError"@
                && message@ == detail_or(xml@, "查询 NameSilo 解析记录失败"@)),
            is_success_code(xml@) ==> {
                let blocks = record_blocks(xml@);
                let full = full_name(domain.sub_domain@, domain.root_domain@);
                match block_index(blocks, full, record_type) {
                    Some(i) => if tag_or_empty(blocks[i], "value"@) == ip_text(*ip) {
                        r matches SyncStep::Done(Ok(res))
                            && res.is(full, record_type, ip_text(*ip), SyncStatus::Unchanged, unchanged_message())
                    } else {
                        r matches SyncStep::Send(req, NameSiloWrite::Update { record_id })
                            && record_id@ == tag_or_empty(blocks[i], "record_id"@)
                            && req.method == HttpMethod::Get && req.body is None && req.headers@.len() == 0
                            && req.url@ == self.update_url(domain.root_domain@, record_id@, domain.sub_domain@,
                                ip_text(*ip), ttl)
                    },
                    None => r matches SyncStep::Send(req, NameSiloWrite::Add)
                        && req.method == HttpMethod::Get && req.body is None && req.headers@.len() == 0
                        && req.url@ == self.add_url(domain.root_domain@, domain.sub_domain@, record_type, ip_text(*ip), ttl),
                }
            },
    {
        let xc = chars_of(xml);
        if !success_code(xc.as_slice()) {
            return SyncStep::Done(Err(DnsProviderError::ApiError {
                code: "NameSiloQueryError".to_string(),
                message: detail_text(xc.as_slice(), "查询 NameSilo 解析记录失败"),
            }));
        }
        let blocks = blocks_of(xc.as_slice());
        let full = domain.full_domain();
        let target = ip.to_text();
        let fc = chars_of(full.as_str());
        let full_lower = lower_chars(fc.as_slice());
        let tc = chars_of(record_type.as_str());
        let type_lower = lower_chars(tc.as_slice());
        let mut i: usize = 0;
        while i < blocks.len()
            invariant
                i <= blocks@.len(),
                crate::text::views_of(blocks@) == record_blocks(xml@),
                full@ == full_name(domain.sub_domain@, domain.root_domain@),
                full_lower@ == lower(full@),
                type_lower@ == lower(record_type_name(record_type)),
                target@ == ip_text(*ip),
                is_success_code(xml@),
                block_index(record_blocks(xml@).take(i as int), full@, record_type) is None,
            decreases blocks@.len() - i,
        {
            let ghost bs = record_blocks(xml@);
            assert(bs.take(i + 1).drop_last() =~= bs.take(i as int));
            assert(bs[i as int] == blocks@[i as int]@);
            let host = tag_text(blocks[i].as_slice(), "host");
            let rtype = tag_text(blocks[i].as_slice(), "type");
            let hl = lower_chars(host.as_slice());
            let tl = lower_chars(rtype.as_slice());
            if chars_eq(hl.as_slice(), full_lower.as_slice()) && chars_eq(tl.as_slice(), type_lower.as_slice()) {
                proof { lemma_block_index_prefix(bs, full@, record_type, i as int); }
                let value = tag_text(blocks[i].as_slice(), "value");
                let vc = chars_of(target.as_str());
                if chars_eq(value.as_slice(), vc.as_slice()) {
                    return SyncStep::Done(Ok(SyncRecordResult::unchanged(full.as_str(), record_type, target.as_str())));
                }
                let id = tag_text(blocks[i].as_slice(), "record_id");
                let record_id = string_of(id.as_slice());
                let mut pairs = self.base_pair_values(domain);
                push_pair(&mut pairs, "rrid", record_id.clone());
                push_pair(&mut pairs, "rrhost", host_of(domain));
                push_pair(&mut pairs, "rrvalue", target);
                push_pair(&mut pairs, "rrttl", ttl_text(ttl));
                let url = with_query("https://www.namesilo.com/api/dnsUpdateRecord?", &pairs);
                proof { reveal_strlit("https://www.namesilo.com/api/dnsUpdateRecord?"); reveal_strlit("https://www.namesilo.com/api"); reveal_strlit("/dnsUpdateRecord?"); }
                assert(url@ == self.update_url(domain.root_domain@, record_id@, domain.sub_domain@, ip_text(*ip), ttl));
                let req = HttpRequest { method: HttpMethod::Get, url, headers: Vec::new(), body: None };
                return SyncStep::Send(req, NameSiloWrite::Update { record_id });
            }
            i = i + 1;
        }
        assert(record_blocks(xml@).take(blocks@.len() as int) =~= record_blocks(xml@));
        let mut pairs = self.base_pair_values(domain);
        push_pair(&mut pairs, "rrhost", host_of(domain));
        push_pair(&mut pairs, "rrtype", record_type.as_str().to_string());
        push_pair(&mut pairs, "rrvalue", target);
        push_pair(&mut pairs, "rrttl", ttl_text(ttl));
        let url = with_query("https://www.namesilo.com/api/dnsAddRecord?", &pairs);
        proof { reveal_strlit("https://www.namesilo.com/api/dnsAddRecord?"); reveal_strlit("https://www.namesilo.com/api"); reveal_strlit("/dnsAddRecord?"); }
        assert(url@ == self.add_url(domain.root_domain@, domain.sub_domain@, record_type, ip_text(*ip), ttl));
        SyncStep::Send(HttpRequest { method: HttpMethod::Get, url, headers: Vec::new(), body: None }, NameSiloWrite::Add)
    }

    /// The outcome of the update or addition, read from the reply's `<code>`.
    pub fn on_write(
        &self,
        write: &NameSiloWrite,
        domain: &ParsedDomain,
        record_type: DnsRecordType,
        ip: &IpAddress,
        xml: &str,
    ) -> (r: Result<SyncRecordResult, DnsProviderError>)
        ensures
            is_success_code(xml@) && write is Update ==> (r matches Ok(res) && res.is(full_name(domain.sub_domain@,
                domain.root_domain@), record_type, ip_text(*ip), SyncStatus::Updated, updated_message())),
            is_success_code(xml@) && write is Add ==> (r matches Ok(res) && res.is(full_name(domain.sub_domain@,
                domain.root_domain@), record_type, ip_text(*ip), SyncStatus::Created, "解析记录创建成功"@)),
            !is_success_code(xml@) && write is Update ==> (r matches Err(DnsProviderError::ApiError { code, message })
                && code@ == "NameSiloUpdateError"@ && message@ == detail_or(xml@, "更新 NameSilo 记录失败"@)),
            !is_success_code(xml@) && write is Add ==> (r matches Err(DnsProviderError::ApiError { code, message })
                && code@ == "NameSiloAddError"@ && message@ == detail_or(xml@, "新增 NameSilo 记录失败"@)),
    {
        let xc = chars_of(xml);
        let full = domain.full_domain();
        let target = ip.to_text();
        match write {
            NameSiloWrite::Update { .. } => {
                if success_code(xc.as_slice()) {
                    Ok(SyncRecordResult::updated(full.as_str(), record_type, target.as_str()))
                } else {
                    Err(DnsProviderError::ApiError {
                        code: "NameSiloUpdateError".to_string(),
                        message: detail_text(xc.as_slice(), "更新 NameSilo 记录失败"),
                    })
                }
            },
            NameSiloWrite::Add => {
                if success_code(xc.as_slice()) {
                    Ok(SyncRecordResult {
                        domain: full,
                        record_type,
                        target_ip: target,
                        status: SyncStatus::Created,
                        message: "解析记录创建成功".to_string(),
                    })
                } else {
                    Err(DnsProviderError::ApiError {
                        code: "NameSiloAddError".to_string(),
                        message: detail_text(xc.as_slice(), "新增 NameSilo 记录失败"),
                    })
                }
            },
        }
    }
}

fn tag_pattern(close: bool, tag: &str) -> (r: Vec<char>)
    ensures r@ == if close { seq!['<', '/'] + tag@ + seq!['>'] } else { seq!['<'] + tag@ + seq!['>'] },
{
    let mut v: Vec<char> = Vec::new();
    v.push('<');
    if close {
        v.push('/');
    }
    append_str(&mut v, tag);
    v.push('>');
    proof {
        if close { assert(v@ =~= seq!['<', '/'] + tag@ + seq!['>']); } else { assert(v@ =~= seq!['<'] + tag@ + seq!['>']); }
    }
    v
}

/// The text of the first `<tag>…</tag>` element, trimmed.
pub fn extract_xml_tag(xml: &[char], tag: &str) -> (r: Option<Vec<char>>)
    ensures
        match r {
            Some(t) => xml_tag(xml@, tag@) == Some(t@),
            None => xml_tag(xml@, tag@) is None,
        },
{
    let open = tag_pattern(false, tag);
    let close = tag_pattern(true, tag);
    match find(xml, open.as_slice()) {
        None => None,
        Some(i) => {
            proof { lemma_find_from(xml@, open@, 0); }
            let n = xml.len();
            assert(i + open@.len() <= n);
            let start = i + open.len();
            let rest = sub_chars(xml, start, xml.len());
            match find(rest.as_slice(), close.as_slice()) {
                None => None,
                Some(j) => {
                    proof { lemma_find_from(rest@, close@, 0); }
                    assert(j + close@.len() <= rest@.len());
                    let inner = sub_chars(xml, start, start + j);
                    Some(trim_chars(inner.as_slice()))
                },
            }
        },
    }
}

fn success_code(xml: &[char]) -> (r: bool)
    ensures r == is_success_code(xml@),
{
    proof { reveal_strlit("300"); }
    match extract_xml_tag(xml, "code") {
        Some(c) => {
            let expected = chars_of("300");
            chars_eq(c.as_slice(), expected.as_slice())
        },
        None => false,
    }
}

/// Executes `split_text`.
fn split_by(s: &[char], p: &[char]) -> (r: Vec<Vec<char>>)
    requires p@.len() > 0,
    ensures crate::text::views_of(r@) == split_text(s@, p@),
    decreases s@.len(),
{
    match find(s, p) {
        Some(i) => {
            proof { lemma_find_from(s@, p@, 0); }
            let n = s.len();
            assert(i + p@.len() <= n);
            let head = sub_chars(s, 0, i);
            let tail = sub_chars(s, i + p.len(), s.len());
            let rest = split_by(tail.as_slice(), p);
            let mut out: Vec<Vec<char>> = Vec::new();
            out.push(head);
            proof { assert(s@.subrange(0, i as int) =~= s@.take(i as int)); }
            append_all(&mut out, rest);
            assert(crate::text::views_of(out@) =~= seq![s@.take(i as int)] + split_text(s@.subrange(i + p@.len(), s@.len() as int), p@));
            out
        },
        None => {
            let mut out: Vec<Vec<char>> = Vec::new();
            out.push(sub_chars(s, 0, s.len()));
            assert(s@.subrange(0, s@.len() as int) =~= s@);
            assert(crate::text::views_of(out@) =~= seq![s@]);
            out
        },
    }
}

fn append_all(out: &mut Vec<Vec<char>>, more: Vec<Vec<char>>)
    ensures crate::text::views_of(final(out)@) == crate::text::views_of(old(out)@) + crate::text::views_of(more@),
{
    let mut more = more;
    let ghost a = out@;
    let ghost b = more@;
    out.append(&mut more);
    assert(out@ == a + b);
    assert(crate::text::views_of(out@) =~= crate::text::views_of(a) + crate::text::views_of(b));
}

/// The reply's `<detail>`, or `fallback` where there is none.
pub open spec fn detail_or(xml: Seq<char>, fallback: Seq<char>) -> Seq<char> {
    match xml_tag(xml, "detail"@) { Some(d) => d, None => fallback }
}

fn detail_text(xml: &[char], fallback: &str) -> (r: String)
    ensures r@ == detail_or(xml@, fallback@),
{
    match extract_xml_tag(xml, "detail") {
        Some(d) => string_of(d.as_slice()),
        None => fallback.to_string(),
    }
}

fn tag_text(xml: &[char], tag: &str) -> (r: Vec<char>)
    ensures r@ == tag_or_empty(xml@, tag@),
{
    match extract_xml_tag(xml, tag) {
        Some(t) => t,
        None => Vec::new(),
    }
}

fn blocks_of(xml: &[char]) -> (r: Vec<Vec<char>>)
    ensures crate::text::views_of(r@) == record_blocks(xml@),
{
    let open = chars_of("<resource_record>");
    let close = chars_of("</resource_record>");
    proof { reveal_strlit("<resource_record>"); reveal_strlit("</resource_record>"); }
    let items = split_by(xml, open.as_slice());
    let ghost its = split_text(xml@, "<resource_record>"@);
    let mut out: Vec<Vec<char>> = Vec::new();
    let mut i: usize = 1;
    proof { lemma_split_text_nonempty(xml@, "<resource_record>"@); }
    assert(its.drop_first().take(0).map_values(|item: Seq<char>| split_text(item, "</resource_record>"@)[0])
        =~= Seq::<Seq<char>>::empty());
    while i < items.len()
        invariant
            1 <= i <= items@.len(),
            crate::text::views_of(items@) == its,
            close@ == "</resource_record>"@,
            close@.len() > 0,
            crate::text::views_of(out@) == its.drop_first().take(i - 1)
                .map_values(|item: Seq<char>| split_text(item, "</resource_record>"@)[0]),
        decreases items@.len() - i,
    {
        let pieces = split_by(items[i].as_slice(), close.as_slice());
        proof { lemma_split_text_nonempty(items@[i as int]@, close@); }
        let first = sub_chars(pieces[0].as_slice(), 0, pieces[0].len());
        assert(first@ =~= pieces@[0]@);
        let ghost before = crate::text::views_of(out@);
        out.push(first);
        proof {
            let f = |item: Seq<char>| split_text(item, "</resource_record>"@)[0];
            assert(its.drop_first()[i - 1] == its[i as int]);
            assert(its.drop_first().take(i as int).map_values(f) =~= its.drop_first().take(i - 1).map_values(f).push(f(its[i as int])));
            assert(crate::text::views_of(out@) =~= before.push(first@));
        }
        i = i + 1;
    }
    assert(its.drop_first().take(items@.len() - 1) =~= its.drop_first());
    out
}

proof fn lemma_split_text_nonempty(s: Seq<char>, p: Seq<char>)
    ensures split_text(s, p).len() >= 1,
    decreases s.len(),
{
    if p.len() > 0 {
        match find_from(s, p, 0) {
            Some(i) => if 0 <= i && i + p.len() <= s.len() {
                lemma_split_text_nonempty(s.subrange(i + p.len(), s.len() as int), p);
            },
            None => {},
        }
    }
}

proof fn lemma_block_index_prefix(blocks: Seq<Seq<char>>, full: Seq<char>, t: DnsRecordType, i: int)
    requires
        0 <= i < blocks.len(),
        block_index(blocks.take(i), full, t) is None,
        block_matches(blocks[i], full, t),
    ensures block_index(blocks, full, t) == Some(i),
    decreases blocks.len() - i,
{
    if i == blocks.len() - 1 {
        assert(blocks.drop_last() =~= blocks.take(i));
    } else {
        assert(blocks.drop_last().take(i) =~= blocks.take(i));
        lemma_block_index_prefix(blocks.drop_last(), full, t, i);
    }
}

fn push_pair(pairs: &mut Vec<(String, String)>, key: &str, value: String)
    ensures pair_views(final(pairs)@) == pair_views(old(pairs)@).push((key@, value@)),
{
    pairs.push((key.to_string(), value));
    assert(pair_views(final(pairs)@) =~= pair_views(old(pairs)@).push((key@, final(pairs)@.last().1@)));
}

fn host_of(domain: &ParsedDomain) -> (r: String)
    ensures r@ == namesilo_host(domain.sub_domain@),
{
    let sc = chars_of(domain.sub_domain.as_str());
    if sc.len() == 0 || (sc.len() == 1 && sc[0] == '@') {
        assert(is_root_label(domain.sub_domain@)) by {
            if sc@.len() == 1 { assert(sc@ =~= seq!['@']); }
        }
        String::new()
    } else {
        domain.sub_domain.clone()
    }
}

fn ttl_text(ttl: Option<u32>) -> (r: String)
    ensures r@ == dec_text(namesilo_ttl(ttl)),
{
    let t: u32 = match ttl { Some(v) => v, None => 3600 };
    decimal_text(if t < 3600 { 3600 } else { t as u64 })
}

} // verus!
