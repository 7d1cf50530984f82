//! Spaceship: list the domain's records; clear the host's other addresses of the type,
//! then write the address with `force`.
use vstd::prelude::*;
use crate::domain::{ParsedDomain, full_name, is_root_label};
use crate::engine::{IpAddress, ip_text};
use crate::json::{Json, JsonValue, deep, deep_seq, push_item, push_member, render};
use crate::providers::{
    DnsProviderError, HttpMethod, HttpReply, HttpRequest, SyncStep, is_api_error, query_string, with_prefix,
    with_query,
};
use crate::records::{DnsRecordType, SyncRecordResult, SyncStatus, record_type_name, unchanged_message, updated_message};
use crate::text::{chars_of, eq_exact, eq_ignore_case, lower, string_of};
use crate::urlencode::pair_views;

verus! {

broadcast use vstd::string::group_string_axioms;

/// Base of the Spaceship records API.
pub open spec fn spaceship_base() -> Seq<char> {
    "https://spaceship.dev/api/v1/dns/records"@
}

/// A record of the list.
#[derive(Debug, Clone)]
pub struct SpaceshipItem {
    pub record_type: String,
    pub address: String,
    pub name: String,
}

/// Where a Spaceship synchronisation stands.
#[derive(Debug, Clone, Copy, PartialEq, Eq, Structural)]
pub enum SpaceshipState {
    /// The old addresses were being deleted; whatever came back, the write follows.
    Delete,
    /// The address was written.
    Put,
}

/// Spaceship credentials.
pub struct SpaceshipProvider {
    pub api_key: String,
    pub api_secret: String,
}

/// The record name sent: empty for the root.
pub open spec fn spaceship_name(sub: Seq<char>) -> Seq<char> {
    if is_root_label(sub) { Seq::empty() } else { sub }
}

/// The TTL sent: the given one or 600, at least 60.
pub open spec fn spaceship_ttl(ttl: Option<u32>) -> int {
    let t: int = match ttl { Some(v) => v as int, None => 600 };
    if t < 60 { 60 } else { t }
}

/// The item is the host's record of the type; `@` also names the root.
pub open spec fn item_matches(item: SpaceshipItem, t: DnsRecordType, name: Seq<char>) -> bool {
    lower(item.record_type@) == lower(record_type_name(t))
        && (lower(item.name@) == lower(name) || (name.len() == 0 && item.name@ == seq!['@']))
}

/// The addresses of the host's records of the type, in order.
pub open spec fn existing_addresses(items: Seq<SpaceshipItem>, t: DnsRecordType, name: Seq<char>) -> Seq<Seq<char>>
    decreases items.len(),
{
    if items.len() == 0 {
        Seq::empty()
    } else {
        let prev = existing_addresses(items.drop_last(), t, name);
        if item_matches(items.last(), t, name) { prev.push(items.last().address@) } else { prev }
    }
}

/// The addresses other than `ip`, in order.
pub open spec fn other_addresses(addrs: Seq<Seq<char>>, ip: Seq<char>) -> Seq<Seq<char>>
    decreases addrs.len(),
{
    if addrs.len() == 0 {
        Seq::empty()
    } else {
        let prev = other_addresses(addrs.drop_last(), ip);
        if addrs.last() != ip { prev.push(addrs.last()) } else { prev }
    }
}

/// One record as the delete and put bodies name it.
pub open spec fn record_item(t: DnsRecordType, address: Seq<char>, name: Seq<char>) -> Json {
    Json::Object(seq![("type"@, Json::Str(record_type_name(t)))]
        .push(("address"@, Json::Str(address)))
        .push(("name"@, Json::Str(name))))
}

/// The body of the write.
pub open spec fn put_body(t: DnsRecordType, ip: Seq<char>, name: Seq<char>, ttl: Option<u32>) -> Json {
    let item = Json::Object(seq![("type"@, Json::Str(record_type_name(t)))]
        .push(("address"@, Json::Str(ip)))
        .push(("name"@, Json::Str(name)))
        .push(("ttl"@, Json::Int(spaceship_ttl(ttl)))));
    Json::Object(seq![("force"@, Json::Bool(true))].push(("items"@, Json::Array(seq![item]))))
}

impl SpaceshipProvider {
    /// A provider with the given key and secret.
    pub fn new(api_key: String, api_secret: String) -> (r: Self)
        ensures r.api_key == api_key, r.api_secret == api_secret,
    {
        SpaceshipProvider { api_key, api_secret }
    }

    /// `req` is a request of the provider with these method, URL and body.
    pub open spec fn is_request(&self, req: HttpRequest, method: HttpMethod, url: Seq<char>, body: Option<Json>) -> bool {
        &&& req.method == method
        &&& req.url@ == url
        &&& req.headers@.len() == 3
        &&& req.headers@[0].0@ == "x-api-key"@ && req.headers@[0].1@ == self.api_key@
        &&& req.headers@[1].0@ == "x-api-secret"@ && req.headers@[1].1@ == self.api_secret@
        &&& req.headers@[2].0@ == "Content-Type"@ && req.headers@[2].1@ == "application/json"@
        &&& match body {
            Some(b) => req.body matches Some(x) && x@ == render(b),
            None => req.body is None,
        }
    }

    fn request(&self, method: HttpMethod, url: String, body: Option<JsonValue>) -> (r: HttpRequest)
        ensures self.is_request(r, method, url@, match body { Some(b) => Some(deep(b)), None => None }),
    {
        let mut headers: Vec<(String, String)> = Vec::new();
        headers.push(("x-api-key".to_string(), self.api_key.clone()));
        headers.push(("x-api-secret".to_string(), self.api_secret.clone()));
        headers.push(("Content-Type".to_string(), "application/json".to_string()));
        let text = match body {
            Some(b) => Some(b.to_text()),
            None => None,
        };
        HttpRequest { method, url, headers, body: text }
    }

    /// The request for the domain's records, 500 at most.
    pub fn list_request(&self, domain: &ParsedDomain) -> (r: HttpRequest)
        ensures
            self.is_request(r, HttpMethod::Get, spaceship_base() + "/"@ + domain.root_domain@ + "?"@
                + query_string(seq![("take"@, "500"@)].push(("skip"@, "0"@))), None),
    {
        let mut pairs: Vec<(String, String)> = Vec::new();
        pairs.push(("take".to_string(), "500".to_string()));
        pairs.push(("skip".to_string(), "0".to_string()));
        assert(pair_views(pairs@) =~= seq![("take"@, "500"@)].push(("skip"@, "0"@)));
        let prefix = with_prefix(domain_url(domain).as_str(), "?");
        let url = with_query(prefix.as_str(), &pairs);
        self.request(HttpMethod::Get, url, None)
    }

    /// The decision on the record list: an error, the host's single record already
    /// holding the address, or the write, preceded by the deletion of the other addresses
    /// where there are any. `detail` is the `detail` of an error reply, where it has one.
    pub fn on_list(
        &self,
        domain: &ParsedDomain,
        record_type: DnsRecordType,
        ip: &IpAddress,
        ttl: Option<u32>,
        reply: &HttpReply,
        detail: Option<String>,
        parsed: Result<Vec<SpaceshipItem>, String>,
    ) -> (r: SyncStep<SpaceshipState>)
        ensures
            !reply.success ==> (r matches SyncStep::Done(res) && is_api_error(res, reply.status@,
                "Spaceship 记录查询失败: "@ + match detail { Some(d) => d@, None => reply.body@ })),
            reply.success ==> match parsed {
                Err(e) => r == SyncStep::<SpaceshipState>::Done(Err(DnsProviderError::Json(e))),
                Ok(items) => {
                    let name = spaceship_name(domain.sub_domain@);
                    let url = spaceship_base() + "/"@ + domain.root_domain@;
                    let existing = existing_addresses(items@, record_type, name);
                    let old = other_addresses(existing, ip_text(*ip));
                    if existing.len() == 1 && existing[0] == ip_text(*ip) {
                        r matches SyncStep::Done(Ok(res)) && res.is(full_name(domain.sub_domain@, domain.root_domain@),
                            record_type, ip_text(*ip), SyncStatus::Unchanged, unchanged_message())
                    } else if old.len() > 0 {
                        r matches SyncStep::Send(req, SpaceshipState::Delete) && self.is_request(req, HttpMethod::Delete, url,
                            Some(Json::Array(old.map_values(|a: Seq<char>| record_item(record_type, a, name)))))
                    } else {
                        r matches SyncStep::Send(req, SpaceshipState::Put) && self.is_request(req, HttpMethod::Put, url,
                            Some(put_body(record_type, ip_text(*ip), name, ttl)))
                    }
                },
            },
    {
        if !reply.success {
            let d = match detail {
                Some(d) => d,
                None => reply.body.clone(),
            };
            return SyncStep::Done(Err(DnsProviderError::ApiError {
                code: reply.status.clone(),
                message: with_prefix("Spaceship 记录查询失败: ", d.as_str()),
            }));
        }
        let items = match parsed {
            Err(e) => { return SyncStep::Done(Err(DnsProviderError::Json(e))); },
            Ok(v) => v,
        };
        let name = name_of(domain);
        let target = ip.to_text();
        let existing = matching_addresses(&items, record_type, name.as_str());
        if existing.len() == 1 && eq_exact(existing[0].as_str(), target.as_str()) {
            let full = domain.full_domain();
            return SyncStep::Done(Ok(SyncRecordResult::unchanged(full.as_str(), record_type, target.as_str())));
        }
        let mut old: Vec<JsonValue> = Vec::new();
        let mut i: usize = 0;
        let ghost ex = existing@.map_values(|a: String| a@);
        assert(ex.take(0) =~= Seq::<Seq<char>>::empty());
        while i < existing.len()
            invariant
                i <= existing@.len(),
                ex == existing@.map_values(|a: String| a@),
                target@ == ip_text(*ip),
                deep_seq(old@) == other_addresses(ex.take(i as int), target@)
                    .map_values(|a: Seq<char>| record_item(record_type, a, name@)),
            decreases existing@.len() - i,
        {
            assert(ex.take(i + 1).drop_last() =~= ex.take(i as int));
            assert(ex.take(i + 1).last() == existing@[i as int]@);
            if !eq_exact(existing[i].as_str(), target.as_str()) {
                let ghost before = other_addresses(ex.take(i as int), target@);
                push_item(&mut old, item_value(record_type, existing[i].clone(), name.as_str()));
                assert(other_addresses(ex.take(i + 1), target@) == before.push(existing@[i as int]@));
                assert(before.push(existing@[i as int]@).map_values(|a: Seq<char>| record_item(record_type, a, name@))
                    =~= before.map_values(|a: Seq<char>| record_item(record_type, a, name@))
                        .push(record_item(record_type, existing@[i as int]@, name@)));
            }
            i = i + 1;
        }
        assert(ex.take(existing@.len() as int) =~= ex);
        if old.len() > 0 {
            let req = self.request(HttpMethod::Delete, domain_url(domain), Some(JsonValue::array(old)));
            proof { lemma_deep_seq_len_eq(old@); }
            SyncStep::Send(req, SpaceshipState::Delete)
        } else {
            proof { lemma_deep_seq_len_eq(old@); }
            SyncStep::Send(self.put_request(domain, record_type, target, ttl), SpaceshipState::Put)
        }
    }

    /// After the deletion, whatever its outcome: the write.
    pub fn on_deleted(&self, domain: &ParsedDomain, record_type: DnsRecordType, ip: &IpAddress, ttl: Option<u32>)
        -> (r: SyncStep<SpaceshipState>)
        ensures
            r matches SyncStep::Send(req, SpaceshipState::Put) && self.is_request(req, HttpMethod::Put,
                spaceship_base() + "/"@ + domain.root_domain@,
                Some(put_body(record_type, ip_text(*ip), spaceship_name(domain.sub_domain@), ttl))),
    {
        SyncStep::Send(self.put_request(domain, record_type, ip.to_text(), ttl), SpaceshipState::Put)
    }

    fn put_request(&self, domain: &ParsedDomain, record_type: DnsRecordType, ip: String, ttl: Option<u32>) -> (r: HttpRequest)
        ensures
            self.is_request(r, HttpMethod::Put, spaceship_base() + "/"@ + domain.root_domain@,
                Some(put_body(record_type, ip@, spaceship_name(domain.sub_domain@), ttl))),
    {
        let t: u32 = match ttl { Some(v) => v, None => 600 };
        let ttl_val: i64 = if t < 60 { 60 } else { t as i64 };
        let name = name_of(domain);
        let mut item: Vec<(String, JsonValue)> = Vec::new();
        push_member(&mut item, "type", JsonValue::text(record_type.as_str()));
        push_member(&mut item, "address", JsonValue::Str(ip));
        push_member(&mut item, "name", JsonValue::Str(name));
        push_member(&mut item, "ttl", JsonValue::Int(ttl_val));
        let mut items: Vec<JsonValue> = Vec::new();
        push_item(&mut items, JsonValue::object(item));
        let mut body: Vec<(String, JsonValue)> = Vec::new();
        push_member(&mut body, "force", JsonValue::Bool(true));
        push_member(&mut body, "items", JsonValue::array(items));
        self.request(HttpMethod::Put, domain_url(domain), Some(JsonValue::object(body)))
    }

    /// The outcome of the write.
    pub fn on_put(&self, domain: &ParsedDomain, record_type: DnsRecordType, ip: &IpAddress, reply: &HttpReply)
        -> (r: Result<SyncRecordResult, DnsProviderError>)
        ensures
            reply.success ==> (r matches Ok(res) && res.is(full_name(domain.sub_domain@, domain.root_domain@),
                record_type, ip_text(*ip), SyncStatus::Updated, updated_message())),
            !reply.success ==> is_api_error(r, reply.status@, "Spaceship 记录写入失败: "@ + reply.body@),
    {
        if reply.success {
            let full = domain.full_domain();
            let target = ip.to_text();
            Ok(SyncRecordResult::updated(full.as_str(), record_type, target.as_str()))
        } else {
            Err(DnsProviderError::ApiError {
                code: reply.status.clone(),
                message: with_prefix("Spaceship 记录写入失败: ", reply.body.as_str()),
            })
        }
    }
}

proof fn lemma_deep_seq_len_eq(s: Seq<JsonValue>)
    ensures deep_seq(s).len() == s.len(),
    decreases s.len(),
{
    if s.len() > 0 {
        lemma_deep_seq_len_eq(s.drop_last());
    }
}

fn domain_url(domain: &ParsedDomain) -> (r: String)
    ensures r@ == spaceship_base() + "/"@ + domain.root_domain@,
{
    let prefix = with_prefix("https://spaceship.dev/api/v1/dns/records", "/");
    with_prefix(prefix.as_str(), domain.root_domain.as_str())
}

fn name_of(domain: &ParsedDomain) -> (r: String)
    ensures r@ == spaceship_name(domain.sub_domain@),
{
    let sc = chars_of(domain.sub_domain.as_str());
    if sc.len() == 0 || (sc.len() == 1 && sc[0] == '@') {
        assert(is_root_label(domain.sub_domain@)) by {
            if sc@.len() == 1 { assert(sc@ =~= seq!['@']); }
        }
        String::new()
    } else {
        domain.sub_domain.clone()
    }
}

fn item_value(t: DnsRecordType, address: String, name: &str) -> (j: JsonValue)
    ensures deep(j) == record_item(t, address@, name@),
{
    let mut m: Vec<(String, JsonValue)> = Vec::new();
    push_member(&mut m, "type", JsonValue::text(t.as_str()));
    push_member(&mut m, "address", JsonValue::Str(address));
    push_member(&mut m, "name", JsonValue::text(name));
    JsonValue::object(m)
}

fn matching_addresses(items: &Vec<SpaceshipItem>, t: DnsRecordType, name: &str) -> (r: Vec<String>)
    ensures r@.map_values(|a: String| a@) == existing_addresses(items@, t, name@),
{
    let mut out: Vec<String> = Vec::new();
    let mut i: usize = 0;
    let nc = chars_of(name);
    assert(items@.take(0) =~= Seq::<SpaceshipItem>::empty());
    while i < items.len()
        invariant
            i <= items@.len(),
            nc@ == name@,
            out@.map_values(|a: String| a@) == existing_addresses(items@.take(i as int), t, name@),
        decreases items@.len() - i,
    {
        assert(items@.take(i + 1).drop_last() =~= items@.take(i as int));
        let it = &items[i];
        let root_alias = nc.len() == 0 && eq_exact(it.name.as_str(), "@");
        proof {
            reveal_strlit("@");
            assert("@"@ =~= seq!['@']);
            assert(root_alias == (name@.len() == 0 && it.name@ == seq!['@']));
            assert(items@.take(i + 1).last() == *it);
        }
        if eq_ignore_case(it.record_type.as_str(), t.as_str()) && (eq_ignore_case(it.name.as_str(), name) || root_alias) {
            let ghost before = out@;
            out.push(it.address.clone());
            assert(out@.map_values(|a: String| a@) =~= before.map_values(|a: String| a@).push(it.address@));
        }
        i = i + 1;
    }
    assert(items@.take(items@.len() as int) =~= items@);
    out
}

} // verus!
