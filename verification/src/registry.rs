//! The provider a task's configuration names, built from its settings.
use vstd::prelude::*;
use crate::alidns::{AliDnsProvider, alidns_default_endpoint};
use crate::aliesa::{AliEsaProvider, aliesa_default_endpoint};
use crate::baidu::BaiduCloudProvider;
use crate::cloudflare::{CloudflareProvider, cf_identity, filled, header_value_ok};
use crate::cloudns::ClouDnsProvider;
use crate::config::ProviderConfig;
use crate::dnsla::DnsLaProvider;
use crate::dnspod::TencentCloudProvider;
use crate::dynadot::{DynadotProvider, NamecheapProvider};
use crate::dynv6::Dynv6Provider;
use crate::gcore::GcoreProvider;
use crate::godaddy::GoDaddyProvider;
use crate::hipm::{HipmDnsMgrProvider, hipm_base};
use crate::huawei::{HuaweiDnsProvider, hw_endpoint};
use crate::namecom::NameComProvider;
use crate::namesilo::NameSiloProvider;
use crate::nowcn::NowcnProvider;
use crate::nsone::NsOneProvider;
use crate::porkbun::PorkbunProvider;
use crate::providers::{CallbackProvider, DnsProviderError};
use crate::rainyun::RainYunProvider;
use crate::spaceship::SpaceshipProvider;
use crate::tencent_eo::TencentEoProvider;
use crate::text::{is_blank, trim};
use crate::text_map::TextMap;
use crate::traffic_route::TrafficRouteProvider;
use crate::vercel::VercelProvider;

verus! {

broadcast use vstd::string::group_string_axioms;

/// A provider ready to synchronise records, one variant per supported service.
pub enum Provider {
    Cloudflare(CloudflareProvider),
    AliDns(AliDnsProvider),
    DnsPod(TencentCloudProvider),
    Huawei(HuaweiDnsProvider),
    Porkbun(PorkbunProvider),
    GoDaddy(GoDaddyProvider),
    Dynv6(Dynv6Provider),
    Baidu(BaiduCloudProvider),
    TrafficRoute(TrafficRouteProvider),
    Namecheap(NamecheapProvider),
    NameSilo(NameSiloProvider),
    Spaceship(SpaceshipProvider),
    Dynadot(DynadotProvider),
    Vercel(VercelProvider),
    RainYun(RainYunProvider),
    ClouDns(ClouDnsProvider),
    Gcore(GcoreProvider),
    NameCom(NameComProvider),
    DnsLa(DnsLaProvider),
    AliEsa(AliEsaProvider),
    EdgeOne(TencentEoProvider),
    Nowcn(NowcnProvider),
    NsOne(NsOneProvider),
    Hipm(HipmDnsMgrProvider),
    Callback(CallbackProvider),
}

/// An optional text that is present and not blank.
pub open spec fn given(o: Option<String>) -> bool {
    o matches Some(t) && !is_blank(t@)
}

/// An optional callback header map copied entry for entry.
pub open spec fn same_headers(a: Option<TextMap<String>>, b: Option<TextMap<String>>) -> bool {
    match (a, b) {
        (Some(x), Some(y)) => x.same_entries(y),
        (None, None) => true,
        _ => false,
    }
}

/// `r` is a refusal for missing credentials with message `m`.
pub open spec fn missing(r: Result<Provider, DnsProviderError>, m: Seq<char>) -> bool {
    r matches Err(DnsProviderError::MissingCredentials(x)) && x@ == m
}

/// The NowCN-family provider for `endpoint` and `name`, as its constructor makes it.
pub open spec fn nowcn_made(r: Result<Provider, DnsProviderError>, id: String, key: String, endpoint: Seq<char>,
    name: Seq<char>) -> bool {
    if is_blank(id@) || is_blank(key@) {
        missing(r, name + " 需要配置 AccessInstanceID 与 SecretKey"@)
    } else {
        r matches Ok(Provider::Nowcn(p)) && p.access_instance_id@ == id@ && p.secret_key@ == key@
            && p.endpoint@ == endpoint && p.provider_name@ == name
    }
}

/// The provider that `create_dns_provider` gives for a configuration: each service's
/// constructor applied to its settings, with its refusals.
pub open spec fn provider_for(c: ProviderConfig, r: Result<Provider, DnsProviderError>) -> bool {
    match c {
        ProviderConfig::Cloudflare { api_token, api_key, email } =>
            if !filled(api_token) && !filled(api_key) {
                missing(r, "Cloudflare 需要配置 API Token 或 API Key + 邮箱"@)
            } else {
                r matches Ok(Provider::Cloudflare(p)) && p.api_token == api_token && p.api_key == api_key
                    && p.email == email && p.auth_identity@ == cf_identity(api_token, api_key, email)
            },
        ProviderConfig::AliDns { access_key_id, access_key_secret, endpoint } =>
            if is_blank(access_key_id@) || is_blank(access_key_secret@) {
                missing(r, "阿里云 AliDNS 需要配置 AccessKeyId 与 AccessKeySecret"@)
            } else {
                r matches Ok(Provider::AliDns(p)) && p.access_key_id == access_key_id
                    && p.access_key_secret == access_key_secret
                    && p.endpoint@ == (if given(endpoint) { endpoint->0@ } else { alidns_default_endpoint() })
            },
        ProviderConfig::TencentCloud { secret_id, secret_key } =>
            if is_blank(secret_id@) || is_blank(secret_key@) {
                missing(r, "腾讯云 DNSPod 需要配置 SecretId 与 SecretKey"@)
            } else {
                r matches Ok(Provider::DnsPod(p)) && p.secret_id == secret_id && p.secret_key == secret_key
            },
        ProviderConfig::HuaweiCloud { access_key_id, secret_access_key, region: _, endpoint } =>
            r matches Ok(Provider::Huawei(p)) && p.ak == access_key_id && p.sk == secret_access_key
                && p.endpoint@ == hw_endpoint(endpoint),
        ProviderConfig::Porkbun { api_key, secret_key } =>
            r matches Ok(Provider::Porkbun(p)) && p.api_key == api_key && p.secret_key == secret_key,
        ProviderConfig::GoDaddy { api_key, api_secret } =>
            r matches Ok(Provider::GoDaddy(p)) && p.api_key == api_key && p.api_secret == api_secret,
        ProviderConfig::Dynv6 { token } => r matches Ok(Provider::Dynv6(p)) && p.token == token,
        ProviderConfig::BaiduCloud { access_key_id, secret_access_key } =>
            r matches Ok(Provider::Baidu(p)) && p.ak == access_key_id && p.sk == secret_access_key,
        ProviderConfig::TrafficRoute { access_key_id, secret_access_key } =>
            r matches Ok(Provider::TrafficRoute(p)) && p.ak == access_key_id && p.sk == secret_access_key,
        ProviderConfig::Namecheap { password } => r matches Ok(Provider::Namecheap(p)) && p.password == password,
        ProviderConfig::NameSilo { api_key } => r matches Ok(Provider::NameSilo(p)) && p.api_key == api_key,
        ProviderConfig::Spaceship { api_key, api_secret } =>
            r matches Ok(Provider::Spaceship(p)) && p.api_key == api_key && p.api_secret == api_secret,
        ProviderConfig::Dynadot { password } => r matches Ok(Provider::Dynadot(p)) && p.password == password,
        ProviderConfig::Vercel { token, team_id } =>
            r matches Ok(Provider::Vercel(p)) && p.token == token
                && p.team_id == (if given(team_id) { team_id } else { None }),
        ProviderConfig::RainYun { api_key, domain_id } =>
            r matches Ok(Provider::RainYun(p)) && p.wf() && p.api_key == api_key
                && p.domain_id == (if given(domain_id) { domain_id } else { None })
                && p.domain_cache@ == Map::<Seq<char>, String>::empty(),
        ProviderConfig::ClouDNS { auth_id, auth_password } =>
            r matches Ok(Provider::ClouDns(p)) && p.auth_id == auth_id && p.auth_password == auth_password,
        ProviderConfig::Gcore { api_key } => r matches Ok(Provider::Gcore(p)) && p.api_key == api_key,
        ProviderConfig::NameCom { username, api_token } =>
            if username@.len() + api_token@.len() >= usize::MAX / 16 {
                missing(r, "Name.com 凭据过长"@)
            } else {
                r matches Ok(Provider::NameCom(p)) && p.username == username && p.api_token == api_token
            },
        ProviderConfig::DnsLa { api_id, api_secret } =>
            if api_id@.len() + api_secret@.len() >= usize::MAX / 16 {
                missing(r, "DNS.LA 凭据过长"@)
            } else {
                r matches Ok(Provider::DnsLa(p)) && p.api_id == api_id && p.api_secret == api_secret
            },
        ProviderConfig::AliEsa { access_key_id, access_key_secret, endpoint } =>
            if is_blank(access_key_id@) || is_blank(access_key_secret@) {
                missing(r, "阿里云 ESA 需要配置 AccessKeyId 与 AccessKeySecret"@)
            } else {
                r matches Ok(Provider::AliEsa(p)) && p.access_key_id == access_key_id
                    && p.access_key_secret == access_key_secret
                    && p.endpoint@ == (if given(endpoint) { endpoint->0@ } else { aliesa_default_endpoint() })
            },
        ProviderConfig::EdgeOne { secret_id, secret_key } =>
            if is_blank(secret_id@) || is_blank(secret_key@) {
                missing(r, "腾讯云 EdgeOne 需要配置 SecretId 与 SecretKey"@)
            } else {
                r matches Ok(Provider::EdgeOne(p)) && p.secret_id == secret_id && p.secret_key == secret_key
            },
        ProviderConfig::NowCn { id, secret } => nowcn_made(r, id, secret, "https://api.now.cn"@, "时代互联 (NowCN)"@),
        ProviderConfig::Eranet { id, secret } =>
            nowcn_made(r, id, secret, "https://www.eranet.com"@, "时代互联国际版 (Eranet)"@),
        ProviderConfig::TNetHk { id, secret } => nowcn_made(r, id, secret, "https://www.tnet.hk"@, "TNetHK"@),
        ProviderConfig::NsOne { api_key } =>
            if is_blank(api_key@) {
                missing(r, "IBM NS1 Connect 需要配置 API Key (Secret)"@)
            } else if !header_value_ok(trim(api_key@)) {
                missing(r, "无效的 NS1 API Key: failed to parse header value"@)
            } else {
                r matches Ok(Provider::NsOne(p)) && p.api_key@ == trim(api_key@)
            },
        ProviderConfig::HipmDnsMgr { endpoint, api_token } =>
            if is_blank(api_token@) {
                missing(r, "HiPM DNSMgr 需要配置 API Token (Secret)"@)
            } else if !header_value_ok("Bearer "@ + trim(api_token@)) {
                missing(r, "无效的 API Token: failed to parse header value"@)
            } else {
                r matches Ok(Provider::Hipm(p)) && p.endpoint@ == hipm_base(endpoint) && p.api_token@ == trim(api_token@)
            },
        ProviderConfig::Callback { url, method, headers, body } =>
            r matches Ok(Provider::Callback(p)) && p.url == url && p.method == method && p.body == body
                && same_headers(p.headers, headers),
    }
}

fn copy_opt(o: &Option<String>) -> (r: Option<String>)
    ensures r == *o,
{
    match o {
        Some(s) => Some(s.clone()),
        None => None,
    }
}

fn copy_headers(o: &Option<TextMap<String>>) -> (r: Option<TextMap<String>>)
    ensures same_headers(r, *o),
{
    match o {
        Some(m) => Some(m.copy()),
        None => None,
    }
}

/// The provider a configuration names (see `provider_for`).
pub fn create_dns_provider(config: &ProviderConfig) -> (r: Result<Provider, DnsProviderError>)
    ensures provider_for(*config, r),
{
    match config {
        ProviderConfig::Cloudflare { api_token, api_key, email } =>
            match CloudflareProvider::new(copy_opt(api_token), copy_opt(api_key), copy_opt(email)) {
                Ok(p) => Ok(Provider::Cloudflare(p)),
                Err(e) => Err(e),
            },
        ProviderConfig::AliDns { access_key_id, access_key_secret, endpoint } =>
            match AliDnsProvider::new(access_key_id.clone(), access_key_secret.clone(), copy_opt(endpoint)) {
                Ok(p) => Ok(Provider::AliDns(p)),
                Err(e) => Err(e),
            },
        ProviderConfig::TencentCloud { secret_id, secret_key } =>
            match TencentCloudProvider::new(secret_id.clone(), secret_key.clone()) {
                Ok(p) => Ok(Provider::DnsPod(p)),
                Err(e) => Err(e),
            },
        ProviderConfig::HuaweiCloud { access_key_id, secret_access_key, region: _, endpoint } =>
            Ok(Provider::Huawei(HuaweiDnsProvider::new(access_key_id.clone(), secret_access_key.clone(), copy_opt(endpoint)))),
        ProviderConfig::Porkbun { api_key, secret_key } =>
            Ok(Provider::Porkbun(PorkbunProvider::new(api_key.clone(), secret_key.clone()))),
        ProviderConfig::GoDaddy { api_key, api_secret } =>
            Ok(Provider::GoDaddy(GoDaddyProvider::new(api_key.clone(), api_secret.clone()))),
        ProviderConfig::Dynv6 { token } => Ok(Provider::Dynv6(Dynv6Provider::new(token.clone()))),
        ProviderConfig::BaiduCloud { access_key_id, secret_access_key } =>
            Ok(Provider::Baidu(BaiduCloudProvider::new(access_key_id.clone(), secret_access_key.clone()))),
        ProviderConfig::TrafficRoute { access_key_id, secret_access_key } =>
            Ok(Provider::TrafficRoute(TrafficRouteProvider::new(access_key_id.clone(), secret_access_key.clone()))),
        ProviderConfig::Namecheap { password } => Ok(Provider::Namecheap(NamecheapProvider::new(password.clone()))),
        ProviderConfig::NameSilo { api_key } => Ok(Provider::NameSilo(NameSiloProvider::new(api_key.clone()))),
        ProviderConfig::Spaceship { api_key, api_secret } =>
            Ok(Provider::Spaceship(SpaceshipProvider::new(api_key.clone(), api_secret.clone()))),
        ProviderConfig::Dynadot { password } => Ok(Provider::Dynadot(DynadotProvider::new(password.clone()))),
        ProviderConfig::Vercel { token, team_id } =>
            Ok(Provider::Vercel(VercelProvider::new(token.clone(), copy_opt(team_id)))),
        ProviderConfig::RainYun { api_key, domain_id } =>
            Ok(Provider::RainYun(RainYunProvider::new(api_key.clone(), copy_opt(domain_id)))),
        ProviderConfig::ClouDNS { auth_id, auth_password } =>
            Ok(Provider::ClouDns(ClouDnsProvider::new(auth_id.clone(), auth_password.clone()))),
        ProviderConfig::Gcore { api_key } => Ok(Provider::Gcore(GcoreProvider::new(api_key.clone()))),
        ProviderConfig::NameCom { username, api_token } => {
            let n = crate::text::chars_of(username.as_str()).len();
            let m = crate::text::chars_of(api_token.as_str()).len();
            if n >= usize::MAX / 16 || m >= usize::MAX / 16 - n {
                return Err(DnsProviderError::MissingCredentials("Name.com 凭据过长".to_string()));
            }
            Ok(Provider::NameCom(NameComProvider::new(username.clone(), api_token.clone())))
        },
        ProviderConfig::DnsLa { api_id, api_secret } => {
            let n = crate::text::chars_of(api_id.as_str()).len();
            let m = crate::text::chars_of(api_secret.as_str()).len();
            if n >= usize::MAX / 16 || m >= usize::MAX / 16 - n {
                return Err(DnsProviderError::MissingCredentials("DNS.LA 凭据过长".to_string()));
            }
            Ok(Provider::DnsLa(DnsLaProvider::new(api_id.clone(), api_secret.clone())))
        },
        ProviderConfig::AliEsa { access_key_id, access_key_secret, endpoint } =>
            match AliEsaProvider::new(access_key_id.clone(), access_key_secret.clone(), copy_opt(endpoint)) {
                Ok(p) => Ok(Provider::AliEsa(p)),
                Err(e) => Err(e),
            },
        ProviderConfig::EdgeOne { secret_id, secret_key } =>
            match TencentEoProvider::new(secret_id.clone(), secret_key.clone()) {
                Ok(p) => Ok(Provider::EdgeOne(p)),
                Err(e) => Err(e),
            },
        ProviderConfig::NowCn { id, secret } =>
            match NowcnProvider::new_nowcn(id.clone(), secret.clone()) {
                Ok(p) => Ok(Provider::Nowcn(p)),
                Err(e) => Err(e),
            },
        ProviderConfig::Eranet { id, secret } =>
            match NowcnProvider::new_eranet(id.clone(), secret.clone()) {
                Ok(p) => Ok(Provider::Nowcn(p)),
                Err(e) => Err(e),
            },
        ProviderConfig::TNetHk { id, secret } =>
            match NowcnProvider::new_tnethk(id.clone(), secret.clone()) {
                Ok(p) => Ok(Provider::Nowcn(p)),
                Err(e) => Err(e),
            },
        ProviderConfig::NsOne { api_key } =>
            match NsOneProvider::new(api_key.clone()) {
                Ok(p) => Ok(Provider::NsOne(p)),
                Err(e) => Err(e),
            },
        ProviderConfig::HipmDnsMgr { endpoint, api_token } =>
            match HipmDnsMgrProvider::new(copy_opt(endpoint), api_token.clone()) {
                Ok(p) => Ok(Provider::Hipm(p)),
                Err(e) => Err(e),
            },
        ProviderConfig::Callback { url, method, headers, body } =>
            match CallbackProvider::new(url.clone(), method.clone(), copy_headers(headers), copy_opt(body)) {
                Ok(p) => Ok(Provider::Callback(p)),
                Err(e) => Err(e),
            },
    }
}

} // verus!
