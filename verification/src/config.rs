//! The application's configuration model.
use vstd::prelude::*;
use crate::text::{blank, is_blank};
use crate::text_map::TextMap;

verus! {

/// Global application configuration.
#[derive(Debug, Clone, PartialEq)]
pub struct AppConfig {
    /// Web server port (default 9876).
    pub listen_port: u16,
    /// Seconds between synchronisation checks (default 300).
    pub interval_secs: u64,
    /// Every this many checks the provider's records are compared anyway (default 10).
    pub cache_times: u32,
    /// Whether the web console refuses access from outside the LAN (default true).
    pub not_allow_wan_access: bool,
    /// Administrator credentials.
    pub auth: Option<UserAuthConfig>,
    /// The synchronisation tasks.
    pub dns_tasks: Vec<DnsTaskConfig>,
    /// Custom recursive DNS server (e.g. "223.5.5.5").
    pub dns_server: Option<String>,
    /// Notification channels.
    pub notifications: NotificationConfig,
}

/// Default web server port.
pub fn default_listen_port() -> (r: u16)
    ensures r == 9876,
{
    9876
}

/// Default interval between checks, in seconds.
pub fn default_interval_secs() -> (r: u64)
    ensures r == 300,
{
    300
}

/// Default number of checks between forced comparisons with the provider.
pub fn default_cache_times() -> (r: u32)
    ensures r == 10,
{
    10
}

/// By default the web console is LAN-only.
pub fn default_not_allow_wan_access() -> (r: bool)
    ensures r,
{
    true
}

impl Default for AppConfig {
    fn default() -> (r: Self)
        ensures
            r.listen_port == 9876,
            r.interval_secs == 300,
            r.cache_times == 10,
            r.not_allow_wan_access,
            r.auth is None,
            r.dns_server is None,
            r.dns_tasks@.len() == 1,
            r.dns_tasks@[0].is_default(),
            r.notifications.is_default(),
    {
        let mut dns_tasks: Vec<DnsTaskConfig> = Vec::new();
        dns_tasks.push(DnsTaskConfig::default());
        AppConfig {
            listen_port: default_listen_port(),
            interval_secs: default_interval_secs(),
            cache_times: default_cache_times(),
            not_allow_wan_access: default_not_allow_wan_access(),
            auth: None,
            dns_server: None,
            dns_tasks,
            notifications: NotificationConfig::default(),
        }
    }
}

/// Administrator credentials.
#[derive(Debug, Clone, PartialEq)]
pub struct UserAuthConfig {
    pub username: String,
    /// bcrypt hash of the password.
    pub password_hash: String,
}

/// One DNS synchronisation task.
#[derive(Debug, Clone, PartialEq)]
pub struct DnsTaskConfig {
    /// Task name (default "默认任务").
    pub name: String,
    /// Whether the task runs (default true).
    pub enabled: bool,
    /// DNS provider and credentials.
    pub provider: ProviderConfig,
    /// How the IPv4 address is obtained, and its domains.
    pub ipv4: IpFetchConfig,
    /// How the IPv6 address is obtained, and its domains.
    pub ipv6: IpFetchConfig,
    /// Record TTL; `None` or 0 leaves the provider's default.
    pub ttl: Option<u32>,
    /// Outbound interface for HTTP requests.
    pub http_interface: Option<String>,
}

impl DnsTaskConfig {
    /// Some enabled protocol has domains.
    pub open spec fn spec_has_domains(&self) -> bool {
        (self.ipv4.enabled && self.ipv4.domains@.len() > 0) || (self.ipv6.enabled && self.ipv6.domains@.len() > 0)
    }

    /// Whether the task has domains to resolve.
    pub fn has_domains(&self) -> (r: bool)
        ensures r == self.spec_has_domains(),
    {
        (self.ipv4.enabled && self.ipv4.domains.len() != 0) || (self.ipv6.enabled && self.ipv6.domains.len() != 0)
    }

    /// The values of `DnsTaskConfig::default()`.
    pub open spec fn is_default(&self) -> bool {
        &&& self.name@ == "默认任务"@
        &&& self.enabled
        &&& self.provider == ProviderConfig::Cloudflare { api_token: None, api_key: None, email: None }
        &&& self.ipv4.enabled && self.ipv4.source_type == IpSourceType::Url
        &&& self.ipv4.url_endpoints@.map_values(|s: String| s@) == seq![
            "https://api.ipify.org"@, "https://myip.ipip.net/ip"@, "https://ddns.oray.com/checkip"@]
        &&& self.ipv4.net_interface is None && self.ipv4.cmd is None && self.ipv4.regex is None
        &&& self.ipv4.stun_server is None && self.ipv4.domains@.len() == 0
        &&& !self.ipv6.enabled && self.ipv6.source_type == IpSourceType::Url
        &&& self.ipv6.url_endpoints@.map_values(|s: String| s@) == seq![
            "https://api64.ipify.org"@, "https://speed.neu6.edu.cn/getIP.php"@]
        &&& self.ipv6.net_interface is None && self.ipv6.cmd is None && self.ipv6.regex is None
        &&& self.ipv6.stun_server is None && self.ipv6.domains@.len() == 0
        &&& self.ttl is None && self.http_interface is None
    }
}

/// Default task name.
pub fn default_task_name() -> (r: String)
    ensures r@ == "默认任务"@,
{
    "默认任务".to_owned()
}

/// Tasks are enabled by default.
pub fn default_task_enabled() -> (r: bool)
    ensures r,
{
    true
}

fn url_list(a: &str, b: &str) -> (r: Vec<String>)
    ensures r@.map_values(|s: String| s@) == seq![a@, b@],
{
    let mut r: Vec<String> = Vec::new();
    r.push(a.to_owned());
    r.push(b.to_owned());
    assert(r@.map_values(|s: String| s@) =~= seq![a@, b@]);
    r
}

impl Default for DnsTaskConfig {
    fn default() -> (r: Self)
        ensures r.is_default(),
    {
        let mut v4_urls: Vec<String> = Vec::new();
        v4_urls.push("https://api.ipify.org".to_owned());
        v4_urls.push("https://myip.ipip.net/ip".to_owned());
        v4_urls.push("https://ddns.oray.com/checkip".to_owned());
        assert(v4_urls@.map_values(|s: String| s@) =~= seq![
            "https://api.ipify.org"@, "https://myip.ipip.net/ip"@, "https://ddns.oray.com/checkip"@]);
        let v6_urls = url_list("https://api64.ipify.org", "https://speed.neu6.edu.cn/getIP.php");
        DnsTaskConfig {
            name: default_task_name(),
            enabled: default_task_enabled(),
            provider: ProviderConfig::Cloudflare { api_token: None, api_key: None, email: None },
            ipv4: IpFetchConfig {
                enabled: true,
                source_type: IpSourceType::Url,
                url_endpoints: v4_urls,
                net_interface: None,
                cmd: None,
                regex: None,
                stun_server: None,
                domains: Vec::new(),
            },
            ipv6: IpFetchConfig {
                enabled: false,
                source_type: IpSourceType::Url,
                url_endpoints: v6_urls,
                net_interface: None,
                cmd: None,
                regex: None,
                stun_server: None,
                domains: Vec::new(),
            },
            ttl: None,
            http_interface: None,
        }
    }
}

/// Where an IP address is obtained from.
#[derive(Debug, Clone, Copy, PartialEq, Eq, Structural)]
pub enum IpSourceType {
    /// An HTTP(S) endpoint that reports the caller's address.
    Url,
    /// A local network interface.
    NetInterface,
    /// An external command or script.
    Command,
    /// STUN binding requests (RFC 5389).
    Stun,
}

/// How one protocol's address is obtained.
#[derive(Debug, Clone, PartialEq)]
pub struct IpFetchConfig {
    /// Whether this protocol is synchronised.
    pub enabled: bool,
    /// Source of the address (default `Url`).
    pub source_type: IpSourceType,
    /// Endpoints tried in order (for `Url`).
    pub url_endpoints: Vec<String>,
    /// Interface name (for `NetInterface`).
    pub net_interface: Option<String>,
    /// Command line (for `Command`).
    pub cmd: Option<String>,
    /// Regular expression, or `@n` ordinal, that selects the address.
    pub regex: Option<String>,
    /// STUN servers, separated by `,`, `;` or spaces (for `Stun`).
    pub stun_server: Option<String>,
    /// Domains bound to this address ("sub:example.com", "*.example.com", ...).
    pub domains: Vec<String>,
}

/// Default address source.
pub fn default_source_type() -> (r: IpSourceType)
    ensures r == IpSourceType::Url,
{
    IpSourceType::Url
}

impl Default for IpFetchConfig {
    fn default() -> (r: Self)
        ensures
            !r.enabled,
            r.source_type == IpSourceType::Url,
            r.url_endpoints@.len() == 0,
            r.net_interface is None && r.cmd is None && r.regex is None && r.stun_server is None,
            r.domains@.len() == 0,
    {
        IpFetchConfig {
            enabled: false,
            source_type: default_source_type(),
            url_endpoints: Vec::new(),
            net_interface: None,
            cmd: None,
            regex: None,
            stun_server: None,
            domains: Vec::new(),
        }
    }
}

/// DNS provider and its credentials.
#[derive(Debug, Clone, PartialEq)]
pub enum ProviderConfig {
    Cloudflare { api_token: Option<String>, api_key: Option<String>, email: Option<String> },
    AliDns { access_key_id: String, access_key_secret: String, endpoint: Option<String> },
    TencentCloud { secret_id: String, secret_key: String },
    HuaweiCloud { access_key_id: String, secret_access_key: String, region: Option<String>, endpoint: Option<String> },
    Porkbun { api_key: String, secret_key: String },
    GoDaddy { api_key: String, api_secret: String },
    Dynv6 { token: String },
    BaiduCloud { access_key_id: String, secret_access_key: String },
    TrafficRoute { access_key_id: String, secret_access_key: String },
    Namecheap { password: String },
    NameSilo { api_key: String },
    Spaceship { api_key: String, api_secret: String },
    Dynadot { password: String },
    Vercel { token: String, team_id: Option<String> },
    RainYun { api_key: String, domain_id: Option<String> },
    ClouDNS { auth_id: String, auth_password: String },
    Gcore { api_key: String },
    NameCom { username: String, api_token: String },
    DnsLa { api_id: String, api_secret: String },
    AliEsa { access_key_id: String, access_key_secret: String, endpoint: Option<String> },
    EdgeOne { secret_id: String, secret_key: String },
    NowCn { id: String, secret: String },
    Eranet { id: String, secret: String },
    TNetHk { id: String, secret: String },
    NsOne { api_key: String },
    HipmDnsMgr { endpoint: Option<String>, api_token: String },
    Callback { url: String, method: String, headers: Option<TextMap<String>>, body: Option<String> },
}

/// A credential that holds more than whitespace.
pub open spec fn filled(s: String) -> bool {
    !is_blank(s@)
}

/// An optional credential that is present and holds more than whitespace.
pub open spec fn opt_filled(s: Option<String>) -> bool {
    match s {
        Some(v) => filled(v),
        None => false,
    }
}

/// Decides `filled`.
pub fn not_empty(s: &str) -> (r: bool)
    ensures r == !is_blank(s@),
{
    !blank(s)
}

/// Decides `opt_filled`.
pub fn opt_not_empty(s: &Option<String>) -> (r: bool)
    ensures r == opt_filled(*s),
{
    match s {
        Some(v) => not_empty(v.as_str()),
        None => false,
    }
}

impl ProviderConfig {
    /// The credentials that the provider needs are all present.
    pub open spec fn spec_is_configured(&self) -> bool {
        match *self {
            ProviderConfig::Cloudflare { api_token, api_key, email } =>
                opt_filled(api_token) || (opt_filled(api_key) && opt_filled(email)),
            ProviderConfig::AliDns { access_key_id, access_key_secret, .. } =>
                filled(access_key_id) && filled(access_key_secret),
            ProviderConfig::AliEsa { access_key_id, access_key_secret, .. } =>
                filled(access_key_id) && filled(access_key_secret),
            ProviderConfig::TencentCloud { secret_id, secret_key } => filled(secret_id) && filled(secret_key),
            ProviderConfig::EdgeOne { secret_id, secret_key } => filled(secret_id) && filled(secret_key),
            ProviderConfig::HuaweiCloud { access_key_id, secret_access_key, .. } =>
                filled(access_key_id) && filled(secret_access_key),
            ProviderConfig::BaiduCloud { access_key_id, secret_access_key } =>
                filled(access_key_id) && filled(secret_access_key),
            ProviderConfig::TrafficRoute { access_key_id, secret_access_key } =>
                filled(access_key_id) && filled(secret_access_key),
            ProviderConfig::Porkbun { api_key, secret_key } => filled(api_key) && filled(secret_key),
            ProviderConfig::GoDaddy { api_key, api_secret } => filled(api_key) && filled(api_secret),
            ProviderConfig::Spaceship { api_key, api_secret } => filled(api_key) && filled(api_secret),
            ProviderConfig::DnsLa { api_id, api_secret } => filled(api_id) && filled(api_secret),
            ProviderConfig::ClouDNS { auth_id, auth_password } => filled(auth_id) && filled(auth_password),
            ProviderConfig::NameCom { username, api_token } => filled(username) && filled(api_token),
            ProviderConfig::NowCn { id, secret } => filled(id) && filled(secret),
            ProviderConfig::Eranet { id, secret } => filled(id) && filled(secret),
            ProviderConfig::TNetHk { id, secret } => filled(id) && filled(secret),
            ProviderConfig::Namecheap { password } => filled(password),
            ProviderConfig::Dynadot { password } => filled(password),
            ProviderConfig::Dynv6 { token } => filled(token),
            ProviderConfig::Vercel { token, .. } => filled(token),
            ProviderConfig::NameSilo { api_key } => filled(api_key),
            ProviderConfig::RainYun { api_key, .. } => filled(api_key),
            ProviderConfig::Gcore { api_key } => filled(api_key),
            ProviderConfig::NsOne { api_key } => filled(api_key),
            ProviderConfig::HipmDnsMgr { api_token, .. } => filled(api_token),
            ProviderConfig::Callback { url, .. } => filled(url),
        }
    }

    /// Whether valid credentials are configured.
    pub fn is_configured(&self) -> (r: bool)
        ensures r == self.spec_is_configured(),
    {
        match self {
            ProviderConfig::Cloudflare { api_token, api_key, email } =>
                opt_not_empty(api_token) || (opt_not_empty(api_key) && opt_not_empty(email)),
            ProviderConfig::AliDns { access_key_id, access_key_secret, .. } =>
                not_empty(access_key_id.as_str()) && not_empty(access_key_secret.as_str()),
            ProviderConfig::AliEsa { access_key_id, access_key_secret, .. } =>
                not_empty(access_key_id.as_str()) && not_empty(access_key_secret.as_str()),
            ProviderConfig::TencentCloud { secret_id, secret_key } =>
                not_empty(secret_id.as_str()) && not_empty(secret_key.as_str()),
            ProviderConfig::EdgeOne { secret_id, secret_key } =>
                not_empty(secret_id.as_str()) && not_empty(secret_key.as_str()),
            ProviderConfig::HuaweiCloud { access_key_id, secret_access_key, .. } =>
                not_empty(access_key_id.as_str()) && not_empty(secret_access_key.as_str()),
            ProviderConfig::BaiduCloud { access_key_id, secret_access_key } =>
                not_empty(access_key_id.as_str()) && not_empty(secret_access_key.as_str()),
            ProviderConfig::TrafficRoute { access_key_id, secret_access_key } =>
                not_empty(access_key_id.as_str()) && not_empty(secret_access_key.as_str()),
            ProviderConfig::Porkbun { api_key, secret_key } =>
                not_empty(api_key.as_str()) && not_empty(secret_key.as_str()),
            ProviderConfig::GoDaddy { api_key, api_secret } =>
                not_empty(api_key.as_str()) && not_empty(api_secret.as_str()),
            ProviderConfig::Spaceship { api_key, api_secret } =>
                not_empty(api_key.as_str()) && not_empty(api_secret.as_str()),
            ProviderConfig::DnsLa { api_id, api_secret } =>
                not_empty(api_id.as_str()) && not_empty(api_secret.as_str()),
            ProviderConfig::ClouDNS { auth_id, auth_password } =>
                not_empty(auth_id.as_str()) && not_empty(auth_password.as_str()),
            ProviderConfig::NameCom { username, api_token } =>
                not_empty(username.as_str()) && not_empty(api_token.as_str()),
            ProviderConfig::NowCn { id, secret } => not_empty(id.as_str()) && not_empty(secret.as_str()),
            ProviderConfig::Eranet { id, secret } => not_empty(id.as_str()) && not_empty(secret.as_str()),
            ProviderConfig::TNetHk { id, secret } => not_empty(id.as_str()) && not_empty(secret.as_str()),
            ProviderConfig::Namecheap { password } => not_empty(password.as_str()),
            ProviderConfig::Dynadot { password } => not_empty(password.as_str()),
            ProviderConfig::Dynv6 { token } => not_empty(token.as_str()),
            ProviderConfig::Vercel { token, .. } => not_empty(token.as_str()),
            ProviderConfig::NameSilo { api_key } => not_empty(api_key.as_str()),
            ProviderConfig::RainYun { api_key, .. } => not_empty(api_key.as_str()),
            ProviderConfig::Gcore { api_key } => not_empty(api_key.as_str()),
            ProviderConfig::NsOne { api_key } => not_empty(api_key.as_str()),
            ProviderConfig::HipmDnsMgr { api_token, .. } => not_empty(api_token.as_str()),
            ProviderConfig::Callback { url, .. } => not_empty(url.as_str()),
        }
    }
}

/// Default HTTP method of callbacks and webhooks.
pub fn default_http_method() -> (r: String)
    ensures r@ == "GET"@,
{
    "GET".to_owned()
}

/// Notification settings.
#[derive(Debug, Clone, PartialEq)]
pub struct NotificationConfig {
    /// Only notify of success where a record was actually created or updated.
    pub on_ip_change_only: bool,
    /// Notify of successful synchronisations.
    pub on_success: bool,
    /// Notify of failures.
    pub on_failure: bool,
    pub wechat_official: Option<WechatOfficialConfig>,
    pub wecom: Option<WeComConfig>,
    pub telegram: Option<TelegramConfig>,
    pub dingtalk: Option<DingTalkConfig>,
    pub feishu: Option<FeishuConfig>,
    pub bark: Option<BarkConfig>,
    pub email: Option<EmailConfig>,
    pub webhook: Option<WebhookConfig>,
}

impl NotificationConfig {
    /// The values of `NotificationConfig::default()`: every flag on (notifying only of
    /// actual changes is on by default), no channel.
    pub open spec fn is_default(&self) -> bool {
        &&& self.on_ip_change_only && self.on_success && self.on_failure
        &&& self.wechat_official is None && self.wecom is None && self.telegram is None
        &&& self.dingtalk is None && self.feishu is None && self.bark is None
        &&& self.email is None && self.webhook is None
    }
}

impl Default for NotificationConfig {
    fn default() -> (r: Self)
        ensures r.is_default(),
    {
        NotificationConfig {
            on_ip_change_only: true,
            on_success: true,
            on_failure: true,
            wechat_official: None,
            wecom: None,
            telegram: None,
            dingtalk: None,
            feishu: None,
            bark: None,
            email: None,
            webhook: None,
        }
    }
}

/// Flags of a deserialised notification section default to on.
pub fn default_true() -> (r: bool)
    ensures r,
{
    true
}

/// WeChat official-account template messages.
#[derive(Debug, Clone, PartialEq)]
pub struct WechatOfficialConfig {
    pub enabled: bool,
    pub app_id: String,
    pub app_secret: String,
    pub template_id: String,
    pub to_user: String,
    pub url: Option<String>,
    pub template_data: Option<String>,
}

/// WeCom (bot webhook or corporate application).
#[derive(Debug, Clone, PartialEq)]
pub struct WeComConfig {
    pub enabled: bool,
    /// "bot" or "app".
    pub mode: String,
    pub webhook_url: Option<String>,
    pub corp_id: Option<String>,
    pub corp_secret: Option<String>,
    pub agent_id: Option<u32>,
    pub to_user: Option<String>,
}

/// Default WeCom mode.
pub fn default_wecom_mode() -> (r: String)
    ensures r@ == "bot"@,
{
    "bot".to_owned()
}

/// Telegram bot.
#[derive(Debug, Clone, PartialEq)]
pub struct TelegramConfig {
    pub enabled: bool,
    pub bot_token: String,
    pub chat_id: String,
    pub api_proxy: Option<String>,
}

/// DingTalk bot.
#[derive(Debug, Clone, PartialEq)]
pub struct DingTalkConfig {
    pub enabled: bool,
    pub access_token: String,
    pub secret: Option<String>,
}

/// Feishu bot.
#[derive(Debug, Clone, PartialEq)]
pub struct FeishuConfig {
    pub enabled: bool,
    pub webhook_url: String,
    pub secret: Option<String>,
}

/// Bark push.
#[derive(Debug, Clone, PartialEq)]
pub struct BarkConfig {
    pub enabled: bool,
    pub server_url: String,
    pub device_key: String,
    pub group: Option<String>,
    pub sound: Option<String>,
}

/// SMTP mail.
#[derive(Debug, Clone, PartialEq)]
pub struct EmailConfig {
    pub enabled: bool,
    pub smtp_server: String,
    pub smtp_port: u16,
    pub use_ssl: bool,
    pub username: String,
    pub password: String,
    pub from_address: String,
    pub to_addresses: Vec<String>,
}

/// Custom webhook.
#[derive(Debug, Clone, PartialEq)]
pub struct WebhookConfig {
    pub enabled: bool,
    pub url: String,
    pub method: String,
    pub headers: Option<TextMap<String>>,
    pub body: Option<String>,
}

} // verus!
