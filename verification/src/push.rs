//! PushPlus and the WeChat iLink bot: one JSON post each, judged by its status.
use vstd::prelude::*;
use crate::channels::{NotifyError, event_v4, event_v6, shown_v4, shown_v6, status_error, status_outcome};
use crate::cloudflare::{header_value_ok, is_header_value};
use crate::json::{Json, JsonValue, deep, push_member, render};
use crate::notify::{NotificationEvent, details_text, domains_text, overall_label};
use crate::providers::{HttpMethod, HttpReply, HttpRequest, joined, with_prefix};
use crate::text::{append_chars, append_str, chars_of, string_of, trim, trim_chars};
use crate::urlencode::pair_views;
use crate::wechat::{wechat_v4, wechat_v6};

verus! {

broadcast use vstd::string::group_string_axioms;

/// PushPlus settings.
#[derive(Debug, Clone, PartialEq)]
pub struct PushPlusConfig {
    pub token: String,
    /// Message template (`markdown` where unset).
    pub template: Option<String>,
    /// Delivery channel, where one is chosen.
    pub channel: Option<String>,
}

/// Sends notifications through PushPlus.
pub struct PushPlusNotifier {
    pub config: PushPlusConfig,
}

/// The PushPlus markdown content.
pub open spec fn pushplus_content(e: NotificationEvent) -> Seq<char> {
    "### 🔔 rddns 动态解析通知\n- **状态**："@ + overall_label(e.overall_status) + "\n- **任务**："@ + e.task_name@
        + "\n- **IPv4**："@ + event_v4(e) + "\n- **IPv6**："@ + event_v6(e) + "\n- **域名**："@
        + domains_text(e.results@) + "\n- **时间**："@ + e.timestamp_text@ + "\n\n#### 同步明细：\n"@
        + details_text(e.results@)
}

/// The PushPlus body (keys in sorted order; the channel where one is set).
pub open spec fn pushplus_body(c: PushPlusConfig, e: NotificationEvent) -> Json {
    let head: Seq<(Seq<char>, Json)> = match c.channel {
        Some(ch) => seq![("channel"@, Json::Str(ch@))],
        None => Seq::empty(),
    };
    Json::Object(head.push(("content"@, Json::Str(pushplus_content(e))))
        .push(("template"@, Json::Str(match c.template { Some(t) => t@, None => "markdown"@ })))
        .push(("title"@, Json::Str("🔔 rddns 动态解析 ["@ + overall_label(e.overall_status) + "]"@)))
        .push(("token"@, Json::Str(c.token@))))
}

impl PushPlusNotifier {
    /// A notifier with the given settings.
    pub fn new(config: PushPlusConfig) -> (r: Self)
        ensures r.config == config,
    {
        PushPlusNotifier { config }
    }

    /// The post for an event.
    pub fn request(&self, event: &NotificationEvent) -> (r: HttpRequest)
        ensures
            r.method == HttpMethod::Post,
            r.url@ == "https://www.pushplus.plus/send"@,
            r.headers@.len() == 1,
            r.headers@[0].0@ == "Content-Type"@ && r.headers@[0].1@ == "application/json"@,
            r.body matches Some(b) && b@ == render(pushplus_body(self.config, *event)),
    {
        let mut content: Vec<char> = Vec::new();
        append_str(&mut content, "### 🔔 rddns 动态解析通知\n- **状态**：");
        append_str(&mut content, event.overall_status.as_str());
        append_str(&mut content, "\n- **任务**：");
        append_str(&mut content, event.task_name.as_str());
        append_str(&mut content, "\n- **IPv4**：");
        append_str(&mut content, shown_v4(event).as_str());
        append_str(&mut content, "\n- **IPv6**：");
        append_str(&mut content, shown_v6(event).as_str());
        append_str(&mut content, "\n- **域名**：");
        append_str(&mut content, event.domains_comma_separated().as_str());
        append_str(&mut content, "\n- **时间**：");
        append_str(&mut content, event.timestamp_text.as_str());
        append_str(&mut content, "\n\n#### 同步明细：\n");
        append_str(&mut content, event.format_details_text().as_str());
        proof { assert(content@ =~= pushplus_content(*event)); }
        let mut m: Vec<(String, JsonValue)> = Vec::new();
        match &self.config.channel {
            Some(ch) => push_member(&mut m, "channel", JsonValue::Str(ch.clone())),
            None => {},
        }
        push_member(&mut m, "content", JsonValue::Str(string_of(content.as_slice())));
        let template = match &self.config.template { Some(t) => t.clone(), None => "markdown".to_string() };
        push_member(&mut m, "template", JsonValue::Str(template));
        push_member(&mut m, "title", JsonValue::Str(joined("🔔 rddns 动态解析 [", event.overall_status.as_str(), "]")));
        push_member(&mut m, "token", JsonValue::Str(self.config.token.clone()));
        let body = JsonValue::object(m);
        let mut headers: Vec<(String, String)> = Vec::new();
        headers.push(("Content-Type".to_string(), "application/json".to_string()));
        HttpRequest {
            method: HttpMethod::Post,
            url: "https://www.pushplus.plus/send".to_string(),
            headers,
            body: Some(body.to_text()),
        }
    }

    /// The outcome of the post, by its status.
    pub fn outcome(reply: &HttpReply) -> (r: Result<(), NotifyError>)
        ensures
            match status_outcome(*reply, "PushPlus 返回错误"@) {
                Some(t) => r matches Err(NotifyError::Provider(m)) && m@ == t,
                None => r is Ok,
            },
    {
        status_error(reply, "PushPlus 返回错误")
    }
}

/// iLink bot settings.
#[derive(Debug, Clone, PartialEq)]
pub struct ILinkConfig {
    pub bot_token: String,
    pub to_user_id: String,
    pub endpoint: String,
}

/// Sends notifications through a WeChat iLink bot.
pub struct ILinkNotifier {
    pub config: ILinkConfig,
}

/// The iLink message text.
pub open spec fn ilink_content(e: NotificationEvent) -> Seq<char> {
    "【rddns 动态解析通知】"@ + overall_label(e.overall_status) + "\n任务: "@ + e.task_name@ + "\nIPv4: "@ + wechat_v4(e)
        + "\nIPv6: "@ + wechat_v6(e) + "\n涉及域名: "@ + domains_text(e.results@) + "\n时间: "@ + e.timestamp_text@
        + "\n\n详情:\n"@ + details_text(e.results@)
}

/// The iLink body (keys in sorted order).
pub open spec fn ilink_body(c: ILinkConfig, e: NotificationEvent) -> Json {
    Json::Object(seq![("msgtype"@, Json::Str("text"@))]
        .push(("text"@, Json::Object(seq![("content"@, Json::Str(ilink_content(e)))])))
        .push(("to_user"@, Json::Str(c.to_user_id@))))
}

/// The iLink headers: the JSON type, and the bearer token where it is a valid value.
pub open spec fn ilink_headers(token: Seq<char>) -> Seq<(Seq<char>, Seq<char>)> {
    let base: Seq<(Seq<char>, Seq<char>)> = seq![("Content-Type"@, "application/json; charset=utf-8"@)];
    let auth = "Bearer "@ + trim(token);
    if header_value_ok(auth) { base.push(("Authorization"@, auth)) } else { base }
}

impl ILinkNotifier {
    /// A notifier with the given settings.
    pub fn new(config: ILinkConfig) -> (r: Self)
        ensures r.config == config,
    {
        ILinkNotifier { config }
    }

    /// The post for an event, to the configured endpoint.
    pub fn request(&self, event: &NotificationEvent) -> (r: HttpRequest)
        ensures
            r.method == HttpMethod::Post,
            r.url@ == self.config.endpoint@,
            pair_views(r.headers@) == ilink_headers(self.config.bot_token@),
            r.body matches Some(b) && b@ == render(ilink_body(self.config, *event)),
    {
        let v4: String = match event.ipv4 { Some(a) => a.to_text(), None => "未配置/无".to_string() };
        let v6: String = match event.ipv6 { Some(a) => a.to_text(), None => "未配置/无".to_string() };
        let mut content: Vec<char> = Vec::new();
        append_str(&mut content, "【rddns 动态解析通知】");
        append_str(&mut content, event.overall_status.as_str());
        append_str(&mut content, "\n任务: ");
        append_str(&mut content, event.task_name.as_str());
        append_str(&mut content, "\nIPv4: ");
        append_str(&mut content, v4.as_str());
        append_str(&mut content, "\nIPv6: ");
        append_str(&mut content, v6.as_str());
        append_str(&mut content, "\n涉及域名: ");
        append_str(&mut content, event.domains_comma_separated().as_str());
        append_str(&mut content, "\n时间: ");
        append_str(&mut content, event.timestamp_text.as_str());
        append_str(&mut content, "\n\n详情:\n");
        append_str(&mut content, event.format_details_text().as_str());
        proof { assert(content@ =~= ilink_content(*event)); }
        let mut text: Vec<(String, JsonValue)> = Vec::new();
        push_member(&mut text, "content", JsonValue::Str(string_of(content.as_slice())));
        let mut m: Vec<(String, JsonValue)> = Vec::new();
        push_member(&mut m, "msgtype", JsonValue::text("text"));
        push_member(&mut m, "text", JsonValue::object(text));
        push_member(&mut m, "to_user", JsonValue::Str(self.config.to_user_id.clone()));
        let body = JsonValue::object(m);
        let mut headers: Vec<(String, String)> = Vec::new();
        headers.push(("Content-Type".to_string(), "application/json; charset=utf-8".to_string()));
        let mut auth: Vec<char> = Vec::new();
        append_str(&mut auth, "Bearer ");
        append_chars(&mut auth, trim_chars(chars_of(self.config.bot_token.as_str()).as_slice()).as_slice());
        if is_header_value(auth.as_slice()) {
            headers.push(("Authorization".to_string(), string_of(auth.as_slice())));
        }
        assert(pair_views(headers@) =~= ilink_headers(self.config.bot_token@));
        HttpRequest { method: HttpMethod::Post, url: self.config.endpoint.clone(), headers, body: Some(body.to_text()) }
    }

    /// The outcome of the post, by its status.
    pub fn outcome(reply: &HttpReply) -> (r: Result<(), NotifyError>)
        ensures
            match status_outcome(*reply, "iLink API 错误"@) {
                Some(t) => r matches Err(NotifyError::Provider(m)) && m@ == t,
                None => r is Ok,
            },
    {
        status_error(reply, "iLink API 错误")
    }
}

} // verus!
