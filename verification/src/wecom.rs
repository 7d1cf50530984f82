//! WeCom: a group bot posts markdown to its webhook; an application posts a text card
//! with an access token that is fetched once and cached for its lifetime.
use vstd::prelude::*;
use crate::channels::{NotifyError, check_errcode_response, code_error, event_v4, event_v6, json_code_fields, shown_v4,
    shown_v6, status_error, status_outcome};
use crate::config::WeComConfig;
use crate::json::{Json, JsonValue, deep, push_member, render};
use crate::net::{dec_text, decimal_text};
use crate::notify::{NotificationEvent, NotificationOverallStatus, details_text, domains_text, overall_label, signed_text,
    signed_decimal_text};
use crate::providers::{HttpMethod, HttpReply, HttpRequest, joined, with_prefix};
use crate::text::{append_str, blank, eq_exact, is_blank, string_of};
use crate::token_cache::{TokenCache, cache_key, token_cache_key, token_lifetime};

verus! {

broadcast use vstd::string::group_string_axioms;

/// The next move of a notification: send a request and come back with its reply in
/// state `S`, or stop with the outcome.
pub enum NotifyStep<S> {
    Send(HttpRequest, S),
    Done(Result<(), NotifyError>),
}

/// Where a WeCom notification stands.
#[derive(Debug, Clone, PartialEq)]
pub enum WeComState {
    /// The markdown was posted to the bot's webhook.
    BotPost,
    /// An access token was asked for.
    TokenFetch,
    /// The text card was posted.
    AppPost,
}

/// The answer to a token request.
#[derive(Debug, Clone)]
pub struct WeComTokenResponse {
    pub errcode: i64,
    pub errmsg: String,
    pub access_token: Option<String>,
    pub expires_in: Option<u64>,
}

/// Sends notifications through WeCom.
pub struct WeComNotifier {
    pub config: WeComConfig,
}

/// The colour of the status in the bot's markdown.
pub open spec fn wecom_color(s: NotificationOverallStatus) -> Seq<char> {
    match s {
        NotificationOverallStatus::Success => "info"@,
        NotificationOverallStatus::Failed => "warning"@,
        NotificationOverallStatus::PartialSuccess => "comment"@,
    }
}

/// The bot's markdown.
pub open spec fn wecom_markdown(e: NotificationEvent) -> Seq<char> {
    "### rddns 域名动态解析通知 <font color=\""@ + wecom_color(e.overall_status) + "\">"@ + overall_label(e.overall_status)
        + "</font>\n> **任务名称**："@ + e.task_name@ + "\n> **IPv4 地址**："@ + event_v4(e) + "\n> **IPv6 地址**："@
        + event_v6(e) + "\n> **涉及域名**："@ + domains_text(e.results@) + "\n> **触发时间**："@ + e.timestamp_text@
        + "\n\n**详细结果**：\n"@ + details_text(e.results@)
}

/// The application's card description.
pub open spec fn wecom_description(e: NotificationEvent) -> Seq<char> {
    "<div class=\"gray\">"@ + e.timestamp_text@ + "</div><div class=\"normal\">任务："@ + e.task_name@
        + "</div><div class=\"normal\">IPv4："@ + event_v4(e) + "</div><div class=\"normal\">IPv6："@ + event_v6(e)
        + "</div><div class=\"normal\">域名："@ + domains_text(e.results@) + "</div>\n\n"@ + details_text(e.results@)
}

/// The bot's body.
pub open spec fn wecom_bot_body(e: NotificationEvent) -> Json {
    Json::Object(seq![("markdown"@, Json::Object(seq![("content"@, Json::Str(wecom_markdown(e)))]))]
        .push(("msgtype"@, Json::Str("markdown"@))))
}

/// The application's body.
pub open spec fn wecom_app_body(e: NotificationEvent, agent_id: u32, to_user: Seq<char>) -> Json {
    let card = Json::Object(seq![("btntxt"@, Json::Str("查看详情"@))]
        .push(("description"@, Json::Str(wecom_description(e))))
        .push(("title"@, Json::Str("rddns 动态解析 ["@ + overall_label(e.overall_status) + "]"@)))
        .push(("url"@, Json::Str("http://127.0.0.1:9876"@))));
    Json::Object(seq![("agentid"@, Json::Int(agent_id as int))]
        .push(("msgtype"@, Json::Str("textcard"@)))
        .push(("textcard"@, card))
        .push(("touser"@, Json::Str(to_user))))
}

/// The addressee of the application: the configured one or `@all`.
pub open spec fn wecom_to_user(c: WeComConfig) -> Seq<char> {
    match c.to_user { Some(u) => u@, None => "@all"@ }
}

/// URL of a token request.
pub open spec fn wecom_token_url(corp_id: Seq<char>, secret: Seq<char>) -> Seq<char> {
    "https://qyapi.weixin.qq.com/cgi-bin/gettoken?corpid="@ + corp_id + "&corpsecret="@ + secret
}

/// URL of an application post with a token.
pub open spec fn wecom_send_url(token: Seq<char>) -> Seq<char> {
    "https://qyapi.weixin.qq.com/cgi-bin/message/send?access_token="@ + token
}

/// `req` posts `body` as JSON to `url`.
pub open spec fn is_json_post(req: HttpRequest, url: Seq<char>, body: Json) -> bool {
    &&& req.method == HttpMethod::Post
    &&& req.url@ == url
    &&& req.headers@.len() == 1
    &&& req.headers@[0].0@ == "Content-Type"@ && req.headers@[0].1@ == "application/json"@
    &&& req.body matches Some(b) && b@ == render(body)
}

/// `r` is the provider error with message `m`.
pub open spec fn is_provider_error(r: Result<(), NotifyError>, m: Seq<char>) -> bool {
    r matches Err(NotifyError::Provider(t)) && t@ == m
}

fn json_post(url: String, body: &JsonValue) -> (r: HttpRequest)
    ensures is_json_post(r, url@, deep(*body)),
{
    let mut headers: Vec<(String, String)> = Vec::new();
    headers.push(("Content-Type".to_string(), "application/json".to_string()));
    HttpRequest { method: HttpMethod::Post, url, headers, body: Some(body.to_text()) }
}

impl WeComNotifier {
    /// A notifier with the given settings.
    pub fn new(config: WeComConfig) -> (r: Self)
        ensures r.config == config,
    {
        WeComNotifier { config }
    }

    /// The bot's markdown for an event.
    pub fn markdown(event: &NotificationEvent) -> (r: String)
        ensures r@ == wecom_markdown(*event),
    {
        let color = match event.overall_status {
            NotificationOverallStatus::Success => "info",
            NotificationOverallStatus::Failed => "warning",
            NotificationOverallStatus::PartialSuccess => "comment",
        };
        let mut v: Vec<char> = Vec::new();
        append_str(&mut v, "### rddns 域名动态解析通知 <font color=\"");
        append_str(&mut v, color);
        append_str(&mut v, "\">");
        append_str(&mut v, event.overall_status.as_str());
        append_str(&mut v, "</font>\n> **任务名称**：");
        append_str(&mut v, event.task_name.as_str());
        append_str(&mut v, "\n> **IPv4 地址**：");
        append_str(&mut v, shown_v4(event).as_str());
        append_str(&mut v, "\n> **IPv6 地址**：");
        append_str(&mut v, shown_v6(event).as_str());
        append_str(&mut v, "\n> **涉及域名**：");
        append_str(&mut v, event.domains_comma_separated().as_str());
        append_str(&mut v, "\n> **触发时间**：");
        append_str(&mut v, event.timestamp_text.as_str());
        append_str(&mut v, "\n\n**详细结果**：\n");
        append_str(&mut v, event.format_details_text().as_str());
        proof { assert(v@ =~= wecom_markdown(*event)); }
        string_of(v.as_slice())
    }

    /// The application's card description for an event.
    pub fn description(event: &NotificationEvent) -> (r: String)
        ensures r@ == wecom_description(*event),
    {
        let mut v: Vec<char> = Vec::new();
        append_str(&mut v, "<div class=\"gray\">");
        append_str(&mut v, event.timestamp_text.as_str());
        append_str(&mut v, "</div><div class=\"normal\">任务：");
        append_str(&mut v, event.task_name.as_str());
        append_str(&mut v, "</div><div class=\"normal\">IPv4：");
        append_str(&mut v, shown_v4(event).as_str());
        append_str(&mut v, "</div><div class=\"normal\">IPv6：");
        append_str(&mut v, shown_v6(event).as_str());
        append_str(&mut v, "</div><div class=\"normal\">域名：");
        append_str(&mut v, event.domains_comma_separated().as_str());
        append_str(&mut v, "</div>\n\n");
        append_str(&mut v, event.format_details_text().as_str());
        proof { assert(v@ =~= wecom_description(*event)); }
        string_of(v.as_slice())
    }

    fn app_post(&self, event: &NotificationEvent, agent_id: u32, token: &str) -> (r: HttpRequest)
        ensures is_json_post(r, wecom_send_url(token@), wecom_app_body(*event, agent_id, wecom_to_user(self.config))),
    {
        let to_user: String = match &self.config.to_user { Some(u) => u.clone(), None => "@all".to_string() };
        let mut card: Vec<(String, JsonValue)> = Vec::new();
        push_member(&mut card, "btntxt", JsonValue::text("查看详情"));
        push_member(&mut card, "description", JsonValue::Str(Self::description(event)));
        push_member(&mut card, "title", JsonValue::Str(joined("rddns 动态解析 [", event.overall_status.as_str(), "]")));
        push_member(&mut card, "url", JsonValue::text("http://127.0.0.1:9876"));
        let mut body: Vec<(String, JsonValue)> = Vec::new();
        push_member(&mut body, "agentid", JsonValue::UInt(agent_id as u64));
        push_member(&mut body, "msgtype", JsonValue::text("textcard"));
        push_member(&mut body, "textcard", JsonValue::object(card));
        push_member(&mut body, "touser", JsonValue::Str(to_user));
        json_post(with_prefix("https://qyapi.weixin.qq.com/cgi-bin/message/send?access_token=", token), &JsonValue::object(body))
    }

    /// The first move: in application mode (`mode` is `app`) a missing corp id, secret
    /// or agent id stops it; otherwise the card is posted with the token cached for the
    /// corp id and secret at `now`, or a token is asked for. In bot mode the markdown is
    /// posted to the webhook, which must be set (not blank).
    pub fn start(&self, event: &NotificationEvent, cache: &TokenCache, now: u64) -> (r: NotifyStep<WeComState>)
        requires cache.wf(),
        ensures
            if self.config.mode@ == "app"@ {
                match (self.config.corp_id, self.config.corp_secret, self.config.agent_id) {
                    (None, _, _) => r matches NotifyStep::Done(res) && is_provider_error(res, "企业微信自建应用缺少 corp_id"@),
                    (Some(_), None, _) => r matches NotifyStep::Done(res)
                        && is_provider_error(res, "企业微信自建应用缺少 corp_secret"@),
                    (Some(_), Some(_), None) => r matches NotifyStep::Done(res)
                        && is_provider_error(res, "企业微信自建应用缺少 agent_id"@),
                    (Some(id), Some(secret), Some(agent)) => match cache.valid_token(cache_key(id@, secret@), now) {
                        Some(t) => r matches NotifyStep::Send(req, WeComState::AppPost)
                            && is_json_post(req, wecom_send_url(t), wecom_app_body(*event, agent, wecom_to_user(self.config))),
                        None => r matches NotifyStep::Send(req, WeComState::TokenFetch) && req.method == HttpMethod::Get
                            && req.url@ == wecom_token_url(id@, secret@) && req.headers@.len() == 0 && req.body is None,
                    },
                }
            } else {
                match self.config.webhook_url {
                    Some(u) => if is_blank(u@) {
                        r matches NotifyStep::Done(res) && is_provider_error(res, "企业微信群机器人模式未配置 webhook_url"@)
                    } else {
                        r matches NotifyStep::Send(req, WeComState::BotPost) && is_json_post(req, u@, wecom_bot_body(*event))
                    },
                    None => r matches NotifyStep::Done(res) && is_provider_error(res, "企业微信群机器人模式未配置 webhook_url"@),
                }
            },
    {
        if eq_exact(self.config.mode.as_str(), "app") {
            let id = match &self.config.corp_id {
                Some(x) => x,
                None => { return NotifyStep::Done(Err(NotifyError::Provider("企业微信自建应用缺少 corp_id".to_string()))); },
            };
            let secret = match &self.config.corp_secret {
                Some(x) => x,
                None => { return NotifyStep::Done(Err(NotifyError::Provider("企业微信自建应用缺少 corp_secret".to_string()))); },
            };
            let agent = match self.config.agent_id {
                Some(x) => x,
                None => { return NotifyStep::Done(Err(NotifyError::Provider("企业微信自建应用缺少 agent_id".to_string()))); },
            };
            let key = token_cache_key(id.as_str(), secret.as_str());
            match cache.get_valid(key.as_str(), now) {
                Some(t) => NotifyStep::Send(self.app_post(event, agent, t.as_str()), WeComState::AppPost),
                None => {
                    let mut url: Vec<char> = Vec::new();
                    append_str(&mut url, "https://qyapi.weixin.qq.com/cgi-bin/gettoken?corpid=");
                    append_str(&mut url, id.as_str());
                    append_str(&mut url, "&corpsecret=");
                    append_str(&mut url, secret.as_str());
                    let req = HttpRequest { method: HttpMethod::Get, url: string_of(url.as_slice()), headers: Vec::new(), body: None };
                    NotifyStep::Send(req, WeComState::TokenFetch)
                },
            }
        } else {
            match &self.config.webhook_url {
                Some(u) => {
                    if blank(u.as_str()) {
                        NotifyStep::Done(Err(NotifyError::Provider("企业微信群机器人模式未配置 webhook_url".to_string())))
                    } else {
                        let mut content: Vec<(String, JsonValue)> = Vec::new();
                        push_member(&mut content, "content", JsonValue::Str(Self::markdown(event)));
                        let mut body: Vec<(String, JsonValue)> = Vec::new();
                        push_member(&mut body, "markdown", JsonValue::object(content));
                        push_member(&mut body, "msgtype", JsonValue::text("markdown"));
                        NotifyStep::Send(json_post(u.clone(), &JsonValue::object(body)), WeComState::BotPost)
                    }
                },
                None => NotifyStep::Done(Err(NotifyError::Provider("企业微信群机器人模式未配置 webhook_url".to_string()))),
            }
        }
    }

    /// The decision on a token answer (`parsed`: `Err` with the client's message where it
    /// could not be read): a non-zero code or a missing token stops it; otherwise the token
    /// is cached for its lifetime from `now` and the card is posted with it.
    pub fn on_token(
        &self,
        event: &NotificationEvent,
        parsed: Result<WeComTokenResponse, String>,
        cache: &mut TokenCache,
        now: u64,
    ) -> (r: NotifyStep<WeComState>)
        requires
            old(cache).wf(),
            self.config.corp_id is Some && self.config.corp_secret is Some && self.config.agent_id is Some,
            parsed matches Ok(t) ==> now + token_lifetime(t.expires_in) <= u64::MAX,
        ensures
            final(cache).wf(),
            ({
                let key = cache_key(self.config.corp_id->0@, self.config.corp_secret->0@);
                match parsed {
                    Err(e) => r == NotifyStep::<WeComState>::Done(Err(NotifyError::Http(e))) && *final(cache) == *old(cache),
                    Ok(t) => if t.errcode != 0 {
                        &&& r matches NotifyStep::Done(res) && is_provider_error(res,
                            "获取企业微信 access_token 失败 ["@ + signed_text(t.errcode as int) + "]: "@ + t.errmsg@)
                        &&& *final(cache) == *old(cache)
                    } else {
                        match t.access_token {
                            None => (r matches NotifyStep::Done(res) && is_provider_error(res, "返回结果中未包含 access_token"@))
                                && *final(cache) == *old(cache),
                            Some(tok) => {
                                &&& final(cache).valid_token(key, now) == Some(tok@)
                                &&& forall|k: Seq<char>| k != key ==> #[trigger] final(cache).valid_token(k, now)
                                    == old(cache).valid_token(k, now)
                                &&& r matches NotifyStep::Send(req, WeComState::AppPost) && is_json_post(req,
                                    wecom_send_url(tok@), wecom_app_body(*event, self.config.agent_id->0,
                                    wecom_to_user(self.config)))
                            },
                        }
                    },
                }
            }),
    {
        let t = match parsed {
            Err(e) => { return NotifyStep::Done(Err(NotifyError::Http(e))); },
            Ok(t) => t,
        };
        if t.errcode != 0 {
            let head = joined("获取企业微信 access_token 失败 [", signed_decimal_text(t.errcode).as_str(), "]: ");
            return NotifyStep::Done(Err(NotifyError::Provider(with_prefix(head.as_str(), t.errmsg.as_str()))));
        }
        let tok = match t.access_token {
            None => { return NotifyStep::Done(Err(NotifyError::Provider("返回结果中未包含 access_token".to_string()))); },
            Some(x) => x,
        };
        let id = match &self.config.corp_id { Some(x) => x.clone(), None => String::new() };
        let secret = match &self.config.corp_secret { Some(x) => x.clone(), None => String::new() };
        let agent: u32 = match self.config.agent_id { Some(x) => x, None => 0 };
        let key = token_cache_key(id.as_str(), secret.as_str());
        let ghost before = *cache;
        let _ = cache.store_fetched(key, tok.clone(), t.expires_in, now);
        proof {
            crate::token_cache::law_token_read_after_write(before, *cache, cache_key(id@, secret@), tok,
                (now + token_lifetime(t.expires_in)) as u64, now);
        }
        NotifyStep::Send(self.app_post(event, agent, tok.as_str()), WeComState::AppPost)
    }

    /// The outcome of the bot's (`app` false) or the application's post: the status,
    /// then the `errcode` of the body.
    pub fn outcome(app: bool, reply: &HttpReply) -> (r: Result<(), NotifyError>)
        ensures
            match (if reply.success {
                code_error(json_code_fields(reply.body@, "errcode"@, "errmsg"@),
                    if app { "企业微信应用消息"@ } else { "企业微信机器人"@ })
            } else {
                status_outcome(*reply, if app { "企业微信应用消息返回错误"@ } else { "企业微信机器人返回错误"@ })
            }) {
                Some(m) => is_provider_error(r, m),
                None => r is Ok,
            },
    {
        if reply.success {
            check_errcode_response(reply.body.as_str(), if app { "企业微信应用消息" } else { "企业微信机器人" })
        } else {
            status_error(reply, if app { "企业微信应用消息返回错误" } else { "企业微信机器人返回错误" })
        }
    }
}

} // verus!
