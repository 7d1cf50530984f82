//! What the notification channels send and how their replies are judged.
use vstd::prelude::*;
use crate::config::{BarkConfig, DingTalkConfig};
use crate::crypto::{base64_encode, base64_standard, hmac256, hmac_sha256};
use crate::tc3::utf8;
use crate::text::is_blank;
use crate::json::{Json, JsonValue, deep, push_member};
use crate::net::{ipv4_text, ipv6_text};
use crate::notify::{
    NotificationEvent, TelegramNotifier, details_text, domains_text, html_escaped, overall_label, signed_decimal_text,
    signed_text,
};
use crate::providers::{HttpReply, joined, with_prefix};
use crate::text::{append_str, chars_of, string_of, trim, trim_chars};

verus! {

broadcast use vstd::string::group_string_axioms;

/// Why a notification could not be sent.
#[derive(Debug, Clone, PartialEq)]
pub enum NotifyError {
    /// The HTTP exchange failed (the client's message).
    Http(String),
    /// Mail could not be built or sent.
    Email(String),
    /// A body could not be (de)serialised.
    Json(String),
    /// The channel answered with an error.
    Provider(String),
}

/// The message of an error: a fixed prefix for its kind, then its detail.
pub open spec fn notify_error_text(e: NotifyError) -> Seq<char> {
    match e {
        NotifyError::Http(m) => "HTTP 请求失败: "@ + m@,
        NotifyError::Email(m) => "邮件发送错误: "@ + m@,
        NotifyError::Json(m) => "数据序列化错误: "@ + m@,
        NotifyError::Provider(m) => "通知服务商返回错误: "@ + m@,
    }
}

impl NotifyError {
    /// The error's text.
    pub fn describe(&self) -> (r: String)
        ensures r@ == notify_error_text(*self),
    {
        match self {
            NotifyError::Http(m) => with_prefix("HTTP 请求失败: ", m.as_str()),
            NotifyError::Email(m) => with_prefix("邮件发送错误: ", m.as_str()),
            NotifyError::Json(m) => with_prefix("数据序列化错误: ", m.as_str()),
            NotifyError::Provider(m) => with_prefix("通知服务商返回错误: ", m.as_str()),
        }
    }
}

/// What `serde_json::from_str::<serde_json::Value>` makes of `body`, read at two keys of
/// the top object: `None` where the body is not JSON or `int_key` holds no `i64`;
/// otherwise that number, and the string at `text_key` where there is one.
pub uninterp spec fn json_code_fields(body: Seq<char>, int_key: Seq<char>, text_key: Seq<char>)
    -> Option<(int, Option<Seq<char>>)>;

/// Parses `body` with `serde_json` and reads the integer at `int_key` and the string at
/// `text_key` of the top-level object. The contract names the result; nothing is stated
/// of the parser.
#[verifier::external_body]
fn code_fields(body: &str, int_key: &str, text_key: &str) -> (r: Option<(i64, Option<String>)>)
    ensures
        match r {
            Some((c, m)) => json_code_fields(body@, int_key@, text_key@) == Some((c as int, match m {
                Some(t) => Some(t@),
                None => None,
            })),
            None => json_code_fields(body@, int_key@, text_key@) is None,
        },
{
    let v = serde_json::from_str::<serde_json::Value>(body).ok()?;
    let code = v.get(int_key).and_then(|c| c.as_i64())?;
    Some((code, v.get(text_key).and_then(|m| m.as_str()).map(|m| m.to_string())))
}

/// The business error that a reply's code announces: none where the code is missing or
/// zero; otherwise `{platform}业务错误 [code: N]: message` (`未知错误` without a message).
pub open spec fn code_error(fields: Option<(int, Option<Seq<char>>)>, platform: Seq<char>) -> Option<Seq<char>> {
    match fields {
        Some((c, m)) => if c != 0 {
            Some(platform + "业务错误 [code: "@ + signed_text(c) + "]: "@ + match m { Some(t) => t, None => "未知错误"@ })
        } else {
            None
        },
        None => None,
    }
}

fn business_error(fields: Option<(i64, Option<String>)>, platform: &str) -> (r: Option<String>)
    ensures
        match r {
            Some(t) => code_error(match fields { Some((c, m)) => Some((c as int, match m { Some(x) => Some(x@), None => None })),
                None => None }, platform@) == Some(t@),
            None => code_error(match fields { Some((c, m)) => Some((c as int, match m { Some(x) => Some(x@), None => None })),
                None => None }, platform@) is None,
        },
{
    match fields {
        Some((c, m)) => {
            if c != 0 {
                let msg = match m {
                    Some(x) => x,
                    None => "未知错误".to_string(),
                };
                let head = joined(platform, "业务错误 [code: ", signed_decimal_text(c).as_str());
                Some(joined(head.as_str(), "]: ", msg.as_str()))
            } else {
                None
            }
        },
        None => None,
    }
}

/// Checks the `errcode`/`errmsg` reply of the open platforms (DingTalk, WeCom, WeChat):
/// an error where `errcode` is a non-zero integer.
pub fn check_errcode_response(body: &str, platform_name: &str) -> (r: Result<(), NotifyError>)
    ensures
        match code_error(json_code_fields(body@, "errcode"@, "errmsg"@), platform_name@) {
            Some(t) => r matches Err(NotifyError::Provider(m)) && m@ == t,
            None => r is Ok,
        },
{
    let fields = code_fields(body, "errcode", "errmsg");
    match business_error(fields, platform_name) {
        Some(t) => Err(NotifyError::Provider(t)),
        None => Ok(()),
    }
}

/// The outcome of a reply judged by its status alone: an error `{name} [status]: body`.
pub open spec fn status_outcome(reply: HttpReply, name: Seq<char>) -> Option<Seq<char>> {
    if reply.success { None } else { Some(name + " ["@ + reply.status@ + "]: "@ + reply.body@) }
}

/// Judges a reply by its status: an error naming the channel, the status and the body.
pub fn status_error(reply: &HttpReply, name: &str) -> (r: Result<(), NotifyError>)
    ensures
        match status_outcome(*reply, name@) {
            Some(t) => r matches Err(NotifyError::Provider(m)) && m@ == t,
            None => r is Ok,
        },
{
    if reply.success {
        Ok(())
    } else {
        let head = joined(name, " [", reply.status.as_str());
        Err(NotifyError::Provider(joined(head.as_str(), "]: ", reply.body.as_str())))
    }
}

/// Judges a reply by its status, then by the code in its body under `int_key` and `text_key`.
pub open spec fn coded_outcome(reply: HttpReply, name: Seq<char>, platform: Seq<char>, int_key: Seq<char>, text_key: Seq<char>)
    -> Option<Seq<char>> {
    if reply.success {
        code_error(json_code_fields(reply.body@, int_key, text_key), platform)
    } else {
        status_outcome(reply, name)
    }
}

/// An address as the text messages show it: its text, or `无`.
pub open spec fn shown_or_none(text: Option<Seq<char>>) -> Seq<char> {
    match text {
        Some(t) => t,
        None => "无"@,
    }
}

/// The IPv4 address of an event as shown.
pub open spec fn event_v4(e: NotificationEvent) -> Seq<char> {
    shown_or_none(match e.ipv4 { Some(a) => Some(ipv4_text(a)), None => None })
}

/// The IPv6 address of an event as shown.
pub open spec fn event_v6(e: NotificationEvent) -> Seq<char> {
    shown_or_none(match e.ipv6 { Some(a) => Some(ipv6_text(a)), None => None })
}

pub(crate) fn shown_v4(e: &NotificationEvent) -> (r: String)
    ensures r@ == event_v4(*e),
{
    match e.ipv4 {
        Some(a) => a.to_text(),
        None => "无".to_string(),
    }
}

pub(crate) fn shown_v6(e: &NotificationEvent) -> (r: String)
    ensures r@ == event_v6(*e),
{
    match e.ipv6 {
        Some(a) => a.to_text(),
        None => "无".to_string(),
    }
}

/// `s` without its trailing `/` (`trim_end_matches('/')`).
pub open spec fn trim_slashes(s: Seq<char>) -> Seq<char>
    decreases s.len(),
{
    if s.len() > 0 && s.last() == '/' { trim_slashes(s.drop_last()) } else { s }
}

fn trim_slashes_chars(s: &[char]) -> (r: Vec<char>)
    ensures r@ == trim_slashes(s@),
{
    let mut n: usize = s.len();
    assert(s@.take(n as int) =~= s@);
    while n > 0 && s[n - 1] == '/'
        invariant
            n <= s@.len(),
            trim_slashes(s@.take(n as int)) == trim_slashes(s@),
        decreases n,
    {
        assert(s@.take(n as int).drop_last() =~= s@.take(n - 1));
        n = n - 1;
    }
    let r = crate::text::sub_chars(s, 0, n);
    assert(r@ =~= s@.take(n as int));
    r
}

/// The Telegram message text (HTML mode): status, task, addresses, domains, time and
/// details, with the task, domains and details escaped.
pub open spec fn telegram_text(e: NotificationEvent) -> Seq<char> {
    "<b>rddns 域名解析通知</b> ["@ + overall_label(e.overall_status) + "]\n<b>任务</b>: "@
        + html_escaped(e.task_name@) + "\n<b>IPv4</b>: <code>"@ + event_v4(e) + "</code>\n<b>IPv6</b>: <code>"@
        + event_v6(e) + "</code>\n<b>域名</b>: "@ + html_escaped(domains_text(e.results@)) + "\n<b>时间</b>: "@
        + e.timestamp_text@ + "\n\n<b>详情</b>:\n"@ + html_escaped(details_text(e.results@))
}

/// The Bot API base: the proxy where one is set (not blank), without trailing `/`.
pub open spec fn telegram_base(proxy: Option<String>) -> Seq<char> {
    let base = match proxy {
        Some(p) => if trim(p@).len() > 0 { p@ } else { "https://api.telegram.org"@ },
        None => "https://api.telegram.org"@,
    };
    trim_slashes(base)
}

impl TelegramNotifier {
    /// The `sendMessage` URL of the bot.
    pub fn send_url(&self) -> (r: String)
        ensures r@ == telegram_base(self.config.api_proxy) + "/bot"@ + trim(self.config.bot_token@) + "/sendMessage"@,
    {
        let base: Vec<char> = match &self.config.api_proxy {
            Some(p) => {
                let pc = chars_of(p.as_str());
                if trim_chars(pc.as_slice()).len() > 0 { pc } else { chars_of("https://api.telegram.org") }
            },
            None => chars_of("https://api.telegram.org"),
        };
        let b = trim_slashes_chars(base.as_slice());
        let token = trim_chars(chars_of(self.config.bot_token.as_str()).as_slice());
        let mid = joined(string_of(b.as_slice()).as_str(), "/bot", string_of(token.as_slice()).as_str());
        with_prefix(mid.as_str(), "/sendMessage")
    }

    /// The message text of an event.
    pub fn message_text(event: &NotificationEvent) -> (r: String)
        ensures r@ == telegram_text(*event),
    {
        let mut v: Vec<char> = Vec::new();
        append_str(&mut v, "<b>rddns 域名解析通知</b> [");
        append_str(&mut v, event.overall_status.as_str());
        append_str(&mut v, "]\n<b>任务</b>: ");
        append_str(&mut v, TelegramNotifier::escape_html(event.task_name.as_str()).as_str());
        append_str(&mut v, "\n<b>IPv4</b>: <code>");
        append_str(&mut v, shown_v4(event).as_str());
        append_str(&mut v, "</code>\n<b>IPv6</b>: <code>");
        append_str(&mut v, shown_v6(event).as_str());
        append_str(&mut v, "</code>\n<b>域名</b>: ");
        append_str(&mut v, TelegramNotifier::escape_html(event.domains_comma_separated().as_str()).as_str());
        append_str(&mut v, "\n<b>时间</b>: ");
        append_str(&mut v, event.timestamp_text.as_str());
        append_str(&mut v, "\n\n<b>详情</b>:\n");
        append_str(&mut v, TelegramNotifier::escape_html(event.format_details_text().as_str()).as_str());
        proof { assert(v@ =~= telegram_text(*event)); }
        string_of(v.as_slice())
    }

    /// The body posted for an event.
    pub fn payload(&self, event: &NotificationEvent) -> (r: JsonValue)
        ensures
            deep(r) == Json::Object(seq![("chat_id"@, Json::Str(self.config.chat_id@))]
                .push(("text"@, Json::Str(telegram_text(*event))))
                .push(("parse_mode"@, Json::Str("HTML"@)))),
    {
        let mut m: Vec<(String, JsonValue)> = Vec::new();
        push_member(&mut m, "chat_id", JsonValue::Str(self.config.chat_id.clone()));
        push_member(&mut m, "text", JsonValue::Str(TelegramNotifier::message_text(event)));
        push_member(&mut m, "parse_mode", JsonValue::text("HTML"));
        JsonValue::object(m)
    }

    /// The outcome of the post: an error with status and body where it is not 2xx.
    pub fn outcome(reply: &HttpReply) -> (r: Result<(), NotifyError>)
        ensures
            match status_outcome(*reply, "Telegram 返回错误"@) {
                Some(t) => r matches Err(NotifyError::Provider(m)) && m@ == t,
                None => r is Ok,
            },
    {
        status_error(reply, "Telegram 返回错误")
    }
}

/// Pushes notifications to an iOS device through a Bark server.
pub struct BarkNotifier {
    pub config: BarkConfig,
}

/// The Bark notification title.
pub open spec fn bark_title(e: NotificationEvent) -> Seq<char> {
    "🔔 rddns 动态解析 ["@ + overall_label(e.overall_status) + "]"@
}

/// The Bark notification body.
pub open spec fn bark_body(e: NotificationEvent) -> Seq<char> {
    "任务: "@ + e.task_name@ + "\nIPv4: "@ + event_v4(e) + "\nIPv6: "@ + event_v6(e) + "\n域名: "@
        + domains_text(e.results@) + "\n时间: "@ + e.timestamp_text@
}

/// Adds a member where the value is present.
pub open spec fn with_optional(members: Seq<(Seq<char>, Json)>, key: Seq<char>, v: Option<String>) -> Seq<(Seq<char>, Json)> {
    match v {
        Some(x) => members.push((key, Json::Str(x@))),
        None => members,
    }
}

impl BarkNotifier {
    /// A notifier with the given settings.
    pub fn new(config: BarkConfig) -> (r: Self)
        ensures r.config == config,
    {
        BarkNotifier { config }
    }

    /// The push URL: the trimmed server without trailing `/`, then `/push`.
    pub fn push_url(&self) -> (r: String)
        ensures r@ == trim_slashes(trim(self.config.server_url@)) + "/push"@,
    {
        let s = trim_chars(chars_of(self.config.server_url.as_str()).as_slice());
        let b = trim_slashes_chars(s.as_slice());
        with_prefix(string_of(b.as_slice()).as_str(), "/push")
    }

    /// The body posted for an event: the trimmed device key, title and body, and the
    /// group and sound where they are set.
    pub fn payload(&self, event: &NotificationEvent) -> (r: JsonValue)
        ensures
            deep(r) == Json::Object(with_optional(with_optional(
                seq![("device_key"@, Json::Str(trim(self.config.device_key@)))]
                    .push(("title"@, Json::Str(bark_title(*event))))
                    .push(("body"@, Json::Str(bark_body(*event)))),
                "group"@, self.config.group), "sound"@, self.config.sound)),
    {
        let key = trim_chars(chars_of(self.config.device_key.as_str()).as_slice());
        let title = joined("🔔 rddns 动态解析 [", event.overall_status.as_str(), "]");
        let mut body: Vec<char> = Vec::new();
        append_str(&mut body, "任务: ");
        append_str(&mut body, event.task_name.as_str());
        append_str(&mut body, "\nIPv4: ");
        append_str(&mut body, shown_v4(event).as_str());
        append_str(&mut body, "\nIPv6: ");
        append_str(&mut body, shown_v6(event).as_str());
        append_str(&mut body, "\n域名: ");
        append_str(&mut body, event.domains_comma_separated().as_str());
        append_str(&mut body, "\n时间: ");
        append_str(&mut body, event.timestamp_text.as_str());
        proof { assert(body@ =~= bark_body(*event)); }
        let mut m: Vec<(String, JsonValue)> = Vec::new();
        push_member(&mut m, "device_key", JsonValue::Str(string_of(key.as_slice())));
        push_member(&mut m, "title", JsonValue::Str(title));
        push_member(&mut m, "body", JsonValue::Str(string_of(body.as_slice())));
        match &self.config.group {
            Some(g) => push_member(&mut m, "group", JsonValue::Str(g.clone())),
            None => {},
        }
        match &self.config.sound {
            Some(s) => push_member(&mut m, "sound", JsonValue::Str(s.clone())),
            None => {},
        }
        JsonValue::object(m)
    }

    /// The outcome of the push.
    pub fn outcome(reply: &HttpReply) -> (r: Result<(), NotifyError>)
        ensures
            match status_outcome(*reply, "Bark 返回错误"@) {
                Some(t) => r matches Err(NotifyError::Provider(m)) && m@ == t,
                None => r is Ok,
            },
    {
        status_error(reply, "Bark 返回错误")
    }
}

/// Sends notifications to a DingTalk robot.
pub struct DingTalkNotifier {
    pub config: DingTalkConfig,
}

/// The DingTalk markdown text.
pub open spec fn dingtalk_text(e: NotificationEvent) -> Seq<char> {
    "### 🔔 rddns 动态解析通知\n- **状态**："@ + overall_label(e.overall_status) + "\n- **任务**："@ + e.task_name@
        + "\n- **IPv4**："@ + event_v4(e) + "\n- **IPv6**："@ + event_v6(e) + "\n- **域名**："@
        + domains_text(e.results@) + "\n- **时间**："@ + e.timestamp_text@ + "\n\n#### 同步结果：\n"@
        + details_text(e.results@)
}

/// The DingTalk signature at time `t` (milliseconds).
pub open spec fn dingtalk_sign(secret: Seq<char>, t: int) -> Seq<char> {
    base64_standard(hmac256(utf8(secret), utf8(signed_text(t) + seq!['\n'] + secret)))
}

fn dingtalk_signature_of(key: &str, timestamp_ms: i64) -> (r: String)
    ensures r@ == dingtalk_sign(key@, timestamp_ms as int),
{
    let mut sts: Vec<char> = Vec::new();
    append_str(&mut sts, signed_decimal_text(timestamp_ms).as_str());
    sts.push('\n');
    append_str(&mut sts, key);
    let sts_text = string_of(sts.as_slice());
    assert(sts_text@ =~= signed_text(timestamp_ms as int) + seq!['\n'] + key@);
    let kb = key.as_bytes();
    let sb = sts_text.as_str().as_bytes();
    let mac = hmac_sha256(kb, sb);
    assert(mac@ == hmac256(utf8(key@), utf8(signed_text(timestamp_ms as int) + seq!['\n'] + key@)));
    base64_encode(mac.as_slice())
}

impl DingTalkNotifier {
    /// A notifier with the given settings.
    pub fn new(config: DingTalkConfig) -> (r: Self)
        ensures r.config == config,
    {
        DingTalkNotifier { config }
    }

    /// The signature of a signed robot at `timestamp_ms` (milliseconds): where the secret is
    /// set and not blank, the time and the base64 HMAC-SHA-256, keyed by the trimmed secret,
    /// of the time and the secret on two lines.
    pub fn signature(&self, timestamp_ms: i64) -> (r: Option<(i64, String)>)
        ensures
            match self.config.secret {
                Some(s) => if is_blank(s@) { r is None } else {
                    r matches Some((t, sig)) && t == timestamp_ms && sig@ == dingtalk_sign(trim(s@), timestamp_ms as int)
                },
                None => r is None,
            },
    {
        match &self.config.secret {
            None => None,
            Some(s) => {
                if crate::text::blank(s.as_str()) {
                    return None;
                }
                let key = string_of(trim_chars(chars_of(s.as_str()).as_slice()).as_slice());
                Some((timestamp_ms, dingtalk_signature_of(key.as_str(), timestamp_ms)))
            },
        }
    }

    /// The robot URL: the trimmed access token, and, for a signed robot, the time in
    /// milliseconds and the URL-encoded signature.
    pub fn send_url(&self, signature: Option<(i64, String)>) -> (r: String)
        ensures
            r@ == "https://oapi.dingtalk.com/robot/send?access_token="@ + trim(self.config.access_token@)
                + match signature {
                    Some((t, s)) => "&timestamp="@ + signed_text(t as int) + "&sign="@
                        + crate::notify::template_value(s@, true),
                    None => Seq::empty(),
                },
    {
        let token = trim_chars(chars_of(self.config.access_token.as_str()).as_slice());
        let mut v: Vec<char> = Vec::new();
        append_str(&mut v, "https://oapi.dingtalk.com/robot/send?access_token=");
        crate::text::append_chars(&mut v, token.as_slice());
        let ghost head = v@;
        match signature {
            Some((t, s)) => {
                append_str(&mut v, "&timestamp=");
                append_str(&mut v, signed_decimal_text(t).as_str());
                append_str(&mut v, "&sign=");
                let enc = crate::notify::encode_value(s.as_str(), true);
                crate::text::append_chars(&mut v, enc.as_slice());
            },
            None => {},
        }
        proof { reveal_strlit("https://oapi.dingtalk.com/robot/send?access_token="); }
        string_of(v.as_slice())
    }

    /// The body posted for an event: a markdown message with title and text.
    pub fn payload(event: &NotificationEvent) -> (r: JsonValue)
        ensures
            deep(r) == Json::Object(seq![("msgtype"@, Json::Str("markdown"@))]
                .push(("markdown"@, Json::Object(seq![("title"@, Json::Str("rddns 动态解析 ["@
                    + overall_label(event.overall_status) + "]"@))]
                    .push(("text"@, Json::Str(dingtalk_text(*event)))))))),
    {
        let title = joined("rddns 动态解析 [", event.overall_status.as_str(), "]");
        let mut text: Vec<char> = Vec::new();
        append_str(&mut text, "### 🔔 rddns 动态解析通知\n- **状态**：");
        append_str(&mut text, event.overall_status.as_str());
        append_str(&mut text, "\n- **任务**：");
        append_str(&mut text, event.task_name.as_str());
        append_str(&mut text, "\n- **IPv4**：");
        append_str(&mut text, shown_v4(event).as_str());
        append_str(&mut text, "\n- **IPv6**：");
        append_str(&mut text, shown_v6(event).as_str());
        append_str(&mut text, "\n- **域名**：");
        append_str(&mut text, event.domains_comma_separated().as_str());
        append_str(&mut text, "\n- **时间**：");
        append_str(&mut text, event.timestamp_text.as_str());
        append_str(&mut text, "\n\n#### 同步结果：\n");
        append_str(&mut text, event.format_details_text().as_str());
        proof { assert(text@ =~= dingtalk_text(*event)); }
        let mut md: Vec<(String, JsonValue)> = Vec::new();
        push_member(&mut md, "title", JsonValue::Str(title));
        push_member(&mut md, "text", JsonValue::Str(string_of(text.as_slice())));
        let mut m: Vec<(String, JsonValue)> = Vec::new();
        push_member(&mut m, "msgtype", JsonValue::text("markdown"));
        push_member(&mut m, "markdown", JsonValue::object(md));
        JsonValue::object(m)
    }

    /// The outcome of the post: the status, then the `errcode` of the body.
    pub fn outcome(reply: &HttpReply) -> (r: Result<(), NotifyError>)
        ensures
            match coded_outcome(*reply, "钉钉返回错误"@, "钉钉接口"@, "errcode"@, "errmsg"@) {
                Some(t) => r matches Err(NotifyError::Provider(m)) && m@ == t,
                None => r is Ok,
            },
    {
        if reply.success {
            check_errcode_response(reply.body.as_str(), "钉钉接口")
        } else {
            status_error(reply, "钉钉返回错误")
        }
    }
}

/// The outcome of a Feishu post: the status, then the `code` of the body.
pub fn feishu_outcome(reply: &HttpReply) -> (r: Result<(), NotifyError>)
    ensures
        match coded_outcome(*reply, "飞书返回错误"@, "飞书接口"@, "code"@, "msg"@) {
            Some(t) => r matches Err(NotifyError::Provider(m)) && m@ == t,
            None => r is Ok,
        },
{
    if reply.success {
        let fields = code_fields(reply.body.as_str(), "code", "msg");
        match business_error(fields, "飞书接口") {
            Some(t) => Err(NotifyError::Provider(t)),
            None => Ok(()),
        }
    } else {
        status_error(reply, "飞书返回错误")
    }
}

} // verus!
