//! WeChat official account: fetch an access token, then post the template message to
//! each recipient in turn, stopping at the first refusal.
use vstd::prelude::*;
use crate::channels::NotifyError;
use crate::config::WechatOfficialConfig;
use crate::json::{Json, JsonValue, deep, push_member, render};
use crate::net::{ipv4_text, ipv6_text};
use crate::notify::{NotificationEvent, details_text, domains_text, overall_label, replace_text, replaced, signed_decimal_text,
    signed_text};
use crate::providers::{HttpMethod, HttpRequest, joined, with_prefix};
use crate::text::{append_chars, append_str, blank, chars_of, is_blank, split_chars, split_on, string_of, trim, trim_chars,
    views_of};
use crate::wecom::{NotifyStep, is_json_post, is_provider_error};

verus! {

broadcast use vstd::string::group_string_axioms;

/// What `serde_json::from_str::<serde_json::Value>` followed by `to_string` makes of
/// `text`: `None` where it is not JSON, else its compact form.
pub uninterp spec fn json_normalized(text: Seq<char>) -> Option<Seq<char>>;

/// Parses `text` with `serde_json` and writes it back in compact form. The contract names
/// the result; nothing is stated of the parser.
#[verifier::external_body]
fn normalized_json(text: &str) -> (r: Option<String>)
    ensures
        match r {
            Some(t) => json_normalized(text@) == Some(t@),
            None => json_normalized(text@) is None,
        },
{
    serde_json::from_str::<serde_json::Value>(text).ok().map(|v| v.to_string())
}

/// Number of bytes of a character in UTF-8.
pub open spec fn utf8_width(c: char) -> nat {
    if (c as u32) < 0x80 { 1 } else if (c as u32) < 0x800 { 2 } else if (c as u32) < 0x10000 { 3 } else { 4 }
}

/// Number of bytes of a text in UTF-8 (`str::len`).
pub open spec fn byte_len(s: Seq<char>) -> nat
    decreases s.len(),
{
    if s.len() == 0 { 0 } else { byte_len(s.drop_last()) + utf8_width(s.last()) }
}

/// Number of leading characters that fit in `n` bytes.
pub open spec fn chars_within(s: Seq<char>, n: nat) -> nat
    decreases s.len(),
{
    if s.len() == 0 {
        0
    } else if byte_len(s) <= n {
        s.len()
    } else {
        chars_within(s.drop_last(), n)
    }
}

/// `s[..20]` where `s` is longer than 20 bytes, else `s`.
pub open spec fn first_20_bytes(s: Seq<char>) -> Seq<char> {
    if byte_len(s) > 20 { s.take(chars_within(s, 20) as int) } else { s }
}

/// Slicing `s` at byte 20 does not split a character (where it is sliced at all).
pub open spec fn cut_at_20_ok(s: Seq<char>) -> bool {
    byte_len(s) > 20 ==> byte_len(s.take(chars_within(s, 20) as int)) == 20
}

proof fn lemma_byte_len_take(s: Seq<char>, k: int)
    requires 0 <= k < s.len(),
    ensures byte_len(s.take(k + 1)) == byte_len(s.take(k)) + utf8_width(s[k]),
{
    assert(s.take(k + 1).drop_last() =~= s.take(k));
}

proof fn lemma_chars_within(s: Seq<char>, n: nat, k: int)
    requires
        0 <= k <= s.len(),
        byte_len(s.take(k)) <= n,
        k == s.len() || byte_len(s.take(k + 1)) > n,
    ensures chars_within(s, n) == k,
    decreases s.len(),
{
    if k == s.len() {
        assert(s.take(k) =~= s);
    } else {
        assert(s.take(s.len() as int) =~= s);
        lemma_take_monotone(s, k + 1, s.len() as int);
        assert(s.drop_last().take(k) =~= s.take(k));
        if k + 1 <= s.drop_last().len() {
            assert(s.drop_last().take(k + 1) =~= s.take(k + 1));
        }
        lemma_chars_within(s.drop_last(), n, k);
    }
}

proof fn lemma_take_monotone(s: Seq<char>, a: int, b: int)
    requires 0 <= a <= b <= s.len(),
    ensures byte_len(s.take(a)) <= byte_len(s.take(b)),
    decreases b - a,
{
    if a < b {
        lemma_take_monotone(s, a, b - 1);
        lemma_byte_len_take(s, b - 1);
    }
}

fn width_of(c: char) -> (r: usize)
    ensures r == utf8_width(c),
{
    let u = c as u32;
    if u < 0x80 { 1 } else if u < 0x800 { 2 } else if u < 0x10000 { 3 } else { 4 }
}

/// `first_20_bytes`: the characters that fit in 20 bytes, where the text is longer.
pub fn cut_20_bytes(s: &[char]) -> (r: Vec<char>)
    ensures r@ == first_20_bytes(s@),
{
    let mut k: usize = 0;
    let mut bytes: usize = 0;
    assert(s@.take(0) =~= Seq::<char>::empty());
    loop
        invariant
            k <= s@.len(),
            bytes == byte_len(s@.take(k as int)),
            bytes <= 20,
        ensures
            k <= s@.len(),
            byte_len(s@.take(k as int)) <= 20,
            k == s@.len() || byte_len(s@.take(k + 1)) > 20,
        decreases s@.len() - k,
    {
        if k == s.len() {
            break;
        }
        let w = width_of(s[k]);
        proof { lemma_byte_len_take(s@, k as int); }
        if bytes + w > 20 {
            break;
        }
        bytes = bytes + w;
        k = k + 1;
    }
    proof {
        lemma_chars_within(s@, 20, k as int);
        if k == s@.len() {
            assert(s@.take(k as int) =~= s@);
        }
    }
    let r = crate::text::sub_chars(s, 0, k);
    proof {
        if byte_len(s@) <= 20 {
            assert(k == s@.len()) by {
                if k < s@.len() {
                    lemma_take_monotone(s@, k + 1, s@.len() as int);
                    assert(s@.take(s@.len() as int) =~= s@);
                }
            }
            assert(r@ =~= s@);
        }
    }
    r
}

/// The text of an address, or `未配置/无`.
pub open spec fn wechat_v4(e: NotificationEvent) -> Seq<char> {
    match e.ipv4 { Some(a) => ipv4_text(a), None => "未配置/无"@ }
}

/// The text of an address, or `未配置/无`.
pub open spec fn wechat_v6(e: NotificationEvent) -> Seq<char> {
    match e.ipv6 { Some(a) => ipv6_text(a), None => "未配置/无"@ }
}

/// Both addresses, the one present, or `未探测到有效IP`.
pub open spec fn wechat_ips(e: NotificationEvent) -> Seq<char> {
    if e.ipv4 is Some && e.ipv6 is Some {
        "IPv4: "@ + wechat_v4(e) + " | IPv6: "@ + wechat_v6(e)
    } else if e.ipv4 is Some {
        wechat_v4(e)
    } else if e.ipv6 is Some {
        wechat_v6(e)
    } else {
        "未探测到有效IP"@
    }
}

/// The user's template with its placeholders filled in, in this order.
pub open spec fn filled_template(t: Seq<char>, e: NotificationEvent) -> Seq<char> {
    let a = replaced(t, "#{status}"@, overall_label(e.overall_status));
    let b = replaced(a, "#{taskName}"@, e.task_name@);
    let c = replaced(b, "#{ipv4Addr}"@, wechat_v4(e));
    let d = replaced(c, "#{ipv6Addr}"@, wechat_v6(e));
    let f = replaced(d, "#{domains}"@, domains_text(e.results@));
    let g = replaced(f, "#{timestamp}"@, e.timestamp_text@);
    replaced(g, "#{details}"@, details_text(e.results@))
}

/// A template field: its value in the standard colour.
pub open spec fn field(key: Seq<char>, v: Seq<char>) -> (Seq<char>, Json) {
    (key, Json::Object(seq![("color"@, Json::Str("#173177"@))].push(("value"@, Json::Str(v)))))
}

/// The standard data, every usual variable name filled in (keys in sorted order). The
/// `thing` fields hold at most 20 bytes.
pub open spec fn default_data(e: NotificationEvent) -> Json {
    let st = overall_label(e.overall_status);
    let task = e.task_name@;
    let ips = wechat_ips(e);
    let v4 = wechat_v4(e);
    let v6 = wechat_v6(e);
    let doms = domains_text(e.results@);
    let time = e.timestamp_text@;
    let det = details_text(e.results@);
    Json::Object(seq![field("character_string1"@, v4)]
        .push(field("character_string2"@, doms))
        .push(field("content"@, det))
        .push(field("date"@, time))
        .push(field("details"@, det))
        .push(field("domain"@, doms))
        .push(field("domains"@, doms))
        .push(field("first"@, "【rddns 动态解析通知】"@ + st))
        .push(field("ip"@, ips))
        .push(field("ipv4"@, v4))
        .push(field("ipv4Addr"@, v4))
        .push(field("ipv6"@, v6))
        .push(field("ipv6Addr"@, v6))
        .push(field("keyword1"@, task))
        .push(field("keyword2"@, ips))
        .push(field("keyword3"@, doms))
        .push(field("keyword4"@, time))
        .push(field("keyword5"@, st))
        .push(field("phrase1"@, st))
        .push(field("remark"@, "\n更新详情:\n"@ + det))
        .push(field("status"@, st))
        .push(field("task"@, task))
        .push(field("taskName"@, task))
        .push(field("task_name"@, task))
        .push(field("thing1"@, task))
        .push(field("thing2"@, first_20_bytes(doms)))
        .push(field("thing3"@, first_20_bytes(ips)))
        .push(field("time"@, time))
        .push(field("time1"@, time))
        .push(field("time2"@, time))
        .push(field("timestamp"@, time)))
}

/// The template data sent: the user's template, filled in, where it is set (not blank)
/// and reads as JSON; else the standard data.
pub open spec fn template_data(c: WechatOfficialConfig, e: NotificationEvent) -> Json {
    match c.template_data {
        Some(t) => if !is_blank(t@) && json_normalized(filled_template(t@, e)) is Some {
            Json::Raw(json_normalized(filled_template(t@, e))->0)
        } else {
            default_data(e)
        },
        None => default_data(e),
    }
}

/// The recipients: the OpenIDs between `,` and `;`, trimmed, the empty ones left out.
pub open spec fn recipients(s: Seq<char>) -> Seq<Seq<char>> {
    kept(split_on(s.map_values(|c: char| if c == ';' { ',' } else { c }), ','))
}

/// The trimmed parts that are not empty.
pub open spec fn kept(parts: Seq<Seq<char>>) -> Seq<Seq<char>>
    decreases parts.len(),
{
    if parts.len() == 0 {
        Seq::empty()
    } else {
        let r = kept(parts.drop_last());
        if trim(parts.last()).len() > 0 { r.push(trim(parts.last())) } else { r }
    }
}

/// The answer to a token request.
#[derive(Debug, Clone)]
pub struct WechatTokenResponse {
    pub access_token: Option<String>,
    pub errcode: Option<i64>,
    pub errmsg: Option<String>,
}

/// The answer to a template message.
#[derive(Debug, Clone)]
pub struct WechatSendResponse {
    pub errcode: i64,
    pub errmsg: String,
}

/// Where a WeChat notification stands.
#[derive(Debug, Clone, PartialEq)]
pub enum WechatState {
    /// The access token was asked for.
    Token,
    /// The message for recipient `index` was posted with `token`.
    Posting { token: String, index: usize },
}

/// Sends template messages of a WeChat official account.
pub struct WechatOfficialNotifier {
    pub config: WechatOfficialConfig,
}

/// The message for one recipient.
pub open spec fn wechat_message(c: WechatOfficialConfig, e: NotificationEvent, user: Seq<char>) -> Json {
    let base = seq![("data"@, template_data(c, e))]
        .push(("template_id"@, Json::Str(trim(c.template_id@))))
        .push(("touser"@, Json::Str(user)));
    Json::Object(match c.url {
        Some(u) => if is_blank(u@) { base } else { base.push(("url"@, Json::Str(trim(u@)))) },
        None => base,
    })
}

/// URL of a template message with a token.
pub open spec fn wechat_send_url(token: Seq<char>) -> Seq<char> {
    "https://api.weixin.qq.com/cgi-bin/message/template/send?access_token="@ + token
}

impl WechatOfficialNotifier {
    /// A notifier with the given settings.
    pub fn new(config: WechatOfficialConfig) -> (r: Self)
        ensures r.config == config,
    {
        WechatOfficialNotifier { config }
    }

    /// The recipients of the configuration.
    pub fn recipients(&self) -> (r: Vec<String>)
        ensures r@.map_values(|x: String| x@) == recipients(self.config.to_user@),
    {
        let cs = chars_of(self.config.to_user.as_str());
        let mut mapped: Vec<char> = Vec::new();
        let mut i: usize = 0;
        while i < cs.len()
            invariant
                i <= cs@.len(),
                mapped@ == cs@.take(i as int).map_values(|c: char| if c == ';' { ',' } else { c }),
            decreases cs@.len() - i,
        {
            let c = cs[i];
            mapped.push(if c == ';' { ',' } else { c });
            assert(cs@.take(i + 1).map_values(|c: char| if c == ';' { ',' } else { c })
                =~= cs@.take(i as int).map_values(|c: char| if c == ';' { ',' } else { c }).push(if c == ';' { ',' } else { c }));
            i = i + 1;
        }
        assert(cs@.take(cs@.len() as int) =~= cs@);
        let parts = split_chars(mapped.as_slice(), ',');
        let mut out: Vec<String> = Vec::new();
        let mut j: usize = 0;
        while j < parts.len()
            invariant
                j <= parts@.len(),
                out@.map_values(|x: String| x@) == kept(views_of(parts@).take(j as int)),
            decreases parts@.len() - j,
        {
            assert(views_of(parts@).take(j + 1).drop_last() =~= views_of(parts@).take(j as int));
            let t = trim_chars(parts[j].as_slice());
            if t.len() > 0 {
                out.push(string_of(t.as_slice()));
                assert(out@.map_values(|x: String| x@) =~= kept(views_of(parts@).take(j as int)).push(t@));
            }
            j = j + 1;
        }
        assert(views_of(parts@).take(parts@.len() as int) =~= views_of(parts@));
        out
    }

    /// The template data for an event (see `template_data`).
    pub fn build_template_data(&self, event: &NotificationEvent) -> (r: JsonValue)
        requires cut_at_20_ok(domains_text(event.results@)),
        ensures deep(r) == template_data(self.config, *event),
    {
        let v4: String = match event.ipv4 { Some(a) => a.to_text(), None => "未配置/无".to_string() };
        let v6: String = match event.ipv6 { Some(a) => a.to_text(), None => "未配置/无".to_string() };
        let st = event.overall_status.as_str();
        let doms = event.domains_comma_separated();
        let det = event.format_details_text();
        match &self.config.template_data {
            Some(t) => {
                if !blank(t.as_str()) {
                    proof {
                        reveal_strlit("#{status}");
                        reveal_strlit("#{taskName}");
                        reveal_strlit("#{ipv4Addr}");
                        reveal_strlit("#{ipv6Addr}");
                        reveal_strlit("#{domains}");
                        reveal_strlit("#{timestamp}");
                        reveal_strlit("#{details}");
                    }
                    let a = replace_text(chars_of(t.as_str()).as_slice(), "#{status}", chars_of(st).as_slice());
                    let b = replace_text(a.as_slice(), "#{taskName}", chars_of(event.task_name.as_str()).as_slice());
                    let c = replace_text(b.as_slice(), "#{ipv4Addr}", chars_of(v4.as_str()).as_slice());
                    let d = replace_text(c.as_slice(), "#{ipv6Addr}", chars_of(v6.as_str()).as_slice());
                    let f = replace_text(d.as_slice(), "#{domains}", chars_of(doms.as_str()).as_slice());
                    let g = replace_text(f.as_slice(), "#{timestamp}", chars_of(event.timestamp_text.as_str()).as_slice());
                    let h = replace_text(g.as_slice(), "#{details}", chars_of(det.as_str()).as_slice());
                    match normalized_json(string_of(h.as_slice()).as_str()) {
                        Some(n) => { return JsonValue::Raw(n); },
                        None => {},
                    }
                }
            },
            None => {},
        }
        let ips: String = match (event.ipv4, event.ipv6) {
            (Some(_), Some(_)) => {
                let mut v: Vec<char> = Vec::new();
                append_str(&mut v, "IPv4: ");
                append_str(&mut v, v4.as_str());
                append_str(&mut v, " | IPv6: ");
                append_str(&mut v, v6.as_str());
                string_of(v.as_slice())
            },
            (Some(_), None) => v4.clone(),
            (None, Some(_)) => v6.clone(),
            (None, None) => "未探测到有效IP".to_string(),
        };
        let thing2 = cut_20_bytes(chars_of(doms.as_str()).as_slice());
        let thing3 = cut_20_bytes(chars_of(ips.as_str()).as_slice());
        let mut m: Vec<(String, JsonValue)> = Vec::new();
        push_field(&mut m, "character_string1", v4.as_str());
        push_field(&mut m, "character_string2", doms.as_str());
        push_field(&mut m, "content", det.as_str());
        push_field(&mut m, "date", event.timestamp_text.as_str());
        push_field(&mut m, "details", det.as_str());
        push_field(&mut m, "domain", doms.as_str());
        push_field(&mut m, "domains", doms.as_str());
        push_field(&mut m, "first", with_prefix("【rddns 动态解析通知】", st).as_str());
        push_field(&mut m, "ip", ips.as_str());
        push_field(&mut m, "ipv4", v4.as_str());
        push_field(&mut m, "ipv4Addr", v4.as_str());
        push_field(&mut m, "ipv6", v6.as_str());
        push_field(&mut m, "ipv6Addr", v6.as_str());
        push_field(&mut m, "keyword1", event.task_name.as_str());
        push_field(&mut m, "keyword2", ips.as_str());
        push_field(&mut m, "keyword3", doms.as_str());
        push_field(&mut m, "keyword4", event.timestamp_text.as_str());
        push_field(&mut m, "keyword5", st);
        push_field(&mut m, "phrase1", st);
        push_field(&mut m, "remark", with_prefix("\n更新详情:\n", det.as_str()).as_str());
        push_field(&mut m, "status", st);
        push_field(&mut m, "task", event.task_name.as_str());
        push_field(&mut m, "taskName", event.task_name.as_str());
        push_field(&mut m, "task_name", event.task_name.as_str());
        push_field(&mut m, "thing1", event.task_name.as_str());
        push_field(&mut m, "thing2", string_of(thing2.as_slice()).as_str());
        push_field(&mut m, "thing3", string_of(thing3.as_slice()).as_str());
        push_field(&mut m, "time", event.timestamp_text.as_str());
        push_field(&mut m, "time1", event.timestamp_text.as_str());
        push_field(&mut m, "time2", event.timestamp_text.as_str());
        push_field(&mut m, "timestamp", event.timestamp_text.as_str());
        JsonValue::object(m)
    }

    /// The first request: the access token of the account.
    pub fn start(&self) -> (r: (HttpRequest, WechatState))
        ensures
            r.0.method == HttpMethod::Get,
            r.0.url@ == "https://api.weixin.qq.com/cgi-bin/token?grant_type=client_credential&appid="@
                + trim(self.config.app_id@) + "&secret="@ + trim(self.config.app_secret@),
            r.0.headers@.len() == 0,
            r.0.body is None,
            r.1 == WechatState::Token,
    {
        let mut v: Vec<char> = Vec::new();
        append_str(&mut v, "https://api.weixin.qq.com/cgi-bin/token?grant_type=client_credential&appid=");
        append_chars(&mut v, trim_chars(chars_of(self.config.app_id.as_str()).as_slice()).as_slice());
        append_str(&mut v, "&secret=");
        append_chars(&mut v, trim_chars(chars_of(self.config.app_secret.as_str()).as_slice()).as_slice());
        (HttpRequest { method: HttpMethod::Get, url: string_of(v.as_slice()), headers: Vec::new(), body: None }, WechatState::Token)
    }

    fn post(&self, event: &NotificationEvent, token: &str, user: &str) -> (r: HttpRequest)
        requires cut_at_20_ok(domains_text(event.results@)),
        ensures is_json_post(r, wechat_send_url(token@), wechat_message(self.config, *event, user@)),
    {
        let mut m: Vec<(String, JsonValue)> = Vec::new();
        push_member(&mut m, "data", self.build_template_data(event));
        push_member(&mut m, "template_id", JsonValue::Str(string_of(trim_chars(chars_of(self.config.template_id.as_str()).as_slice()).as_slice())));
        push_member(&mut m, "touser", JsonValue::text(user));
        match &self.config.url {
            Some(u) => if !blank(u.as_str()) {
                push_member(&mut m, "url", JsonValue::Str(string_of(trim_chars(chars_of(u.as_str()).as_slice()).as_slice())));
            },
            None => {},
        }
        let mut headers: Vec<(String, String)> = Vec::new();
        headers.push(("Content-Type".to_string(), "application/json".to_string()));
        let body = JsonValue::object(m);
        HttpRequest {
            method: HttpMethod::Post,
            url: with_prefix("https://api.weixin.qq.com/cgi-bin/message/template/send?access_token=", token),
            headers,
            body: Some(body.to_text()),
        }
    }

    /// The decision on the token answer (`parsed`: `Err` with the client's message where
    /// it could not be read): a token (not empty) starts the posts, unless there is no
    /// recipient; otherwise the answer's code (-1 where missing) and message stop it.
    pub fn on_token(&self, event: &NotificationEvent, parsed: Result<WechatTokenResponse, String>)
        -> (r: NotifyStep<WechatState>)
        requires cut_at_20_ok(domains_text(event.results@)),
        ensures
            match parsed {
                Err(e) => r == NotifyStep::<WechatState>::Done(Err(NotifyError::Http(e))),
                Ok(t) => match t.access_token {
                    Some(tok) => if tok@.len() > 0 {
                        let users = recipients(self.config.to_user@);
                        if users.len() == 0 {
                            r matches NotifyStep::Done(res) && is_provider_error(res, "微信公众号未配置接收用户的 OpenID"@)
                        } else {
                            r matches NotifyStep::Send(req, WechatState::Posting { token, index }) && index == 0
                                && token@ == tok@
                                && is_json_post(req, wechat_send_url(tok@), wechat_message(self.config, *event, users[0]))
                        }
                    } else {
                        r matches NotifyStep::Done(res) && is_provider_error(res, "微信公众号获取 AccessToken 失败 ["@
                            + signed_text(match t.errcode { Some(c) => c as int, None => -1 }) + "]: "@
                            + match t.errmsg { Some(m) => m@, None => "未知凭证错误"@ })
                    },
                    None => r matches NotifyStep::Done(res) && is_provider_error(res, "微信公众号获取 AccessToken 失败 ["@
                        + signed_text(match t.errcode { Some(c) => c as int, None => -1 }) + "]: "@
                        + match t.errmsg { Some(m) => m@, None => "未知凭证错误"@ }),
                },
            },
    {
        let t = match parsed {
            Err(e) => { return NotifyStep::Done(Err(NotifyError::Http(e))); },
            Ok(t) => t,
        };
        let tok: Option<String> = match t.access_token {
            Some(x) => if chars_of(x.as_str()).len() > 0 { Some(x) } else { None },
            None => None,
        };
        match tok {
            Some(token) => {
                let users = self.recipients();
                if users.len() == 0 {
                    return NotifyStep::Done(Err(NotifyError::Provider("微信公众号未配置接收用户的 OpenID".to_string())));
                }
                let req = self.post(event, token.as_str(), users[0].as_str());
                NotifyStep::Send(req, WechatState::Posting { token, index: 0 })
            },
            None => {
                let code: i64 = match t.errcode { Some(c) => c, None => -1 };
                let msg: String = match t.errmsg { Some(m) => m, None => "未知凭证错误".to_string() };
                let head = joined("微信公众号获取 AccessToken 失败 [", signed_decimal_text(code).as_str(), "]: ");
                NotifyStep::Done(Err(NotifyError::Provider(with_prefix(head.as_str(), msg.as_str()))))
            },
        }
    }

    /// The decision on the answer for recipient `index`: a non-zero code stops it; else
    /// the next recipient's message, or the end.
    pub fn on_post(
        &self,
        event: &NotificationEvent,
        token: &str,
        index: usize,
        parsed: Result<WechatSendResponse, String>,
    ) -> (r: NotifyStep<WechatState>)
        requires cut_at_20_ok(domains_text(event.results@)),
        ensures
            match parsed {
                Err(e) => r == NotifyStep::<WechatState>::Done(Err(NotifyError::Http(e))),
                Ok(a) => if a.errcode != 0 {
                    r matches NotifyStep::Done(res) && is_provider_error(res, "微信公众号推送失败 ["@
                        + signed_text(a.errcode as int) + "]: "@ + a.errmsg@)
                } else {
                    let users = recipients(self.config.to_user@);
                    if index + 1 < users.len() {
                        r matches NotifyStep::Send(req, WechatState::Posting { token: t, index: i }) && i == index + 1
                            && t@ == token@
                            && is_json_post(req, wechat_send_url(token@), wechat_message(self.config, *event, users[index + 1]))
                    } else {
                        r matches NotifyStep::Done(Ok(()))
                    }
                },
            },
    {
        let a = match parsed {
            Err(e) => { return NotifyStep::Done(Err(NotifyError::Http(e))); },
            Ok(a) => a,
        };
        if a.errcode != 0 {
            let head = joined("微信公众号推送失败 [", signed_decimal_text(a.errcode).as_str(), "]: ");
            return NotifyStep::Done(Err(NotifyError::Provider(with_prefix(head.as_str(), a.errmsg.as_str()))));
        }
        let users = self.recipients();
        if index < users.len() && index + 1 < users.len() {
            let req = self.post(event, token, users[index + 1].as_str());
            proof {
                assert(users@.map_values(|x: String| x@)[index + 1] == users@[index + 1]@);
            }
            NotifyStep::Send(req, WechatState::Posting { token: token.to_string(), index: index + 1 })
        } else {
            NotifyStep::Done(Ok(()))
        }
    }
}

fn push_field(m: &mut Vec<(String, JsonValue)>, key: &str, v: &str)
    ensures crate::json::deep_members(final(m)@) == crate::json::deep_members(old(m)@).push(field(key@, v@)),
{
    let mut inner: Vec<(String, JsonValue)> = Vec::new();
    push_member(&mut inner, "color", JsonValue::text("#173177"));
    push_member(&mut inner, "value", JsonValue::text(v));
    push_member(m, key, JsonValue::object(inner));
}

} // verus!
