//! The Feishu robot's interactive card (schema 2.0) for a notification event.
use vstd::prelude::*;
use crate::config::FeishuConfig;
use crate::json::{Json, JsonValue, deep, deep_members, deep_seq, push_item, push_member};
use crate::net::{ipv4_text, ipv6_text};
use crate::notify::{NotificationEvent, NotificationOverallStatus};
use crate::records::{DnsRecordType, SyncRecordResult, SyncStatus, record_type_name};
use crate::text::{append_str, string_of, chars_of, trim, trim_chars, is_blank, blank};
use crate::crypto::{base64_encode, base64_standard, hmac256, hmac_sha256};
use crate::tc3::utf8;
use crate::notify::{signed_decimal_text, signed_text};

verus! {

broadcast use vstd::string::group_string_axioms;

/// Sends notifications to a Feishu robot.
pub struct FeishuNotifier {
    pub config: FeishuConfig,
}

/// The Feishu signature at `t` (seconds): base64 of the HMAC-SHA-256 keyed by the time and
/// the secret on two lines, over no data.
pub open spec fn feishu_sign(secret: Seq<char>, t: int) -> Seq<char> {
    base64_standard(hmac256(utf8(signed_text(t) + seq!['\n'] + secret), Seq::empty()))
}

/// An object with members added at its end.
pub open spec fn with_members(j: Json, extra: Seq<(Seq<char>, Json)>) -> Json {
    match j {
        Json::Object(ms) => Json::Object(ms + extra),
        _ => j,
    }
}

fn feishu_signature_of(key: &str, t: i64) -> (r: String)
    ensures r@ == feishu_sign(key@, t as int),
{
    let mut sts: Vec<char> = Vec::new();
    append_str(&mut sts, signed_decimal_text(t).as_str());
    sts.push('\n');
    append_str(&mut sts, key);
    let sts_text = string_of(sts.as_slice());
    assert(sts_text@ =~= signed_text(t as int) + seq!['\n'] + key@);
    let empty: Vec<u8> = Vec::new();
    let kb = sts_text.as_str().as_bytes();
    let mac = hmac_sha256(kb, empty.as_slice());
    assert(empty@ =~= Seq::<u8>::empty());
    assert(mac@ == hmac256(utf8(signed_text(t as int) + seq!['\n'] + key@), Seq::empty()));
    base64_encode(mac.as_slice())
}

impl FeishuNotifier {
    /// The message posted at `timestamp_secs`: the card, and, where the secret is set and
    /// not blank, the time (as text) and the signature keyed by the trimmed secret.
    pub fn signed_payload(&self, event: &NotificationEvent, timestamp_secs: i64) -> (r: JsonValue)
        ensures
            deep(r) == match self.config.secret {
                Some(s) => if is_blank(s@) { card_json(*event) } else {
                    with_members(card_json(*event), seq![("timestamp"@, Json::Str(signed_text(timestamp_secs as int))),
                        ("sign"@, Json::Str(feishu_sign(trim(s@), timestamp_secs as int)))])
                },
                None => card_json(*event),
            },
    {
        let card = Self::build_card_payload(event);
        let key: String = match &self.config.secret {
            None => { return card; },
            Some(s) => {
                if blank(s.as_str()) {
                    return card;
                }
                string_of(trim_chars(chars_of(s.as_str()).as_slice()).as_slice())
            },
        };
        let sig = feishu_signature_of(key.as_str(), timestamp_secs);
        match card {
            JsonValue::Object(m) => {
                let mut m = m;
                let ghost m0 = deep_members(m@);
                push_member(&mut m, "timestamp", JsonValue::Str(signed_decimal_text(timestamp_secs)));
                push_member(&mut m, "sign", JsonValue::Str(sig));
                assert(deep_members(m@) =~= m0 + seq![("timestamp"@, Json::Str(signed_text(timestamp_secs as int))),
                    ("sign"@, Json::Str(sig@))]);
                JsonValue::Object(m)
            },
            other => other,
        }
    }

    /// A notifier with the given settings.
    pub fn new(config: FeishuConfig) -> (r: Self)
        ensures r.config == config,
    {
        FeishuNotifier { config }
    }

    /// The card message for `event`: header colour and status by the overall outcome,
    /// task name, addresses and time, and a table with one row per record result.
    pub fn build_card_payload(event: &NotificationEvent) -> (r: JsonValue)
        ensures deep(r) == card_json(*event),
    {
        let (header_template, status_color, status_title) = header_style(event.overall_status);
        let ipv4_str: String = match event.ipv4 {
            Some(ip) => ip.to_text(),
            None => "未获取 / 未启用".to_string(),
        };
        let ipv6_str: String = match event.ipv6 {
            Some(ip) => ip.to_text(),
            None => "未获取 / 未启用".to_string(),
        };
        let mut rows: Vec<JsonValue> = Vec::new();
        let mut i: usize = 0;
        assert(event.results@.take(0).map_values(|x: SyncRecordResult| result_row(x)) =~= Seq::<Json>::empty());
        while i < event.results.len()
            invariant
                i <= event.results@.len(),
                deep_seq(rows@) == event.results@.take(i as int).map_values(|x: SyncRecordResult| result_row(x)),
            decreases event.results@.len() - i,
        {
            push_item(&mut rows, row_of(&event.results[i]));
            assert(event.results@.take(i + 1).map_values(|x: SyncRecordResult| result_row(x))
                =~= event.results@.take(i as int).map_values(|x: SyncRecordResult| result_row(x)).push(result_row(event.results@[i as int])));
            i = i + 1;
        }
        assert(event.results@.take(event.results@.len() as int) =~= event.results@);
        let page_size: usize = if event.results.len() > 5 { event.results.len() } else { 5 };

        let mut name_text: Vec<char> = Vec::new();
        append_str(&mut name_text, "**任务名称**\n");
        append_str(&mut name_text, event.task_name.as_str());
        let mut status_text: Vec<char> = Vec::new();
        append_str(&mut status_text, "**同步状态**\n");
        append_str(&mut status_text, "<font color='");
        append_str(&mut status_text, status_color);
        append_str(&mut status_text, "'>");
        append_str(&mut status_text, status_title);
        append_str(&mut status_text, "</font>");
        proof {
            let (_, sc, st) = header_spec(event.overall_status);
            assert(name_text@ =~= "**任务名称**\n"@ + event.task_name@);
            assert(status_text@ =~= "**同步状态**\n"@ + font(sc, st));
        }
        let mut fields: Vec<JsonValue> = Vec::new();
        push_item(&mut fields, short_field(string_of(name_text.as_slice())));
        push_item(&mut fields, short_field(string_of(status_text.as_slice())));
        let mut first: Vec<(String, JsonValue)> = Vec::new();
        push_member(&mut first, "tag", JsonValue::text("div"));
        push_member(&mut first, "fields", JsonValue::array(fields));

        let mut addr_text: Vec<char> = Vec::new();
        append_str(&mut addr_text, "**IPv4 地址**：");
        append_str(&mut addr_text, ipv4_str.as_str());
        append_str(&mut addr_text, "\n**IPv6 地址**：");
        append_str(&mut addr_text, ipv6_str.as_str());
        append_str(&mut addr_text, "\n**触发时间**：");
        append_str(&mut addr_text, event.timestamp_text.as_str());

        proof {
            let v4 = addr_or_missing(match event.ipv4 { Some(a) => Some(ipv4_text(a)), None => None });
            let v6 = addr_or_missing(match event.ipv6 { Some(a) => Some(ipv6_text(a)), None => None });
            assert(ipv4_str@ == v4);
            assert(ipv6_str@ == v6);
            assert(addr_text@ =~= "**IPv4 地址**："@ + v4 + "\n**IPv6 地址**："@ + v6 + "\n**触发时间**："@ + event.timestamp_text@);
        }
        let mut elements: Vec<JsonValue> = Vec::new();
        push_item(&mut elements, JsonValue::object(first));
        push_item(&mut elements, div_text(string_of(addr_text.as_slice())));
        push_item(&mut elements, hr());
        push_item(&mut elements, div_text("**解析明细结果**".to_string()));
        push_item(&mut elements, table(page_size, rows));
        push_item(&mut elements, hr());
        push_item(&mut elements, div_text(
            "<font color='grey'>本通知由 rddns (基于 Rust 的高性能 DDNS 引擎) 自动发出</font>".to_string(),
        ));

        let mut body: Vec<(String, JsonValue)> = Vec::new();
        push_member(&mut body, "elements", JsonValue::array(elements));

        let mut config: Vec<(String, JsonValue)> = Vec::new();
        push_member(&mut config, "wide_screen_mode", JsonValue::Bool(true));

        let mut title: Vec<(String, JsonValue)> = Vec::new();
        push_member(&mut title, "tag", JsonValue::text("plain_text"));
        push_member(&mut title, "content", JsonValue::text("rddns 动态域名解析通知"));
        let mut header: Vec<(String, JsonValue)> = Vec::new();
        push_member(&mut header, "template", JsonValue::text(header_template));
        push_member(&mut header, "title", JsonValue::object(title));

        let mut card: Vec<(String, JsonValue)> = Vec::new();
        push_member(&mut card, "schema", JsonValue::text("2.0"));
        push_member(&mut card, "config", JsonValue::object(config));
        push_member(&mut card, "header", JsonValue::object(header));
        push_member(&mut card, "body", JsonValue::object(body));

        let mut top: Vec<(String, JsonValue)> = Vec::new();
        push_member(&mut top, "msg_type", JsonValue::text("interactive"));
        push_member(&mut top, "card", JsonValue::object(card));
        JsonValue::object(top)
    }
}

/// Header colour, status colour and status title of an overall outcome.
pub open spec fn header_spec(s: NotificationOverallStatus) -> (Seq<char>, Seq<char>, Seq<char>) {
    match s {
        NotificationOverallStatus::Success => ("green"@, "green"@, "● 全部同步成功"@),
        NotificationOverallStatus::PartialSuccess => ("orange"@, "orange"@, "● 部分同步成功"@),
        NotificationOverallStatus::Failed => ("red"@, "red"@, "● 同步出现错误"@),
    }
}

fn header_style(s: NotificationOverallStatus) -> (r: (&'static str, &'static str, &'static str))
    ensures (r.0@, r.1@, r.2@) == header_spec(s),
{
    match s {
        NotificationOverallStatus::Success => ("green", "green", "● 全部同步成功"),
        NotificationOverallStatus::PartialSuccess => ("orange", "orange", "● 部分同步成功"),
        NotificationOverallStatus::Failed => ("red", "red", "● 同步出现错误"),
    }
}

/// Colour and label of a record's status in the table.
pub open spec fn row_status_spec(s: SyncStatus) -> (Seq<char>, Seq<char>) {
    match s {
        SyncStatus::Created => ("green"@, "新建"@),
        SyncStatus::Updated => ("blue"@, "更新"@),
        SyncStatus::Unchanged => ("grey"@, "保持"@),
        SyncStatus::Failed => ("red"@, "失败"@),
    }
}

fn row_status(s: SyncStatus) -> (r: (&'static str, &'static str))
    ensures (r.0@, r.1@) == row_status_spec(s),
{
    match s {
        SyncStatus::Created => ("green", "新建"),
        SyncStatus::Updated => ("blue", "更新"),
        SyncStatus::Unchanged => ("grey", "保持"),
        SyncStatus::Failed => ("red", "失败"),
    }
}

/// `<font color='C'>T</font>`.
pub open spec fn font(color: Seq<char>, text: Seq<char>) -> Seq<char> {
    "<font color='"@ + color + "'>"@ + text + "</font>"@
}

/// One table row.
pub open spec fn result_row(r: SyncRecordResult) -> Json {
    let (color, label) = row_status_spec(r.status);
    Json::Object(seq![("domain"@, Json::Str(r.domain@))]
        .push(("record_type"@, Json::Str(record_type_name(r.record_type))))
        .push(("target_ip"@, Json::Str(r.target_ip@)))
        .push(("status"@, Json::Str(font(color, label))))
        .push(("message"@, Json::Str(r.message@))))
}

fn row_of(r: &SyncRecordResult) -> (j: JsonValue)
    ensures deep(j) == result_row(*r),
{
    let (color, label) = row_status(r.status);
    let mut st: Vec<char> = Vec::new();
    append_str(&mut st, "<font color='");
    append_str(&mut st, color);
    append_str(&mut st, "'>");
    append_str(&mut st, label);
    append_str(&mut st, "</font>");
    let mut m: Vec<(String, JsonValue)> = Vec::new();
    push_member(&mut m, "domain", JsonValue::text(r.domain.as_str()));
    push_member(&mut m, "record_type", JsonValue::text(r.record_type.as_str()));
    push_member(&mut m, "target_ip", JsonValue::text(r.target_ip.as_str()));
    push_member(&mut m, "status", JsonValue::Str(string_of(st.as_slice())));
    push_member(&mut m, "message", JsonValue::text(r.message.as_str()));
    proof {
        let (c, l) = row_status_spec(r.status);
        assert(st@ =~= font(c, l));
    }
    JsonValue::object(m)
}

/// A markdown text block.
pub open spec fn lark_md(content: Seq<char>) -> Json {
    Json::Object(seq![("tag"@, Json::Str("lark_md"@))].push(("content"@, Json::Str(content))))
}

fn lark_md_value(content: String) -> (j: JsonValue)
    ensures deep(j) == lark_md(content@),
{
    let mut m: Vec<(String, JsonValue)> = Vec::new();
    push_member(&mut m, "tag", JsonValue::text("lark_md"));
    push_member(&mut m, "content", JsonValue::Str(content));
    JsonValue::object(m)
}

/// A half-width field.
pub open spec fn short_field_spec(content: Seq<char>) -> Json {
    Json::Object(seq![("is_short"@, Json::Bool(true))].push(("text"@, lark_md(content))))
}

fn short_field(content: String) -> (j: JsonValue)
    ensures deep(j) == short_field_spec(content@),
{
    let mut m: Vec<(String, JsonValue)> = Vec::new();
    push_member(&mut m, "is_short", JsonValue::Bool(true));
    push_member(&mut m, "text", lark_md_value(content));
    JsonValue::object(m)
}

/// A `div` holding one markdown text.
pub open spec fn div_text_spec(content: Seq<char>) -> Json {
    Json::Object(seq![("tag"@, Json::Str("div"@))].push(("text"@, lark_md(content))))
}

fn div_text(content: String) -> (j: JsonValue)
    ensures deep(j) == div_text_spec(content@),
{
    let mut m: Vec<(String, JsonValue)> = Vec::new();
    push_member(&mut m, "tag", JsonValue::text("div"));
    push_member(&mut m, "text", lark_md_value(content));
    JsonValue::object(m)
}

/// A horizontal rule.
pub open spec fn hr_spec() -> Json {
    Json::Object(seq![("tag"@, Json::Str("hr"@))])
}

fn hr() -> (j: JsonValue)
    ensures deep(j) == hr_spec(),
{
    let mut m: Vec<(String, JsonValue)> = Vec::new();
    push_member(&mut m, "tag", JsonValue::text("hr"));
    JsonValue::object(m)
}

/// A table column.
pub open spec fn column_spec(name: Seq<char>, display: Seq<char>, data_type: Seq<char>) -> Json {
    Json::Object(seq![("name"@, Json::Str(name))]
        .push(("display_name"@, Json::Str(display)))
        .push(("data_type"@, Json::Str(data_type)))
        .push(("width"@, Json::Str("auto"@))))
}

fn column(name: &str, display: &str, data_type: &str) -> (j: JsonValue)
    ensures deep(j) == column_spec(name@, display@, data_type@),
{
    let mut m: Vec<(String, JsonValue)> = Vec::new();
    push_member(&mut m, "name", JsonValue::text(name));
    push_member(&mut m, "display_name", JsonValue::text(display));
    push_member(&mut m, "data_type", JsonValue::text(data_type));
    push_member(&mut m, "width", JsonValue::text("auto"));
    JsonValue::object(m)
}

/// The result table.
pub open spec fn table_spec(page_size: int, rows: Seq<Json>) -> Json {
    let header_style = Json::Object(seq![("bold"@, Json::Bool(true))]
        .push(("text_align"@, Json::Str("left"@))));
    let columns = seq![column_spec("domain"@, "域名"@, "text"@)]
        .push(column_spec("record_type"@, "类型"@, "text"@))
        .push(column_spec("target_ip"@, "目标 IP"@, "text"@))
        .push(column_spec("status"@, "状态"@, "lark_md"@))
        .push(column_spec("message"@, "详情"@, "text"@));
    Json::Object(seq![("tag"@, Json::Str("table"@))]
        .push(("page_size"@, Json::Int(page_size)))
        .push(("row_height"@, Json::Str("low"@)))
        .push(("header_style"@, header_style))
        .push(("columns"@, Json::Array(columns)))
        .push(("rows"@, Json::Array(rows))))
}

fn table(page_size: usize, rows: Vec<JsonValue>) -> (j: JsonValue)
    ensures deep(j) == table_spec(page_size as int, deep_seq(rows@)),
{
    let mut style: Vec<(String, JsonValue)> = Vec::new();
    push_member(&mut style, "bold", JsonValue::Bool(true));
    push_member(&mut style, "text_align", JsonValue::text("left"));
    let mut cols: Vec<JsonValue> = Vec::new();
    push_item(&mut cols, column("domain", "域名", "text"));
    push_item(&mut cols, column("record_type", "类型", "text"));
    push_item(&mut cols, column("target_ip", "目标 IP", "text"));
    push_item(&mut cols, column("status", "状态", "lark_md"));
    push_item(&mut cols, column("message", "详情", "text"));
    let mut m: Vec<(String, JsonValue)> = Vec::new();
    push_member(&mut m, "tag", JsonValue::text("table"));
    push_member(&mut m, "page_size", JsonValue::UInt(page_size as u64));
    push_member(&mut m, "row_height", JsonValue::text("low"));
    push_member(&mut m, "header_style", JsonValue::object(style));
    push_member(&mut m, "columns", JsonValue::array(cols));
    push_member(&mut m, "rows", JsonValue::array(rows));
    JsonValue::object(m)
}

/// Text of an optional address, or the "not obtained" mark.
pub open spec fn addr_or_missing(text: Option<Seq<char>>) -> Seq<char> {
    match text {
        Some(t) => t,
        None => "未获取 / 未启用"@,
    }
}

/// The whole card message for an event.
pub open spec fn card_json(e: NotificationEvent) -> Json {
    let (header_template, status_color, status_title) = header_spec(e.overall_status);
    let v4 = addr_or_missing(match e.ipv4 { Some(a) => Some(ipv4_text(a)), None => None });
    let v6 = addr_or_missing(match e.ipv6 { Some(a) => Some(ipv6_text(a)), None => None });
    let page_size = if e.results@.len() > 5 { e.results@.len() as int } else { 5 };
    let fields = Json::Array(seq![short_field_spec("**任务名称**\n"@ + e.task_name@)]
        .push(short_field_spec("**同步状态**\n"@ + font(status_color, status_title))));
    let addresses = "**IPv4 地址**："@ + v4 + "\n**IPv6 地址**："@ + v6 + "\n**触发时间**："@
        + e.timestamp_text@;
    let elements = seq![Json::Object(seq![("tag"@, Json::Str("div"@))].push(("fields"@, fields)))]
        .push(div_text_spec(addresses))
        .push(hr_spec())
        .push(div_text_spec("**解析明细结果**"@))
        .push(table_spec(page_size, e.results@.map_values(|x: SyncRecordResult| result_row(x))))
        .push(hr_spec())
        .push(div_text_spec("<font color='grey'>本通知由 rddns (基于 Rust 的高性能 DDNS 引擎) 自动发出</font>"@));
    let title = Json::Object(seq![("tag"@, Json::Str("plain_text"@))]
        .push(("content"@, Json::Str("rddns 动态域名解析通知"@))));
    let header = Json::Object(seq![("template"@, Json::Str(header_template))].push(("title"@, title)));
    let card = Json::Object(seq![("schema"@, Json::Str("2.0"@))]
        .push(("config"@, Json::Object(seq![("wide_screen_mode"@, Json::Bool(true))])))
        .push(("header"@, header))
        .push(("body"@, Json::Object(seq![("elements"@, Json::Array(elements))]))));
    Json::Object(seq![("msg_type"@, Json::Str("interactive"@))].push(("card"@, card)))
}

} // verus!
