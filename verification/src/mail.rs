//! The SMTP mail channel: its settings and the HTML page it sends.
use vstd::prelude::*;
use crate::config::EmailConfig;
use crate::net::{ipv4_text, ipv6_text};
use crate::notify::{NotificationEvent, NotificationOverallStatus, overall_label};
use crate::records::{SyncRecordResult, SyncStatus, record_type_name};
use crate::text::{append_str, string_of};

verus! {

broadcast use vstd::string::group_string_axioms;

/// Part 0 of a result row of the mail table.
pub const ROW_0: &'static str = r#"<tr>
                    <td style="padding:10px 10px;border-bottom:1px solid #e2e8f0;font-family:monospace;font-weight:600;color:#1e293b;font-size:12px;white-space:nowrap;">"#;

/// Part 1 of a result row of the mail table.
pub const ROW_1: &'static str = r#"</td>
                    <td style="padding:10px 6px;border-bottom:1px solid #e2e8f0;text-align:center;white-space:nowrap;"><span style="background:#f1f5f9;padding:2px 6px;border-radius:4px;font-size:11px;font-weight:700;color:#475569;font-family:monospace;">"#;

/// Part 2 of a result row of the mail table.
pub const ROW_2: &'static str = r#"</span></td>
                    <td style="padding:10px 10px;border-bottom:1px solid #e2e8f0;font-family:monospace;color:#334155;font-size:11px;word-break:break-all;line-height:1.3;">"#;

/// Part 3 of a result row of the mail table.
pub const ROW_3: &'static str = r#"</td>
                    <td style="padding:10px 8px;border-bottom:1px solid #e2e8f0;text-align:center;white-space:nowrap;"><span style="background:"#;

/// Part 4 of a result row of the mail table.
pub const ROW_4: &'static str = r#";color:"#;

/// Part 5 of a result row of the mail table.
pub const ROW_5: &'static str = r#";padding:3px 8px;border-radius:12px;font-size:12px;font-weight:600;white-space:nowrap;display:inline-block;">"#;

/// Part 6 of a result row of the mail table.
pub const ROW_6: &'static str = r#"</span></td>
                    <td style="padding:10px 10px;border-bottom:1px solid #e2e8f0;font-size:12px;color:#64748b;line-height:1.4;">"#;

/// Part 7 of a result row of the mail table.
pub const ROW_7: &'static str = r#"</td>
                </tr>"#;

/// Part 0 of the mail page.
pub const PAGE_0: &'static str = r#"<!DOCTYPE html>
<html>
<head>
  <meta charset="utf-8">
  <meta name="viewport" content="width=device-width, initial-scale=1.0">
  <title>rddns 解析通知</title>
</head>
<body style="margin:0;padding:24px 12px;background-color:#f8fafc;font-family:-apple-system,BlinkMacSystemFont,'Segoe UI',Roboto,Helvetica,Arial,sans-serif;color:#0f172a;-webkit-font-smoothing:antialiased;">
  <table width="100%" border="0" cellspacing="0" cellpadding="0">
    <tr>
      <td align="center">
        <table width="100%" border="0" cellspacing="0" cellpadding="0" style="max-width:620px;background:#ffffff;border-radius:12px;border:1px solid #e2e8f0;overflow:hidden;box-shadow:0 4px 6px -1px rgba(0,0,0,0.05);">
          <!-- 顶部渐变装饰条 -->
          <tr>
            <td height="4" style="background:linear-gradient(90deg,#6366f1 0%,#06b6d4 100%);"></td>
          </tr>

          <!-- 品牌与标题区 -->
          <tr>
            <td style="padding:24px 28px 16px 28px;">
              <table width="100%" border="0" cellspacing="0" cellpadding="0">
                <tr>
                  <td>
                    <span style="font-size:20px;font-weight:800;letter-spacing:-0.5px;color:#4f46e5;">rddns</span>
                    <span style="font-size:14px;color:#64748b;margin-left:8px;font-weight:500;">动态域名解析系统</span>
                  </td>
                  <td align="right">
                    <span style="font-size:12px;color:#94a3b8;font-family:monospace;">"#;

/// Part 1 of the mail page.
pub const PAGE_1: &'static str = r#"</span>
                  </td>
                </tr>
              </table>
            </td>
          </tr>

          <!-- 状态通知卡片 -->
          <tr>
            <td style="padding:0 28px 20px 28px;">
              <div style="background:"#;

/// Part 2 of the mail page.
pub const PAGE_2: &'static str = r#";border:1px solid "#;

/// Part 3 of the mail page.
pub const PAGE_3: &'static str = r#";border-radius:8px;padding:14px 16px;">
                <span style="font-size:14px;font-weight:700;color:"#;

/// Part 4 of the mail page.
pub const PAGE_4: &'static str = r#";">● 状态: "#;

/// Part 5 of the mail page.
pub const PAGE_5: &'static str = r#"</span>
                <span style="font-size:13px;color:"#;

/// Part 6 of the mail page.
pub const PAGE_6: &'static str = r#";margin-left:12px;">任务名称: <strong>"#;

/// Part 7 of the mail page.
pub const PAGE_7: &'static str = r#"</strong></span>
              </div>
            </td>
          </tr>

          <!-- IP 地址概览卡片 -->
          <tr>
            <td style="padding:0 28px 20px 28px;">
              <table width="100%" border="0" cellspacing="0" cellpadding="0">
                <tr>
                  <td width="48%" style="background:#f8fafc;border:1px solid #e2e8f0;border-radius:8px;padding:12px 16px;" valign="top">
                    <div style="font-size:12px;color:#64748b;font-weight:600;margin-bottom:4px;">IPv4 地址</div>
                    <div style="font-size:15px;font-family:monospace;font-weight:700;color:#1e293b;word-break:break-all;">"#;

/// Part 8 of the mail page.
pub const PAGE_8: &'static str = r#"</div>
                  </td>
                  <td width="4%"></td>
                  <td width="48%" style="background:#f8fafc;border:1px solid #e2e8f0;border-radius:8px;padding:12px 16px;" valign="top">
                    <div style="font-size:12px;color:#64748b;font-weight:600;margin-bottom:4px;">IPv6 地址</div>
                    <div style="font-size:13px;font-family:monospace;font-weight:700;color:#1e293b;word-break:break-all;">"#;

/// Part 9 of the mail page.
pub const PAGE_9: &'static str = r#"</div>
                  </td>
                </tr>
              </table>
            </td>
          </tr>

          <!-- 域名解析明细表 -->
          <tr>
            <td style="padding:0 28px 24px 28px;">
              <div style="font-size:14px;font-weight:700;color:#1e293b;margin-bottom:10px;">解析明细结果</div>
              <table width="100%" border="0" cellspacing="0" cellpadding="0" style="border:1px solid #e2e8f0;border-radius:8px;border-collapse:collapse;font-size:13px;text-align:left;">
                <thead>
                  <tr style="background:#f8fafc;color:#64748b;font-size:12px;font-weight:600;">
                    <th style="padding:10px 10px;border-bottom:1px solid #e2e8f0;white-space:nowrap;">域名</th>
                    <th style="padding:10px 6px;border-bottom:1px solid #e2e8f0;text-align:center;white-space:nowrap;">类型</th>
                    <th style="padding:10px 10px;border-bottom:1px solid #e2e8f0;white-space:nowrap;">目标 IP</th>
                    <th style="padding:10px 8px;border-bottom:1px solid #e2e8f0;text-align:center;white-space:nowrap;">状态</th>
                    <th style="padding:10px 10px;border-bottom:1px solid #e2e8f0;white-space:nowrap;">详情</th>
                  </tr>
                </thead>
                <tbody>
                  "#;

/// Part 10 of the mail page.
pub const PAGE_10: &'static str = r#"
                </tbody>
              </table>
            </td>
          </tr>

          <!-- 底部版权与说明 -->
          <tr>
            <td style="background:#f8fafc;padding:16px 28px;border-top:1px solid #e2e8f0;font-size:12px;color:#94a3b8;text-align:center;">
              本邮件由 <strong>rddns</strong> (基于 Rust 的高性能 DDNS 引擎) 自动发出 · 请勿直接回复
            </td>
          </tr>
        </table>
      </td>
    </tr>
  </table>
</body>
</html>"#;

/// Sends notifications by mail.
pub struct EmailNotifier {
    pub config: EmailConfig,
}

/// Background, text colour, border colour and title of the status card.
pub open spec fn card_style(s: NotificationOverallStatus) -> (Seq<char>, Seq<char>, Seq<char>, Seq<char>) {
    match s {
        NotificationOverallStatus::Success => ("#ecfdf5"@, "#065f46"@, "#a7f3d0"@, "同步成功"@),
        NotificationOverallStatus::Failed => ("#fef2f2"@, "#991b1b"@, "#fecaca"@, "同步失败"@),
        NotificationOverallStatus::PartialSuccess => ("#fffbeb"@, "#92400e"@, "#fde68a"@, "部分解析失败"@),
    }
}

fn card_style_strs(s: NotificationOverallStatus) -> (r: (&'static str, &'static str, &'static str, &'static str))
    ensures (r.0@, r.1@, r.2@, r.3@) == card_style(s),
{
    match s {
        NotificationOverallStatus::Success => ("#ecfdf5", "#065f46", "#a7f3d0", "同步成功"),
        NotificationOverallStatus::Failed => ("#fef2f2", "#991b1b", "#fecaca", "同步失败"),
        NotificationOverallStatus::PartialSuccess => ("#fffbeb", "#92400e", "#fde68a", "部分解析失败"),
    }
}

/// Badge background, badge colour and label of a record's status.
pub open spec fn badge_style(s: SyncStatus) -> (Seq<char>, Seq<char>, Seq<char>) {
    match s {
        SyncStatus::Created => ("#ecfdf5"@, "#059669"@, "已新增"@),
        SyncStatus::Updated => ("#ecfdf5"@, "#059669"@, "已更新"@),
        SyncStatus::Unchanged => ("#f1f5f9"@, "#475569"@, "未变动"@),
        SyncStatus::Failed => ("#fef2f2"@, "#dc2626"@, "同步失败"@),
    }
}

fn badge_style_strs(s: SyncStatus) -> (r: (&'static str, &'static str, &'static str))
    ensures (r.0@, r.1@, r.2@) == badge_style(s),
{
    match s {
        SyncStatus::Created => ("#ecfdf5", "#059669", "已新增"),
        SyncStatus::Updated => ("#ecfdf5", "#059669", "已更新"),
        SyncStatus::Unchanged => ("#f1f5f9", "#475569", "未变动"),
        SyncStatus::Failed => ("#fef2f2", "#dc2626", "同步失败"),
    }
}

/// One row of the result table.
pub open spec fn email_row(r: SyncRecordResult) -> Seq<char> {
    let (bg, color, label) = badge_style(r.status);
    ROW_0@ + r.domain@ + ROW_1@ + record_type_name(r.record_type) + ROW_2@ + r.target_ip@ + ROW_3@ + bg
        + ROW_4@ + color + ROW_5@ + label + ROW_6@ + r.message@ + ROW_7@
}

/// The rows of all results, in order.
pub open spec fn email_rows(rs: Seq<SyncRecordResult>) -> Seq<char>
    decreases rs.len(),
{
    if rs.len() == 0 { Seq::empty() } else { email_rows(rs.drop_last()) + email_row(rs.last()) }
}

/// Text of an optional address, or the "not obtained" mark.
pub open spec fn shown_address(text: Option<Seq<char>>) -> Seq<char> {
    match text {
        Some(t) => t,
        None => "未获取 / 未启用"@,
    }
}

/// The whole mail page of an event.
pub open spec fn email_html(e: NotificationEvent) -> Seq<char> {
    let (bg, color, border, title) = card_style(e.overall_status);
    let v4 = shown_address(match e.ipv4 { Some(a) => Some(ipv4_text(a)), None => None });
    let v6 = shown_address(match e.ipv6 { Some(a) => Some(ipv6_text(a)), None => None });
    PAGE_0@ + e.timestamp_text@ + PAGE_1@ + bg + PAGE_2@ + border + PAGE_3@ + color + PAGE_4@ + title
        + PAGE_5@ + color + PAGE_6@ + e.task_name@ + PAGE_7@ + v4 + PAGE_8@ + v6 + PAGE_9@
        + email_rows(e.results@) + PAGE_10@
}

/// The subject line of an event's mail.
pub open spec fn email_subject(e: NotificationEvent) -> Seq<char> {
    "[rddns] 动态域名解析通知 - "@ + overall_label(e.overall_status)
}

fn push_row(r: &SyncRecordResult, out: &mut Vec<char>)
    ensures final(out)@ == old(out)@ + email_row(*r),
{
    let ghost start = out@;
    let (bg, color, label) = badge_style_strs(r.status);
    append_str(out, ROW_0);
    append_str(out, r.domain.as_str());
    append_str(out, ROW_1);
    append_str(out, r.record_type.as_str());
    append_str(out, ROW_2);
    append_str(out, r.target_ip.as_str());
    append_str(out, ROW_3);
    append_str(out, bg);
    append_str(out, ROW_4);
    append_str(out, color);
    append_str(out, ROW_5);
    append_str(out, label);
    append_str(out, ROW_6);
    append_str(out, r.message.as_str());
    append_str(out, ROW_7);
    assert(out@ =~= start + email_row(*r));
}

impl EmailNotifier {
    /// A notifier with the given settings.
    pub fn new(config: EmailConfig) -> (r: Self)
        ensures r.config == config,
    {
        EmailNotifier { config }
    }

    /// The subject line: the overall outcome after a fixed prefix.
    pub fn subject(event: &NotificationEvent) -> (r: String)
        ensures r@ == email_subject(*event),
    {
        let mut v: Vec<char> = Vec::new();
        append_str(&mut v, "[rddns] 动态域名解析通知 - ");
        append_str(&mut v, event.overall_status.as_str());
        string_of(v.as_slice())
    }

    /// The HTML page of the mail: time, status card, task name, both addresses and
    /// one table row per result.
    pub fn render_html(event: &NotificationEvent) -> (r: String)
        ensures r@ == email_html(*event),
    {
        let (bg, color, border, title) = card_style_strs(event.overall_status);
        let ipv4_str: String = match event.ipv4 {
            Some(ip) => ip.to_text(),
            None => "未获取 / 未启用".to_string(),
        };
        let ipv6_str: String = match event.ipv6 {
            Some(ip) => ip.to_text(),
            None => "未获取 / 未启用".to_string(),
        };
        let mut rows: Vec<char> = Vec::new();
        let mut i: usize = 0;
        while i < event.results.len()
            invariant
                i <= event.results@.len(),
                rows@ == email_rows(event.results@.take(i as int)),
            decreases event.results@.len() - i,
        {
            assert(event.results@.take(i + 1).drop_last() =~= event.results@.take(i as int));
            push_row(&event.results[i], &mut rows);
            i = i + 1;
        }
        assert(event.results@.take(event.results@.len() as int) =~= event.results@);
        let mut out: Vec<char> = Vec::new();
        append_str(&mut out, PAGE_0);
        append_str(&mut out, event.timestamp_text.as_str());
        append_str(&mut out, PAGE_1);
        append_str(&mut out, bg);
        append_str(&mut out, PAGE_2);
        append_str(&mut out, border);
        append_str(&mut out, PAGE_3);
        append_str(&mut out, color);
        append_str(&mut out, PAGE_4);
        append_str(&mut out, title);
        append_str(&mut out, PAGE_5);
        append_str(&mut out, color);
        append_str(&mut out, PAGE_6);
        append_str(&mut out, event.task_name.as_str());
        append_str(&mut out, PAGE_7);
        append_str(&mut out, ipv4_str.as_str());
        append_str(&mut out, PAGE_8);
        append_str(&mut out, ipv6_str.as_str());
        append_str(&mut out, PAGE_9);
        crate::text::append_chars(&mut out, rows.as_slice());
        append_str(&mut out, PAGE_10);
        proof {
            let v4 = shown_address(match event.ipv4 { Some(a) => Some(ipv4_text(a)), None => None });
            let v6 = shown_address(match event.ipv6 { Some(a) => Some(ipv6_text(a)), None => None });
            assert(ipv4_str@ == v4);
            assert(ipv6_str@ == v6);
            assert(out@ =~= email_html(*event));
        }
        string_of(out.as_slice())
    }
}

} // verus!
