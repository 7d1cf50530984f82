//! Notification events and the texts that notification channels send.
use vstd::prelude::*;
use crate::net::{Ipv4, Ipv6, ipv4_text, ipv6_text, dec_text, decimal_text};
use crate::config::{TelegramConfig, WebhookConfig};
use crate::records::{DnsRecordType, SyncRecordResult, SyncStatus, record_type_name};
use crate::domain::{ParsedDomain, full_name};
use crate::engine::{IpAddress, ip_text, join_sep};
use crate::text::{append_chars, append_str, chars_eq, chars_of, find, find_from, lemma_find_from, string_of, sub_chars};
use crate::urlencode::{form_encode, form_urlencode};
use vstd::string::StringSliceAdditionalSpecFns;

verus! {

broadcast use vstd::string::group_string_axioms;

/// Overall outcome of a task's round.
#[derive(Debug, Clone, Copy, PartialEq, Eq, Structural)]
pub enum NotificationOverallStatus {
    Success,
    Failed,
    PartialSuccess,
}

/// Display label of an overall outcome.
pub open spec fn overall_label(s: NotificationOverallStatus) -> Seq<char> {
    match s {
        NotificationOverallStatus::Success => "同步成功"@,
        NotificationOverallStatus::Failed => "同步失败"@,
        NotificationOverallStatus::PartialSuccess => "部分成功"@,
    }
}

impl NotificationOverallStatus {
    /// Display label.
    pub fn as_str(&self) -> (r: &'static str)
        ensures r@ == overall_label(*self),
    {
        match self {
            NotificationOverallStatus::Success => "同步成功",
            NotificationOverallStatus::Failed => "同步失败",
            NotificationOverallStatus::PartialSuccess => "部分成功",
        }
    }
}

/// A notification about one task's round.
#[derive(Debug, Clone)]
pub struct NotificationEvent {
    pub overall_status: NotificationOverallStatus,
    pub task_name: String,
    pub ipv4: Option<Ipv4>,
    pub ipv6: Option<Ipv6>,
    /// Some record was created or updated.
    pub ip_changed: bool,
    pub results: Vec<SyncRecordResult>,
    /// Local time of the event, `YYYY-MM-DD HH:MM:SS`.
    pub timestamp_text: String,
    /// Unix time of the event, in seconds.
    pub timestamp_unix: i64,
}

/// Name of a status as `{:?}` writes it.
pub open spec fn status_debug(s: SyncStatus) -> Seq<char> {
    match s {
        SyncStatus::Created => "Created"@,
        SyncStatus::Updated => "Updated"@,
        SyncStatus::Unchanged => "Unchanged"@,
        SyncStatus::Failed => "Failed"@,
    }
}

fn status_debug_str(s: SyncStatus) -> (r: &'static str)
    ensures r@ == status_debug(s),
{
    match s {
        SyncStatus::Created => "Created",
        SyncStatus::Updated => "Updated",
        SyncStatus::Unchanged => "Unchanged",
        SyncStatus::Failed => "Failed",
    }
}

/// One line of the detail text: `- [A] domain (ip) -> 状态: Status, message`.
pub open spec fn detail_line(r: SyncRecordResult) -> Seq<char> {
    "- ["@ + record_type_name(r.record_type) + "] "@ + r.domain@ + " ("@ + r.target_ip@ + ") -> 状态: "@
        + status_debug(r.status) + ", "@ + r.message@
}

/// The detail text: one line per result, joined with newlines.
pub open spec fn details_text(rs: Seq<SyncRecordResult>) -> Seq<char> {
    join_sep(rs.map_values(|r: SyncRecordResult| detail_line(r)), "\n"@)
}

/// Drops each element equal to its predecessor (as `Vec::dedup`).
pub open spec fn dedup(s: Seq<Seq<char>>) -> Seq<Seq<char>>
    decreases s.len(),
{
    if s.len() <= 1 {
        s
    } else {
        let prev = dedup(s.drop_last());
        if s.last() == s[s.len() - 2] { prev } else { prev.push(s.last()) }
    }
}

/// The domains of the results, consecutive repeats dropped, joined with `, `.
pub open spec fn domains_text(rs: Seq<SyncRecordResult>) -> Seq<char> {
    join_sep(dedup(rs.map_values(|r: SyncRecordResult| r.domain@)), ", "@)
}

fn detail_line_chars(r: &SyncRecordResult) -> (v: Vec<char>)
    ensures v@ == detail_line(*r),
{
    let mut v: Vec<char> = Vec::new();
    append_str(&mut v, "- [");
    append_str(&mut v, r.record_type.as_str());
    append_str(&mut v, "] ");
    append_str(&mut v, r.domain.as_str());
    append_str(&mut v, " (");
    append_str(&mut v, r.target_ip.as_str());
    append_str(&mut v, ") -> 状态: ");
    append_str(&mut v, status_debug_str(r.status));
    append_str(&mut v, ", ");
    append_str(&mut v, r.message.as_str());
    assert(v@ =~= detail_line(*r));
    v
}

impl NotificationEvent {
    /// One line per result: `- [A] domain (ip) -> 状态: Status, message`.
    pub fn format_details_text(&self) -> (r: String)
        ensures r@ == details_text(self.results@),
    {
        let ghost lines = self.results@.map_values(|r: SyncRecordResult| detail_line(r));
        let mut v: Vec<char> = Vec::new();
        let mut i: usize = 0;
        while i < self.results.len()
            invariant
                i <= self.results@.len(),
                lines == self.results@.map_values(|r: SyncRecordResult| detail_line(r)),
                v@ == join_sep(lines.take(i as int), "\n"@),
            decreases self.results@.len() - i,
        {
            let ghost before = v@;
            assert(lines.take(i + 1).drop_last() =~= lines.take(i as int));
            if i > 0 {
                v.push('\n');
            }
            let line = detail_line_chars(&self.results[i]);
            append_chars(&mut v, line.as_slice());
            proof {
                reveal_strlit("\n");
                assert("\n"@ =~= seq!['\n']);
                if i > 0 {
                    assert(v@ =~= before + "\n"@ + lines[i as int]);
                } else {
                    assert(v@ =~= lines.take(1)[0]);
                }
            }
            i = i + 1;
        }
        assert(lines.take(self.results@.len() as int) =~= lines);
        string_of(v.as_slice())
    }

    /// Domains of the results, consecutive repeats dropped, joined with `, `.
    pub fn domains_comma_separated(&self) -> (r: String)
        ensures r@ == domains_text(self.results@),
    {
        let ghost ds = self.results@.map_values(|r: SyncRecordResult| r.domain@);
        let mut v: Vec<char> = Vec::new();
        let mut last: Vec<char> = Vec::new();
        let mut i: usize = 0;
        while i < self.results.len()
            invariant
                i <= self.results@.len(),
                ds == self.results@.map_values(|r: SyncRecordResult| r.domain@),
                v@ == join_sep(dedup(ds.take(i as int)), ", "@),
                i > 0 ==> last@ == ds[i - 1],
                i > 0 ==> dedup(ds.take(i as int)).len() > 0,
            decreases self.results@.len() - i,
        {
            let cur = chars_of(self.results[i].domain.as_str());
            let ghost before = v@;
            let ghost prev = dedup(ds.take(i as int));
            proof {
                assert(ds.take(i + 1).drop_last() =~= ds.take(i as int));
                assert(ds.take(i + 1).last() == ds[i as int]);
                if i > 0 {
                    assert(ds.take(i + 1)[i - 1] == ds[i - 1]);
                }
            }
            if i == 0 || !chars_eq(cur.as_slice(), last.as_slice()) {
                if i > 0 {
                    v.push(',');
                    v.push(' ');
                }
                append_chars(&mut v, cur.as_slice());
                proof {
                    reveal_strlit(", ");
                    assert(", "@ =~= seq![',', ' ']);
                    if i > 0 {
                        assert(dedup(ds.take(i + 1)) == prev.push(ds[i as int]));
                        assert(prev.push(ds[i as int]).drop_last() =~= prev);
                        assert(v@ =~= before + ", "@ + ds[i as int]);
                    } else {
                        assert(ds.take(1).len() == 1);
                        assert(dedup(ds.take(1)) == ds.take(1));
                        assert(v@ =~= ds.take(1)[0]);
                    }
                }
            }
            last = cur;
            i = i + 1;
        }
        assert(ds.take(self.results@.len() as int) =~= ds);
        string_of(v.as_slice())
    }
}

/// Overall outcome and whether any record changed, or `None` where there are no results.
pub open spec fn round_summary(rs: Seq<SyncRecordResult>) -> Option<(NotificationOverallStatus, bool)> {
    if rs.len() == 0 {
        None
    } else {
        let has_success = exists|i: int| 0 <= i < rs.len() && (#[trigger] rs[i]).status != SyncStatus::Failed;
        let has_failed = exists|i: int| 0 <= i < rs.len() && (#[trigger] rs[i]).status == SyncStatus::Failed;
        let changed = exists|i: int| 0 <= i < rs.len()
            && ((#[trigger] rs[i]).status == SyncStatus::Created || rs[i].status == SyncStatus::Updated);
        let status = if has_success && !has_failed {
            NotificationOverallStatus::Success
        } else if !has_success && has_failed {
            NotificationOverallStatus::Failed
        } else {
            NotificationOverallStatus::PartialSuccess
        };
        Some((status, changed))
    }
}

/// The overall status of a round says what its records did: an empty round gives no
/// notice; `Success` exactly where no record failed, `Failed` exactly where every record
/// failed, `PartialSuccess` exactly where some failed and some did not; and the round counts
/// as changing the address exactly where some record was created or updated.
pub proof fn law_round_status_reflects_results(rs: Seq<SyncRecordResult>)
    ensures
        round_summary(rs) is None <==> rs.len() == 0,
        rs.len() > 0 ==> (round_summary(rs) matches Some((NotificationOverallStatus::Success, _))
            <==> forall|i: int| 0 <= i < rs.len() ==> (#[trigger] rs[i]).status != SyncStatus::Failed),
        rs.len() > 0 ==> (round_summary(rs) matches Some((NotificationOverallStatus::Failed, _))
            <==> forall|i: int| 0 <= i < rs.len() ==> (#[trigger] rs[i]).status == SyncStatus::Failed),
        rs.len() > 0 ==> (round_summary(rs) matches Some((NotificationOverallStatus::PartialSuccess, _))
            <==> (exists|i: int| 0 <= i < rs.len() && (#[trigger] rs[i]).status == SyncStatus::Failed)
                && (exists|i: int| 0 <= i < rs.len() && (#[trigger] rs[i]).status != SyncStatus::Failed)),
        rs.len() > 0 ==> (round_summary(rs) matches Some((_, changed))
            && (changed <==> exists|i: int| 0 <= i < rs.len()
                && ((#[trigger] rs[i]).status == SyncStatus::Created || rs[i].status == SyncStatus::Updated))),
{
    if rs.len() > 0 {
        let has_success = exists|i: int| 0 <= i < rs.len() && (#[trigger] rs[i]).status != SyncStatus::Failed;
        let has_failed = exists|i: int| 0 <= i < rs.len() && (#[trigger] rs[i]).status == SyncStatus::Failed;
        let all_ok = forall|i: int| 0 <= i < rs.len() ==> (#[trigger] rs[i]).status != SyncStatus::Failed;
        let all_failed = forall|i: int| 0 <= i < rs.len() ==> (#[trigger] rs[i]).status == SyncStatus::Failed;
        assert(all_ok <==> !has_failed);
        assert(all_failed <==> !has_success);
        if rs[0].status == SyncStatus::Failed {
            assert(has_failed);
        } else {
            assert(has_success);
        }
    }
}

/// Summarises a round's results for the notification: success where nothing failed,
/// failure where nothing succeeded, partial success otherwise.
pub fn summarize_round(results: &[SyncRecordResult]) -> (r: Option<(NotificationOverallStatus, bool)>)
    ensures r == round_summary(results@),
{
    if results.len() == 0 {
        return None;
    }
    let mut has_success = false;
    let mut has_failed = false;
    let mut changed = false;
    let mut i: usize = 0;
    while i < results.len()
        invariant
            i <= results@.len(),
            has_success == exists|j: int| 0 <= j < i && (#[trigger] results@[j]).status != SyncStatus::Failed,
            has_failed == exists|j: int| 0 <= j < i && (#[trigger] results@[j]).status == SyncStatus::Failed,
            changed == exists|j: int| 0 <= j < i
                && ((#[trigger] results@[j]).status == SyncStatus::Created || results@[j].status == SyncStatus::Updated),
        decreases results@.len() - i,
    {
        let s = results[i].status;
        if s != SyncStatus::Failed {
            has_success = true;
        } else {
            has_failed = true;
        }
        if s == SyncStatus::Created || s == SyncStatus::Updated {
            changed = true;
        }
        i = i + 1;
    }
    let status = if has_success && !has_failed {
        NotificationOverallStatus::Success
    } else if !has_success && has_failed {
        NotificationOverallStatus::Failed
    } else {
        NotificationOverallStatus::PartialSuccess
    };
    Some((status, changed))
}

/// One character of HTML-escaped text.
pub open spec fn html_escape_char(c: char) -> Seq<char> {
    if c == '&' {
        "&amp;"@
    } else if c == '<' {
        "&lt;"@
    } else if c == '>' {
        "&gt;"@
    } else if c == '"' {
        "&quot;"@
    } else if c == '\'' {
        "&#x27;"@
    } else {
        seq![c]
    }
}

/// HTML-escaped text: `&`, `<`, `>`, `"` and `'` become entities.
pub open spec fn html_escaped(s: Seq<char>) -> Seq<char>
    decreases s.len(),
{
    if s.len() == 0 {
        Seq::empty()
    } else {
        html_escaped(s.drop_last()) + html_escape_char(s.last())
    }
}

/// Escaped text holds no markup: no `<`, `>`, `"` or `'` remains.
pub proof fn law_escaped_text_has_no_markup(s: Seq<char>)
    ensures
        forall|i: int| 0 <= i < html_escaped(s).len() ==> {
            let c = #[trigger] html_escaped(s)[i];
            c != '<' && c != '>' && c != '"' && c != '\''
        },
    decreases s.len(),
{
    reveal_strlit("&amp;");
    reveal_strlit("&lt;");
    reveal_strlit("&gt;");
    reveal_strlit("&quot;");
    reveal_strlit("&#x27;");
    if s.len() > 0 {
        law_escaped_text_has_no_markup(s.drop_last());
        let prev = html_escaped(s.drop_last());
        let tail = html_escape_char(s.last());
        assert(html_escaped(s) == prev + tail);
        assert forall|i: int| 0 <= i < html_escaped(s).len() implies {
            let c = #[trigger] html_escaped(s)[i];
            c != '<' && c != '>' && c != '"' && c != '\''
        } by {
            if i < prev.len() {
                assert(html_escaped(s)[i] == prev[i]);
            } else {
                assert(html_escaped(s)[i] == tail[i - prev.len()]);
            }
        }
    }
}

/// Sends notifications through a Telegram bot.
pub struct TelegramNotifier {
    pub config: TelegramConfig,
}

impl TelegramNotifier {
    /// A notifier with the given settings.
    pub fn new(config: TelegramConfig) -> (r: Self)
        ensures r.config == config,
    {
        TelegramNotifier { config }
    }

    /// Escapes the HTML special characters of a text (for Telegram's HTML mode).
    pub fn escape_html(input: &str) -> (r: String)
        ensures r@ == html_escaped(input@),
    {
        let s = chars_of(input);
        let mut v: Vec<char> = Vec::new();
        let mut i: usize = 0;
        while i < s.len()
            invariant
                i <= s@.len(),
                v@ == html_escaped(s@.take(i as int)),
            decreases s@.len() - i,
        {
            let c = s[i];
            assert(s@.take(i + 1).drop_last() =~= s@.take(i as int));
            if c == '&' {
                append_str(&mut v, "&amp;");
            } else if c == '<' {
                append_str(&mut v, "&lt;");
            } else if c == '>' {
                append_str(&mut v, "&gt;");
            } else if c == '"' {
                append_str(&mut v, "&quot;");
            } else if c == '\'' {
                append_str(&mut v, "&#x27;");
            } else {
                v.push(c);
            }
            i = i + 1;
        }
        assert(s@.take(s@.len() as int) =~= s@);
        string_of(v.as_slice())
    }
}

/// Every non-overlapping occurrence of `p` in `s`, leftmost first, replaced by `rep`
/// (as `str::replace` with a non-empty pattern).
pub open spec fn replaced(s: Seq<char>, p: Seq<char>, rep: Seq<char>) -> Seq<char>
    decreases s.len(),
{
    if p.len() == 0 {
        s
    } else {
        match find_from(s, p, 0) {
            Some(i) => if 0 <= i && i + p.len() <= s.len() {
                s.take(i) + rep + replaced(s.subrange(i + p.len(), s.len() as int), p, rep)
            } else {
                s
            },
            None => s,
        }
    }
}

/// Executes `replaced`.
pub fn replace_text(s: &[char], p: &str, rep: &[char]) -> (r: Vec<char>)
    requires p@.len() > 0,
    ensures r@ == replaced(s@, p@, rep@),
    decreases s@.len(),
{
    let pc = chars_of(p);
    match find(s, pc.as_slice()) {
        Some(i) => {
            proof { lemma_find_from(s@, p@, 0); }
            let n = s.len();
            assert(i + pc@.len() <= n);
            let mut v = sub_chars(s, 0, i);
            append_chars(&mut v, rep);
            let tail = sub_chars(s, i + pc.len(), n);
            let rest = replace_text(tail.as_slice(), p, rep);
            append_chars(&mut v, rest.as_slice());
            assert(s@.subrange(0, i as int) =~= s@.take(i as int));
            v
        },
        None => sub_chars(s, 0, s.len()),
    }
}

/// A value as it is put into a template: form-urlencoded where `url_encode` holds.
pub open spec fn template_value(s: Seq<char>, url_encode: bool) -> Seq<char> {
    if url_encode { form_encode(utf8_of(s)) } else { s }
}

/// The UTF-8 bytes of a text.
pub open spec fn utf8_of(s: Seq<char>) -> Seq<u8> {
    vstd::utf8::encode_utf8(s)
}

pub fn encode_value(s: &str, url_encode: bool) -> (r: Vec<char>)
    ensures r@ == template_value(s@, url_encode),
{
    if url_encode {
        let e = form_urlencode(s);
        assert(s.spec_bytes() == utf8_of(s@));
        chars_of(e.as_str())
    } else {
        chars_of(s)
    }
}

/// Decimal text of a signed number (as `i64::to_string`).
pub open spec fn signed_text(n: int) -> Seq<char> {
    if n < 0 { seq!['-'] + dec_text((-n) as nat) } else { dec_text(n as nat) }
}

/// Decimal text of a signed number.
pub fn signed_decimal_text(n: i64) -> (r: String)
    ensures r@ == signed_text(n as int),
{
    if n < 0 {
        let m: u64 = if n == i64::MIN { 9223372036854775808u64 } else { (-n) as u64 };
        let t = decimal_text(m);
        let mut v: Vec<char> = Vec::new();
        v.push('-');
        let tc = chars_of(t.as_str());
        append_chars(&mut v, tc.as_slice());
        assert(v@ =~= seq!['-'] + dec_text((-(n as int)) as nat));
        string_of(v.as_slice())
    } else {
        decimal_text(n as u64)
    }
}

/// Text of an optional IPv4 address; empty where absent.
pub open spec fn opt_v4_text(ip: Option<Ipv4>) -> Seq<char> {
    match ip { Some(a) => ipv4_text(a), None => Seq::empty() }
}

/// Text of an optional IPv6 address; empty where absent.
pub open spec fn opt_v6_text(ip: Option<Ipv6>) -> Seq<char> {
    match ip { Some(a) => ipv6_text(a), None => Seq::empty() }
}

/// A webhook template with the event's placeholders substituted: `#{status}`,
/// `#{taskName}`, `#{ipv4Addr}`, `#{ipv6Addr}`, `#{domains}`, `#{timestamp}`,
/// `#{timeUnix}`, `#{details}`, in this order.
pub open spec fn webhook_rendered(template: Seq<char>, e: NotificationEvent, url_encode: bool) -> Seq<char> {
    let s1 = replaced(template, "#{status}"@, template_value(overall_label(e.overall_status), url_encode));
    let s2 = replaced(s1, "#{taskName}"@, template_value(e.task_name@, url_encode));
    let s3 = replaced(s2, "#{ipv4Addr}"@, template_value(opt_v4_text(e.ipv4), url_encode));
    let s4 = replaced(s3, "#{ipv6Addr}"@, template_value(opt_v6_text(e.ipv6), url_encode));
    let s5 = replaced(s4, "#{domains}"@, template_value(domains_text(e.results@), url_encode));
    let s6 = replaced(s5, "#{timestamp}"@, template_value(e.timestamp_text@, url_encode));
    let s7 = replaced(s6, "#{timeUnix}"@, template_value(signed_text(e.timestamp_unix as int), url_encode));
    replaced(s7, "#{details}"@, template_value(details_text(e.results@), url_encode))
}

pub fn opt_v4_string(ip: Option<Ipv4>) -> (r: String)
    ensures r@ == opt_v4_text(ip),
{
    match ip {
        Some(a) => a.to_text(),
        None => String::new(),
    }
}

pub fn opt_v6_string(ip: Option<Ipv6>) -> (r: String)
    ensures r@ == opt_v6_text(ip),
{
    match ip {
        Some(a) => a.to_text(),
        None => String::new(),
    }
}

/// Sends notifications to a user-defined webhook.
pub struct CustomWebhookNotifier {
    pub config: WebhookConfig,
}

impl CustomWebhookNotifier {
    /// A notifier with the given settings.
    pub fn new(config: WebhookConfig) -> (r: Self)
        ensures r.config == config,
    {
        CustomWebhookNotifier { config }
    }

    /// Substitutes the event's values into a webhook template (URL, header value or body).
    pub fn replace_template(template: &str, event: &NotificationEvent, url_encode: bool) -> (r: String)
        ensures r@ == webhook_rendered(template@, *event, url_encode),
    {
        proof {
            reveal_strlit("#{status}");
            reveal_strlit("#{taskName}");
            reveal_strlit("#{ipv4Addr}");
            reveal_strlit("#{ipv6Addr}");
            reveal_strlit("#{domains}");
            reveal_strlit("#{timestamp}");
            reveal_strlit("#{timeUnix}");
            reveal_strlit("#{details}");
        }
        let t = chars_of(template);
        let v1 = encode_value(event.overall_status.as_str(), url_encode);
        let s1 = replace_text(t.as_slice(), "#{status}", v1.as_slice());
        let v2 = encode_value(event.task_name.as_str(), url_encode);
        let s2 = replace_text(s1.as_slice(), "#{taskName}", v2.as_slice());
        let ip4 = opt_v4_string(event.ipv4);
        let v3 = encode_value(ip4.as_str(), url_encode);
        let s3 = replace_text(s2.as_slice(), "#{ipv4Addr}", v3.as_slice());
        let ip6 = opt_v6_string(event.ipv6);
        let v4 = encode_value(ip6.as_str(), url_encode);
        let s4 = replace_text(s3.as_slice(), "#{ipv6Addr}", v4.as_slice());
        let domains = event.domains_comma_separated();
        let v5 = encode_value(domains.as_str(), url_encode);
        let s5 = replace_text(s4.as_slice(), "#{domains}", v5.as_slice());
        let v6 = encode_value(event.timestamp_text.as_str(), url_encode);
        let s6 = replace_text(s5.as_slice(), "#{timestamp}", v6.as_slice());
        let unix = signed_decimal_text(event.timestamp_unix);
        let v7 = encode_value(unix.as_str(), url_encode);
        let s7 = replace_text(s6.as_slice(), "#{timeUnix}", v7.as_slice());
        let details = event.format_details_text();
        let v8 = encode_value(details.as_str(), url_encode);
        let s8 = replace_text(s7.as_slice(), "#{details}", v8.as_slice());
        string_of(s8.as_slice())
    }
}

} // verus!
