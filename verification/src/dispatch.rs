//! Notification dispatch policy: which channels are enabled, which events are sent, and
//! the suppression of repeated failure alerts.
use vstd::prelude::*;
use crate::config::NotificationConfig;
use crate::notify::{NotificationEvent, NotificationOverallStatus, details_text};
use crate::text::{chars_eq, chars_of};
use crate::text_map::TextMap;

verus! {

broadcast use vstd::string::group_string_axioms;

/// A notification channel.
#[derive(Debug, Clone, Copy, PartialEq, Eq, Structural)]
pub enum ChannelKind {
    WechatOfficial,
    WeCom,
    Telegram,
    DingTalk,
    Feishu,
    Bark,
    Email,
    Webhook,
}

/// One channel where `on`, none otherwise.
pub open spec fn channel_if(on: bool, k: ChannelKind) -> Seq<ChannelKind> {
    if on { seq![k] } else { seq![] }
}

/// The channels that are configured and enabled, in this order: WeChat official account,
/// WeCom, Telegram, DingTalk, Feishu, Bark, e-mail, webhook.
pub open spec fn enabled_channels(c: NotificationConfig) -> Seq<ChannelKind> {
    channel_if(c.wechat_official matches Some(x) && x.enabled, ChannelKind::WechatOfficial)
        + channel_if(c.wecom matches Some(x) && x.enabled, ChannelKind::WeCom)
        + channel_if(c.telegram matches Some(x) && x.enabled, ChannelKind::Telegram)
        + channel_if(c.dingtalk matches Some(x) && x.enabled, ChannelKind::DingTalk)
        + channel_if(c.feishu matches Some(x) && x.enabled, ChannelKind::Feishu)
        + channel_if(c.bark matches Some(x) && x.enabled, ChannelKind::Bark)
        + channel_if(c.email matches Some(x) && x.enabled, ChannelKind::Email)
        + channel_if(c.webhook matches Some(x) && x.enabled, ChannelKind::Webhook)
}

fn push_if(r: &mut Vec<ChannelKind>, on: bool, k: ChannelKind)
    ensures final(r)@ == old(r)@ + channel_if(on, k),
{
    if on {
        r.push(k);
    }
    assert(final(r)@ =~= old(r)@ + channel_if(on, k));
}

/// Lists the enabled channels.
pub fn build_enabled_channels(config: &NotificationConfig) -> (r: Vec<ChannelKind>)
    ensures r@ == enabled_channels(*config),
{
    let mut r: Vec<ChannelKind> = Vec::new();
    push_if(&mut r, match &config.wechat_official { Some(x) => x.enabled, None => false }, ChannelKind::WechatOfficial);
    push_if(&mut r, match &config.wecom { Some(x) => x.enabled, None => false }, ChannelKind::WeCom);
    push_if(&mut r, match &config.telegram { Some(x) => x.enabled, None => false }, ChannelKind::Telegram);
    push_if(&mut r, match &config.dingtalk { Some(x) => x.enabled, None => false }, ChannelKind::DingTalk);
    push_if(&mut r, match &config.feishu { Some(x) => x.enabled, None => false }, ChannelKind::Feishu);
    push_if(&mut r, match &config.bark { Some(x) => x.enabled, None => false }, ChannelKind::Bark);
    push_if(&mut r, match &config.email { Some(x) => x.enabled, None => false }, ChannelKind::Email);
    push_if(&mut r, match &config.webhook { Some(x) => x.enabled, None => false }, ChannelKind::Webhook);
    assert(r@ =~= enabled_channels(*config));
    r
}

/// Alert state of one task, for suppressing repeated failures.
#[derive(Debug, Clone)]
pub struct ErrorTracker {
    /// Detail text of the last alert sent.
    pub last_error_summary: String,
    /// Monotonic time of the last alert, in milliseconds.
    pub last_notified_at: u64,
    /// Alerts suppressed since.
    pub suppressed_count: u32,
}

/// Repeated identical alerts within this many milliseconds are suppressed.
pub open spec fn suppress_window_ms() -> int { 1_800_000 }

/// Trackers older than this many milliseconds are dropped when the table is full.
pub open spec fn tracker_ttl_ms() -> int { 3_600_000 }

/// Number of trackers at which old ones are dropped.
pub open spec fn tracker_capacity() -> int { 256 }

/// Milliseconds elapsed since `then` (zero where `then` lies ahead).
pub open spec fn elapsed(now: u64, then: u64) -> int {
    if now >= then { now - then } else { 0 }
}

/// Whether a tracker is recent enough to keep when the table is full.
pub open spec fn tracker_recent(t: ErrorTracker, now: u64) -> bool {
    elapsed(now, t.last_notified_at) < tracker_ttl_ms()
}

fn copy_tracker(t: &ErrorTracker) -> (r: ErrorTracker)
    ensures r == *t,
{
    ErrorTracker {
        last_error_summary: t.last_error_summary.clone(),
        last_notified_at: t.last_notified_at,
        suppressed_count: t.suppressed_count,
    }
}

/// The trackers that are kept when the table is full: those notified within the hour.
pub open spec fn recent_trackers(m: Map<Seq<char>, ErrorTracker>, now: u64) -> Map<Seq<char>, ErrorTracker> {
    m.restrict(Set::new(|k: Seq<char>| m.contains_key(k) && tracker_recent(m[k], now)))
}

/// Drops the trackers not notified within the last hour.
pub fn retain_recent_trackers(trackers: &TextMap<ErrorTracker>, now: u64) -> (r: TextMap<ErrorTracker>)
    requires trackers.wf(),
    ensures r.wf(), r@ == recent_trackers(trackers@, now),
{
    let mut r: TextMap<ErrorTracker> = TextMap::new();
    let mut i: usize = 0;
    while i < trackers.len()
        invariant
            trackers.wf(),
            r.wf(),
            i <= trackers.size(),
            r@ == trackers@.restrict(Set::new(|k: Seq<char>| trackers@.contains_key(k)
                && tracker_recent(trackers@[k], now)
                && exists|j: int| 0 <= j < i && trackers.key_at_spec(j) == k)),
        decreases trackers.size() - i,
    {
        let k = trackers.key_at(i);
        let t = trackers.value_at(i);
        let ghost before = r@;
        if now < t.last_notified_at || now - t.last_notified_at < 3_600_000 {
            let kc = k.clone();
            let tc = copy_tracker(t);
            r.insert(kc, tc);
        }
        proof {
            let s_new = Set::new(|kk: Seq<char>| trackers@.contains_key(kk)
                && tracker_recent(trackers@[kk], now)
                && exists|j: int| 0 <= j < i + 1 && trackers.key_at_spec(j) == kk);
            assert forall|kk: Seq<char>| s_new.contains(kk) <==> (trackers@.contains_key(kk)
                && tracker_recent(trackers@[kk], now)
                && ((exists|j: int| 0 <= j < i && trackers.key_at_spec(j) == kk) || kk == k@)) by {
                if kk == k@ {
                    assert(trackers.key_at_spec(i as int) == kk);
                }
                if exists|j: int| 0 <= j < i + 1 && trackers.key_at_spec(j) == kk {
                    let j = choose|j: int| 0 <= j < i + 1 && trackers.key_at_spec(j) == kk;
                    if j < i {} else { assert(j == i); }
                }
            }
            assert(r@ =~= trackers@.restrict(s_new));
        }
        i = i + 1;
    }
    proof {
        assert forall|kk: Seq<char>| trackers@.contains_key(kk) implies
            (exists|j: int| 0 <= j < trackers.size() && trackers.key_at_spec(j) == kk) by {
            trackers.lemma_keys_positioned(kk);
        }
        assert(r@ =~= recent_trackers(trackers@, now));
    }
    r
}

/// Effect of the suppression check for a failure alert with detail text `summary`.
/// Returns whether the alert is suppressed, and the new table.
pub open spec fn throttle(m: Map<Seq<char>, ErrorTracker>, task: Seq<char>, summary: Seq<char>, now: u64, size: nat)
    -> (bool, Map<Seq<char>, ErrorTracker>)
{
    let m1 = if size >= tracker_capacity() { recent_trackers(m, now) } else { m };
    if m1.contains_key(task) {
        let t = m1[task];
        if t.last_error_summary@ == summary && elapsed(now, t.last_notified_at) < suppress_window_ms() {
            (true, m1.insert(task, ErrorTracker { suppressed_count: (t.suppressed_count + 1) as u32, ..t }))
        } else {
            (false, m1)
        }
    } else {
        (false, m1)
    }
}

/// Whether the tracker after an alert that was sent records it.
pub open spec fn records_alert(t: ErrorTracker, summary: Seq<char>, now: u64) -> bool {
    t.last_error_summary@ == summary && t.last_notified_at == now && t.suppressed_count == 0
}

/// How the table `after` follows from `before` once a failure alert with detail text
/// `summary` has been checked: a suppressed alert leaves the table of [`throttle`]; an alert
/// that goes out adds or replaces the task's tracker, recording the alert, and keeps every
/// other tracker of that table.
pub open spec fn throttle_state(
    before: Map<Seq<char>, ErrorTracker>,
    after: Map<Seq<char>, ErrorTracker>,
    task: Seq<char>,
    summary: Seq<char>,
    now: u64,
    size: nat,
) -> bool {
    let (s, m) = throttle(before, task, summary, now, size);
    &&& s ==> after == m
    &&& !s ==> after.dom() == m.dom().insert(task)
    &&& !s ==> forall|k: Seq<char>| k != task && m.contains_key(k) ==> after[k] == m[k]
    &&& !s ==> records_alert(after[task], summary, now)
}

/// Checks a failure alert against the task's tracker: an alert identical to the last one
/// sent within 30 minutes is suppressed (and counted); otherwise the alert is recorded and
/// sent. Trackers older than an hour are dropped once 256 are held. Returns `true` where the
/// alert is suppressed.
pub fn check_and_update_error_throttle(
    trackers: &mut TextMap<ErrorTracker>,
    task_name: &str,
    error_summary: String,
    now: u64,
) -> (suppressed: bool)
    requires
        old(trackers).wf(),
        forall|k: Seq<char>| old(trackers)@.contains_key(k) ==> old(trackers)@[k].suppressed_count < u32::MAX,
    ensures
        final(trackers).wf(),
        ({
            let (s, m) = throttle(old(trackers)@, task_name@, error_summary@, now, old(trackers).size());
            &&& suppressed == s
            &&& s ==> final(trackers)@ == m
            &&& !s ==> final(trackers)@.dom() == m.dom().insert(task_name@)
            &&& !s ==> forall|k: Seq<char>| k != task_name@ && m.contains_key(k) ==> final(trackers)@[k] == m[k]
            &&& !s ==> records_alert(final(trackers)@[task_name@], error_summary@, now)
        }),
{
    if trackers.len() >= 256 {
        let kept = retain_recent_trackers(trackers, now);
        *trackers = kept;
    }
    let ghost m1 = trackers@;
    let found = match trackers.get(task_name) {
        Some(t) => Some(copy_tracker(t)),
        None => None,
    };
    match found {
        Some(t) => {
            let a = chars_of(t.last_error_summary.as_str());
            let b = chars_of(error_summary.as_str());
            let recent = now < t.last_notified_at || now - t.last_notified_at < 1_800_000;
            if chars_eq(a.as_slice(), b.as_slice()) && recent {
                let updated = ErrorTracker {
                    last_error_summary: t.last_error_summary,
                    last_notified_at: t.last_notified_at,
                    suppressed_count: t.suppressed_count + 1,
                };
                trackers.insert(task_name.to_owned(), updated);
                proof {
                    assert(trackers@ =~= m1.insert(task_name@, ErrorTracker { suppressed_count: (t.suppressed_count + 1) as u32, ..t }));
                }
                return true;
            }
            let fresh = ErrorTracker { last_error_summary: error_summary, last_notified_at: now, suppressed_count: 0 };
            trackers.insert(task_name.to_owned(), fresh);
            proof { assert(trackers@.dom() =~= m1.dom().insert(task_name@)); }
            false
        },
        None => {
            let fresh = ErrorTracker { last_error_summary: error_summary, last_notified_at: now, suppressed_count: 0 };
            trackers.insert(task_name.to_owned(), fresh);
            proof { assert(trackers@.dom() =~= m1.dom().insert(task_name@)); }
            false
        },
    }
}

/// Whether an event is dropped by the notification policy (before suppression).
pub open spec fn policy_drops(c: NotificationConfig, e: NotificationEvent) -> bool {
    ||| c.on_ip_change_only && !e.ip_changed && e.overall_status == NotificationOverallStatus::Success
    ||| e.overall_status == NotificationOverallStatus::Success && !c.on_success
    ||| e.overall_status != NotificationOverallStatus::Success && !c.on_failure
}

/// Applies the notification policy to an event: success alerts are dropped where only
/// address changes are reported and none happened, or where success alerts are off (and
/// clear the task's tracker otherwise); failure alerts are dropped where they are off, and
/// otherwise go through the suppression check. Returns `true` where the event is dropped.
pub fn should_filter_event(
    config: &NotificationConfig,
    trackers: &mut TextMap<ErrorTracker>,
    event: &NotificationEvent,
    now: u64,
) -> (filtered: bool)
    requires
        old(trackers).wf(),
        forall|k: Seq<char>| old(trackers)@.contains_key(k) ==> old(trackers)@[k].suppressed_count < u32::MAX,
    ensures
        final(trackers).wf(),
        policy_drops(*config, *event) ==> filtered && final(trackers)@ == old(trackers)@,
        !policy_drops(*config, *event) && event.overall_status == NotificationOverallStatus::Success ==>
            !filtered && final(trackers)@ == old(trackers)@.remove(event.task_name@),
        !policy_drops(*config, *event) && event.overall_status != NotificationOverallStatus::Success ==>
            filtered == throttle(old(trackers)@, event.task_name@, details_text(event.results@), now, old(trackers).size()).0
            && throttle_state(old(trackers)@, final(trackers)@, event.task_name@, details_text(event.results@), now, old(trackers).size()),
{
    if config.on_ip_change_only && !event.ip_changed && event.overall_status == NotificationOverallStatus::Success {
        return true;
    }
    match event.overall_status {
        NotificationOverallStatus::Success => {
            if !config.on_success {
                return true;
            }
            trackers.remove(event.task_name.as_str());
            false
        },
        _ => {
            if !config.on_failure {
                return true;
            }
            let summary = event.format_details_text();
            check_and_update_error_throttle(trackers, event.task_name.as_str(), summary, now)
        },
    }
}

/// Whether an event is handed to the channels: there are channels, and the event is
/// forced or passes the policy.
pub fn should_dispatch(
    config: &NotificationConfig,
    trackers: &mut TextMap<ErrorTracker>,
    event: &NotificationEvent,
    channel_count: usize,
    force: bool,
    now: u64,
) -> (send: bool)
    requires
        old(trackers).wf(),
        forall|k: Seq<char>| old(trackers)@.contains_key(k) ==> old(trackers)@[k].suppressed_count < u32::MAX,
    ensures
        final(trackers).wf(),
        channel_count == 0 ==> !send && final(trackers)@ == old(trackers)@,
        channel_count > 0 && force ==> send && final(trackers)@ == old(trackers)@,
        channel_count > 0 && !force && policy_drops(*config, *event) ==> !send && final(trackers)@ == old(trackers)@,
        channel_count > 0 && !force && !policy_drops(*config, *event) && event.overall_status
            == NotificationOverallStatus::Success ==> send && final(trackers)@ == old(trackers)@.remove(event.task_name@),
        channel_count > 0 && !force && !policy_drops(*config, *event) && event.overall_status
            != NotificationOverallStatus::Success ==>
            send == !throttle(old(trackers)@, event.task_name@, details_text(event.results@), now, old(trackers).size()).0
            && throttle_state(old(trackers)@, final(trackers)@, event.task_name@, details_text(event.results@), now, old(trackers).size()),
{
    if channel_count == 0 {
        return false;
    }
    if force {
        return true;
    }
    !should_filter_event(config, trackers, event, now)
}

/// An alert that was just sent suppresses the same alert for the task for thirty minutes:
/// the throttle check of the same summary at any time up to then reports it suppressed.
pub proof fn law_repeated_alert_suppressed(
    trackers: Map<Seq<char>, ErrorTracker>,
    task: Seq<char>,
    summary: Seq<char>,
    sent_at: u64,
    now: u64,
    size: nat,
)
    requires
        trackers.contains_key(task),
        records_alert(trackers[task], summary, sent_at),
        sent_at <= now,
        now - sent_at < suppress_window_ms(),
    ensures
        throttle(trackers, task, summary, now, size).0,
{
    if size >= tracker_capacity() {
        assert(recent_trackers(trackers, now).contains_key(task));
    }
}

/// A failure alert that went out through the dispatch gate holds back the same alert for
/// thirty minutes: where the check at `sent_at` let the alert through and left the table
/// `after` (as `should_dispatch` states), the same alert checked against `after` at any
/// time up to thirty minutes later is suppressed.
pub proof fn law_dispatched_alert_suppresses_repeat(
    before: Map<Seq<char>, ErrorTracker>,
    after: Map<Seq<char>, ErrorTracker>,
    task: Seq<char>,
    summary: Seq<char>,
    sent_at: u64,
    size: nat,
    now: u64,
    later_size: nat,
)
    requires
        throttle_state(before, after, task, summary, sent_at, size),
        !throttle(before, task, summary, sent_at, size).0,
        sent_at <= now,
        now - sent_at < suppress_window_ms(),
    ensures
        throttle(after, task, summary, now, later_size).0,
{
    assert(after.contains_key(task));
    law_repeated_alert_suppressed(after, task, summary, sent_at, now, later_size);
}

/// Only a repetition is suppressed: an alert whose summary differs from the last one sent
/// for the task is never suppressed.
pub proof fn law_new_alert_not_suppressed(
    trackers: Map<Seq<char>, ErrorTracker>,
    task: Seq<char>,
    summary: Seq<char>,
    now: u64,
    size: nat,
)
    requires
        trackers.contains_key(task),
        trackers[task].last_error_summary@ != summary,
    ensures
        !throttle(trackers, task, summary, now, size).0,
{
}

/// A success clears the task's tracker, so the next failure alert after a recovery is
/// never suppressed.
pub proof fn law_recovery_resets_suppression(
    config: NotificationConfig,
    before: Map<Seq<char>, ErrorTracker>,
    after: Map<Seq<char>, ErrorTracker>,
    success: NotificationEvent,
    summary: Seq<char>,
    now: u64,
    size: nat,
)
    requires
        success.overall_status == NotificationOverallStatus::Success,
        !policy_drops(config, success),
        after == before.remove(success.task_name@),
    ensures
        !throttle(after, success.task_name@, summary, now, size).0,
{
    if size >= tracker_capacity() {
        assert(!recent_trackers(after, now).contains_key(success.task_name@));
    }
}

} // verus!
