//! Decisions of the synchronisation engine: when to talk to the provider, which records to
//! send, and how a task's runtime state follows from the results.
use vstd::prelude::*;
use crate::config::{AppConfig, DnsTaskConfig};
use crate::domain::{DomainView, ParsedDomain, domain_views, full_name};
use crate::net::{Ipv4, Ipv6, ipv4_text, ipv6_text};
use crate::records::{DnsRecordType, SyncRecordResult, SyncStatus, record_type_name};
use crate::text::{append_chars, append_str, chars_eq, chars_of, string_of};
use crate::text_map::TextMap;
use crate::state::TaskRuntimeState;

verus! {

broadcast use vstd::string::group_string_axioms;

/// An IPv4 or IPv6 address.
#[derive(Debug, Clone, Copy, PartialEq, Eq)]
pub enum IpAddress {
    V4(Ipv4),
    V6(Ipv6),
}

/// Text of an address.
pub open spec fn ip_text(ip: IpAddress) -> Seq<char> {
    match ip {
        IpAddress::V4(a) => ipv4_text(a),
        IpAddress::V6(a) => ipv6_text(a),
    }
}

impl IpAddress {
    /// Text of the address.
    pub fn to_text(&self) -> (r: String)
        ensures r@ == ip_text(*self),
    {
        match self {
            IpAddress::V4(a) => a.to_text(),
            IpAddress::V6(a) => a.to_text(),
        }
    }
}

/// Key of a record in the synced-domain map: `full_domain:A` or `full_domain:AAAA`.
pub open spec fn record_key(full: Seq<char>, t: DnsRecordType) -> Seq<char> {
    full.push(':') + record_type_name(t)
}

/// Key of a parsed domain's record.
pub open spec fn domain_key(d: DomainView, t: DnsRecordType) -> Seq<char> {
    record_key(full_name(d.sub, d.root), t)
}

/// Builds `record_key`.
pub fn record_key_text(full: &str, t: DnsRecordType) -> (r: String)
    ensures r@ == record_key(full@, t),
{
    let mut v = chars_of(full);
    v.push(':');
    append_str(&mut v, t.as_str());
    string_of(v.as_slice())
}

/// The address last synchronised for `key`, if any.
pub open spec fn synced_value(m: Map<Seq<char>, String>, key: Seq<char>) -> Option<Seq<char>> {
    if m.contains_key(key) { Some(m[key]@) } else { None }
}

/// Some domain's record is not known to hold `ip`.
pub open spec fn has_unsynced(
    enabled: bool,
    domains: Seq<DomainView>,
    ip: Option<Seq<char>>,
    t: DnsRecordType,
    m: Map<Seq<char>, String>,
) -> bool {
    enabled && ip is Some && exists|i: int| 0 <= i < domains.len() && synced_value(m, domain_key(#[trigger] domains[i], t)) != ip
}

/// Whether the synced-domain map holds `ip_text` under `key`.
fn holds_synced(m: &TextMap<String>, key: &str, ip_text: &[char]) -> (r: bool)
    requires m.wf(),
    ensures r == (synced_value(m@, key@) == Some(ip_text@)),
{
    match m.get(key) {
        Some(v) => {
            let vc = chars_of(v.as_str());
            chars_eq(vc.as_slice(), ip_text)
        },
        None => false,
    }
}

fn any_unsynced(domains: &[ParsedDomain], ip_text: &[char], t: DnsRecordType, m: &TextMap<String>) -> (r: bool)
    requires m.wf(),
    ensures r == exists|i: int| 0 <= i < domains@.len()
        && synced_value(m@, domain_key(#[trigger] domain_views(domains@)[i], t)) != Some(ip_text@),
{
    let mut i: usize = 0;
    while i < domains.len()
        invariant
            i <= domains@.len(),
            m.wf(),
            forall|j: int| 0 <= j < i ==> synced_value(m@, domain_key(#[trigger] domain_views(domains@)[j], t)) == Some(ip_text@),
        decreases domains@.len() - i,
    {
        let full = domains[i].full_domain();
        let key = record_key_text(full.as_str(), t);
        assert(domain_views(domains@)[i as int] == domains@[i as int].dview());
        if !holds_synced(m, key.as_str(), ip_text) {
            return true;
        }
        i = i + 1;
    }
    false
}

/// Whether the task should compare its records with the provider in this check.
pub open spec fn should_sync(
    task: DnsTaskConfig,
    cache_times: u32,
    state: TaskRuntimeState,
    v4: Seq<DomainView>,
    v6: Seq<DomainView>,
    ipv4: Option<Ipv4>,
    ipv6: Option<Ipv6>,
    force_sync: bool,
) -> bool {
    let ipv4_changed = ipv4 is Some && ipv4 != state.last_ipv4;
    let ipv6_changed = ipv6 is Some && ipv6 != state.last_ipv6;
    let reach_cache_limit = state.check_counter >= cache_times;
    let t4 = match ipv4 { Some(a) => Some(ipv4_text(a)), None => None };
    let t6 = match ipv6 { Some(a) => Some(ipv6_text(a)), None => None };
    force_sync || ipv4_changed || ipv6_changed || reach_cache_limit
        || has_unsynced(task.ipv4.enabled, v4, t4, DnsRecordType::A, state.synced_domains@)
        || has_unsynced(task.ipv6.enabled, v6, t6, DnsRecordType::AAAA, state.synced_domains@)
}

fn same_v4(a: Option<Ipv4>, b: Option<Ipv4>) -> (r: bool)
    ensures r == (a == b),
{
    match (a, b) {
        (Some(x), Some(y)) => x.same(&y),
        (None, None) => true,
        _ => false,
    }
}

fn same_v6(a: Option<Ipv6>, b: Option<Ipv6>) -> (r: bool)
    ensures r == (a == b),
{
    match (a, b) {
        (Some(x), Some(y)) => x.same(&y),
        (None, None) => true,
        _ => false,
    }
}

/// Decides whether the task must compare its records with the provider: a forced run, a
/// changed address, a reached comparison period, or a record not known to hold the address.
pub fn evaluate_sync_necessity(
    task: &DnsTaskConfig,
    app_config: &AppConfig,
    current_state: &TaskRuntimeState,
    v4_domains: &[ParsedDomain],
    v6_domains: &[ParsedDomain],
    ipv4_opt: Option<Ipv4>,
    ipv6_opt: Option<Ipv6>,
    force_sync: bool,
) -> (r: bool)
    requires current_state.wf(),
    ensures
        r == should_sync(*task, app_config.cache_times, *current_state, domain_views(v4_domains@),
            domain_views(v6_domains@), ipv4_opt, ipv6_opt, force_sync),
        force_sync ==> r,
        ipv4_opt is Some && ipv4_opt != current_state.last_ipv4 ==> r,
        ipv6_opt is Some && ipv6_opt != current_state.last_ipv6 ==> r,
        current_state.check_counter >= app_config.cache_times ==> r,
        task.ipv4.enabled && ipv4_opt is Some && (exists|i: int| 0 <= i < v4_domains@.len()
            && synced_value(current_state.synced_domains@, domain_key(#[trigger] v4_domains@[i].dview(), DnsRecordType::A))
                != Some(ipv4_text(ipv4_opt->0))) ==> r,
        task.ipv6.enabled && ipv6_opt is Some && (exists|i: int| 0 <= i < v6_domains@.len()
            && synced_value(current_state.synced_domains@, domain_key(#[trigger] v6_domains@[i].dview(), DnsRecordType::AAAA))
                != Some(ipv6_text(ipv6_opt->0))) ==> r,
        !r ==> ipv4_opt is None || ipv4_opt == current_state.last_ipv4,
        !r ==> ipv6_opt is None || ipv6_opt == current_state.last_ipv6,
{
    let ipv4_changed = ipv4_opt.is_some() && !same_v4(ipv4_opt, current_state.last_ipv4);
    let ipv6_changed = ipv6_opt.is_some() && !same_v6(ipv6_opt, current_state.last_ipv6);
    let reach_cache_limit = current_state.check_counter >= app_config.cache_times;
    let unsynced_v4 = match ipv4_opt {
        Some(a) if task.ipv4.enabled => {
            let t = chars_of(a.to_text().as_str());
            any_unsynced(v4_domains, t.as_slice(), DnsRecordType::A, &current_state.synced_domains)
        },
        _ => false,
    };
    let unsynced_v6 = match ipv6_opt {
        Some(a) if task.ipv6.enabled => {
            let t = chars_of(a.to_text().as_str());
            any_unsynced(v6_domains, t.as_slice(), DnsRecordType::AAAA, &current_state.synced_domains)
        },
        _ => false,
    };
    proof {
        let m = current_state.synced_domains@;
        if task.ipv4.enabled && ipv4_opt is Some && (exists|i: int| 0 <= i < v4_domains@.len()
            && synced_value(m, domain_key(#[trigger] v4_domains@[i].dview(), DnsRecordType::A)) != Some(ipv4_text(ipv4_opt->0))) {
            let i = choose|i: int| 0 <= i < v4_domains@.len()
                && synced_value(m, domain_key(#[trigger] v4_domains@[i].dview(), DnsRecordType::A)) != Some(ipv4_text(ipv4_opt->0));
            assert(domain_views(v4_domains@)[i] == v4_domains@[i].dview());
        }
        if task.ipv6.enabled && ipv6_opt is Some && (exists|i: int| 0 <= i < v6_domains@.len()
            && synced_value(m, domain_key(#[trigger] v6_domains@[i].dview(), DnsRecordType::AAAA)) != Some(ipv6_text(ipv6_opt->0))) {
            let i = choose|i: int| 0 <= i < v6_domains@.len()
                && synced_value(m, domain_key(#[trigger] v6_domains@[i].dview(), DnsRecordType::AAAA)) != Some(ipv6_text(ipv6_opt->0));
            assert(domain_views(v6_domains@)[i] == v6_domains@[i].dview());
        }
    }
    force_sync || ipv4_changed || ipv6_changed || reach_cache_limit || unsynced_v4 || unsynced_v6
}

/// Whether a task can run: enabled, with credentials, and with domains.
pub open spec fn preconditions_met(task: DnsTaskConfig) -> bool {
    task.enabled && task.provider.spec_is_configured() && task.spec_has_domains()
}

/// Checks that the task is enabled, has credentials and has domains.
pub fn validate_task_preconditions(task: &DnsTaskConfig) -> (r: bool)
    ensures r == preconditions_met(*task),
{
    if !task.enabled {
        return false;
    }
    if !task.provider.is_configured() {
        return false;
    }
    if !task.has_domains() {
        return false;
    }
    true
}

/// Records whether each enabled protocol's address was obtained: its failure count is
/// reset on success and incremented on failure.
pub fn record_ip_probe(state: &mut TaskRuntimeState, task: &DnsTaskConfig, got_ipv4: bool, got_ipv6: bool)
    requires
        task.ipv4.enabled && !got_ipv4 ==> old(state).ipv4_fail_count < u32::MAX,
        task.ipv6.enabled && !got_ipv6 ==> old(state).ipv6_fail_count < u32::MAX,
    ensures
        final(state).ipv4_fail_count == if !task.ipv4.enabled { old(state).ipv4_fail_count }
            else if got_ipv4 { 0 } else { (old(state).ipv4_fail_count + 1) as u32 },
        final(state).ipv6_fail_count == if !task.ipv6.enabled { old(state).ipv6_fail_count }
            else if got_ipv6 { 0 } else { (old(state).ipv6_fail_count + 1) as u32 },
        final(state).last_ipv4 == old(state).last_ipv4,
        final(state).last_ipv6 == old(state).last_ipv6,
        final(state).consecutive_failures == old(state).consecutive_failures,
        final(state).check_counter == old(state).check_counter,
        final(state).last_sync_time == old(state).last_sync_time,
        final(state).last_error == old(state).last_error,
        final(state).synced_domains == old(state).synced_domains,
{
    if task.ipv4.enabled {
        state.ipv4_fail_count = if got_ipv4 { 0 } else { state.ipv4_fail_count + 1 };
    }
    if task.ipv6.enabled {
        state.ipv6_fail_count = if got_ipv6 { 0 } else { state.ipv6_fail_count + 1 };
    }
}

/// What a check does once the addresses are known.
#[derive(Debug, Clone, Copy, PartialEq, Eq, Structural)]
pub enum CheckPlan {
    /// Nothing to compare: the provider is not called.
    Skip,
    /// Compare with the provider; every record where `force_all` holds.
    Sync { force_all: bool, reach_cache_limit: bool },
}

/// The state and plan after a check counted itself and evaluated the need to synchronise.
pub open spec fn check_begun(
    task: DnsTaskConfig,
    cache_times: u32,
    before: TaskRuntimeState,
    after: TaskRuntimeState,
    v4: Seq<DomainView>,
    v6: Seq<DomainView>,
    ipv4: Option<Ipv4>,
    ipv6: Option<Ipv6>,
    force_sync: bool,
    now: Seq<char>,
    plan: CheckPlan,
) -> bool {
    let reach = after.check_counter >= cache_times;
    let sync = should_sync(task, cache_times, after, v4, v6, ipv4, ipv6, force_sync);
    &&& after.wf()
    &&& after.check_counter == before.check_counter + 1
    &&& after.last_ipv4 == before.last_ipv4 && after.last_ipv6 == before.last_ipv6
    &&& after.ipv4_fail_count == before.ipv4_fail_count && after.ipv6_fail_count == before.ipv6_fail_count
    &&& after.consecutive_failures == before.consecutive_failures
    &&& after.last_error == before.last_error
    &&& after.synced_domains@ == before.synced_domains@
    &&& !sync ==> plan == CheckPlan::Skip && (after.last_sync_time matches Some(t) && t@ == now)
    &&& sync ==> plan == (CheckPlan::Sync { force_all: force_sync || reach, reach_cache_limit: reach })
        && after.last_sync_time == before.last_sync_time
}

/// Counts the check and decides whether to call the provider; a check that does not
/// records its time.
pub fn begin_task_check(
    task: &DnsTaskConfig,
    app_config: &AppConfig,
    state: &mut TaskRuntimeState,
    v4_domains: &[ParsedDomain],
    v6_domains: &[ParsedDomain],
    ipv4_opt: Option<Ipv4>,
    ipv6_opt: Option<Ipv6>,
    force_sync: bool,
    now: &str,
) -> (plan: CheckPlan)
    requires
        old(state).wf(),
        old(state).check_counter < u32::MAX,
    ensures
        check_begun(*task, app_config.cache_times, *old(state), *final(state), domain_views(v4_domains@),
            domain_views(v6_domains@), ipv4_opt, ipv6_opt, force_sync, now@, plan),
{
    state.check_counter = state.check_counter + 1;
    let reach_cache_limit = state.check_counter >= app_config.cache_times;
    let sync = evaluate_sync_necessity(task, app_config, state, v4_domains, v6_domains, ipv4_opt, ipv6_opt, force_sync);
    if !sync {
        state.last_sync_time = Some(now.to_owned());
        return CheckPlan::Skip;
    }
    CheckPlan::Sync { force_all: force_sync || reach_cache_limit, reach_cache_limit }
}

/// Text of a provider that could not be set up.
pub open spec fn setup_failure_text(error: Seq<char>) -> Seq<char> {
    "创建 DNS 服务商驱动失败: "@ + error
}

/// Records that the provider could not be set up: one more failure, its text, and the time.
pub fn record_setup_failure(state: &mut TaskRuntimeState, error_text: &str, now: &str)
    requires old(state).consecutive_failures < u32::MAX,
    ensures
        final(state).consecutive_failures == old(state).consecutive_failures + 1,
        (final(state).last_error matches Some(e) && e@ == setup_failure_text(error_text@)),
        (final(state).last_sync_time matches Some(t) && t@ == now@),
        final(state).check_counter == old(state).check_counter,
        final(state).last_ipv4 == old(state).last_ipv4 && final(state).last_ipv6 == old(state).last_ipv6,
        final(state).ipv4_fail_count == old(state).ipv4_fail_count,
        final(state).ipv6_fail_count == old(state).ipv6_fail_count,
        final(state).synced_domains == old(state).synced_domains,
{
    state.consecutive_failures = state.consecutive_failures + 1;
    let mut v: Vec<char> = Vec::new();
    append_str(&mut v, "创建 DNS 服务商驱动失败: ");
    append_str(&mut v, error_text);
    state.last_error = Some(string_of(v.as_slice()));
    state.last_sync_time = Some(now.to_owned());
}

/// What to do for one domain in a synchronisation round.
#[derive(Debug)]
pub enum PlannedSync {
    /// No provider call: the result is already known.
    Done(SyncRecordResult),
    /// Ask the provider to synchronise the domain at this position of the list.
    Call(usize),
}

/// Message of a domain whose address could not be obtained.
pub open spec fn no_ip_message(t: DnsRecordType) -> Seq<char> {
    match t {
        DnsRecordType::A => "获取本地公网 IPv4 地址失败"@,
        DnsRecordType::AAAA => "获取本地公网 IPv6 地址失败"@,
    }
}

/// Target shown for a domain whose address could not be obtained.
pub open spec fn unknown_target() -> Seq<char> {
    "未知/获取失败"@
}

/// The plan for the domain at position `i`.
pub open spec fn planned_for(
    p: PlannedSync,
    d: DomainView,
    i: int,
    ip: Option<IpAddress>,
    t: DnsRecordType,
    force_sync_all: bool,
    m: Map<Seq<char>, String>,
) -> bool {
    let full = full_name(d.sub, d.root);
    match ip {
        Some(a) => if !force_sync_all && synced_value(m, domain_key(d, t)) == Some(ip_text(a)) {
            p matches PlannedSync::Done(r) && r.is(full, t, ip_text(a), SyncStatus::Unchanged, crate::records::unchanged_message())
        } else {
            p == PlannedSync::Call(i as usize)
        },
        None => p matches PlannedSync::Done(r) && r.is(full, t, unknown_target(), SyncStatus::Failed, no_ip_message(t)),
    }
}

/// Plans one protocol's round: nothing where the protocol is disabled; otherwise, per
/// domain, an unchanged result where the record is known to hold the address (unless all
/// records must be compared), a provider call, or, without an address, a failed result.
pub fn plan_protocol_sync(
    enabled: bool,
    domains: &[ParsedDomain],
    ip: Option<IpAddress>,
    record_type: DnsRecordType,
    force_sync_all: bool,
    synced_domains: &TextMap<String>,
) -> (r: Vec<PlannedSync>)
    requires synced_domains.wf(),
    ensures
        r@.len() == if enabled { domains@.len() } else { 0 },
        forall|i: int| 0 <= i < r@.len() ==> planned_for(#[trigger] r@[i], domains@[i].dview(), i, ip,
            record_type, force_sync_all, synced_domains@),
{
    let mut plan: Vec<PlannedSync> = Vec::new();
    if !enabled {
        return plan;
    }
    let ip_str: Option<Vec<char>> = match ip {
        Some(a) => Some(chars_of(a.to_text().as_str())),
        None => None,
    };
    let mut i: usize = 0;
    while i < domains.len()
        invariant
            i <= domains@.len(),
            plan@.len() == i,
            synced_domains.wf(),
            match ip {
                Some(a) => ip_str matches Some(s) && s@ == ip_text(a),
                None => ip_str is None,
            },
            forall|k: int| 0 <= k < i ==> planned_for(#[trigger] plan@[k], domains@[k].dview(), k, ip,
                record_type, force_sync_all, synced_domains@),
        decreases domains@.len() - i,
    {
        let full = domains[i].full_domain();
        match &ip_str {
            Some(s) => {
                let key = record_key_text(full.as_str(), record_type);
                if !force_sync_all && holds_synced(synced_domains, key.as_str(), s.as_slice()) {
                    let ts = string_of(s.as_slice());
                    plan.push(PlannedSync::Done(SyncRecordResult::unchanged(full.as_str(), record_type, ts.as_str())));
                } else {
                    plan.push(PlannedSync::Call(i));
                }
            },
            None => {
                let msg = match record_type {
                    DnsRecordType::A => "获取本地公网 IPv4 地址失败",
                    DnsRecordType::AAAA => "获取本地公网 IPv6 地址失败",
                };
                plan.push(PlannedSync::Done(SyncRecordResult::failed(full.as_str(), record_type, "未知/获取失败", msg)));
            },
        }
        i = i + 1;
    }
    plan
}

/// Number of results of type `t` that did not fail.
pub open spec fn ok_count(rs: Seq<SyncRecordResult>, t: DnsRecordType) -> nat
    decreases rs.len(),
{
    if rs.len() == 0 {
        0
    } else {
        ok_count(rs.drop_last(), t) + if rs.last().record_type == t && rs.last().status != SyncStatus::Failed { 1nat } else { 0nat }
    }
}

/// Whether a protocol's round succeeded: disabled, or with an address and every domain
/// synchronised.
pub open spec fn protocol_all_ok(enabled: bool, has_ip: bool, domain_count: nat, t: DnsRecordType, rs: Seq<SyncRecordResult>) -> bool {
    if !enabled { true } else if !has_ip { false } else if domain_count == 0 { true } else { ok_count(rs, t) == domain_count }
}

/// Decides `protocol_all_ok`.
pub fn is_protocol_all_ok(
    enabled: bool,
    has_ip: bool,
    domain_count: usize,
    record_type: DnsRecordType,
    results: &[SyncRecordResult],
) -> (r: bool)
    ensures r == protocol_all_ok(enabled, has_ip, domain_count as nat, record_type, results@),
{
    if !enabled {
        return true;
    }
    if !has_ip {
        return false;
    }
    if domain_count == 0 {
        return true;
    }
    let mut count: usize = 0;
    let mut i: usize = 0;
    while i < results.len()
        invariant
            i <= results@.len(),
            count == ok_count(results@.take(i as int), record_type),
            count <= i,
        decreases results@.len() - i,
    {
        assert(results@.take(i + 1).drop_last() =~= results@.take(i as int));
        if results[i].record_type == record_type && results[i].status != SyncStatus::Failed {
            count = count + 1;
        }
        i = i + 1;
    }
    assert(results@.take(results@.len() as int) =~= results@);
    count == domain_count
}

/// The synced-domain map after applying results in order: a success records its target,
/// a failure forgets the record.
pub open spec fn apply_results(m: Map<Seq<char>, String>, rs: Seq<SyncRecordResult>) -> Map<Seq<char>, String>
    decreases rs.len(),
{
    if rs.len() == 0 {
        m
    } else {
        let prev = apply_results(m, rs.drop_last());
        let r = rs.last();
        let key = record_key(r.domain@, r.record_type);
        if r.status != SyncStatus::Failed { prev.insert(key, r.target_ip) } else { prev.remove(key) }
    }
}

/// Lines `domain: message` of the failed results, in order.
pub open spec fn failure_lines(rs: Seq<SyncRecordResult>) -> Seq<Seq<char>>
    decreases rs.len(),
{
    if rs.len() == 0 {
        Seq::empty()
    } else {
        let prev = failure_lines(rs.drop_last());
        let r = rs.last();
        if r.status == SyncStatus::Failed { prev.push(r.domain@ + ": "@ + r.message@) } else { prev }
    }
}

/// Pieces joined with a separator.
pub open spec fn join_sep(parts: Seq<Seq<char>>, sep: Seq<char>) -> Seq<char>
    decreases parts.len(),
{
    if parts.len() == 0 {
        Seq::empty()
    } else if parts.len() == 1 {
        parts[0]
    } else {
        join_sep(parts.drop_last(), sep) + sep + parts.last()
    }
}

/// The runtime state after a synchronisation round.
pub open spec fn state_after_sync(
    old: TaskRuntimeState,
    new: TaskRuntimeState,
    task: DnsTaskConfig,
    v4_count: nat,
    v6_count: nat,
    ipv4: Option<Ipv4>,
    ipv6: Option<Ipv6>,
    rs: Seq<SyncRecordResult>,
    reach_cache_limit: bool,
    now: Seq<char>,
) -> bool {
    let v4_ok = protocol_all_ok(task.ipv4.enabled, ipv4 is Some, v4_count, DnsRecordType::A, rs);
    let v6_ok = protocol_all_ok(task.ipv6.enabled, ipv6 is Some, v6_count, DnsRecordType::AAAA, rs);
    let lines = failure_lines(rs);
    &&& new.wf()
    &&& new.synced_domains@ == apply_results(old.synced_domains@, rs)
    &&& new.last_ipv4 == if v4_ok && ipv4 is Some { ipv4 } else { old.last_ipv4 }
    &&& new.last_ipv6 == if v6_ok && ipv6 is Some { ipv6 } else { old.last_ipv6 }
    &&& new.last_sync_time matches Some(t) && t@ == now
    &&& new.check_counter == if reach_cache_limit || (v4_ok && v6_ok) { 0 } else { old.check_counter }
    &&& if v4_ok && v6_ok {
        new.consecutive_failures == 0 && new.last_error is None
    } else {
        &&& new.consecutive_failures == old.consecutive_failures + 1
        &&& if lines.len() > 0 {
            new.last_error matches Some(e) && e@ == join_sep(lines, "; "@)
        } else {
            new.last_error == old.last_error
        }
    }
    &&& new.ipv4_fail_count == old.ipv4_fail_count
    &&& new.ipv6_fail_count == old.ipv6_fail_count
}

/// Updates the task's runtime state after a round: records synchronised addresses, the
/// addresses that every domain now holds, the time, the comparison counter, and failures.
pub fn update_runtime_state_after_sync(
    task: &DnsTaskConfig,
    current_state: &mut TaskRuntimeState,
    v4_count: usize,
    v6_count: usize,
    ipv4_opt: Option<Ipv4>,
    ipv6_opt: Option<Ipv6>,
    sync_results: &[SyncRecordResult],
    reach_cache_limit: bool,
    now: &str,
)
    requires
        old(current_state).wf(),
        old(current_state).consecutive_failures < u32::MAX,
    ensures
        state_after_sync(*old(current_state), *final(current_state), *task, v4_count as nat, v6_count as nat,
            ipv4_opt, ipv6_opt, sync_results@, reach_cache_limit, now@),
{
    let ghost start = current_state.synced_domains@;
    let mut i: usize = 0;
    while i < sync_results.len()
        invariant
            i <= sync_results@.len(),
            current_state.wf(),
            current_state.synced_domains@ == apply_results(start, sync_results@.take(i as int)),
            current_state.consecutive_failures == old(current_state).consecutive_failures,
            current_state.last_ipv4 == old(current_state).last_ipv4,
            current_state.last_ipv6 == old(current_state).last_ipv6,
            current_state.check_counter == old(current_state).check_counter,
            current_state.last_error == old(current_state).last_error,
            current_state.ipv4_fail_count == old(current_state).ipv4_fail_count,
            current_state.ipv6_fail_count == old(current_state).ipv6_fail_count,
            start == old(current_state).synced_domains@,
        decreases sync_results@.len() - i,
    {
        assert(sync_results@.take(i + 1).drop_last() =~= sync_results@.take(i as int));
        let r = &sync_results[i];
        let key = record_key_text(r.domain.as_str(), r.record_type);
        if r.status != SyncStatus::Failed {
            current_state.synced_domains.insert(key, r.target_ip.clone());
        } else {
            current_state.synced_domains.remove(key.as_str());
        }
        i = i + 1;
    }
    assert(sync_results@.take(sync_results@.len() as int) =~= sync_results@);

    let ipv4_all_ok = is_protocol_all_ok(task.ipv4.enabled, ipv4_opt.is_some(), v4_count, DnsRecordType::A, sync_results);
    let ipv6_all_ok = is_protocol_all_ok(task.ipv6.enabled, ipv6_opt.is_some(), v6_count, DnsRecordType::AAAA, sync_results);
    if ipv4_all_ok && ipv4_opt.is_some() {
        current_state.last_ipv4 = ipv4_opt;
    }
    if ipv6_all_ok && ipv6_opt.is_some() {
        current_state.last_ipv6 = ipv6_opt;
    }
    current_state.last_sync_time = Some(now.to_owned());
    if reach_cache_limit || (ipv4_all_ok && ipv6_all_ok) {
        current_state.check_counter = 0;
    }
    if ipv4_all_ok && ipv6_all_ok {
        current_state.consecutive_failures = 0;
        current_state.last_error = None;
    } else {
        current_state.consecutive_failures = current_state.consecutive_failures + 1;
        let joined = join_failure_lines(sync_results);
        if joined.1 > 0 {
            current_state.last_error = Some(joined.0);
        }
    }
}

/// Joins the failure lines with `"; "`, also returning how many there are.
fn join_failure_lines(rs: &[SyncRecordResult]) -> (r: (String, usize))
    ensures
        r.0@ == join_sep(failure_lines(rs@), "; "@),
        r.1 == failure_lines(rs@).len(),
{
    let mut v: Vec<char> = Vec::new();
    let mut n: usize = 0;
    let mut i: usize = 0;
    while i < rs.len()
        invariant
            i <= rs@.len(),
            n == failure_lines(rs@.take(i as int)).len(),
            n <= i,
            v@ == join_sep(failure_lines(rs@.take(i as int)), "; "@),
        decreases rs@.len() - i,
    {
        assert(rs@.take(i + 1).drop_last() =~= rs@.take(i as int));
        if rs[i].status == SyncStatus::Failed {
            let ghost before = v@;
            if n > 0 {
                v.push(';');
                v.push(' ');
            }
            let ghost mid = v@;
            append_str(&mut v, rs[i].domain.as_str());
            v.push(':');
            v.push(' ');
            append_str(&mut v, rs[i].message.as_str());
            proof {
                reveal_strlit("; ");
                reveal_strlit(": ");
                assert(": "@ =~= seq![':', ' ']);
                assert("; "@ =~= seq![';', ' ']);
                let line = rs@[i as int].domain@ + ": "@ + rs@[i as int].message@;
                let prev = failure_lines(rs@.take(i as int));
                assert(failure_lines(rs@.take(i + 1)) == prev.push(line));
                assert(prev.push(line).drop_last() =~= prev);
                assert(v@ =~= mid + line);
                if n > 0 {
                    assert(mid =~= before + "; "@);
                } else {
                    assert(mid =~= before);
                    assert(before.len() == 0) by {
                        assert(failure_lines(rs@.take(i as int)).len() == 0);
                    }
                }
            }
            n = n + 1;
        }
        i = i + 1;
    }
    assert(rs@.take(rs@.len() as int) =~= rs@);
    (string_of(v.as_slice()), n)
}

/// Every result of the round succeeded, and holds the address of its record type.
pub open spec fn round_succeeded(rs: Seq<SyncRecordResult>, ipv4: Option<Ipv4>, ipv6: Option<Ipv6>) -> bool {
    forall|i: int| 0 <= i < rs.len() ==> {
        &&& (#[trigger] rs[i]).status != SyncStatus::Failed
        &&& match rs[i].record_type {
            DnsRecordType::A => ipv4 matches Some(a) && rs[i].target_ip@ == ipv4_text(a),
            DnsRecordType::AAAA => ipv6 matches Some(a) && rs[i].target_ip@ == ipv6_text(a),
        }
    }
}

/// Every domain has a result of type `t` in the round.
pub open spec fn covers(rs: Seq<SyncRecordResult>, domains: Seq<DomainView>, t: DnsRecordType) -> bool {
    forall|j: int| #![trigger domains[j]] 0 <= j < domains.len() ==> exists|i: int| 0 <= i < rs.len()
        && #[trigger] record_key(rs[i].domain@, rs[i].record_type) == domain_key(domains[j], t)
}

/// Keys of different record types differ.
pub proof fn lemma_record_key_type(f1: Seq<char>, t1: DnsRecordType, f2: Seq<char>, t2: DnsRecordType)
    requires record_key(f1, t1) == record_key(f2, t2),
    ensures t1 == t2,
{
    reveal_strlit("A");
    reveal_strlit("AAAA");
    let k1 = record_key(f1, t1);
    let k2 = record_key(f2, t2);
    if t1 != t2 {
        let n = k1.len();
        if t1 == DnsRecordType::A {
            assert(k1[n - 2] == ':');
            assert(k2[n - 2] == 'A');
        } else {
            assert(k2[n - 2] == ':');
            assert(k1[n - 2] == 'A');
        }
    }
}

/// After a round of successes, a key that some result names holds the address of its type.
proof fn lemma_applied_key(m: Map<Seq<char>, String>, rs: Seq<SyncRecordResult>, k: Seq<char>, v: Seq<char>)
    requires
        forall|i: int| 0 <= i < rs.len() ==> (#[trigger] rs[i]).status != SyncStatus::Failed,
        forall|i: int| 0 <= i < rs.len() && #[trigger] record_key(rs[i].domain@, rs[i].record_type) == k
            ==> rs[i].target_ip@ == v,
        exists|i: int| 0 <= i < rs.len() && #[trigger] record_key(rs[i].domain@, rs[i].record_type) == k,
    ensures
        apply_results(m, rs).contains_key(k),
        apply_results(m, rs)[k]@ == v,
    decreases rs.len(),
{
    let last = rs.last();
    let n = rs.len() - 1;
    assert(rs[n] == last);
    if record_key(last.domain@, last.record_type) != k {
        let i = choose|i: int| 0 <= i < rs.len() && #[trigger] record_key(rs[i].domain@, rs[i].record_type) == k;
        assert(i != n);
        assert(rs.drop_last()[i] == rs[i]);
        assert forall|j: int| 0 <= j < rs.drop_last().len() implies (#[trigger] rs.drop_last()[j]).status != SyncStatus::Failed by {
            assert(rs.drop_last()[j] == rs[j]);
        }
        assert forall|j: int| 0 <= j < rs.drop_last().len()
            && #[trigger] record_key(rs.drop_last()[j].domain@, rs.drop_last()[j].record_type) == k
            implies rs.drop_last()[j].target_ip@ == v by {
            assert(rs.drop_last()[j] == rs[j]);
        }
        lemma_applied_key(m, rs.drop_last(), k, v);
    }
}

/// A check that sees a new address calls the provider: where an address of either family
/// was obtained and differs from the last one recorded for the task, or some domain of an
/// enabled family is not known to hold the obtained address, the check's plan is `Sync`.
pub proof fn law_changed_address_syncs(
    task: DnsTaskConfig,
    cache_times: u32,
    before: TaskRuntimeState,
    after: TaskRuntimeState,
    v4: Seq<DomainView>,
    v6: Seq<DomainView>,
    ipv4: Option<Ipv4>,
    ipv6: Option<Ipv6>,
    force_sync: bool,
    now: Seq<char>,
    plan: CheckPlan,
)
    requires
        check_begun(task, cache_times, before, after, v4, v6, ipv4, ipv6, force_sync, now, plan),
        ({
            ||| ipv4 is Some && ipv4 != before.last_ipv4
            ||| ipv6 is Some && ipv6 != before.last_ipv6
            ||| task.ipv4.enabled && ipv4 is Some && exists|i: int| 0 <= i < v4.len()
                    && synced_value(before.synced_domains@, domain_key(#[trigger] v4[i], DnsRecordType::A))
                        != Some(ipv4_text(ipv4->0))
            ||| task.ipv6.enabled && ipv6 is Some && exists|i: int| 0 <= i < v6.len()
                    && synced_value(before.synced_domains@, domain_key(#[trigger] v6[i], DnsRecordType::AAAA))
                        != Some(ipv6_text(ipv6->0))
        }),
    ensures
        plan is Sync,
{
}

/// A forced check, and a check that reaches the comparison period, call the provider and
/// compare every record.
pub proof fn law_forced_or_due_check_syncs_all(
    task: DnsTaskConfig,
    cache_times: u32,
    before: TaskRuntimeState,
    after: TaskRuntimeState,
    v4: Seq<DomainView>,
    v6: Seq<DomainView>,
    ipv4: Option<Ipv4>,
    ipv6: Option<Ipv6>,
    force_sync: bool,
    now: Seq<char>,
    plan: CheckPlan,
)
    requires
        check_begun(task, cache_times, before, after, v4, v6, ipv4, ipv6, force_sync, now, plan),
        force_sync || before.check_counter + 1 >= cache_times,
    ensures
        plan matches CheckPlan::Sync { force_all, .. } && force_all,
{
}

/// A round that synchronised every domain of every enabled protocol to the current
/// addresses leaves nothing to do: the next check with the same addresses, not forced and
/// with a positive comparison period, does not call the provider.
pub proof fn law_synchronised_round_skips_next_check(
    task: DnsTaskConfig,
    cache_times: u32,
    before: TaskRuntimeState,
    after: TaskRuntimeState,
    v4: Seq<DomainView>,
    v6: Seq<DomainView>,
    ipv4: Option<Ipv4>,
    ipv6: Option<Ipv6>,
    rs: Seq<SyncRecordResult>,
    now: Seq<char>,
)
    requires
        cache_times > 0,
        state_after_sync(before, after, task, v4.len(), v6.len(), ipv4, ipv6, rs, false, now),
        round_succeeded(rs, ipv4, ipv6),
        task.ipv4.enabled ==> covers(rs, v4, DnsRecordType::A)
            && protocol_all_ok(true, ipv4 is Some, v4.len(), DnsRecordType::A, rs),
        task.ipv6.enabled ==> covers(rs, v6, DnsRecordType::AAAA)
            && protocol_all_ok(true, ipv6 is Some, v6.len(), DnsRecordType::AAAA, rs),
    ensures
        !should_sync(task, cache_times, after, v4, v6, ipv4, ipv6, false),
{
    let m = after.synced_domains@;
    if task.ipv4.enabled && ipv4 is Some {
        let v = ipv4_text(ipv4->0);
        assert forall|j: int| 0 <= j < v4.len() implies synced_value(m, domain_key(#[trigger] v4[j], DnsRecordType::A)) == Some(v) by {
            let k = domain_key(v4[j], DnsRecordType::A);
            assert forall|i: int| 0 <= i < rs.len() && #[trigger] record_key(rs[i].domain@, rs[i].record_type) == k
                implies rs[i].target_ip@ == v by {
                lemma_record_key_type(rs[i].domain@, rs[i].record_type, full_name(v4[j].sub, v4[j].root), DnsRecordType::A);
            }
            assert forall|i: int| 0 <= i < rs.len() implies (#[trigger] rs[i]).status != SyncStatus::Failed by {}
            lemma_applied_key(before.synced_domains@, rs, k, v);
        }
    }
    if task.ipv6.enabled && ipv6 is Some {
        let v = ipv6_text(ipv6->0);
        assert forall|j: int| 0 <= j < v6.len() implies synced_value(m, domain_key(#[trigger] v6[j], DnsRecordType::AAAA)) == Some(v) by {
            let k = domain_key(v6[j], DnsRecordType::AAAA);
            assert forall|i: int| 0 <= i < rs.len() && #[trigger] record_key(rs[i].domain@, rs[i].record_type) == k
                implies rs[i].target_ip@ == v by {
                lemma_record_key_type(rs[i].domain@, rs[i].record_type, full_name(v6[j].sub, v6[j].root), DnsRecordType::AAAA);
            }
            assert forall|i: int| 0 <= i < rs.len() implies (#[trigger] rs[i]).status != SyncStatus::Failed by {}
            lemma_applied_key(before.synced_domains@, rs, k, v);
        }
    }
}

/// The engine's next check after a round that synchronised every domain of every enabled
/// protocol to the current addresses does not call the provider, where the addresses are
/// unchanged, the check is not forced and the comparison period is at least two checks.
pub proof fn law_check_after_synchronised_round_is_skipped(
    task: DnsTaskConfig,
    cache_times: u32,
    before: TaskRuntimeState,
    after: TaskRuntimeState,
    next: TaskRuntimeState,
    v4: Seq<DomainView>,
    v6: Seq<DomainView>,
    ipv4: Option<Ipv4>,
    ipv6: Option<Ipv6>,
    rs: Seq<SyncRecordResult>,
    synced_at: Seq<char>,
    now: Seq<char>,
    plan: CheckPlan,
)
    requires
        cache_times >= 2,
        state_after_sync(before, after, task, v4.len(), v6.len(), ipv4, ipv6, rs, false, synced_at),
        round_succeeded(rs, ipv4, ipv6),
        task.ipv4.enabled ==> covers(rs, v4, DnsRecordType::A)
            && protocol_all_ok(true, ipv4 is Some, v4.len(), DnsRecordType::A, rs),
        task.ipv6.enabled ==> covers(rs, v6, DnsRecordType::AAAA)
            && protocol_all_ok(true, ipv6 is Some, v6.len(), DnsRecordType::AAAA, rs),
        check_begun(task, cache_times, after, next, v4, v6, ipv4, ipv6, false, now, plan),
    ensures
        plan == CheckPlan::Skip,
{
    law_synchronised_round_skips_next_check(task, cache_times, before, after, v4, v6, ipv4, ipv6, rs, synced_at);
}


/// The polling period in use for a configured one: at least 5 seconds.
pub open spec fn effective_interval(secs: u64) -> u64 {
    if secs < 5 { 5 } else { secs }
}

/// Computes `effective_interval`.
pub fn effective_interval_secs(secs: u64) -> (r: u64)
    ensures r == effective_interval(secs),
{
    if secs < 5 { 5 } else { secs }
}

/// What wakes the scheduling loop.
#[derive(Debug, Clone, Copy, PartialEq, Eq)]
pub enum LoopEvent {
    /// The stop signal.
    Cancelled,
    /// The polling timer fired.
    Tick,
    /// A manual trigger (`true`), or its channel closed (`false`).
    Manual(bool),
    /// The configuration changed (`Some` with its interval), or its channel closed.
    ConfigChanged(Option<u64>),
}

/// What the scheduling loop does next.
#[derive(Debug, Clone, Copy, PartialEq, Eq)]
pub enum LoopAction {
    /// Leave the loop.
    Stop,
    /// Run one round, forced or not.
    RunOnce { force: bool },
    /// Restart the timer with a new period in seconds.
    Retime(u64),
    /// Nothing.
    Idle,
}

/// The loop's decision on an event, with the timer running at `current` seconds.
pub open spec fn loop_decision(current: u64, e: LoopEvent) -> LoopAction {
    match e {
        LoopEvent::Cancelled => LoopAction::Stop,
        LoopEvent::Tick => LoopAction::RunOnce { force: false },
        LoopEvent::Manual(true) => LoopAction::RunOnce { force: true },
        LoopEvent::Manual(false) => LoopAction::Idle,
        LoopEvent::ConfigChanged(Some(secs)) => if effective_interval(secs) != current {
            LoopAction::Retime(effective_interval(secs))
        } else {
            LoopAction::Idle
        },
        LoopEvent::ConfigChanged(None) => LoopAction::Idle,
    }
}

/// Decides what the scheduling loop does on an event (see `loop_decision`).
pub fn next_loop_action(current: u64, event: LoopEvent) -> (r: LoopAction)
    ensures r == loop_decision(current, event),
{
    match event {
        LoopEvent::Cancelled => LoopAction::Stop,
        LoopEvent::Tick => LoopAction::RunOnce { force: false },
        LoopEvent::Manual(got) => if got { LoopAction::RunOnce { force: true } } else { LoopAction::Idle },
        LoopEvent::ConfigChanged(Some(secs)) => {
            let next = effective_interval_secs(secs);
            if next != current { LoopAction::Retime(next) } else { LoopAction::Idle }
        },
        LoopEvent::ConfigChanged(None) => LoopAction::Idle,
    }
}

/// The timer never runs faster than every 5 seconds: a retiming asks for at least 5.
pub proof fn law_interval_at_least_five(current: u64, e: LoopEvent)
    ensures
        loop_decision(current, e) matches LoopAction::Retime(n) ==> n >= 5,
{
}

} // verus!
