//! DNS record kinds and the outcome of synchronising one record.
use vstd::prelude::*;

verus! {

/// DNS record type.
#[allow(non_camel_case_types, clippy::upper_case_acronyms)]
#[derive(Debug, Clone, Copy, PartialEq, Eq, Structural, Hash)]
pub enum DnsRecordType {
    A,
    AAAA,
}

/// Name of a record type.
pub open spec fn record_type_name(t: DnsRecordType) -> Seq<char> {
    match t {
        DnsRecordType::A => "A"@,
        DnsRecordType::AAAA => "AAAA"@,
    }
}

impl DnsRecordType {
    /// `A` or `AAAA`.
    pub fn as_str(&self) -> (r: &'static str)
        ensures r@ == record_type_name(*self),
    {
        match self {
            DnsRecordType::A => "A",
            DnsRecordType::AAAA => "AAAA",
        }
    }
}

/// Outcome of synchronising one record.
#[derive(Debug, Clone, Copy, PartialEq, Eq, Structural)]
pub enum SyncStatus {
    /// A record was added.
    Created,
    /// An existing record was changed.
    Updated,
    /// The record already held the address.
    Unchanged,
    /// The synchronisation failed.
    Failed,
}

/// Display label of a status.
pub open spec fn status_label(s: SyncStatus) -> Seq<char> {
    match s {
        SyncStatus::Created => "已创建"@,
        SyncStatus::Updated => "已更新"@,
        SyncStatus::Unchanged => "未变动"@,
        SyncStatus::Failed => "失败"@,
    }
}

impl SyncStatus {
    /// Display label.
    pub fn as_str(&self) -> (r: &'static str)
        ensures r@ == status_label(*self),
    {
        match self {
            SyncStatus::Created => "已创建",
            SyncStatus::Updated => "已更新",
            SyncStatus::Unchanged => "未变动",
            SyncStatus::Failed => "失败",
        }
    }
}

/// Result of synchronising one record.
#[derive(Debug, Clone)]
pub struct SyncRecordResult {
    pub domain: String,
    pub record_type: DnsRecordType,
    pub target_ip: String,
    pub status: SyncStatus,
    pub message: String,
}

/// Message of an unchanged record.
pub open spec fn unchanged_message() -> Seq<char> {
    "记录未发生变化，无需更新"@
}

/// Message of an updated record.
pub open spec fn updated_message() -> Seq<char> {
    "记录更新成功"@
}

/// Message of a created record.
pub open spec fn created_message() -> Seq<char> {
    "记录添加成功"@
}

impl SyncRecordResult {
    /// The result holds exactly these values.
    pub open spec fn is(self, domain: Seq<char>, t: DnsRecordType, ip: Seq<char>, s: SyncStatus, m: Seq<char>) -> bool {
        self.domain@ == domain && self.record_type == t && self.target_ip@ == ip && self.status == s
            && self.message@ == m
    }

    /// A record that already held the address.
    pub fn unchanged(domain: &str, record_type: DnsRecordType, ip: &str) -> (r: Self)
        ensures r.is(domain@, record_type, ip@, SyncStatus::Unchanged, unchanged_message()),
    {
        SyncRecordResult {
            domain: domain.to_owned(),
            record_type,
            target_ip: ip.to_owned(),
            status: SyncStatus::Unchanged,
            message: "记录未发生变化，无需更新".to_owned(),
        }
    }

    /// As `unchanged`, for a named provider (the provider appears in the log only).
    pub fn unchanged_log(provider: &str, domain: &str, record_type: DnsRecordType, ip: &str) -> (r: Self)
        ensures r.is(domain@, record_type, ip@, SyncStatus::Unchanged, unchanged_message()),
    {
        Self::unchanged(domain, record_type, ip)
    }

    /// A record that was changed to the address.
    pub fn updated(domain: &str, record_type: DnsRecordType, ip: &str) -> (r: Self)
        ensures r.is(domain@, record_type, ip@, SyncStatus::Updated, updated_message()),
    {
        SyncRecordResult {
            domain: domain.to_owned(),
            record_type,
            target_ip: ip.to_owned(),
            status: SyncStatus::Updated,
            message: "记录更新成功".to_owned(),
        }
    }

    /// As `updated`, for a named provider.
    pub fn updated_log(provider: &str, domain: &str, record_type: DnsRecordType, ip: &str) -> (r: Self)
        ensures r.is(domain@, record_type, ip@, SyncStatus::Updated, updated_message()),
    {
        Self::updated(domain, record_type, ip)
    }

    /// A record that was added with the address.
    pub fn created(domain: &str, record_type: DnsRecordType, ip: &str) -> (r: Self)
        ensures r.is(domain@, record_type, ip@, SyncStatus::Created, created_message()),
    {
        SyncRecordResult {
            domain: domain.to_owned(),
            record_type,
            target_ip: ip.to_owned(),
            status: SyncStatus::Created,
            message: "记录添加成功".to_owned(),
        }
    }

    /// As `created`, for a named provider.
    pub fn created_log(provider: &str, domain: &str, record_type: DnsRecordType, ip: &str) -> (r: Self)
        ensures r.is(domain@, record_type, ip@, SyncStatus::Created, created_message()),
    {
        Self::created(domain, record_type, ip)
    }

    /// A failed synchronisation with its message.
    pub fn failed(domain: &str, record_type: DnsRecordType, ip: &str, message: &str) -> (r: Self)
        ensures r.is(domain@, record_type, ip@, SyncStatus::Failed, message@),
    {
        SyncRecordResult {
            domain: domain.to_owned(),
            record_type,
            target_ip: ip.to_owned(),
            status: SyncStatus::Failed,
            message: message.to_owned(),
        }
    }
}

/// What `regex::Regex::new(pattern)` followed by `replace_all(text, rep)` returns;
/// `None` where the pattern does not compile.
pub uninterp spec fn regex_replace_all(pattern: Seq<char>, text: Seq<char>, rep: Seq<char>) -> Option<Seq<char>>;

/// Compiles `pattern` with `regex::Regex::new` and, where it compiles, replaces every match
/// in `text` with `rep` (`Regex::replace_all`). The result is named; nothing is stated of
/// how matches are found.
#[verifier::external_body]
fn replace_all_matches(pattern: &str, text: &str, rep: &str) -> (r: Option<String>)
    ensures
        match r {
            Some(s) => regex_replace_all(pattern@, text@, rep@) == Some(s@),
            None => regex_replace_all(pattern@, text@, rep@) is None,
        },
{
    regex::Regex::new(pattern).ok().map(|re| re.replace_all(text, rep).into_owned())
}

/// Pattern of query parameters whose values are secrets.
pub open spec fn sensitive_param_pattern() -> Seq<char> {
    "(?i)(key|password|passwd|secret|signature|token|accesskeyid|auth)=([^&\\s\\)]+)"@
}

/// Replacement that keeps the parameter name and masks its value.
pub open spec fn masked_param() -> Seq<char> {
    "$1=******"@
}

/// The text with every secret-valued parameter masked; the text unchanged where the
/// pattern would not compile.
pub open spec fn sanitized(input: Seq<char>) -> Seq<char> {
    match regex_replace_all(sensitive_param_pattern(), input, masked_param()) {
        Some(s) => s,
        None => input,
    }
}

/// Masks the values of secret parameters (`key=`, `password=`, `token=`, ...) in a URL or
/// an error text.
pub fn sanitize_sensitive_url_params(input: &str) -> (r: String)
    ensures r@ == sanitized(input@),
{
    let pattern = "(?i)(key|password|passwd|secret|signature|token|accesskeyid|auth)=([^&\\s\\)]+)";
    match replace_all_matches(pattern, input, "$1=******") {
        Some(s) => s,
        None => input.to_owned(),
    }
}

} // verus!
