//! Sources of the public IP address, their errors, and the choice of a source from
//! the settings.
use vstd::prelude::*;
use crate::config::{IpFetchConfig, IpSourceType};
use crate::net_interface::NetInterfaceIpFetcher;
use crate::notify::signed_decimal_text;
use crate::notify::signed_text;
use crate::stun::StunIpFetcher;
use crate::text::{append_chars, append_str, chars_of, string_of, trim, trim_chars};

verus! {

broadcast use vstd::string::group_string_axioms;

/// Why an address could not be obtained.
#[derive(Debug)]
pub enum FetchError {
    /// HTTP failure (the client's message).
    Http(String),
    /// I/O or command failure (the system's message).
    Io(String),
    /// The command or request timed out.
    Timeout,
    /// No interface has this name.
    InterfaceNotFound(String),
    /// The response held no valid IPv4 address.
    NoValidIpv4(String),
    /// The response held no valid IPv6 address.
    NoValidIpv6(String),
    /// The response held no valid address.
    NoValidIp(String),
    /// Any other failure.
    Other(String),
}

/// Reads the address from HTTP(S) endpoints, tried in order.
pub struct UrlIpFetcher {
    pub endpoints: Vec<String>,
    pub regex: Option<String>,
}

impl UrlIpFetcher {
    /// A source asking `endpoints` in order, choosing by `regex` where given.
    pub fn new(endpoints: Vec<String>, regex: Option<String>) -> (r: Self)
        ensures r.endpoints == endpoints, r.regex == regex,
    {
        UrlIpFetcher { endpoints, regex }
    }
}

/// Reads the address from the output of a shell command.
pub struct CommandIpFetcher {
    pub cmd: String,
    pub regex: Option<String>,
    pub timeout_secs: u64,
}

impl CommandIpFetcher {
    /// A source running `cmd`; a zero timeout means ten seconds.
    pub fn new(cmd: String, regex: Option<String>, timeout_secs: u64) -> (r: Self)
        ensures
            r.cmd == cmd,
            r.regex == regex,
            r.timeout_secs == if timeout_secs == 0 { 10 } else { timeout_secs },
    {
        let secs = if timeout_secs == 0 { 10 } else { timeout_secs };
        CommandIpFetcher { cmd, regex, timeout_secs: secs }
    }

    /// The error of a command that did not exit successfully: its exit code as `{:?}`
    /// writes an `Option<i32>`, and its trimmed error output.
    pub fn exit_error(code: Option<i32>, stderr: &str) -> (r: FetchError)
        ensures r matches FetchError::Other(m) && m@ == exit_error_text(code, stderr@),
    {
        let mut v: Vec<char> = Vec::new();
        append_str(&mut v, "命令执行退出码异常 (");
        match code {
            Some(c) => {
                append_str(&mut v, "Some(");
                append_str(&mut v, signed_decimal_text(c as i64).as_str());
                append_str(&mut v, ")");
            },
            None => append_str(&mut v, "None"),
        }
        append_str(&mut v, "): ");
        let t = trim_chars(chars_of(stderr).as_slice());
        append_chars(&mut v, t.as_slice());
        proof {
            assert(v@ =~= exit_error_text(code, stderr@));
        }
        FetchError::Other(string_of(v.as_slice()))
    }
}

/// `Some(n)` or `None`, as `{:?}` writes an `Option<i32>`.
pub open spec fn exit_code_text(code: Option<i32>) -> Seq<char> {
    match code {
        Some(c) => "Some("@ + signed_text(c as int) + ")"@,
        None => "None"@,
    }
}

/// The message of a failed command.
pub open spec fn exit_error_text(code: Option<i32>, stderr: Seq<char>) -> Seq<char> {
    "命令执行退出码异常 ("@ + exit_code_text(code) + "): "@ + trim(stderr)
}

/// The source chosen for a protocol.
pub enum IpFetcherKind {
    Url(UrlIpFetcher),
    Stun(StunIpFetcher),
    NetInterface(NetInterfaceIpFetcher),
    Command(CommandIpFetcher),
}

/// The trimmed setting, where it is not blank.
pub open spec fn filled_setting(s: Option<String>) -> Option<Seq<char>> {
    match s {
        Some(v) => if trim(v@).len() > 0 { Some(trim(v@)) } else { None },
        None => None,
    }
}

/// The source for a protocol's settings: none where the protocol is disabled, or where
/// an interface or command source lacks its (non-blank) interface or command; the
/// interface name and command are trimmed, and a command gets the default timeout.
pub fn create_ip_fetcher(config: &IpFetchConfig, http_interface: Option<&str>) -> (r: Option<IpFetcherKind>)
    ensures
        !config.enabled ==> r is None,
        config.enabled && config.source_type == IpSourceType::Url ==> (r matches Some(IpFetcherKind::Url(f))
            && f.endpoints@ == config.url_endpoints@ && f.regex == config.regex),
        config.enabled && config.source_type == IpSourceType::Stun ==> (r matches Some(IpFetcherKind::Stun(f))
            && f.timeout_ms == 2000),
        config.enabled && config.source_type == IpSourceType::NetInterface ==> match filled_setting(config.net_interface) {
            Some(name) => r matches Some(IpFetcherKind::NetInterface(f)) && f.interface_name@ == name
                && f.regex == config.regex,
            None => r is None,
        },
        config.enabled && config.source_type == IpSourceType::Command ==> match filled_setting(config.cmd) {
            Some(cmd) => r matches Some(IpFetcherKind::Command(f)) && f.cmd@ == cmd && f.regex == config.regex
                && f.timeout_secs == 10,
            None => r is None,
        },
{
    if !config.enabled {
        return None;
    }
    match config.source_type {
        IpSourceType::Url => Some(IpFetcherKind::Url(UrlIpFetcher::new(clone_strings(&config.url_endpoints),
            config.regex.clone()))),
        IpSourceType::Stun => Some(IpFetcherKind::Stun(StunIpFetcher::new(config.stun_server.clone(), http_interface))),
        IpSourceType::NetInterface => match filled(&config.net_interface) {
            Some(name) => Some(IpFetcherKind::NetInterface(NetInterfaceIpFetcher::new(name, config.regex.clone()))),
            None => None,
        },
        IpSourceType::Command => match filled(&config.cmd) {
            Some(cmd) => Some(IpFetcherKind::Command(CommandIpFetcher::new(cmd, config.regex.clone(), 10))),
            None => None,
        },
    }
}

fn filled(s: &Option<String>) -> (r: Option<String>)
    ensures
        match r {
            Some(v) => filled_setting(*s) == Some(v@),
            None => filled_setting(*s) is None,
        },
{
    match s {
        Some(v) => {
            let t = trim_chars(chars_of(v.as_str()).as_slice());
            if t.len() > 0 { Some(string_of(t.as_slice())) } else { None }
        },
        None => None,
    }
}

fn clone_strings(v: &Vec<String>) -> (r: Vec<String>)
    ensures r@ == v@,
{
    let mut out: Vec<String> = Vec::new();
    let mut i: usize = 0;
    while i < v.len()
        invariant
            i <= v@.len(),
            out@ == v@.take(i as int),
        decreases v@.len() - i,
    {
        out.push(v[i].clone());
        assert(out@ =~= v@.take(i + 1));
        i = i + 1;
    }
    assert(v@.take(v@.len() as int) =~= v@);
    out
}

} // verus!
