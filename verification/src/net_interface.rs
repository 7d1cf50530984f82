//! Addresses of a local network interface: the Linux `/proc/net/if_inet6`
//! table and the choice of one address among the candidates.
use vstd::prelude::*;
use crate::net::{Ipv4, Ipv6, ipv4_text, ipv6_text};
use crate::engine::join_sep;
use crate::providers::with_prefix;
use crate::text::append_str;
use crate::text::{
    chars_of, lemma_parse_unsigned_bounds, lower, lower_chars, chars_eq, parse_unsigned, parse_unsigned_chars, split_chars,
    split_on, split_words, string_of, sub_chars, trim, trimmed_chars, views_of, words,
};

verus! {

/// RFC 4941 temporary privacy address.
pub const IFA_F_TEMPORARY: u32 = 0x01;
/// Duplicate address detection failed.
pub const IFA_F_DADFAILED: u32 = 0x08;
/// Deprecated address.
pub const IFA_F_DEPRECATED: u32 = 0x20;
/// Duplicate address detection in progress.
pub const IFA_F_TENTATIVE: u32 = 0x40;

/// One IPv6 address line of `/proc/net/if_inet6`.
#[derive(Debug, Clone, PartialEq, Eq)]
pub struct LinuxIfInet6Entry {
    pub ip: Ipv6,
    pub if_index: u32,
    pub prefix_len: u8,
    pub scope: u8,
    pub flags: u32,
    pub if_name: String,
}

impl LinuxIfInet6Entry {
    /// Scope 0: global.
    pub open spec fn spec_is_global_scope(&self) -> bool {
        self.scope == 0
    }

    /// The address is a temporary privacy address.
    pub open spec fn spec_is_temporary(&self) -> bool {
        self.flags & IFA_F_TEMPORARY != 0
    }

    /// The address is deprecated.
    pub open spec fn spec_is_deprecated(&self) -> bool {
        self.flags & IFA_F_DEPRECATED != 0
    }

    /// Duplicate address detection is running or has failed.
    pub open spec fn spec_is_tentative_or_failed(&self) -> bool {
        self.flags & (IFA_F_TENTATIVE | IFA_F_DADFAILED) != 0
    }

    /// A stable global unicast address, fit to be published.
    pub open spec fn spec_is_stable_global(&self) -> bool {
        &&& self.spec_is_global_scope()
        &&& !self.spec_is_temporary()
        &&& !self.spec_is_deprecated()
        &&& !self.spec_is_tentative_or_failed()
        &&& self.ip.spec_is_global_unicast()
    }

    /// Whether the scope is global.
    pub fn is_global_scope(&self) -> (r: bool)
        ensures r == self.spec_is_global_scope(),
    {
        self.scope == 0
    }

    /// Whether the address is a temporary privacy address.
    pub fn is_temporary(&self) -> (r: bool)
        ensures r == self.spec_is_temporary(),
    {
        (self.flags & IFA_F_TEMPORARY) != 0
    }

    /// Whether the address is deprecated.
    pub fn is_deprecated(&self) -> (r: bool)
        ensures r == self.spec_is_deprecated(),
    {
        (self.flags & IFA_F_DEPRECATED) != 0
    }

    /// Whether duplicate address detection is running or has failed.
    pub fn is_tentative_or_failed(&self) -> (r: bool)
        ensures r == self.spec_is_tentative_or_failed(),
    {
        (self.flags & (IFA_F_TENTATIVE | IFA_F_DADFAILED)) != 0
    }

    /// Whether the address is stable, global and healthy.
    pub fn is_stable_global(&self) -> (r: bool)
        ensures r == self.spec_is_stable_global(),
    {
        self.is_global_scope() && !self.is_temporary() && !self.is_deprecated()
            && !self.is_tentative_or_failed() && self.ip.is_global_unicast()
    }
}

/// The `k`-th group of four hex digits of the address column.
pub open spec fn ip_group(tok: Seq<char>, k: int) -> Option<int> {
    parse_unsigned(tok.subrange(4 * k, 4 * k + 4), 16, 0xffff)
}

/// The address column: 32 characters, eight groups of hex digits.
pub open spec fn ip_column_ok(tok: Seq<char>) -> bool {
    tok.len() == 32 && forall|k: int| 0 <= k < 8 ==> (#[trigger] ip_group(tok, k)) is Some
}

/// A line of the table that parses: six words, the first five of them hex numbers
/// that fit their fields.
pub open spec fn line_parses(line: Seq<char>) -> bool {
    let w = words(line);
    &&& w.len() >= 6
    &&& ip_column_ok(w[0])
    &&& parse_unsigned(w[1], 16, 0xffff_ffff) is Some
    &&& parse_unsigned(w[2], 16, 0xff) is Some
    &&& parse_unsigned(w[3], 16, 0xff) is Some
    &&& parse_unsigned(w[4], 16, 0xffff_ffff) is Some
}

/// `e` holds the fields of a line that parses.
pub open spec fn entry_of_line(line: Seq<char>, e: LinuxIfInet6Entry) -> bool {
    let w = words(line);
    &&& forall|k: int| 0 <= k < 8 ==> e.ip.segments[k] as int == (#[trigger] ip_group(w[0], k))->0
    &&& e.if_index as int == parse_unsigned(w[1], 16, 0xffff_ffff)->0
    &&& e.prefix_len as int == parse_unsigned(w[2], 16, 0xff)->0
    &&& e.scope as int == parse_unsigned(w[3], 16, 0xff)->0
    &&& e.flags as int == parse_unsigned(w[4], 16, 0xffff_ffff)->0
    &&& e.if_name@ == w[5]
}

/// Parses one line of `/proc/net/if_inet6`, such as
/// `2408820778cd12340200f8fffed144ff 02 40 00 80 eth0`.
pub fn parse_if_inet6_line(line: &str) -> (r: Option<LinuxIfInet6Entry>)
    ensures
        match r {
            Some(e) => line_parses(line@) && entry_of_line(line@, e),
            None => !line_parses(line@),
        },
{
    let chars = chars_of(line);
    parse_line_chars(chars.as_slice())
}

/// `parse_if_inet6_line` on the characters of a line.
fn parse_line_chars(line: &[char]) -> (r: Option<LinuxIfInet6Entry>)
    ensures
        match r {
            Some(e) => line_parses(line@) && entry_of_line(line@, e),
            None => !line_parses(line@),
        },
{
    let w = split_words(line);
    proof {
        assert(views_of(w@) == words(line@));
    }
    if w.len() < 6 {
        return None;
    }
    let ghost ws = words(line@);
    assert(w[0]@ == ws[0] && w[1]@ == ws[1] && w[2]@ == ws[2]);
    assert(w[3]@ == ws[3] && w[4]@ == ws[4] && w[5]@ == ws[5]);
    let tok = &w[0];
    if tok.len() != 32 {
        return None;
    }
    let mut segments: [u16; 8] = [0u16; 8];
    let mut k: usize = 0;
    while k < 8
        invariant
            k <= 8,
            ws == words(line@),
            ws.len() >= 6,
            tok@ == ws[0],
            tok@.len() == 32,
            forall|j: int| 0 <= j < k ==> (#[trigger] ip_group(ws[0], j)) is Some
                && segments[j] as int == ip_group(ws[0], j)->0,
        decreases 8 - k,
    {
        let group = sub_chars(tok.as_slice(), 4 * k, 4 * k + 4);
        match parse_unsigned_chars(group.as_slice(), 16, 0xffff) {
            None => {
                assert(!ip_column_ok(ws[0])) by {
                    assert(ip_group(ws[0], k as int) is None);
                }
                return None;
            },
            Some(v) => {
                proof { lemma_parse_unsigned_bounds(group@, 16, 0xffff); }
                segments.set(k, v as u16);
            },
        }
        k = k + 1;
    }
    let if_index = match parse_unsigned_chars(w[1].as_slice(), 16, 0xffff_ffff) {
        None => { return None; },
        Some(v) => { proof { lemma_parse_unsigned_bounds(w[1]@, 16, 0xffff_ffff); } v as u32 },
    };
    let prefix_len = match parse_unsigned_chars(w[2].as_slice(), 16, 0xff) {
        None => { return None; },
        Some(v) => { proof { lemma_parse_unsigned_bounds(w[2]@, 16, 0xff); } v as u8 },
    };
    let scope = match parse_unsigned_chars(w[3].as_slice(), 16, 0xff) {
        None => { return None; },
        Some(v) => { proof { lemma_parse_unsigned_bounds(w[3]@, 16, 0xff); } v as u8 },
    };
    let flags = match parse_unsigned_chars(w[4].as_slice(), 16, 0xffff_ffff) {
        None => { return None; },
        Some(v) => { proof { lemma_parse_unsigned_bounds(w[4]@, 16, 0xffff_ffff); } v as u32 },
    };
    let e = LinuxIfInet6Entry {
        ip: Ipv6 { segments },
        if_index,
        prefix_len,
        scope,
        flags,
        if_name: string_of(w[5].as_slice()),
    };
    assert(ip_column_ok(ws[0]));
    Some(e)
}


/// The target interface name as a character sequence.
pub open spec fn target_view(target: Option<&str>) -> Option<Seq<char>> {
    match target {
        Some(t) => Some(t@),
        None => None,
    }
}

/// A line is kept: it parses, and its interface name equals the target,
/// ignoring ASCII case (`str::eq_ignore_ascii_case`), where a target is given.
pub open spec fn line_kept(line: Seq<char>, target: Option<Seq<char>>) -> bool {
    &&& line_parses(line)
    &&& match target {
        Some(t) => lower(words(line)[5]) == lower(t),
        None => true,
    }
}

/// The kept lines, in order.
pub open spec fn kept_lines(lines: Seq<Seq<char>>, target: Option<Seq<char>>) -> Seq<Seq<char>>
    decreases lines.len(),
{
    if lines.len() == 0 {
        Seq::<Seq<char>>::empty()
    } else {
        let prev = kept_lines(lines.drop_last(), target);
        if line_kept(lines.last(), target) { prev.push(lines.last()) } else { prev }
    }
}

proof fn lemma_kept_lines_kept(lines: Seq<Seq<char>>, target: Option<Seq<char>>, i: int)
    requires 0 <= i < kept_lines(lines, target).len(),
    ensures line_kept(kept_lines(lines, target)[i], target),
    decreases lines.len(),
{
    let prev = kept_lines(lines.drop_last(), target);
    if i < prev.len() {
        lemma_kept_lines_kept(lines.drop_last(), target, i);
    }
}

/// The table is read line by line in order: the lines kept are exactly those that parse
/// and name the target (where one is given), in input order, never more than the lines.
pub proof fn law_kept_lines_filter(lines: Seq<Seq<char>>, target: Option<Seq<char>>)
    ensures
        kept_lines(lines, target) == lines.filter(|l: Seq<char>| line_kept(l, target)),
        kept_lines(lines, target).len() <= lines.len(),
    decreases lines.len(),
{
    reveal(Seq::filter);
    lines.lemma_filter_len(|l: Seq<char>| line_kept(l, target));
    if lines.len() > 0 {
        law_kept_lines_filter(lines.drop_last(), target);
    }
}

/// Every entry read for an interface belongs to it: its name equals the target,
/// ignoring ASCII case.
pub proof fn law_entries_belong_to_target(
    lines: Seq<Seq<char>>,
    target: Seq<char>,
    entries: Seq<LinuxIfInet6Entry>,
)
    requires
        entries.len() == kept_lines(lines, Some(target)).len(),
        forall|i: int| 0 <= i < entries.len() ==> entry_of_line(
            #[trigger] kept_lines(lines, Some(target))[i],
            entries[i],
        ),
    ensures
        forall|i: int| 0 <= i < entries.len() ==> lower((#[trigger] entries[i]).if_name@) == lower(target),
{
    assert forall|i: int| 0 <= i < entries.len() implies lower((#[trigger] entries[i]).if_name@) == lower(target) by {
        lemma_kept_lines_kept(lines, Some(target), i);
        assert(entry_of_line(kept_lines(lines, Some(target))[i], entries[i]));
    }
}

/// The entries of the table text `content`, restricted to the interface `target_ifname`
/// (compared ignoring ASCII case) where one is given. Lines are the pieces between
/// `'\n'`; a `'\r'` before it, and an empty last piece, are whitespace to the parser,
/// so this is the same as walking `str::lines`.
pub fn parse_if_inet6_content(content: &str, target_ifname: Option<&str>) -> (r: Vec<LinuxIfInet6Entry>)
    ensures
        r@.len() == kept_lines(split_on(content@, '\n'), target_view(target_ifname)).len(),
        forall|i: int| 0 <= i < r@.len() ==> entry_of_line(
            #[trigger] kept_lines(split_on(content@, '\n'), target_view(target_ifname))[i],
            r@[i],
        ),
{
    let chars = chars_of(content);
    let lines = split_chars(chars.as_slice(), '\n');
    let ghost ls = split_on(content@, '\n');
    let ghost tv = target_view(target_ifname);
    let target_lower: Option<Vec<char>> = match target_ifname {
        Some(t) => {
            let tc = chars_of(t);
            Some(lower_chars(tc.as_slice()))
        },
        None => None,
    };
    let mut out: Vec<LinuxIfInet6Entry> = Vec::new();
    let mut i: usize = 0;
    assert(ls.take(0) =~= Seq::<Seq<char>>::empty());
    while i < lines.len()
        invariant
            i <= lines@.len(),
            views_of(lines@) == ls,
            tv == target_view(target_ifname),
            match target_lower {
                Some(tl) => tv is Some && tl@ == lower(tv->0),
                None => tv is None,
            },
            out@.len() == kept_lines(ls.take(i as int), tv).len(),
            forall|j: int| 0 <= j < out@.len() ==> entry_of_line(
                #[trigger] kept_lines(ls.take(i as int), tv)[j],
                out@[j],
            ),
        decreases lines@.len() - i,
    {
        let ghost prev = kept_lines(ls.take(i as int), tv);
        assert(ls.take(i + 1).drop_last() =~= ls.take(i as int));
        assert(ls.take(i + 1).last() == ls[i as int]);
        assert(lines[i as int]@ == ls[i as int]);
        match parse_line_chars(lines[i].as_slice()) {
            None => {
                assert(kept_lines(ls.take(i + 1), tv) == prev);
            },
            Some(e) => {
                let keep = match &target_lower {
                    None => true,
                    Some(tl) => {
                        let nc = chars_of(e.if_name.as_str());
                        let nl = lower_chars(nc.as_slice());
                        chars_eq(nl.as_slice(), tl.as_slice())
                    },
                };
                if keep {
                    out.push(e);
                    proof {
                        let now = kept_lines(ls.take(i + 1), tv);
                        assert(now =~= prev.push(ls[i as int]));
                        assert forall|j: int| 0 <= j < out@.len() implies entry_of_line(
                            #[trigger] now[j], out@[j]) by {
                            if j < prev.len() {
                                assert(now[j] == prev[j]);
                            }
                        }
                    }
                } else {
                    assert(kept_lines(ls.take(i + 1), tv) == prev);
                }
            },
        }
        i = i + 1;
    }
    assert(ls.take(lines@.len() as int) =~= ls);
    out
}

/// Where the address of an interface comes from.
pub struct NetInterfaceIpFetcher {
    pub interface_name: String,
    pub regex: Option<String>,
}

impl NetInterfaceIpFetcher {
    /// A source that reads interface `interface_name`, choosing among its
    /// addresses by `regex` where given.
    pub fn new(interface_name: String, regex: Option<String>) -> (r: Self)
        ensures r.interface_name == interface_name, r.regex == regex,
    {
        NetInterfaceIpFetcher { interface_name, regex }
    }
}

/// The ordinal `n` of a rule written `@n` (after trimming), as `usize::from_str` reads it.
pub open spec fn ordinal_of(rule: Seq<char>) -> Option<int> {
    let t = trim(rule);
    if t.len() > 0 && t[0] == '@' {
        parse_unsigned(t.drop_first(), 10, usize::MAX as int)
    } else {
        None
    }
}

/// The position that ordinal `n` picks among `len` candidates: `n - 1`, or the
/// first where `n` is zero or beyond the list.
pub open spec fn ordinal_position(len: int, n: int) -> int {
    if n == 0 || n > len { 0 } else { n - 1 }
}

/// What a scan of `candidates` with the extractor `f` and pattern `s` may return:
/// the first answer that is not `None`, or `None` where every answer was `None`.
pub open spec fn extractor_scan<T, F: Fn(&T, &str) -> Option<T>>(
    f: F,
    candidates: Seq<T>,
    s: &str,
    r: Option<T>,
) -> bool {
    match r {
        Some(_) => exists|i: int|
            0 <= i < candidates.len()
            && (forall|j: int| 0 <= j < i ==> f.ensures((&candidates[j], s), None))
            && #[trigger] f.ensures((&candidates[i], s), r),
        None => forall|j: int| 0 <= j < candidates.len() ==> #[trigger] f.ensures((&candidates[j], s), None),
    }
}

/// Picks an address by the rule `@n` (the `n`-th, counted from 1; the first
/// where `n` is 0 or too large), or else by handing each candidate in turn, with
/// the trimmed rule, to `custom_extractor` and taking its first answer.
/// No candidates, or no rule, gives `None`.
pub fn select_ip_by_ordinal_or_regex<T: Copy, F: Fn(&T, &str) -> Option<T>>(
    candidates: &[T],
    rule: Option<&str>,
    custom_extractor: F,
) -> (r: Option<T>)
    requires
        forall|i: int, s: &str| 0 <= i < candidates@.len() ==> #[trigger] custom_extractor.requires(
            (&candidates@[i], s),
        ),
    ensures
        candidates@.len() == 0 || rule is None ==> r is None,
        candidates@.len() > 0 && rule is Some && ordinal_of(rule->0@) is Some ==> r == Some(
            candidates@[ordinal_position(candidates@.len() as int, ordinal_of(rule->0@)->0)],
        ),
        candidates@.len() > 0 && rule is Some && ordinal_of(rule->0@) is None ==> exists|s: &str|
            #![trigger extractor_scan(custom_extractor, candidates@, s, r)]
            s@ == trim(rule->0@) && extractor_scan(custom_extractor, candidates@, s, r),
{
    if candidates.len() == 0 {
        return None;
    }
    let rule_text = match rule {
        None => { return None; },
        Some(x) => x,
    };
    let t = trimmed_chars(rule_text);
    if t.len() > 0 && t[0] == '@' {
        let rest = sub_chars(t.as_slice(), 1, t.len());
        assert(rest@ =~= t@.drop_first());
        match parse_unsigned_chars(rest.as_slice(), 10, usize::MAX as u64) {
            Some(v) => {
                proof { lemma_parse_unsigned_bounds(rest@, 10, usize::MAX as int); }
                let idx = v as usize;
                if idx == 0 || idx > candidates.len() {
                    return Some(candidates[0]);
                } else {
                    return Some(candidates[idx - 1]);
                }
            },
            None => {},
        }
    }
    let pattern = string_of(t.as_slice());
    let s: &str = pattern.as_str();
    let mut i: usize = 0;
    while i < candidates.len()
        invariant
            i <= candidates@.len(),
            candidates@.len() > 0,
            rule == Some(rule_text),
            ordinal_of(rule_text@) is None,
            s@ == trim(rule_text@),
            forall|k: int, x: &str| 0 <= k < candidates@.len() ==> #[trigger] custom_extractor.requires(
                (&candidates@[k], x),
            ),
            forall|j: int| 0 <= j < i ==> #[trigger] custom_extractor.ensures((&candidates@[j], s), None),
        decreases candidates@.len() - i,
    {
        let out = custom_extractor(&candidates[i], s);
        if out.is_some() {
            assert(extractor_scan(custom_extractor, candidates@, s, out));
            return out;
        }
        i = i + 1;
    }
    assert(extractor_scan(custom_extractor, candidates@, s, None));
    None
}


/// An interface as the user picks it: its name, a label with its addresses, and the
/// addresses themselves.
#[derive(Debug, Clone)]
pub struct InterfaceInfo {
    pub name: String,
    pub display_name: String,
    pub ipv4s: Vec<String>,
    pub ipv6s: Vec<String>,
}

/// The texts of the addresses that are not loopback, in order.
pub open spec fn shown_v4s(addrs: Seq<Ipv4>) -> Seq<Seq<char>>
    decreases addrs.len(),
{
    if addrs.len() == 0 {
        Seq::empty()
    } else {
        let prev = shown_v4s(addrs.drop_last());
        if addrs.last().octets[0] == 127 { prev } else { prev.push(ipv4_text(addrs.last())) }
    }
}

/// The texts of the global unicast addresses, in order.
pub open spec fn shown_v6s(addrs: Seq<Ipv6>) -> Seq<Seq<char>>
    decreases addrs.len(),
{
    if addrs.len() == 0 {
        Seq::empty()
    } else {
        let prev = shown_v6s(addrs.drop_last());
        if addrs.last().spec_is_global_unicast() { prev.push(ipv6_text(addrs.last())) } else { prev }
    }
}

/// A healthy temporary global address: global scope, not stable, not deprecated, not in
/// or failed duplicate detection.
pub open spec fn healthy_temporary(e: LinuxIfInet6Entry) -> bool {
    e.spec_is_global_scope() && !e.spec_is_stable_global() && !e.spec_is_deprecated() && !e.spec_is_tentative_or_failed()
}

/// The texts of the interface's entries (its name ignoring ASCII case) that pass `keep`.
pub open spec fn entry_texts(entries: Seq<LinuxIfInet6Entry>, name: Seq<char>, stable: bool) -> Seq<Seq<char>>
    decreases entries.len(),
{
    if entries.len() == 0 {
        Seq::empty()
    } else {
        let prev = entry_texts(entries.drop_last(), name, stable);
        let e = entries.last();
        let pass = lower(e.if_name@) == lower(name)
            && if stable { e.spec_is_stable_global() } else { healthy_temporary(e) };
        if pass { prev.push(ipv6_text(e.ip)) } else { prev }
    }
}

/// Whether some entry belongs to the interface.
pub open spec fn has_entries(entries: Seq<LinuxIfInet6Entry>, name: Seq<char>) -> bool {
    exists|i: int| 0 <= i < entries.len() && lower(#[trigger] entries[i].if_name@) == lower(name)
}

/// `list` extended with the texts of `more` that it does not hold yet, in order.
pub open spec fn add_unique(list: Seq<Seq<char>>, more: Seq<Seq<char>>) -> Seq<Seq<char>>
    decreases more.len(),
{
    if more.len() == 0 {
        list
    } else {
        let prev = add_unique(list, more.drop_last());
        if prev.contains(more.last()) { prev } else { prev.push(more.last()) }
    }
}

/// The IPv6 texts shown: where the table lists the interface, stable addresses first,
/// then healthy temporary ones, then the others, each once; else as found.
pub open spec fn ordered_v6s(found: Seq<Seq<char>>, entries: Option<Seq<LinuxIfInet6Entry>>, name: Seq<char>) -> Seq<Seq<char>> {
    match entries {
        Some(es) => if has_entries(es, name) {
            add_unique(add_unique(add_unique(Seq::empty(), entry_texts(es, name, true)), entry_texts(es, name, false)), found)
        } else {
            found
        },
        None => found,
    }
}

/// The label: the name, and in brackets the addresses of each family that has some.
pub open spec fn interface_label(name: Seq<char>, v4s: Seq<Seq<char>>, v6s: Seq<Seq<char>>) -> Seq<char> {
    let a: Seq<Seq<char>> = if v4s.len() > 0 { seq!["IPv4: "@ + join_sep(v4s, ", "@)] } else { Seq::empty() };
    let parts = if v6s.len() > 0 { a.push("IPv6: "@ + join_sep(v6s, ", "@)) } else { a };
    if parts.len() == 0 { name } else { name + " ("@ + join_sep(parts, " | "@) + ")"@ }
}

/// The views of a list of strings.
pub open spec fn string_views(v: Seq<String>) -> Seq<Seq<char>> {
    v.map_values(|x: String| x@)
}

fn join_strings(parts: &Vec<String>, sep: &str) -> (r: String)
    ensures r@ == join_sep(string_views(parts@), sep@),
{
    let mut v: Vec<char> = Vec::new();
    let mut i: usize = 0;
    while i < parts.len()
        invariant
            i <= parts@.len(),
            v@ == join_sep(string_views(parts@).take(i as int), sep@),
        decreases parts@.len() - i,
    {
        assert(string_views(parts@).take(i + 1).drop_last() =~= string_views(parts@).take(i as int));
        if i > 0 {
            append_str(&mut v, sep);
        }
        append_str(&mut v, parts[i].as_str());
        i = i + 1;
    }
    assert(string_views(parts@).take(parts@.len() as int) =~= string_views(parts@));
    string_of(v.as_slice())
}

fn contains_string(list: &Vec<String>, x: &str) -> (r: bool)
    ensures r == string_views(list@).contains(x@),
{
    let mut i: usize = 0;
    while i < list.len()
        invariant
            i <= list@.len(),
            forall|j: int| 0 <= j < i ==> list@[j]@ != x@,
        decreases list@.len() - i,
    {
        if crate::text::eq_exact(list[i].as_str(), x) {
            assert(string_views(list@)[i as int] == x@);
            return true;
        }
        i = i + 1;
    }
    assert forall|j: int| 0 <= j < string_views(list@).len() implies string_views(list@)[j] != x@ by {
        assert(list@[j]@ != x@);
    }
    false
}

fn push_all_unique(list: &mut Vec<String>, more: &Vec<String>)
    ensures string_views(final(list)@) == add_unique(string_views(old(list)@), string_views(more@)),
{
    let ghost start = string_views(list@);
    let mut i: usize = 0;
    while i < more.len()
        invariant
            i <= more@.len(),
            string_views(list@) == add_unique(start, string_views(more@).take(i as int)),
        decreases more@.len() - i,
    {
        let ghost before = string_views(list@);
        assert(string_views(more@).take(i + 1).drop_last() =~= string_views(more@).take(i as int));
        if !contains_string(list, more[i].as_str()) {
            list.push(more[i].clone());
            assert(string_views(list@) =~= before.push(more@[i as int]@));
        }
        i = i + 1;
    }
    assert(string_views(more@).take(more@.len() as int) =~= string_views(more@));
}

fn texts_of_entries(entries: &Vec<LinuxIfInet6Entry>, name: &str, stable: bool) -> (r: Vec<String>)
    ensures string_views(r@) == entry_texts(entries@, name@, stable),
{
    let mut out: Vec<String> = Vec::new();
    let mut i: usize = 0;
    while i < entries.len()
        invariant
            i <= entries@.len(),
            string_views(out@) == entry_texts(entries@.take(i as int), name@, stable),
        decreases entries@.len() - i,
    {
        assert(entries@.take(i + 1).drop_last() =~= entries@.take(i as int));
        let e = &entries[i];
        let pass = crate::text::eq_ignore_case(e.if_name.as_str(), name) && if stable {
            e.is_stable_global()
        } else {
            e.is_global_scope() && !e.is_stable_global() && !e.is_deprecated() && !e.is_tentative_or_failed()
        };
        if pass {
            let ghost before = string_views(out@);
            out.push(e.ip.to_text());
            assert(string_views(out@) =~= before.push(ipv6_text(e.ip)));
        }
        i = i + 1;
    }
    assert(entries@.take(entries@.len() as int) =~= entries@);
    out
}

/// The interface as listed (the computing part of listing the system's interfaces):
/// its addresses filtered and, where the Linux table lists it, its IPv6 addresses put in
/// order of stability; then its label.
pub fn interface_info(name: String, v4: &Vec<Ipv4>, v6: &Vec<Ipv6>, entries: Option<&Vec<LinuxIfInet6Entry>>)
    -> (r: InterfaceInfo)
    ensures
        r.name == name,
        string_views(r.ipv4s@) == shown_v4s(v4@),
        string_views(r.ipv6s@) == ordered_v6s(shown_v6s(v6@), match entries { Some(e) => Some(e@), None => None }, name@),
        r.display_name@ == interface_label(name@, string_views(r.ipv4s@), string_views(r.ipv6s@)),
{
    let mut v4s: Vec<String> = Vec::new();
    let mut i: usize = 0;
    while i < v4.len()
        invariant
            i <= v4@.len(),
            string_views(v4s@) == shown_v4s(v4@.take(i as int)),
        decreases v4@.len() - i,
    {
        assert(v4@.take(i + 1).drop_last() =~= v4@.take(i as int));
        if !v4[i].is_loopback() {
            let ghost before = string_views(v4s@);
            v4s.push(v4[i].to_text());
            assert(string_views(v4s@) =~= before.push(ipv4_text(v4@[i as int])));
        }
        i = i + 1;
    }
    assert(v4@.take(v4@.len() as int) =~= v4@);
    let mut found: Vec<String> = Vec::new();
    let mut j: usize = 0;
    while j < v6.len()
        invariant
            j <= v6@.len(),
            string_views(found@) == shown_v6s(v6@.take(j as int)),
        decreases v6@.len() - j,
    {
        assert(v6@.take(j + 1).drop_last() =~= v6@.take(j as int));
        if v6[j].is_global_unicast() {
            let ghost before = string_views(found@);
            found.push(v6[j].to_text());
            assert(string_views(found@) =~= before.push(ipv6_text(v6@[j as int])));
        }
        j = j + 1;
    }
    assert(v6@.take(v6@.len() as int) =~= v6@);
    let v6s: Vec<String> = match entries {
        Some(es) => {
            let mut any = false;
            let mut k: usize = 0;
            while k < es.len()
                invariant
                    k <= es@.len(),
                    any == exists|m: int| 0 <= m < k && lower(#[trigger] es@[m].if_name@) == lower(name@),
                decreases es@.len() - k,
            {
                if crate::text::eq_ignore_case(es[k].if_name.as_str(), name.as_str()) {
                    any = true;
                }
                k = k + 1;
            }
            if any {
                let mut out: Vec<String> = Vec::new();
                assert(string_views(out@) =~= Seq::<Seq<char>>::empty());
                let stable = texts_of_entries(es, name.as_str(), true);
                push_all_unique(&mut out, &stable);
                let temporary = texts_of_entries(es, name.as_str(), false);
                push_all_unique(&mut out, &temporary);
                push_all_unique(&mut out, &found);
                out
            } else {
                found
            }
        },
        None => found,
    };
    let mut parts: Vec<String> = Vec::new();
    if v4s.len() > 0 {
        parts.push(with_prefix("IPv4: ", join_strings(&v4s, ", ").as_str()));
    }
    if v6s.len() > 0 {
        parts.push(with_prefix("IPv6: ", join_strings(&v6s, ", ").as_str()));
    }
    proof {
        let a: Seq<Seq<char>> = if v4s@.len() > 0 { seq!["IPv4: "@ + join_sep(string_views(v4s@), ", "@)] } else { Seq::empty() };
        let b = if v6s@.len() > 0 { a.push("IPv6: "@ + join_sep(string_views(v6s@), ", "@)) } else { a };
        assert(string_views(parts@) =~= b);
    }
    let display_name = if parts.len() == 0 {
        name.clone()
    } else {
        let mut v: Vec<char> = Vec::new();
        append_str(&mut v, name.as_str());
        append_str(&mut v, " (");
        append_str(&mut v, join_strings(&parts, " | ").as_str());
        append_str(&mut v, ")");
        string_of(v.as_slice())
    };
    InterfaceInfo { name, display_name, ipv4s: v4s, ipv6s: v6s }
}


/// An IPv4 address an interface offers: not loopback (`127.0.0.0/8`), not link-local
/// (`169.254.0.0/16`), not `0.0.0.0`.
pub open spec fn usable_v4(a: Ipv4) -> bool {
    a.octets[0] != 127 && !(a.octets[0] == 169 && a.octets[1] == 254) && !a.spec_is_unspecified()
}

/// A publicly routable IPv4 address: outside the private (`10/8`, `172.16/12`,
/// `192.168/16`), shared (`100.64/10`), documentation (`192.0.2/24`, `198.51.100/24`,
/// `203.0.113/24`) and broadcast (`255.255.255.255`) ranges.
pub open spec fn public_v4(a: Ipv4) -> bool {
    let o = a.octets;
    &&& o[0] != 10
    &&& !(o[0] == 172 && 16 <= o[1] < 32)
    &&& !(o[0] == 192 && o[1] == 168)
    &&& !(o[0] == 100 && 64 <= o[1] < 128)
    &&& !(o[0] == 192 && o[1] == 0 && o[2] == 2)
    &&& !(o[0] == 198 && o[1] == 51 && o[2] == 100)
    &&& !(o[0] == 203 && o[1] == 0 && o[2] == 113)
    &&& !(o[0] == 255 && o[1] == 255 && o[2] == 255 && o[3] == 255)
}

/// The usable addresses, in order.
pub open spec fn usable_v4s(addrs: Seq<Ipv4>) -> Seq<Ipv4>
    decreases addrs.len(),
{
    if addrs.len() == 0 {
        Seq::empty()
    } else {
        let prev = usable_v4s(addrs.drop_last());
        if usable_v4(addrs.last()) { prev.push(addrs.last()) } else { prev }
    }
}

/// The first public address.
pub open spec fn first_public_v4(found: Seq<Ipv4>) -> Option<Ipv4>
    decreases found.len(),
{
    if found.len() == 0 {
        None
    } else if public_v4(found[0]) {
        Some(found[0])
    } else {
        first_public_v4(found.drop_first())
    }
}

/// The address taken where no rule is given: the first public one, else the first one.
pub open spec fn preferred_v4(found: Seq<Ipv4>) -> Option<Ipv4> {
    match first_public_v4(found) {
        Some(a) => Some(a),
        None => if found.len() > 0 { Some(found[0]) } else { None },
    }
}

/// No address of a private (RFC 1918: `10.0.0.0/8`, `172.16.0.0/12`, `192.168.0.0/16`),
/// shared (RFC 6598: `100.64.0.0/10`) or documentation (RFC 5737: `192.0.2.0/24`,
/// `198.51.100.0/24`, `203.0.113.0/24`) range counts as public, nor the broadcast address.
pub proof fn law_reserved_ranges_not_public(a: Ipv4)
    ensures
        a.octets[0] == 10 ==> !public_v4(a),
        a.octets[0] == 172 && 16 <= a.octets[1] <= 31 ==> !public_v4(a),
        a.octets[0] == 192 && a.octets[1] == 168 ==> !public_v4(a),
        a.octets[0] == 100 && 64 <= a.octets[1] <= 127 ==> !public_v4(a),
        a.octets[0] == 255 && a.octets[1] == 255 && a.octets[2] == 255 && a.octets[3] == 255 ==> !public_v4(a),
        a.octets[0] == 192 && a.octets[1] == 0 && a.octets[2] == 2 ==> !public_v4(a),
        a.octets[0] == 198 && a.octets[1] == 51 && a.octets[2] == 100 ==> !public_v4(a),
        a.octets[0] == 203 && a.octets[1] == 0 && a.octets[2] == 113 ==> !public_v4(a),
{
}

/// Ordinary unicast addresses outside those ranges are public, such as `8.8.8.8`,
/// `58.32.1.1`, `172.32.0.1` or `192.169.0.1`: an address whose first octet is none of 10,
/// 100, 172, 192, 198, 203, 255 is public.
pub proof fn law_other_ranges_public(a: Ipv4)
    requires
        a.octets[0] != 10 && a.octets[0] != 100 && a.octets[0] != 172 && a.octets[0] != 192
            && a.octets[0] != 198 && a.octets[0] != 203 && a.octets[0] != 255,
    ensures
        public_v4(a),
{
}

/// Where no rule is given, a public address is preferred: if the candidates hold a public
/// address, the one taken is public and no public address comes before it; otherwise the
/// first candidate is taken; nothing is taken only from no candidates.
pub proof fn law_preferred_v4_is_first_public(found: Seq<Ipv4>)
    ensures
        (exists|j: int| 0 <= j < found.len() && public_v4(#[trigger] found[j])) ==> (preferred_v4(found) matches Some(x)
            && public_v4(x) && exists|k: int| 0 <= k < found.len() && found[k] == x
                && forall|j: int| 0 <= j < k ==> !public_v4(#[trigger] found[j])),
        (forall|j: int| 0 <= j < found.len() ==> !public_v4(#[trigger] found[j])) ==>
            preferred_v4(found) == (if found.len() > 0 { Some(found[0]) } else { None::<Ipv4> }),
{
    lemma_first_public(found);
    if forall|j: int| 0 <= j < found.len() ==> !public_v4(#[trigger] found[j]) {
        lemma_no_public(found);
    }
}

proof fn lemma_first_public(found: Seq<Ipv4>)
    ensures
        (exists|j: int| 0 <= j < found.len() && public_v4(#[trigger] found[j])) ==> (first_public_v4(found) matches Some(x)
            && public_v4(x) && exists|k: int| 0 <= k < found.len() && found[k] == x
                && forall|j: int| 0 <= j < k ==> !public_v4(#[trigger] found[j])),
    decreases found.len(),
{
    if found.len() > 0 && exists|j: int| 0 <= j < found.len() && public_v4(#[trigger] found[j]) {
        if public_v4(found[0]) {
            assert(found[0] == found[0]);
        } else {
            let rest = found.drop_first();
            let j = choose|j: int| 0 <= j < found.len() && public_v4(#[trigger] found[j]);
            assert(rest[j - 1] == found[j]);
            lemma_first_public(rest);
            let x = first_public_v4(rest)->0;
            let k = choose|k: int| 0 <= k < rest.len() && rest[k] == x
                && forall|m: int| 0 <= m < k ==> !public_v4(#[trigger] rest[m]);
            assert(found[k + 1] == x);
            assert forall|m: int| 0 <= m < k + 1 implies !public_v4(#[trigger] found[m]) by {
                if m > 0 { assert(found[m] == rest[m - 1]); }
            }
        }
    }
}

proof fn lemma_no_public(found: Seq<Ipv4>)
    requires forall|j: int| 0 <= j < found.len() ==> !public_v4(#[trigger] found[j]),
    ensures first_public_v4(found) is None,
    decreases found.len(),
{
    if found.len() > 0 {
        let rest = found.drop_first();
        assert forall|j: int| 0 <= j < rest.len() implies !public_v4(#[trigger] rest[j]) by {
            assert(rest[j] == found[j + 1]);
        }
        lemma_no_public(rest);
    }
}

fn is_usable_v4(a: &Ipv4) -> (r: bool)
    ensures r == usable_v4(*a),
{
    a.octets[0] != 127 && !(a.octets[0] == 169 && a.octets[1] == 254) && !a.is_unspecified()
}

fn is_public_v4(a: &Ipv4) -> (r: bool)
    ensures r == public_v4(*a),
{
    let o = a.octets;
    o[0] != 10 && !(o[0] == 172 && 16 <= o[1] && o[1] < 32) && !(o[0] == 192 && o[1] == 168)
        && !(o[0] == 100 && 64 <= o[1] && o[1] < 128) && !(o[0] == 192 && o[1] == 0 && o[2] == 2)
        && !(o[0] == 198 && o[1] == 51 && o[2] == 100) && !(o[0] == 203 && o[1] == 0 && o[2] == 113)
        && !(o[0] == 255 && o[1] == 255 && o[2] == 255 && o[3] == 255)
}

/// The interface's IPv4 addresses that are candidates: all but loopback, link-local and
/// unspecified ones, in order.
pub fn usable_ipv4s(addrs: &[Ipv4]) -> (r: Vec<Ipv4>)
    ensures r@ == usable_v4s(addrs@),
{
    let mut r: Vec<Ipv4> = Vec::new();
    let mut i: usize = 0;
    assert(addrs@.take(0) =~= Seq::<Ipv4>::empty());
    while i < addrs.len()
        invariant
            i <= addrs@.len(),
            r@ == usable_v4s(addrs@.take(i as int)),
        decreases addrs@.len() - i,
    {
        assert(addrs@.take(i + 1).drop_last() =~= addrs@.take(i as int));
        assert(addrs@.take(i + 1).last() == addrs@[i as int]);
        if is_usable_v4(&addrs[i]) {
            r.push(addrs[i]);
        }
        i = i + 1;
    }
    assert(addrs@.take(addrs@.len() as int) =~= addrs@);
    r
}

/// The candidate taken where no rule is given: the first public address, else the first.
pub fn choose_ipv4(found: &[Ipv4]) -> (r: Option<Ipv4>)
    ensures r == preferred_v4(found@),
{
    let mut i: usize = 0;
    assert(found@.skip(0) =~= found@);
    while i < found.len()
        invariant
            i <= found@.len(),
            first_public_v4(found@) == first_public_v4(found@.skip(i as int)),
        decreases found@.len() - i,
    {
        assert(found@.skip(i as int)[0] == found@[i as int]);
        assert(found@.skip(i as int).drop_first() =~= found@.skip(i + 1));
        if is_public_v4(&found[i]) {
            return Some(found[i]);
        }
        i = i + 1;
    }
    assert(found@.skip(i as int).len() == 0);
    if found.len() > 0 { Some(found[0]) } else { None }
}

/// A temporary address kept as a fallback: healthy and global unicast.
pub open spec fn spare_temporary(e: LinuxIfInet6Entry) -> bool {
    healthy_temporary(e) && e.ip.spec_is_global_unicast()
}

/// The addresses of the stable global entries, in order.
pub open spec fn stable_ips(es: Seq<LinuxIfInet6Entry>) -> Seq<Ipv6>
    decreases es.len(),
{
    if es.len() == 0 {
        Seq::empty()
    } else {
        let prev = stable_ips(es.drop_last());
        if es.last().spec_is_stable_global() { prev.push(es.last().ip) } else { prev }
    }
}

/// The addresses of the spare temporary entries, in order.
pub open spec fn temporary_ips(es: Seq<LinuxIfInet6Entry>) -> Seq<Ipv6>
    decreases es.len(),
{
    if es.len() == 0 {
        Seq::empty()
    } else {
        let prev = temporary_ips(es.drop_last());
        if spare_temporary(es.last()) { prev.push(es.last().ip) } else { prev }
    }
}

/// `list` extended with the addresses of `more` that it does not hold yet, in order.
pub open spec fn append_new_ips(list: Seq<Ipv6>, more: Seq<Ipv6>) -> Seq<Ipv6>
    decreases more.len(),
{
    if more.len() == 0 {
        list
    } else {
        let prev = append_new_ips(list, more.drop_last());
        if prev.contains(more.last()) { prev } else { prev.push(more.last()) }
    }
}

/// The global unicast addresses, in order.
pub open spec fn global_ips(addrs: Seq<Ipv6>) -> Seq<Ipv6>
    decreases addrs.len(),
{
    if addrs.len() == 0 {
        Seq::empty()
    } else {
        let prev = global_ips(addrs.drop_last());
        if addrs.last().spec_is_global_unicast() { prev.push(addrs.last()) } else { prev }
    }
}

/// The IPv6 candidates of an interface, best first: its stable global addresses from the
/// kernel table, then the spare temporary ones not listed yet; where the table gives none,
/// the global unicast addresses the system lists for the interface.
pub open spec fn ranked_v6(entries: Seq<LinuxIfInet6Entry>, fallback: Seq<Ipv6>) -> Seq<Ipv6> {
    let c = append_new_ips(stable_ips(entries), temporary_ips(entries));
    if c.len() > 0 { c } else { global_ips(fallback) }
}

fn holds_ip(list: &Vec<Ipv6>, ip: &Ipv6) -> (r: bool)
    ensures r == list@.contains(*ip),
{
    let mut i: usize = 0;
    while i < list.len()
        invariant
            i <= list@.len(),
            forall|j: int| 0 <= j < i ==> list@[j] != *ip,
        decreases list@.len() - i,
    {
        if list[i].same(ip) {
            assert(list@[i as int] == *ip);
            return true;
        }
        i = i + 1;
    }
    false
}

/// Orders the candidate IPv6 addresses of an interface: `entries` are the interface's rows
/// of the kernel table (none where there is no table), `fallback` the addresses the system
/// lists for it.
pub fn rank_ipv6_candidates(entries: &[LinuxIfInet6Entry], fallback: &[Ipv6]) -> (r: Vec<Ipv6>)
    ensures r@ == ranked_v6(entries@, fallback@),
{
    let mut stable: Vec<Ipv6> = Vec::new();
    let mut temp: Vec<Ipv6> = Vec::new();
    let mut i: usize = 0;
    assert(entries@.take(0) =~= Seq::<LinuxIfInet6Entry>::empty());
    while i < entries.len()
        invariant
            i <= entries@.len(),
            stable@ == stable_ips(entries@.take(i as int)),
            temp@ == temporary_ips(entries@.take(i as int)),
        decreases entries@.len() - i,
    {
        assert(entries@.take(i + 1).drop_last() =~= entries@.take(i as int));
        assert(entries@.take(i + 1).last() == entries@[i as int]);
        let e = &entries[i];
        if e.is_stable_global() {
            stable.push(e.ip);
        } else if e.is_global_scope() && !e.is_deprecated() && !e.is_tentative_or_failed() && e.ip.is_global_unicast() {
            temp.push(e.ip);
        }
        i = i + 1;
    }
    assert(entries@.take(entries@.len() as int) =~= entries@);
    let mut out = stable;
    let ghost base = out@;
    let mut k: usize = 0;
    assert(temp@.take(0) =~= Seq::<Ipv6>::empty());
    while k < temp.len()
        invariant
            k <= temp@.len(),
            out@ == append_new_ips(base, temp@.take(k as int)),
        decreases temp@.len() - k,
    {
        assert(temp@.take(k + 1).drop_last() =~= temp@.take(k as int));
        assert(temp@.take(k + 1).last() == temp@[k as int]);
        if !holds_ip(&out, &temp[k]) {
            out.push(temp[k]);
        }
        k = k + 1;
    }
    assert(temp@.take(temp@.len() as int) =~= temp@);
    if out.len() > 0 {
        return out;
    }
    let mut g: Vec<Ipv6> = Vec::new();
    let mut j: usize = 0;
    assert(fallback@.take(0) =~= Seq::<Ipv6>::empty());
    while j < fallback.len()
        invariant
            j <= fallback@.len(),
            g@ == global_ips(fallback@.take(j as int)),
        decreases fallback@.len() - j,
    {
        assert(fallback@.take(j + 1).drop_last() =~= fallback@.take(j as int));
        assert(fallback@.take(j + 1).last() == fallback@[j as int]);
        if fallback[j].is_global_unicast() {
            g.push(fallback[j]);
        }
        j = j + 1;
    }
    assert(fallback@.take(fallback@.len() as int) =~= fallback@);
    g
}

} // verus!
