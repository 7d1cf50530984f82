//! Reading IP addresses out of free text: the textual syntax of IPv4 and IPv6 addresses
//! (as `std::net`'s parsers accept it), the candidate tokens of a reply, and the first
//! address of the wanted family.
use vstd::prelude::*;
use crate::engine::IpAddress;
use crate::net::{Ipv4, Ipv6};
use crate::text::{
    chars_of, digit_value, find, find_from, is_blank, blank, lemma_find_from, lemma_parse_unsigned_bounds,
    parse_unsigned, parse_unsigned_chars, split_chars, split_on, sub_chars, trim, trim_chars, views_of,
};

verus! {

/// A decimal octet: one to three digits, no leading zero unless it is `0`, at most 255.
pub open spec fn octet_value(p: Seq<char>) -> Option<int> {
    if 1 <= p.len() <= 3 && p[0] != '+' && !(p.len() > 1 && p[0] == '0') {
        parse_unsigned(p, 10, 255)
    } else {
        None
    }
}

/// A hexadecimal group: one to four hex digits of either case.
pub open spec fn group_value(p: Seq<char>) -> Option<int> {
    if 1 <= p.len() <= 4 && p[0] != '+' {
        parse_unsigned(p, 16, 0xffff)
    } else {
        None
    }
}

/// The four octets of dotted-decimal text, or `None` where it is not such text.
pub open spec fn ipv4_values(t: Seq<char>) -> Option<Seq<int>> {
    let ps = split_on(t, '.');
    if ps.len() == 4 && octet_value(ps[0]) is Some && octet_value(ps[1]) is Some
        && octet_value(ps[2]) is Some && octet_value(ps[3]) is Some {
        Some(seq![octet_value(ps[0])->0, octet_value(ps[1])->0, octet_value(ps[2])->0, octet_value(ps[3])->0])
    } else {
        None
    }
}

/// The values of pieces that are all hexadecimal groups.
pub open spec fn group_list(parts: Seq<Seq<char>>) -> Option<Seq<int>>
    decreases parts.len(),
{
    if parts.len() == 0 {
        Some(Seq::<int>::empty())
    } else {
        match (group_list(parts.drop_last()), group_value(parts.last())) {
            (Some(a), Some(g)) => Some(a.push(g)),
            _ => None,
        }
    }
}

/// The segments of the colon-separated pieces of an address: hexadecimal groups, where
/// the last piece may instead be an embedded IPv4 address, giving two segments.
pub open spec fn piece_list(parts: Seq<Seq<char>>) -> Option<Seq<int>> {
    if parts.len() == 0 {
        None
    } else {
        match group_list(parts) {
            Some(a) => Some(a),
            None => match (group_list(parts.drop_last()), ipv4_values(parts.last())) {
                (Some(a), Some(o)) => Some(a + seq![o[0] * 256 + o[1], o[2] * 256 + o[3]]),
                _ => None,
            },
        }
    }
}

/// The eight segments of IPv6 text: eight segments between single colons, or, around the
/// first `::`, groups before it and pieces after it that together number at most seven,
/// the `::` standing for the zero segments between them.
pub open spec fn ipv6_values(t: Seq<char>) -> Option<Seq<int>> {
    match find_from(t, seq![':', ':'], 0) {
        None => match piece_list(split_on(t, ':')) {
            Some(v) => if v.len() == 8 { Some(v) } else { None },
            None => None,
        },
        Some(d) => {
            let head = t.subrange(0, d);
            let tail = t.subrange(d + 2, t.len() as int);
            let h = if head.len() == 0 { Some(Seq::<int>::empty()) } else { group_list(split_on(head, ':')) };
            let b = if tail.len() == 0 { Some(Seq::<int>::empty()) } else { piece_list(split_on(tail, ':')) };
            match (h, b) {
                (Some(x), Some(y)) => if x.len() + y.len() <= 7 {
                    Some(x + Seq::new((8 - x.len() - y.len()) as nat, |i: int| 0int) + y)
                } else {
                    None
                },
                _ => None,
            }
        },
    }
}

/// Integer values of 16-bit segments.
pub open spec fn ints16(s: Seq<u16>) -> Seq<int> {
    s.map_values(|x: u16| x as int)
}

/// Integer values of octets.
pub open spec fn ints8(s: Seq<u8>) -> Seq<int> {
    s.map_values(|x: u8| x as int)
}

/// Family (`true` for IPv6) and values of an address.
pub open spec fn address_values(a: IpAddress) -> (bool, Seq<int>) {
    match a {
        IpAddress::V4(x) => (false, ints8(x.octets@)),
        IpAddress::V6(x) => (true, ints16(x.segments@)),
    }
}

/// The address that text denotes, read as IPv4 first and else as IPv6.
pub open spec fn text_address(t: Seq<char>) -> Option<(bool, Seq<int>)> {
    match ipv4_values(t) {
        Some(v) => Some((false, v)),
        None => match ipv6_values(t) {
            Some(v) => Some((true, v)),
            None => None,
        },
    }
}

fn read_octet(p: &[char]) -> (r: Option<u8>)
    ensures
        match r {
            Some(v) => octet_value(p@) == Some(v as int),
            None => octet_value(p@) is None,
        },
{
    if p.len() < 1 || p.len() > 3 || p[0] == '+' || (p.len() > 1 && p[0] == '0') {
        return None;
    }
    match parse_unsigned_chars(p, 10, 255) {
        Some(v) => {
            proof { lemma_parse_unsigned_bounds(p@, 10, 255); }
            Some(v as u8)
        },
        None => None,
    }
}

fn read_group(p: &[char]) -> (r: Option<u16>)
    ensures
        match r {
            Some(v) => group_value(p@) == Some(v as int),
            None => group_value(p@) is None,
        },
{
    if p.len() < 1 || p.len() > 4 || p[0] == '+' {
        return None;
    }
    match parse_unsigned_chars(p, 16, 0xffff) {
        Some(v) => {
            proof { lemma_parse_unsigned_bounds(p@, 16, 0xffff); }
            Some(v as u16)
        },
        None => None,
    }
}

/// Reads dotted-decimal text.
pub fn parse_ipv4_text(t: &[char]) -> (r: Option<Ipv4>)
    ensures
        match r {
            Some(a) => ipv4_values(t@) == Some(ints8(a.octets@)),
            None => ipv4_values(t@) is None,
        },
{
    let ps = split_chars(t, '.');
    if ps.len() != 4 {
        return None;
    }
    let ghost vs = views_of(ps@);
    assert(vs[0] == ps@[0]@ && vs[1] == ps@[1]@ && vs[2] == ps@[2]@ && vs[3] == ps@[3]@);
    let a = match read_octet(ps[0].as_slice()) { Some(x) => x, None => return None };
    let b = match read_octet(ps[1].as_slice()) { Some(x) => x, None => return None };
    let c = match read_octet(ps[2].as_slice()) { Some(x) => x, None => return None };
    let d = match read_octet(ps[3].as_slice()) { Some(x) => x, None => return None };
    let ip = Ipv4::new(a, b, c, d);
    assert(ints8(ip.octets@) =~= seq![a as int, b as int, c as int, d as int]);
    Some(ip)
}

proof fn lemma_group_list_prefix(ps: Seq<Seq<char>>, k: int)
    requires
        0 <= k <= ps.len(),
        group_list(ps) is Some,
    ensures group_list(ps.take(k)) is Some,
    decreases ps.len(),
{
    if k == ps.len() {
        assert(ps.take(k) =~= ps);
    } else {
        assert(ps.drop_last().take(k) =~= ps.take(k));
        lemma_group_list_prefix(ps.drop_last(), k);
    }
}

/// The values of `parts[..n]`, where all are hexadecimal groups.
fn read_groups(parts: &Vec<Vec<char>>, n: usize) -> (r: Option<Vec<u16>>)
    requires n <= parts@.len(),
    ensures
        match r {
            Some(v) => group_list(views_of(parts@).take(n as int)) == Some(ints16(v@)),
            None => group_list(views_of(parts@).take(n as int)) is None,
        },
{
    let ghost vs = views_of(parts@);
    let mut acc: Vec<u16> = Vec::new();
    let mut i: usize = 0;
    assert(vs.take(0) =~= Seq::<Seq<char>>::empty());
    assert(ints16(acc@) =~= Seq::<int>::empty());
    while i < n
        invariant
            n <= parts@.len(),
            vs == views_of(parts@),
            i <= n,
            group_list(vs.take(i as int)) == Some(ints16(acc@)),
        decreases n - i,
    {
        assert(vs.take(i + 1).drop_last() =~= vs.take(i as int));
        assert(vs.take(i + 1).last() == parts@[i as int]@);
        match read_group(parts[i].as_slice()) {
            Some(g) => {
                acc.push(g);
                assert(ints16(acc@) =~= ints16(acc@.drop_last()).push(g as int));
            },
            None => {
                proof {
                    if group_list(vs.take(n as int)) is Some {
                        assert(vs.take(n as int).take(i + 1) =~= vs.take(i + 1));
                        lemma_group_list_prefix(vs.take(n as int), i + 1);
                    }
                }
                return None;
            },
        }
        i = i + 1;
    }
    Some(acc)
}

/// Executes `piece_list`.
fn read_pieces(parts: &Vec<Vec<char>>) -> (r: Option<Vec<u16>>)
    ensures
        match r {
            Some(v) => piece_list(views_of(parts@)) == Some(ints16(v@)),
            None => piece_list(views_of(parts@)) is None,
        },
{
    let ghost vs = views_of(parts@);
    let n = parts.len();
    if n == 0 {
        return None;
    }
    assert(vs.take(n as int) =~= vs);
    assert(vs.take(n - 1) =~= vs.drop_last());
    if let Some(all) = read_groups(parts, n) {
        return Some(all);
    }
    let mut head = match read_groups(parts, n - 1) { Some(h) => h, None => return None };
    assert(vs.last() == parts@[n - 1]@);
    match parse_ipv4_text(parts[n - 1].as_slice()) {
        Some(ip) => {
            let ghost h0 = head@;
            let o = ip.octets;
            let hi: u16 = (o[0] as u16) * 256 + (o[1] as u16);
            let lo: u16 = (o[2] as u16) * 256 + (o[3] as u16);
            head.push(hi);
            head.push(lo);
            assert(ints8(o@)[0] == o[0] as int && ints8(o@)[1] == o[1] as int);
            assert(ints8(o@)[2] == o[2] as int && ints8(o@)[3] == o[3] as int);
            assert(ints16(head@) =~= ints16(h0) + seq![hi as int, lo as int]);
            Some(head)
        },
        None => None,
    }
}

/// An address from eight segments.
fn ipv6_of(v: &Vec<u16>) -> (r: Ipv6)
    requires v@.len() == 8,
    ensures ints16(r.segments@) == ints16(v@),
{
    let arr: [u16; 8] = [v[0], v[1], v[2], v[3], v[4], v[5], v[6], v[7]];
    assert(arr@ =~= v@);
    Ipv6::new(arr)
}

/// Reads IPv6 text.
pub fn parse_ipv6_text(t: &[char]) -> (r: Option<Ipv6>)
    ensures
        match r {
            Some(a) => ipv6_values(t@) == Some(ints16(a.segments@)),
            None => ipv6_values(t@) is None,
        },
{
    let dc: [char; 2] = [':', ':'];
    assert(dc@ =~= seq![':', ':']);
    match find(t, dc.as_slice()) {
        None => {
            let parts = split_chars(t, ':');
            match read_pieces(&parts) {
                Some(v) => {
                    if v.len() != 8 {
                        return None;
                    }
                    Some(ipv6_of(&v))
                },
                None => None,
            }
        },
        Some(d) => {
            proof {
                lemma_find_from(t@, seq![':', ':'], 0);
                assert(find_from(t@, seq![':', ':'], 0) == Some(d as int));
                assert(d + 2 <= t@.len());
            }
            let n = t.len();
            assert(d + 2 <= n);
            let head = sub_chars(t, 0, d);
            let tail = sub_chars(t, d + 2, n);
            let h: Vec<u16> = if head.len() == 0 {
                Vec::new()
            } else {
                let hp = split_chars(head.as_slice(), ':');
                let k = hp.len();
                assert(views_of(hp@).take(k as int) =~= views_of(hp@));
                match read_groups(&hp, k) { Some(x) => x, None => return None }
            };
            assert(head.len() == 0 ==> ints16(h@) =~= Seq::<int>::empty());
            let b: Vec<u16> = if tail.len() == 0 {
                Vec::new()
            } else {
                let tp = split_chars(tail.as_slice(), ':');
                match read_pieces(&tp) { Some(x) => x, None => return None }
            };
            assert(tail.len() == 0 ==> ints16(b@) =~= Seq::<int>::empty());
            if h.len() > 7 || b.len() > 7 - h.len() {
                return None;
            }
            let zeros: usize = 8 - h.len() - b.len();
            let mut out: Vec<u16> = Vec::new();
            let mut i: usize = 0;
            while i < h.len()
                invariant
                    i <= h@.len(),
                    out@ == h@.take(i as int),
                decreases h@.len() - i,
            {
                out.push(h[i]);
                assert(out@ =~= h@.take(i + 1));
                i = i + 1;
            }
            assert(h@.take(h@.len() as int) =~= h@);
            let mut z: usize = 0;
            while z < zeros
                invariant
                    z <= zeros,
                    out@ == h@ + Seq::new(z as nat, |j: int| 0u16),
                decreases zeros - z,
            {
                out.push(0);
                assert(out@ =~= h@ + Seq::new((z + 1) as nat, |j: int| 0u16));
                z = z + 1;
            }
            let mut j: usize = 0;
            while j < b.len()
                invariant
                    j <= b@.len(),
                    out@ == h@ + Seq::new(zeros as nat, |x: int| 0u16) + b@.take(j as int),
                decreases b@.len() - j,
            {
                out.push(b[j]);
                assert(out@ =~= h@ + Seq::new(zeros as nat, |x: int| 0u16) + b@.take(j + 1));
                j = j + 1;
            }
            assert(b@.take(b@.len() as int) =~= b@);
            assert(ints16(out@) =~= ints16(h@) + Seq::new((8 - h@.len() - b@.len()) as nat, |x: int| 0int) + ints16(b@));
            Some(ipv6_of(&out))
        },
    }
}

/// Reads text as an IPv4 address, or else as an IPv6 address.
pub fn parse_address(t: &[char]) -> (r: Option<IpAddress>)
    ensures
        match r {
            Some(a) => text_address(t@) == Some(address_values(a)),
            None => text_address(t@) is None,
        },
{
    match parse_ipv4_text(t) {
        Some(a) => Some(IpAddress::V4(a)),
        None => match parse_ipv6_text(t) {
            Some(a) => Some(IpAddress::V6(a)),
            None => None,
        },
    }
}

/// A character that can be part of an address: a hex digit, `:` or `.`.
pub open spec fn address_char(c: char) -> bool {
    digit_value(c, 16) >= 0 || c == ':' || c == '.'
}

/// The maximal runs of address characters in `t`, in order.
pub open spec fn address_tokens(t: Seq<char>) -> Seq<Seq<char>>
    decreases t.len(),
{
    if t.len() == 0 {
        Seq::<Seq<char>>::empty()
    } else {
        let p = address_tokens(t.drop_last());
        let c = t.last();
        if !address_char(c) {
            p
        } else if t.len() >= 2 && address_char(t[t.len() - 2]) {
            p.update(p.len() - 1, p.last().push(c))
        } else {
            p.push(seq![c])
        }
    }
}

/// What `regex::Regex::new(pattern)` followed by `find_iter(text)` yields, each match's
/// text in order; `None` where the pattern does not compile.
pub uninterp spec fn regex_matches(pattern: Seq<char>, text: Seq<char>) -> Option<Seq<Seq<char>>>;

/// Compiles `pattern` with `regex::Regex::new` and, where it compiles, collects the text of
/// every match in `text` (`Regex::find_iter`). The result is named; nothing is stated of
/// how matches are found.
#[verifier::external_body]
fn regex_find_all(pattern: &str, text: &str) -> (r: Option<Vec<String>>)
    ensures
        match r {
            Some(v) => regex_matches(pattern@, text@) == Some(v@.map_values(|m: String| m@)),
            None => regex_matches(pattern@, text@) is None,
        },
{
    regex::Regex::new(pattern).ok().map(|re| re.find_iter(text).map(|m| m.as_str().to_string()).collect())
}

/// The pattern, by view.
pub open spec fn pattern_view(p: Option<&str>) -> Option<Seq<char>> {
    match p {
        Some(x) => Some(x@),
        None => None,
    }
}

/// The pieces of a reply that may hold the address: the matches of the pattern where a
/// non-blank one is given (none where it does not compile), else the address tokens.
pub open spec fn address_candidates(text: Seq<char>, pattern: Option<Seq<char>>) -> Seq<Seq<char>> {
    match pattern {
        Some(p) => if is_blank(p) {
            address_tokens(text)
        } else {
            match regex_matches(p, text) {
                Some(ms) => ms,
                None => Seq::<Seq<char>>::empty(),
            }
        },
        None => address_tokens(text),
    }
}

/// The first candidate that, trimmed, denotes an address of the wanted family.
pub open spec fn first_address(cands: Seq<Seq<char>>, want_v6: bool) -> Option<(bool, Seq<int>)>
    decreases cands.len(),
{
    if cands.len() == 0 {
        None
    } else {
        match text_address(trim(cands[0])) {
            Some(a) => if a.0 == want_v6 { Some(a) } else { first_address(cands.drop_first(), want_v6) },
            None => first_address(cands.drop_first(), want_v6),
        }
    }
}

/// Executes `address_tokens`.
pub fn split_address_tokens(t: &[char]) -> (r: Vec<Vec<char>>)
    ensures views_of(r@) == address_tokens(t@),
{
    let mut toks: Vec<Vec<char>> = Vec::new();
    let mut in_token = false;
    let mut i: usize = 0;
    assert(t@.take(0) =~= Seq::<char>::empty());
    assert(views_of(toks@) =~= Seq::<Seq<char>>::empty());
    while i < t.len()
        invariant
            i <= t@.len(),
            views_of(toks@) == address_tokens(t@.take(i as int)),
            in_token == (i > 0 && address_char(t@[i - 1])),
            in_token ==> toks@.len() > 0,
        decreases t@.len() - i,
    {
        let c = t[i];
        let ghost prev = views_of(toks@);
        assert(t@.take(i + 1).drop_last() =~= t@.take(i as int));
        assert(t@.take(i + 1).last() == c);
        assert(i >= 1 ==> t@.take(i + 1)[i - 1] == t@[i - 1]);
        let is_addr = ('0' <= c && c <= '9') || ('a' <= c && c <= 'f') || ('A' <= c && c <= 'F') || c == ':' || c == '.';
        assert(is_addr == address_char(c));
        if !is_addr {
            in_token = false;
        } else if in_token {
            let mut last = toks.pop().unwrap();
            last.push(c);
            toks.push(last);
            assert(views_of(toks@) =~= prev.update(prev.len() - 1, prev.last().push(c)));
        } else {
            let mut fresh: Vec<char> = Vec::new();
            fresh.push(c);
            toks.push(fresh);
            assert(fresh@ =~= seq![c]);
            assert(views_of(toks@) =~= prev.push(seq![c]));
            in_token = true;
        }
        i = i + 1;
    }
    assert(t@.take(t@.len() as int) =~= t@);
    toks
}

/// The address of the wanted family that a reply holds (IPv6 where `want_v6`): the first
/// candidate, trimmed, that reads as one, the candidates being the matches of `regex`
/// where a non-blank one is given, else the runs of hex digits, `:` and `.`.
pub fn find_address(text: &str, regex: Option<&str>, want_v6: bool) -> (r: Option<IpAddress>)
    ensures
        match r {
            Some(a) => first_address(address_candidates(text@, pattern_view(regex)), want_v6)
                == Some(address_values(a)),
            None => first_address(address_candidates(text@, pattern_view(regex)), want_v6) is None,
        },
{
    let cands: Vec<Vec<char>> = match regex {
        Some(p) => {
            if blank(p) {
                let t = chars_of(text);
                split_address_tokens(t.as_slice())
            } else {
                match regex_find_all(p, text) {
                    Some(ms) => {
                        let mut out: Vec<Vec<char>> = Vec::new();
                        let mut k: usize = 0;
                        while k < ms.len()
                            invariant
                                k <= ms@.len(),
                                views_of(out@) == ms@.map_values(|m: String| m@).take(k as int),
                            decreases ms@.len() - k,
                        {
                            let ghost before = views_of(out@);
                            let piece = chars_of(ms[k].as_str());
                            assert(piece@ == ms@[k as int]@);
                            out.push(piece);
                            assert(views_of(out@) =~= before.push(piece@));
                            assert(ms@.map_values(|m: String| m@).take(k + 1)
                                =~= ms@.map_values(|m: String| m@).take(k as int).push(ms@[k as int]@));
                            k = k + 1;
                        }
                        assert(ms@.map_values(|m: String| m@).take(ms@.len() as int) =~= ms@.map_values(|m: String| m@));
                        out
                    },
                    None => {
                        let out: Vec<Vec<char>> = Vec::new();
                        assert(views_of(out@) =~= Seq::<Seq<char>>::empty());
                        out
                    },
                }
            }
        },
        None => {
            let t = chars_of(text);
            split_address_tokens(t.as_slice())
        },
    };
    let ghost cs = views_of(cands@);
    assert(cs == address_candidates(text@, pattern_view(regex)));
    let mut i: usize = 0;
    assert(cs.skip(0) =~= cs);
    while i < cands.len()
        invariant
            i <= cands@.len(),
            cs == views_of(cands@),
            cs == address_candidates(text@, pattern_view(regex)),
            first_address(cs, want_v6) == first_address(cs.skip(i as int), want_v6),
        decreases cands@.len() - i,
    {
        assert(cs.skip(i as int)[0] == cands@[i as int]@);
        assert(cs.skip(i as int).drop_first() =~= cs.skip(i + 1));
        let t = trim_chars(cands[i].as_slice());
        match parse_address(t.as_slice()) {
            Some(a) => {
                let v6 = match a { IpAddress::V4(_) => false, IpAddress::V6(_) => true };
                assert(v6 == address_values(a).0);
                if v6 == want_v6 {
                    assert(trim(cs.skip(i as int)[0]) == t@);
                    assert(first_address(cs.skip(i as int), want_v6) == Some(address_values(a)));
                    return Some(a);
                }
            },
            None => {},
        }
        i = i + 1;
    }
    assert(cs.skip(i as int).len() == 0);
    None
}

} // verus!
