//! Parsing of the domain names that users configure ("sub:root.com", URLs, IDN names).
use vstd::prelude::*;
use crate::text::{
    all_ascii, chars_of, find_char, find_from, has_prefix, is_all_ascii, join_range, join_with,
    lemma_find_char_from, lemma_find_from, lower, lower_chars, parse_unsigned, parse_unsigned_chars,
    position_of, split_chars, split_on, str_is, string_of, sub_chars, trim, trim_chars, trimmed_chars,
    views_of, find, starts_with, is_ws, first_non_ws, end_non_ws,
};
use crate::text_map::TextMap;
use crate::urlencode::{form_urlencoded_pairs, pair_views, parse_form_pairs};

verus! {

broadcast use vstd::string::group_string_axioms;

/// A parsed domain entry.
pub struct ParsedDomain {
    /// The user's input as written.
    pub raw: String,
    /// The registrable root domain, e.g. `example.com`.
    pub root_domain: String,
    /// The host part below the root, `@` for the root itself, e.g. `www` or `sub.dev`.
    pub sub_domain: String,
    /// Query parameters given after `?` (e.g. `line=telecom`).
    pub custom_params: TextMap<String>,
}

/// The mathematical content of a `ParsedDomain`.
pub struct DomainView {
    pub raw: Seq<char>,
    pub root: Seq<char>,
    pub sub: Seq<char>,
    pub params: Map<Seq<char>, Seq<char>>,
}

/// Values of a string-valued map, taken by view.
pub open spec fn text_values(m: Map<Seq<char>, String>) -> Map<Seq<char>, Seq<char>> {
    m.map_values(|v: String| v@)
}

impl ParsedDomain {
    /// The parameter map is well formed.
    pub open spec fn wf(&self) -> bool {
        self.custom_params.wf()
    }

    /// The content of this entry.
    pub open spec fn dview(&self) -> DomainView {
        DomainView {
            raw: self.raw@,
            root: self.root_domain@,
            sub: self.sub_domain@,
            params: text_values(self.custom_params@),
        }
    }

    /// Fully qualified name (`sub.root`, or `root` where the sub-domain is empty or `@`).
    pub fn full_domain(&self) -> (r: String)
        ensures r@ == full_name(self.sub_domain@, self.root_domain@),
    {
        let sub = chars_of(self.sub_domain.as_str());
        if is_root_label_chars(sub.as_slice()) {
            self.root_domain.clone()
        } else {
            let root = chars_of(self.root_domain.as_str());
            let mut v = sub;
            v.push('.');
            let ghost head = v@;
            let mut i: usize = 0;
            while i < root.len()
                invariant
                    i <= root@.len(),
                    v@ == head + root@.take(i as int),
                decreases root@.len() - i,
            {
                v.push(root[i]);
                assert(head + root@.take(i + 1) =~= (head + root@.take(i as int)).push(root@[i as int]));
                i = i + 1;
            }
            assert(root@.take(root@.len() as int) =~= root@);
            string_of(v.as_slice())
        }
    }

    /// The provider's label for the sub-domain: `@` where it is empty or `@`.
    pub fn sub_domain_or_at(&self) -> (r: &str)
        ensures r@ == (if is_root_label(self.sub_domain@) { seq!['@'] } else { self.sub_domain@ }),
    {
        let sub = chars_of(self.sub_domain.as_str());
        if is_root_label_chars(sub.as_slice()) {
            proof { reveal_strlit("@"); }
            "@"
        } else {
            self.sub_domain.as_str()
        }
    }
}

/// A record name that a provider lists denotes this entry (ignoring ASCII case): the full
/// name, or the host part, where the root is written as an empty name or `@`.
pub open spec fn record_name_matches(sub: Seq<char>, root: Seq<char>, name: Seq<char>) -> bool {
    ||| lower(name) == lower(full_name(sub, root))
    ||| (is_root_label(sub) && (name.len() == 0 || name == seq!['@']))
    ||| (!is_root_label(sub) && lower(name) == lower(sub))
}

impl ParsedDomain {
    /// Whether a record name listed by a provider denotes this entry (see `record_name_matches`).
    pub fn matches_record_name(&self, name: &str) -> (r: bool)
        ensures r == record_name_matches(self.sub_domain@, self.root_domain@, name@),
    {
        let full = self.full_domain();
        if crate::text::eq_ignore_case(name, full.as_str()) {
            return true;
        }
        let sub = chars_of(self.sub_domain.as_str());
        let n = chars_of(name);
        if is_root_label_chars(sub.as_slice()) {
            let r = n.len() == 0 || (n.len() == 1 && n[0] == '@');
            proof {
                if n@.len() == 1 && n@[0] == '@' {
                    assert(n@ =~= seq!['@']);
                }
            }
            r
        } else {
            crate::text::eq_ignore_case(name, self.sub_domain.as_str())
        }
    }
}

/// A sub-domain that denotes the root itself: empty or `@`.
pub open spec fn is_root_label(sub: Seq<char>) -> bool {
    sub.len() == 0 || sub == seq!['@']
}

fn is_root_label_chars(sub: &[char]) -> (r: bool)
    ensures r == is_root_label(sub@),
{
    if sub.len() == 0 {
        true
    } else if sub.len() == 1 && sub[0] == '@' {
        assert(sub@ =~= seq!['@']);
        true
    } else {
        false
    }
}

/// The fully qualified name of a sub-domain below a root.
pub open spec fn full_name(sub: Seq<char>, root: Seq<char>) -> Seq<char> {
    if is_root_label(sub) { root } else { sub.push('.') + root }
}

/// What `idna::domain_to_ascii` returns for `domain`; `None` where it reports errors.
pub uninterp spec fn idna_domain_to_ascii(domain: Seq<char>) -> Option<Seq<char>>;

#[verifier::external_type_specification]
#[verifier::external_body]
pub struct ExIdnaErrors(idna::Errors);

/// Calls `idna::domain_to_ascii`; the result is named, `Err` exactly where the name is `None`.
#[verifier::external_body]
fn idna_to_ascii(domain: &str) -> (r: Result<String, idna::Errors>)
    ensures
        match r {
            Ok(a) => idna_domain_to_ascii(domain@) == Some(a@),
            Err(_) => idna_domain_to_ascii(domain@) is None,
        },
{
    idna::domain_to_ascii(domain)
}

/// A domain name in ASCII form: trimmed, ASCII-lower-cased, and Punycode-encoded where it
/// holds non-ASCII characters (kept as is where the encoding fails).
pub open spec fn ascii_domain(raw: Seq<char>) -> Seq<char> {
    let l = lower(trim(raw));
    if !all_ascii(l) {
        match idna_domain_to_ascii(l) {
            Some(a) => a,
            None => l,
        }
    } else {
        l
    }
}

/// Executes `ascii_domain`.
pub fn to_ascii_domain(raw: &[char]) -> (r: Vec<char>)
    ensures r@ == ascii_domain(raw@),
{
    let t = trim_chars(raw);
    let l = lower_chars(t.as_slice());
    if !is_all_ascii(l.as_slice()) {
        let s = string_of(l.as_slice());
        match idna_to_ascii(s.as_str()) {
            Ok(a) => chars_of(a.as_str()),
            Err(_) => l,
        }
    } else {
        l
    }
}

/// Second-level labels that, with their top-level label, form a public suffix.
pub open spec fn compound_suffixes() -> Seq<(Seq<char>, Seq<char>)> {
    seq![
        ("com"@, "cn"@), ("net"@, "cn"@), ("org"@, "cn"@), ("gov"@, "cn"@), ("edu"@, "cn"@),
        ("ac"@, "cn"@), ("mil"@, "cn"@), ("ah"@, "cn"@), ("bj"@, "cn"@), ("cq"@, "cn"@),
        ("fj"@, "cn"@), ("gd"@, "cn"@), ("gs"@, "cn"@), ("gx"@, "cn"@), ("gz"@, "cn"@),
        ("ha"@, "cn"@), ("hb"@, "cn"@), ("he"@, "cn"@), ("hi"@, "cn"@), ("hl"@, "cn"@),
        ("hn"@, "cn"@), ("jl"@, "cn"@), ("js"@, "cn"@), ("jx"@, "cn"@), ("ln"@, "cn"@),
        ("nm"@, "cn"@), ("nx"@, "cn"@), ("qh"@, "cn"@), ("sc"@, "cn"@), ("sd"@, "cn"@),
        ("sh"@, "cn"@), ("sn"@, "cn"@), ("sx"@, "cn"@), ("tj"@, "cn"@), ("xj"@, "cn"@),
        ("xz"@, "cn"@), ("yn"@, "cn"@), ("zj"@, "cn"@),
        ("com"@, "hk"@), ("net"@, "hk"@), ("org"@, "hk"@), ("edu"@, "hk"@), ("gov"@, "hk"@),
        ("idv"@, "hk"@),
        ("com"@, "mo"@), ("net"@, "mo"@), ("org"@, "mo"@), ("edu"@, "mo"@), ("gov"@, "mo"@),
        ("com"@, "tw"@), ("net"@, "tw"@), ("org"@, "tw"@), ("edu"@, "tw"@), ("gov"@, "tw"@),
        ("idv"@, "tw"@), ("club"@, "tw"@), ("game"@, "tw"@), ("ebiz"@, "tw"@),
        ("co"@, "uk"@), ("org"@, "uk"@), ("me"@, "uk"@), ("net"@, "uk"@), ("ltd"@, "uk"@),
        ("plc"@, "uk"@), ("ac"@, "uk"@), ("gov"@, "uk"@),
        ("co"@, "jp"@), ("ne"@, "jp"@), ("or"@, "jp"@), ("ac"@, "jp"@), ("go"@, "jp"@),
        ("ed"@, "jp"@), ("gr"@, "jp"@), ("lg"@, "jp"@),
        ("com"@, "au"@), ("net"@, "au"@), ("org"@, "au"@), ("edu"@, "au"@), ("gov"@, "au"@),
        ("id"@, "au"@), ("asn"@, "au"@),
        ("co"@, "nz"@), ("net"@, "nz"@), ("org"@, "nz"@), ("ac"@, "nz"@), ("govt"@, "nz"@),
        ("school"@, "nz"@), ("geek"@, "nz"@), ("gen"@, "nz"@),
        ("com"@, "sg"@), ("net"@, "sg"@), ("org"@, "sg"@), ("edu"@, "sg"@), ("gov"@, "sg"@),
        ("per"@, "sg"@),
        ("com"@, "my"@), ("net"@, "my"@), ("org"@, "my"@), ("edu"@, "my"@), ("gov"@, "my"@),
        ("co"@, "kr"@), ("ne"@, "kr"@), ("or"@, "kr"@), ("re"@, "kr"@), ("pe"@, "kr"@),
        ("go"@, "kr"@),
        ("com"@, "br"@), ("net"@, "br"@), ("org"@, "br"@), ("app"@, "br"@), ("art"@, "br"@),
        ("dev"@, "br"@), ("eco"@, "br"@), ("emp"@, "br"@), ("log"@, "br"@),
        ("com"@, "ru"@), ("net"@, "ru"@), ("org"@, "ru"@), ("pp"@, "ru"@),
        ("co"@, "za"@), ("net"@, "za"@), ("org"@, "za"@), ("web"@, "za"@),
        ("eu"@, "org"@)
    ]
}

fn compound_suffix_table() -> (r: Vec<(&'static str, &'static str)>)
    ensures r@.map_values(|p: (&str, &str)| (p.0@, p.1@)) == compound_suffixes(),
{
    let r = vec![
        ("com", "cn"), ("net", "cn"), ("org", "cn"), ("gov", "cn"), ("edu", "cn"),
        ("ac", "cn"), ("mil", "cn"), ("ah", "cn"), ("bj", "cn"), ("cq", "cn"),
        ("fj", "cn"), ("gd", "cn"), ("gs", "cn"), ("gx", "cn"), ("gz", "cn"),
        ("ha", "cn"), ("hb", "cn"), ("he", "cn"), ("hi", "cn"), ("hl", "cn"),
        ("hn", "cn"), ("jl", "cn"), ("js", "cn"), ("jx", "cn"), ("ln", "cn"),
        ("nm", "cn"), ("nx", "cn"), ("qh", "cn"), ("sc", "cn"), ("sd", "cn"),
        ("sh", "cn"), ("sn", "cn"), ("sx", "cn"), ("tj", "cn"), ("xj", "cn"),
        ("xz", "cn"), ("yn", "cn"), ("zj", "cn"),
        ("com", "hk"), ("net", "hk"), ("org", "hk"), ("edu", "hk"), ("gov", "hk"),
        ("idv", "hk"),
        ("com", "mo"), ("net", "mo"), ("org", "mo"), ("edu", "mo"), ("gov", "mo"),
        ("com", "tw"), ("net", "tw"), ("org", "tw"), ("edu", "tw"), ("gov", "tw"),
        ("idv", "tw"), ("club", "tw"), ("game", "tw"), ("ebiz", "tw"),
        ("co", "uk"), ("org", "uk"), ("me", "uk"), ("net", "uk"), ("ltd", "uk"),
        ("plc", "uk"), ("ac", "uk"), ("gov", "uk"),
        ("co", "jp"), ("ne", "jp"), ("or", "jp"), ("ac", "jp"), ("go", "jp"),
        ("ed", "jp"), ("gr", "jp"), ("lg", "jp"),
        ("com", "au"), ("net", "au"), ("org", "au"), ("edu", "au"), ("gov", "au"),
        ("id", "au"), ("asn", "au"),
        ("co", "nz"), ("net", "nz"), ("org", "nz"), ("ac", "nz"), ("govt", "nz"),
        ("school", "nz"), ("geek", "nz"), ("gen", "nz"),
        ("com", "sg"), ("net", "sg"), ("org", "sg"), ("edu", "sg"), ("gov", "sg"),
        ("per", "sg"),
        ("com", "my"), ("net", "my"), ("org", "my"), ("edu", "my"), ("gov", "my"),
        ("co", "kr"), ("ne", "kr"), ("or", "kr"), ("re", "kr"), ("pe", "kr"),
        ("go", "kr"),
        ("com", "br"), ("net", "br"), ("org", "br"), ("app", "br"), ("art", "br"),
        ("dev", "br"), ("eco", "br"), ("emp", "br"), ("log", "br"),
        ("com", "ru"), ("net", "ru"), ("org", "ru"), ("pp", "ru"),
        ("co", "za"), ("net", "za"), ("org", "za"), ("web", "za"),
        ("eu", "org"),
    ];
    assert(r@.map_values(|p: (&str, &str)| (p.0@, p.1@)) =~= compound_suffixes());
    r
}

/// Whether `second.last` (compared ASCII-case-insensitively) is a two-label public suffix.
pub open spec fn is_compound(second: Seq<char>, last: Seq<char>) -> bool {
    compound_suffixes().contains((lower(second), lower(last)))
}

/// Decides `is_compound`.
pub fn is_compound_suffix(second_last: &[char], last: &[char]) -> (r: bool)
    ensures r == is_compound(second_last@, last@),
{
    let a = lower_chars(second_last);
    let b = lower_chars(last);
    let table = compound_suffix_table();
    let ghost views = table@.map_values(|p: (&str, &str)| (p.0@, p.1@));
    let mut i: usize = 0;
    while i < table.len()
        invariant
            i <= table@.len(),
            views == compound_suffixes(),
            views == table@.map_values(|p: (&str, &str)| (p.0@, p.1@)),
            forall|j: int| 0 <= j < i ==> views[j] != (a@, b@),
            a@ == lower(second_last@),
            b@ == lower(last@),
        decreases table@.len() - i,
    {
        let pair = table[i];
        let x = pair.0;
        let y = pair.1;
        assert(pair == table@[i as int]);
        assert(views[i as int] == (x@, y@));
        if str_is(x, a.as_slice()) && str_is(y, b.as_slice()) {
            assert(compound_suffixes().contains((a@, b@))) by {
                assert(compound_suffixes()[i as int] == (a@, b@));
            }
            return true;
        }
        i = i + 1;
    }
    assert(!compound_suffixes().contains((a@, b@))) by {
        if compound_suffixes().contains((a@, b@)) {
            let j = choose|j: int| 0 <= j < compound_suffixes().len() && compound_suffixes()[j] == (a@, b@);
            assert(views[j] == (a@, b@));
        }
    }
    false
}

/// The two-label public suffixes, by top-level label: `second.tld` is one where `second`
/// is among the second-level labels listed for `tld` (`com.cn`, `co.uk`, `co.jp`, `com.au`,
/// `co.nz`, `co.kr`, `com.br`, `co.za`, `eu.org` and the rest below).
pub open spec fn listed_under(tld: Seq<char>, second: Seq<char>) -> bool {
    ||| tld == "cn"@ && (second == "com"@ || second == "net"@ || second == "org"@ || second == "gov"@ || second == "edu"@ || second == "ac"@ || second == "mil"@ || second == "ah"@ || second == "bj"@ || second == "cq"@ || second == "fj"@ || second == "gd"@ || second == "gs"@ || second == "gx"@ || second == "gz"@ || second == "ha"@ || second == "hb"@ || second == "he"@ || second == "hi"@ || second == "hl"@ || second == "hn"@ || second == "jl"@ || second == "js"@ || second == "jx"@ || second == "ln"@ || second == "nm"@ || second == "nx"@ || second == "qh"@ || second == "sc"@ || second == "sd"@ || second == "sh"@ || second == "sn"@ || second == "sx"@ || second == "tj"@ || second == "xj"@ || second == "xz"@ || second == "yn"@ || second == "zj"@)
    ||| tld == "hk"@ && (second == "com"@ || second == "net"@ || second == "org"@ || second == "edu"@ || second == "gov"@ || second == "idv"@)
    ||| tld == "mo"@ && (second == "com"@ || second == "net"@ || second == "org"@ || second == "edu"@ || second == "gov"@)
    ||| tld == "tw"@ && (second == "com"@ || second == "net"@ || second == "org"@ || second == "edu"@ || second == "gov"@ || second == "idv"@ || second == "club"@ || second == "game"@ || second == "ebiz"@)
    ||| tld == "uk"@ && (second == "co"@ || second == "org"@ || second == "me"@ || second == "net"@ || second == "ltd"@ || second == "plc"@ || second == "ac"@ || second == "gov"@)
    ||| tld == "jp"@ && (second == "co"@ || second == "ne"@ || second == "or"@ || second == "ac"@ || second == "go"@ || second == "ed"@ || second == "gr"@ || second == "lg"@)
    ||| tld == "au"@ && (second == "com"@ || second == "net"@ || second == "org"@ || second == "edu"@ || second == "gov"@ || second == "id"@ || second == "asn"@)
    ||| tld == "nz"@ && (second == "co"@ || second == "net"@ || second == "org"@ || second == "ac"@ || second == "govt"@ || second == "school"@ || second == "geek"@ || second == "gen"@)
    ||| tld == "sg"@ && (second == "com"@ || second == "net"@ || second == "org"@ || second == "edu"@ || second == "gov"@ || second == "per"@)
    ||| tld == "my"@ && (second == "com"@ || second == "net"@ || second == "org"@ || second == "edu"@ || second == "gov"@)
    ||| tld == "kr"@ && (second == "co"@ || second == "ne"@ || second == "or"@ || second == "re"@ || second == "pe"@ || second == "go"@)
    ||| tld == "br"@ && (second == "com"@ || second == "net"@ || second == "org"@ || second == "app"@ || second == "art"@ || second == "dev"@ || second == "eco"@ || second == "emp"@ || second == "log"@)
    ||| tld == "ru"@ && (second == "com"@ || second == "net"@ || second == "org"@ || second == "pp"@)
    ||| tld == "za"@ && (second == "co"@ || second == "net"@ || second == "org"@ || second == "web"@)
    ||| tld == "org"@ && (second == "eu"@)
}

/// Every listed two-label suffix is recognised: where `second` is listed under `tld`, the
/// pair is in the table that `is_compound_suffix` scans.
#[verifier::rlimit(50)]
pub proof fn law_listed_suffixes_recognised(tld: Seq<char>, second: Seq<char>)
    requires listed_under(tld, second),
    ensures compound_suffixes().contains((second, tld)),
{
    let cs = compound_suffixes();
    if tld == "cn"@ && second == "com"@ { assert(cs[0] == ("com"@, "cn"@)); }
    if tld == "cn"@ && second == "net"@ { assert(cs[1] == ("net"@, "cn"@)); }
    if tld == "cn"@ && second == "org"@ { assert(cs[2] == ("org"@, "cn"@)); }
    if tld == "cn"@ && second == "gov"@ { assert(cs[3] == ("gov"@, "cn"@)); }
    if tld == "cn"@ && second == "edu"@ { assert(cs[4] == ("edu"@, "cn"@)); }
    if tld == "cn"@ && second == "ac"@ { assert(cs[5] == ("ac"@, "cn"@)); }
    if tld == "cn"@ && second == "mil"@ { assert(cs[6] == ("mil"@, "cn"@)); }
    if tld == "cn"@ && second == "ah"@ { assert(cs[7] == ("ah"@, "cn"@)); }
    if tld == "cn"@ && second == "bj"@ { assert(cs[8] == ("bj"@, "cn"@)); }
    if tld == "cn"@ && second == "cq"@ { assert(cs[9] == ("cq"@, "cn"@)); }
    if tld == "cn"@ && second == "fj"@ { assert(cs[10] == ("fj"@, "cn"@)); }
    if tld == "cn"@ && second == "gd"@ { assert(cs[11] == ("gd"@, "cn"@)); }
    if tld == "cn"@ && second == "gs"@ { assert(cs[12] == ("gs"@, "cn"@)); }
    if tld == "cn"@ && second == "gx"@ { assert(cs[13] == ("gx"@, "cn"@)); }
    if tld == "cn"@ && second == "gz"@ { assert(cs[14] == ("gz"@, "cn"@)); }
    if tld == "cn"@ && second == "ha"@ { assert(cs[15] == ("ha"@, "cn"@)); }
    if tld == "cn"@ && second == "hb"@ { assert(cs[16] == ("hb"@, "cn"@)); }
    if tld == "cn"@ && second == "he"@ { assert(cs[17] == ("he"@, "cn"@)); }
    if tld == "cn"@ && second == "hi"@ { assert(cs[18] == ("hi"@, "cn"@)); }
    if tld == "cn"@ && second == "hl"@ { assert(cs[19] == ("hl"@, "cn"@)); }
    if tld == "cn"@ && second == "hn"@ { assert(cs[20] == ("hn"@, "cn"@)); }
    if tld == "cn"@ && second == "jl"@ { assert(cs[21] == ("jl"@, "cn"@)); }
    if tld == "cn"@ && second == "js"@ { assert(cs[22] == ("js"@, "cn"@)); }
    if tld == "cn"@ && second == "jx"@ { assert(cs[23] == ("jx"@, "cn"@)); }
    if tld == "cn"@ && second == "ln"@ { assert(cs[24] == ("ln"@, "cn"@)); }
    if tld == "cn"@ && second == "nm"@ { assert(cs[25] == ("nm"@, "cn"@)); }
    if tld == "cn"@ && second == "nx"@ { assert(cs[26] == ("nx"@, "cn"@)); }
    if tld == "cn"@ && second == "qh"@ { assert(cs[27] == ("qh"@, "cn"@)); }
    if tld == "cn"@ && second == "sc"@ { assert(cs[28] == ("sc"@, "cn"@)); }
    if tld == "cn"@ && second == "sd"@ { assert(cs[29] == ("sd"@, "cn"@)); }
    if tld == "cn"@ && second == "sh"@ { assert(cs[30] == ("sh"@, "cn"@)); }
    if tld == "cn"@ && second == "sn"@ { assert(cs[31] == ("sn"@, "cn"@)); }
    if tld == "cn"@ && second == "sx"@ { assert(cs[32] == ("sx"@, "cn"@)); }
    if tld == "cn"@ && second == "tj"@ { assert(cs[33] == ("tj"@, "cn"@)); }
    if tld == "cn"@ && second == "xj"@ { assert(cs[34] == ("xj"@, "cn"@)); }
    if tld == "cn"@ && second == "xz"@ { assert(cs[35] == ("xz"@, "cn"@)); }
    if tld == "cn"@ && second == "yn"@ { assert(cs[36] == ("yn"@, "cn"@)); }
    if tld == "cn"@ && second == "zj"@ { assert(cs[37] == ("zj"@, "cn"@)); }
    if tld == "hk"@ && second == "com"@ { assert(cs[38] == ("com"@, "hk"@)); }
    if tld == "hk"@ && second == "net"@ { assert(cs[39] == ("net"@, "hk"@)); }
    if tld == "hk"@ && second == "org"@ { assert(cs[40] == ("org"@, "hk"@)); }
    if tld == "hk"@ && second == "edu"@ { assert(cs[41] == ("edu"@, "hk"@)); }
    if tld == "hk"@ && second == "gov"@ { assert(cs[42] == ("gov"@, "hk"@)); }
    if tld == "hk"@ && second == "idv"@ { assert(cs[43] == ("idv"@, "hk"@)); }
    if tld == "mo"@ && second == "com"@ { assert(cs[44] == ("com"@, "mo"@)); }
    if tld == "mo"@ && second == "net"@ { assert(cs[45] == ("net"@, "mo"@)); }
    if tld == "mo"@ && second == "org"@ { assert(cs[46] == ("org"@, "mo"@)); }
    if tld == "mo"@ && second == "edu"@ { assert(cs[47] == ("edu"@, "mo"@)); }
    if tld == "mo"@ && second == "gov"@ { assert(cs[48] == ("gov"@, "mo"@)); }
    if tld == "tw"@ && second == "com"@ { assert(cs[49] == ("com"@, "tw"@)); }
    if tld == "tw"@ && second == "net"@ { assert(cs[50] == ("net"@, "tw"@)); }
    if tld == "tw"@ && second == "org"@ { assert(cs[51] == ("org"@, "tw"@)); }
    if tld == "tw"@ && second == "edu"@ { assert(cs[52] == ("edu"@, "tw"@)); }
    if tld == "tw"@ && second == "gov"@ { assert(cs[53] == ("gov"@, "tw"@)); }
    if tld == "tw"@ && second == "idv"@ { assert(cs[54] == ("idv"@, "tw"@)); }
    if tld == "tw"@ && second == "club"@ { assert(cs[55] == ("club"@, "tw"@)); }
    if tld == "tw"@ && second == "game"@ { assert(cs[56] == ("game"@, "tw"@)); }
    if tld == "tw"@ && second == "ebiz"@ { assert(cs[57] == ("ebiz"@, "tw"@)); }
    if tld == "uk"@ && second == "co"@ { assert(cs[58] == ("co"@, "uk"@)); }
    if tld == "uk"@ && second == "org"@ { assert(cs[59] == ("org"@, "uk"@)); }
    if tld == "uk"@ && second == "me"@ { assert(cs[60] == ("me"@, "uk"@)); }
    if tld == "uk"@ && second == "net"@ { assert(cs[61] == ("net"@, "uk"@)); }
    if tld == "uk"@ && second == "ltd"@ { assert(cs[62] == ("ltd"@, "uk"@)); }
    if tld == "uk"@ && second == "plc"@ { assert(cs[63] == ("plc"@, "uk"@)); }
    if tld == "uk"@ && second == "ac"@ { assert(cs[64] == ("ac"@, "uk"@)); }
    if tld == "uk"@ && second == "gov"@ { assert(cs[65] == ("gov"@, "uk"@)); }
    if tld == "jp"@ && second == "co"@ { assert(cs[66] == ("co"@, "jp"@)); }
    if tld == "jp"@ && second == "ne"@ { assert(cs[67] == ("ne"@, "jp"@)); }
    if tld == "jp"@ && second == "or"@ { assert(cs[68] == ("or"@, "jp"@)); }
    if tld == "jp"@ && second == "ac"@ { assert(cs[69] == ("ac"@, "jp"@)); }
    if tld == "jp"@ && second == "go"@ { assert(cs[70] == ("go"@, "jp"@)); }
    if tld == "jp"@ && second == "ed"@ { assert(cs[71] == ("ed"@, "jp"@)); }
    if tld == "jp"@ && second == "gr"@ { assert(cs[72] == ("gr"@, "jp"@)); }
    if tld == "jp"@ && second == "lg"@ { assert(cs[73] == ("lg"@, "jp"@)); }
    if tld == "au"@ && second == "com"@ { assert(cs[74] == ("com"@, "au"@)); }
    if tld == "au"@ && second == "net"@ { assert(cs[75] == ("net"@, "au"@)); }
    if tld == "au"@ && second == "org"@ { assert(cs[76] == ("org"@, "au"@)); }
    if tld == "au"@ && second == "edu"@ { assert(cs[77] == ("edu"@, "au"@)); }
    if tld == "au"@ && second == "gov"@ { assert(cs[78] == ("gov"@, "au"@)); }
    if tld == "au"@ && second == "id"@ { assert(cs[79] == ("id"@, "au"@)); }
    if tld == "au"@ && second == "asn"@ { assert(cs[80] == ("asn"@, "au"@)); }
    if tld == "nz"@ && second == "co"@ { assert(cs[81] == ("co"@, "nz"@)); }
    if tld == "nz"@ && second == "net"@ { assert(cs[82] == ("net"@, "nz"@)); }
    if tld == "nz"@ && second == "org"@ { assert(cs[83] == ("org"@, "nz"@)); }
    if tld == "nz"@ && second == "ac"@ { assert(cs[84] == ("ac"@, "nz"@)); }
    if tld == "nz"@ && second == "govt"@ { assert(cs[85] == ("govt"@, "nz"@)); }
    if tld == "nz"@ && second == "school"@ { assert(cs[86] == ("school"@, "nz"@)); }
    if tld == "nz"@ && second == "geek"@ { assert(cs[87] == ("geek"@, "nz"@)); }
    if tld == "nz"@ && second == "gen"@ { assert(cs[88] == ("gen"@, "nz"@)); }
    if tld == "sg"@ && second == "com"@ { assert(cs[89] == ("com"@, "sg"@)); }
    if tld == "sg"@ && second == "net"@ { assert(cs[90] == ("net"@, "sg"@)); }
    if tld == "sg"@ && second == "org"@ { assert(cs[91] == ("org"@, "sg"@)); }
    if tld == "sg"@ && second == "edu"@ { assert(cs[92] == ("edu"@, "sg"@)); }
    if tld == "sg"@ && second == "gov"@ { assert(cs[93] == ("gov"@, "sg"@)); }
    if tld == "sg"@ && second == "per"@ { assert(cs[94] == ("per"@, "sg"@)); }
    if tld == "my"@ && second == "com"@ { assert(cs[95] == ("com"@, "my"@)); }
    if tld == "my"@ && second == "net"@ { assert(cs[96] == ("net"@, "my"@)); }
    if tld == "my"@ && second == "org"@ { assert(cs[97] == ("org"@, "my"@)); }
    if tld == "my"@ && second == "edu"@ { assert(cs[98] == ("edu"@, "my"@)); }
    if tld == "my"@ && second == "gov"@ { assert(cs[99] == ("gov"@, "my"@)); }
    if tld == "kr"@ && second == "co"@ { assert(cs[100] == ("co"@, "kr"@)); }
    if tld == "kr"@ && second == "ne"@ { assert(cs[101] == ("ne"@, "kr"@)); }
    if tld == "kr"@ && second == "or"@ { assert(cs[102] == ("or"@, "kr"@)); }
    if tld == "kr"@ && second == "re"@ { assert(cs[103] == ("re"@, "kr"@)); }
    if tld == "kr"@ && second == "pe"@ { assert(cs[104] == ("pe"@, "kr"@)); }
    if tld == "kr"@ && second == "go"@ { assert(cs[105] == ("go"@, "kr"@)); }
    if tld == "br"@ && second == "com"@ { assert(cs[106] == ("com"@, "br"@)); }
    if tld == "br"@ && second == "net"@ { assert(cs[107] == ("net"@, "br"@)); }
    if tld == "br"@ && second == "org"@ { assert(cs[108] == ("org"@, "br"@)); }
    if tld == "br"@ && second == "app"@ { assert(cs[109] == ("app"@, "br"@)); }
    if tld == "br"@ && second == "art"@ { assert(cs[110] == ("art"@, "br"@)); }
    if tld == "br"@ && second == "dev"@ { assert(cs[111] == ("dev"@, "br"@)); }
    if tld == "br"@ && second == "eco"@ { assert(cs[112] == ("eco"@, "br"@)); }
    if tld == "br"@ && second == "emp"@ { assert(cs[113] == ("emp"@, "br"@)); }
    if tld == "br"@ && second == "log"@ { assert(cs[114] == ("log"@, "br"@)); }
    if tld == "ru"@ && second == "com"@ { assert(cs[115] == ("com"@, "ru"@)); }
    if tld == "ru"@ && second == "net"@ { assert(cs[116] == ("net"@, "ru"@)); }
    if tld == "ru"@ && second == "org"@ { assert(cs[117] == ("org"@, "ru"@)); }
    if tld == "ru"@ && second == "pp"@ { assert(cs[118] == ("pp"@, "ru"@)); }
    if tld == "za"@ && second == "co"@ { assert(cs[119] == ("co"@, "za"@)); }
    if tld == "za"@ && second == "net"@ { assert(cs[120] == ("net"@, "za"@)); }
    if tld == "za"@ && second == "org"@ { assert(cs[121] == ("org"@, "za"@)); }
    if tld == "za"@ && second == "web"@ { assert(cs[122] == ("web"@, "za"@)); }
    if tld == "org"@ && second == "eu"@ { assert(cs[123] == ("eu"@, "org"@)); }
}

/// Only listed two-label suffixes are recognised: every pair of the table that
/// `is_compound_suffix` scans is listed.
#[verifier::rlimit(50)]
pub proof fn law_recognised_suffixes_listed(tld: Seq<char>, second: Seq<char>)
    requires compound_suffixes().contains((second, tld)),
    ensures listed_under(tld, second),
{
    let cs = compound_suffixes();
    let i = choose|i: int| 0 <= i < cs.len() && cs[i] == (second, tld);
    if i == 0 { assert(cs[0] == ("com"@, "cn"@));
    } else if i == 1 { assert(cs[1] == ("net"@, "cn"@));
    } else if i == 2 { assert(cs[2] == ("org"@, "cn"@));
    } else if i == 3 { assert(cs[3] == ("gov"@, "cn"@));
    } else if i == 4 { assert(cs[4] == ("edu"@, "cn"@));
    } else if i == 5 { assert(cs[5] == ("ac"@, "cn"@));
    } else if i == 6 { assert(cs[6] == ("mil"@, "cn"@));
    } else if i == 7 { assert(cs[7] == ("ah"@, "cn"@));
    } else if i == 8 { assert(cs[8] == ("bj"@, "cn"@));
    } else if i == 9 { assert(cs[9] == ("cq"@, "cn"@));
    } else if i == 10 { assert(cs[10] == ("fj"@, "cn"@));
    } else if i == 11 { assert(cs[11] == ("gd"@, "cn"@));
    } else if i == 12 { assert(cs[12] == ("gs"@, "cn"@));
    } else if i == 13 { assert(cs[13] == ("gx"@, "cn"@));
    } else if i == 14 { assert(cs[14] == ("gz"@, "cn"@));
    } else if i == 15 { assert(cs[15] == ("ha"@, "cn"@));
    } else if i == 16 { assert(cs[16] == ("hb"@, "cn"@));
    } else if i == 17 { assert(cs[17] == ("he"@, "cn"@));
    } else if i == 18 { assert(cs[18] == ("hi"@, "cn"@));
    } else if i == 19 { assert(cs[19] == ("hl"@, "cn"@));
    } else if i == 20 { assert(cs[20] == ("hn"@, "cn"@));
    } else if i == 21 { assert(cs[21] == ("jl"@, "cn"@));
    } else if i == 22 { assert(cs[22] == ("js"@, "cn"@));
    } else if i == 23 { assert(cs[23] == ("jx"@, "cn"@));
    } else if i == 24 { assert(cs[24] == ("ln"@, "cn"@));
    } else if i == 25 { assert(cs[25] == ("nm"@, "cn"@));
    } else if i == 26 { assert(cs[26] == ("nx"@, "cn"@));
    } else if i == 27 { assert(cs[27] == ("qh"@, "cn"@));
    } else if i == 28 { assert(cs[28] == ("sc"@, "cn"@));
    } else if i == 29 { assert(cs[29] == ("sd"@, "cn"@));
    } else if i == 30 { assert(cs[30] == ("sh"@, "cn"@));
    } else if i == 31 { assert(cs[31] == ("sn"@, "cn"@));
    } else if i == 32 { assert(cs[32] == ("sx"@, "cn"@));
    } else if i == 33 { assert(cs[33] == ("tj"@, "cn"@));
    } else if i == 34 { assert(cs[34] == ("xj"@, "cn"@));
    } else if i == 35 { assert(cs[35] == ("xz"@, "cn"@));
    } else if i == 36 { assert(cs[36] == ("yn"@, "cn"@));
    } else if i == 37 { assert(cs[37] == ("zj"@, "cn"@));
    } else if i == 38 { assert(cs[38] == ("com"@, "hk"@));
    } else if i == 39 { assert(cs[39] == ("net"@, "hk"@));
    } else if i == 40 { assert(cs[40] == ("org"@, "hk"@));
    } else if i == 41 { assert(cs[41] == ("edu"@, "hk"@));
    } else if i == 42 { assert(cs[42] == ("gov"@, "hk"@));
    } else if i == 43 { assert(cs[43] == ("idv"@, "hk"@));
    } else if i == 44 { assert(cs[44] == ("com"@, "mo"@));
    } else if i == 45 { assert(cs[45] == ("net"@, "mo"@));
    } else if i == 46 { assert(cs[46] == ("org"@, "mo"@));
    } else if i == 47 { assert(cs[47] == ("edu"@, "mo"@));
    } else if i == 48 { assert(cs[48] == ("gov"@, "mo"@));
    } else if i == 49 { assert(cs[49] == ("com"@, "tw"@));
    } else if i == 50 { assert(cs[50] == ("net"@, "tw"@));
    } else if i == 51 { assert(cs[51] == ("org"@, "tw"@));
    } else if i == 52 { assert(cs[52] == ("edu"@, "tw"@));
    } else if i == 53 { assert(cs[53] == ("gov"@, "tw"@));
    } else if i == 54 { assert(cs[54] == ("idv"@, "tw"@));
    } else if i == 55 { assert(cs[55] == ("club"@, "tw"@));
    } else if i == 56 { assert(cs[56] == ("game"@, "tw"@));
    } else if i == 57 { assert(cs[57] == ("ebiz"@, "tw"@));
    } else if i == 58 { assert(cs[58] == ("co"@, "uk"@));
    } else if i == 59 { assert(cs[59] == ("org"@, "uk"@));
    } else if i == 60 { assert(cs[60] == ("me"@, "uk"@));
    } else if i == 61 { assert(cs[61] == ("net"@, "uk"@));
    } else if i == 62 { assert(cs[62] == ("ltd"@, "uk"@));
    } else if i == 63 { assert(cs[63] == ("plc"@, "uk"@));
    } else if i == 64 { assert(cs[64] == ("ac"@, "uk"@));
    } else if i == 65 { assert(cs[65] == ("gov"@, "uk"@));
    } else if i == 66 { assert(cs[66] == ("co"@, "jp"@));
    } else if i == 67 { assert(cs[67] == ("ne"@, "jp"@));
    } else if i == 68 { assert(cs[68] == ("or"@, "jp"@));
    } else if i == 69 { assert(cs[69] == ("ac"@, "jp"@));
    } else if i == 70 { assert(cs[70] == ("go"@, "jp"@));
    } else if i == 71 { assert(cs[71] == ("ed"@, "jp"@));
    } else if i == 72 { assert(cs[72] == ("gr"@, "jp"@));
    } else if i == 73 { assert(cs[73] == ("lg"@, "jp"@));
    } else if i == 74 { assert(cs[74] == ("com"@, "au"@));
    } else if i == 75 { assert(cs[75] == ("net"@, "au"@));
    } else if i == 76 { assert(cs[76] == ("org"@, "au"@));
    } else if i == 77 { assert(cs[77] == ("edu"@, "au"@));
    } else if i == 78 { assert(cs[78] == ("gov"@, "au"@));
    } else if i == 79 { assert(cs[79] == ("id"@, "au"@));
    } else if i == 80 { assert(cs[80] == ("asn"@, "au"@));
    } else if i == 81 { assert(cs[81] == ("co"@, "nz"@));
    } else if i == 82 { assert(cs[82] == ("net"@, "nz"@));
    } else if i == 83 { assert(cs[83] == ("org"@, "nz"@));
    } else if i == 84 { assert(cs[84] == ("ac"@, "nz"@));
    } else if i == 85 { assert(cs[85] == ("govt"@, "nz"@));
    } else if i == 86 { assert(cs[86] == ("school"@, "nz"@));
    } else if i == 87 { assert(cs[87] == ("geek"@, "nz"@));
    } else if i == 88 { assert(cs[88] == ("gen"@, "nz"@));
    } else if i == 89 { assert(cs[89] == ("com"@, "sg"@));
    } else if i == 90 { assert(cs[90] == ("net"@, "sg"@));
    } else if i == 91 { assert(cs[91] == ("org"@, "sg"@));
    } else if i == 92 { assert(cs[92] == ("edu"@, "sg"@));
    } else if i == 93 { assert(cs[93] == ("gov"@, "sg"@));
    } else if i == 94 { assert(cs[94] == ("per"@, "sg"@));
    } else if i == 95 { assert(cs[95] == ("com"@, "my"@));
    } else if i == 96 { assert(cs[96] == ("net"@, "my"@));
    } else if i == 97 { assert(cs[97] == ("org"@, "my"@));
    } else if i == 98 { assert(cs[98] == ("edu"@, "my"@));
    } else if i == 99 { assert(cs[99] == ("gov"@, "my"@));
    } else if i == 100 { assert(cs[100] == ("co"@, "kr"@));
    } else if i == 101 { assert(cs[101] == ("ne"@, "kr"@));
    } else if i == 102 { assert(cs[102] == ("or"@, "kr"@));
    } else if i == 103 { assert(cs[103] == ("re"@, "kr"@));
    } else if i == 104 { assert(cs[104] == ("pe"@, "kr"@));
    } else if i == 105 { assert(cs[105] == ("go"@, "kr"@));
    } else if i == 106 { assert(cs[106] == ("com"@, "br"@));
    } else if i == 107 { assert(cs[107] == ("net"@, "br"@));
    } else if i == 108 { assert(cs[108] == ("org"@, "br"@));
    } else if i == 109 { assert(cs[109] == ("app"@, "br"@));
    } else if i == 110 { assert(cs[110] == ("art"@, "br"@));
    } else if i == 111 { assert(cs[111] == ("dev"@, "br"@));
    } else if i == 112 { assert(cs[112] == ("eco"@, "br"@));
    } else if i == 113 { assert(cs[113] == ("emp"@, "br"@));
    } else if i == 114 { assert(cs[114] == ("log"@, "br"@));
    } else if i == 115 { assert(cs[115] == ("com"@, "ru"@));
    } else if i == 116 { assert(cs[116] == ("net"@, "ru"@));
    } else if i == 117 { assert(cs[117] == ("org"@, "ru"@));
    } else if i == 118 { assert(cs[118] == ("pp"@, "ru"@));
    } else if i == 119 { assert(cs[119] == ("co"@, "za"@));
    } else if i == 120 { assert(cs[120] == ("net"@, "za"@));
    } else if i == 121 { assert(cs[121] == ("org"@, "za"@));
    } else if i == 122 { assert(cs[122] == ("web"@, "za"@));
    } else if i == 123 { assert(cs[123] == ("eu"@, "org"@));
    }
}

/// `is_compound_suffix` decides exactly the listed two-label suffixes, compared without
/// regard to ASCII case.
pub proof fn law_compound_suffix_is_listed(second: Seq<char>, last: Seq<char>)
    ensures is_compound(second, last) <==> listed_under(lower(last), lower(second)),
{
    if is_compound(second, last) {
        law_recognised_suffixes_listed(lower(last), lower(second));
    }
    if listed_under(lower(last), lower(second)) {
        law_listed_suffixes_recognised(lower(last), lower(second));
    }
}

/// The parameter map that inserting `pairs` in order gives.
pub open spec fn params_of(pairs: Seq<(Seq<char>, Seq<char>)>) -> Map<Seq<char>, Seq<char>>
    decreases pairs.len(),
{
    if pairs.len() == 0 {
        Map::empty()
    } else {
        params_of(pairs.drop_last()).insert(pairs.last().0, pairs.last().1)
    }
}

/// The text after the first `://`, or all of it.
pub open spec fn strip_scheme(t: Seq<char>) -> Seq<char> {
    match find_from(t, seq![':', '/', '/'], 0) {
        Some(i) => t.subrange(i + 3, t.len() as int),
        None => t,
    }
}

/// Host part and query part, split at the first `?`, each trimmed.
pub open spec fn split_query(np: Seq<char>) -> (Seq<char>, Option<Seq<char>>) {
    match find_char(np, '?') {
        Some(i) => (trim(np.take(i)), Some(trim(np.subrange(i + 1, np.len() as int)))),
        None => (trim(np), None),
    }
}

/// The text before the first `/`, trimmed.
pub open spec fn before_path(dp: Seq<char>) -> Seq<char> {
    match find_char(dp, '/') {
        Some(i) => trim(dp.take(i)),
        None => trim(dp),
    }
}

/// Whether `s` parses as a `u16` (a port number).
pub open spec fn is_port(s: Seq<char>) -> bool {
    parse_unsigned(s, 10, 65535) is Some
}

/// Splits `host` at its first `:`: a port is dropped; otherwise `sub:root` is returned.
pub open spec fn split_colon(host: Seq<char>) -> (Seq<char>, Option<(Seq<char>, Seq<char>)>) {
    match find_char(host, ':') {
        Some(i) => {
            let left = host.take(i);
            let right = host.subrange(i + 1, host.len() as int);
            if is_port(right) { (trim(left), None) } else { (host, Some((left, right))) }
        },
        None => (host, None),
    }
}

/// Sub-domain and root of an explicit `sub:root` entry.
pub open spec fn parse_explicit(sub: Seq<char>, root: Seq<char>) -> Option<(Seq<char>, Seq<char>)> {
    let root_ascii = ascii_domain(root);
    if root_ascii.len() == 0 {
        None
    } else {
        let st = trim(sub);
        let sub_ascii = if st.len() == 0 || st == seq!['@'] {
            seq!['@']
        } else if st == seq!['*'] {
            seq!['*']
        } else {
            ascii_domain(st)
        };
        Some((sub_ascii, root_ascii))
    }
}

/// Sub-domain and root of a dotted name: the root is the last two labels, or three where the
/// last two form a compound suffix; a bare root gets sub-domain `@`.
pub open spec fn parse_dotted(host: Seq<char>) -> Option<(Seq<char>, Seq<char>)> {
    let a = ascii_domain(host);
    let parts = split_on(a, '.');
    let n = parts.len() as int;
    if n < 2 {
        None
    } else {
        let k: int = if n >= 3 && is_compound(parts[n - 2], parts[n - 1]) { 3 } else { 2 };
        if n == k {
            Some((seq!['@'], a))
        } else {
            Some((join_with(parts.take(n - k), '.'), join_with(parts.subrange(n - k, n), '.')))
        }
    }
}

/// The entry that `parse_domain` gives for `raw` (with the given parameter map), or `None`
/// where the line is blank, a comment, or holds no usable host.
pub open spec fn parsed_domain(raw: Seq<char>) -> Option<DomainView> {
    let t = trim(raw);
    if t.len() == 0 || t[0] == '#' || has_prefix(t, seq!['/', '/']) {
        None
    } else {
        let (dp, q) = split_query(strip_scheme(t));
        let host = before_path(dp);
        if host.len() == 0 {
            None
        } else {
            let params = match q {
                Some(qq) => params_of(form_urlencoded_pairs(qq)),
                None => Map::empty(),
            };
            let (cleaned, explicit) = split_colon(host);
            let parts = match explicit {
                Some((l, r)) => parse_explicit(l, r),
                None => parse_dotted(cleaned),
            };
            match parts {
                Some((sub, root)) => Some(DomainView { raw, root, sub, params }),
                None => None,
            }
        }
    }
}

fn build_params(q: &[char]) -> (m: TextMap<String>)
    ensures m.wf(), text_values(m@) == params_of(form_urlencoded_pairs(q@)),
{
    let qs = string_of(q);
    let pairs = parse_form_pairs(qs.as_str());
    let ghost pv = pair_views(pairs@);
    let mut m: TextMap<String> = TextMap::new();
    let mut i: usize = 0;
    assert(pv.take(0) =~= Seq::<(Seq<char>, Seq<char>)>::empty());
    assert(text_values(m@) =~= params_of(pv.take(0)));
    while i < pairs.len()
        invariant
            i <= pairs@.len(),
            pv == pair_views(pairs@),
            pv == form_urlencoded_pairs(q@),
            m.wf(),
            text_values(m@) == params_of(pv.take(i as int)),
        decreases pairs@.len() - i,
    {
        let k = pairs[i].0.clone();
        let v = pairs[i].1.clone();
        let ghost before = m@;
        m.insert(k, v);
        proof {
            assert(pv.take(i + 1).drop_last() =~= pv.take(i as int));
            assert(pv.take(i + 1).last() == pv[i as int]);
            assert(text_values(m@) =~= text_values(before).insert(pv[i as int].0, pv[i as int].1));
        }
        i = i + 1;
    }
    assert(pv.take(pairs@.len() as int) =~= pv);
    m
}

fn strip_scheme_chars(t: &[char]) -> (r: Vec<char>)
    ensures r@ == strip_scheme(t@),
{
    let pat: [char; 3] = [':', '/', '/'];
    let ghost p = seq![':', '/', '/'];
    assert(pat@ =~= p);
    match find(t, &pat) {
        Some(i) => {
            let n = t.len();
            proof { lemma_find_from(t@, p, 0); }
            assert(i + 3 <= n);
            sub_chars(t, i + 3, n)
        },
        None => sub_chars(t, 0, t.len()),
    }
}

fn split_query_chars(np: &[char]) -> (r: (Vec<char>, Option<Vec<char>>))
    ensures
        r.0@ == split_query(np@).0,
        match r.1 {
            Some(q) => split_query(np@).1 == Some(q@),
            None => split_query(np@).1 is None,
        },
{
    match position_of(np, '?') {
        Some(i) => {
            let n = np.len();
            proof { lemma_find_char_from(np@, '?', 0); }
            assert(i < n);
            let d = sub_chars(np, 0, i);
            let q = sub_chars(np, i + 1, n);
            assert(d@ =~= np@.take(i as int));
            (trim_chars(d.as_slice()), Some(trim_chars(q.as_slice())))
        },
        None => (trim_chars(np), None),
    }
}

fn before_path_chars(dp: &[char]) -> (r: Vec<char>)
    ensures r@ == before_path(dp@),
{
    match position_of(dp, '/') {
        Some(i) => {
            proof { lemma_find_char_from(dp@, '/', 0); }
            let d = sub_chars(dp, 0, i);
            assert(d@ =~= dp@.take(i as int));
            trim_chars(d.as_slice())
        },
        None => trim_chars(dp),
    }
}

fn split_colon_chars(host: &[char]) -> (r: (Vec<char>, Option<(Vec<char>, Vec<char>)>))
    ensures
        r.0@ == split_colon(host@).0,
        match r.1 {
            Some((l, rr)) => split_colon(host@).1 == Some((l@, rr@)),
            None => split_colon(host@).1 is None,
        },
{
    match position_of(host, ':') {
        Some(i) => {
            let n = host.len();
            proof { lemma_find_char_from(host@, ':', 0); }
            assert(i < n);
            let left = sub_chars(host, 0, i);
            let right = sub_chars(host, i + 1, n);
            assert(left@ =~= host@.take(i as int));
            if parse_unsigned_chars(right.as_slice(), 10, 65535).is_some() {
                (trim_chars(left.as_slice()), None)
            } else {
                (sub_chars(host, 0, host.len()), Some((left, right)))
            }
        },
        None => (sub_chars(host, 0, host.len()), None),
    }
}

fn parse_explicit_chars(sub: &[char], root: &[char]) -> (r: Option<(Vec<char>, Vec<char>)>)
    ensures
        match r {
            Some((s, rt)) => parse_explicit(sub@, root@) == Some((s@, rt@)),
            None => parse_explicit(sub@, root@) is None,
        },
{
    let root_ascii = to_ascii_domain(root);
    if root_ascii.len() == 0 {
        return None;
    }
    let st = trim_chars(sub);
    let sub_ascii = if st.len() == 0 || (st.len() == 1 && st[0] == '@') {
        assert(st.len() == 1 ==> st@ =~= seq!['@']);
        let at = vec!['@'];
        assert(at@ =~= seq!['@']);
        at
    } else if st.len() == 1 && st[0] == '*' {
        assert(st@ =~= seq!['*']);
        let star = vec!['*'];
        assert(star@ =~= seq!['*']);
        star
    } else {
        assert(st@ != seq!['@']) by { if st@ == seq!['@'] { assert(st@.len() == 1 && st@[0] == '@'); } }
        assert(st@ != seq!['*']) by { if st@ == seq!['*'] { assert(st@.len() == 1 && st@[0] == '*'); } }
        to_ascii_domain(st.as_slice())
    };
    Some((sub_ascii, root_ascii))
}

fn parse_dotted_chars(host: &[char]) -> (r: Option<(Vec<char>, Vec<char>)>)
    ensures
        match r {
            Some((s, rt)) => parse_dotted(host@) == Some((s@, rt@)),
            None => parse_dotted(host@) is None,
        },
{
    let a = to_ascii_domain(host);
    let parts = split_chars(a.as_slice(), '.');
    let n = parts.len();
    if n < 2 {
        return None;
    }
    let k: usize = if n >= 3 && is_compound_suffix(parts[n - 2].as_slice(), parts[n - 1].as_slice()) { 3 } else { 2 };
    assert(views_of(parts@)[n - 2] == parts@[n - 2]@);
    assert(views_of(parts@)[n - 1] == parts@[n - 1]@);
    if n == k {
        let at = vec!['@'];
        assert(at@ =~= seq!['@']);
        Some((at, a))
    } else {
        let sub = join_range(&parts, 0, n - k, '.');
        let root = join_range(&parts, n - k, n, '.');
        assert(views_of(parts@).subrange(0, n - k) =~= views_of(parts@).take(n - k));
        Some((sub, root))
    }
}

/// Parses one configured domain entry.
///
/// Accepted forms: `example.com` (sub-domain `@`), `www.example.com`, `*.example.com`,
/// `sub:example.com`, URLs such as `https://www.example.com/` (scheme, port and path are
/// dropped), and a `?key=value&...` suffix of custom parameters. Blank lines and lines
/// starting with `#` or `//` give `None`.
pub fn parse_domain(raw_input: &str) -> (r: Option<ParsedDomain>)
    ensures
        match r {
            Some(d) => d.wf() && parsed_domain(raw_input@) == Some(d.dview()),
            None => parsed_domain(raw_input@) is None,
        },
{
    let t = trimmed_chars(raw_input);
    if t.len() == 0 || t[0] == '#' {
        return None;
    }
    let slashes: [char; 2] = ['/', '/'];
    assert(slashes@ =~= seq!['/', '/']);
    if starts_with(t.as_slice(), &slashes) {
        return None;
    }
    let np = strip_scheme_chars(t.as_slice());
    let (dp, q) = split_query_chars(np.as_slice());
    let host = before_path_chars(dp.as_slice());
    if host.len() == 0 {
        return None;
    }
    let custom_params = match q {
        Some(qq) => build_params(qq.as_slice()),
        None => {
            let m: TextMap<String> = TextMap::new();
            assert(text_values(m@) =~= Map::<Seq<char>, Seq<char>>::empty());
            m
        },
    };
    let (cleaned, explicit) = split_colon_chars(host.as_slice());
    let parts = match explicit {
        Some((l, rr)) => parse_explicit_chars(l.as_slice(), rr.as_slice()),
        None => parse_dotted_chars(cleaned.as_slice()),
    };
    match parts {
        Some((sub, root)) => {
            let d = ParsedDomain {
                raw: raw_input.to_owned(),
                root_domain: string_of(root.as_slice()),
                sub_domain: string_of(sub.as_slice()),
                custom_params,
            };
            Some(d)
        },
        None => None,
    }
}

/// The entries that `parse_domain_list` keeps: those that parse, in order.
pub open spec fn parsed_domain_list(raw: Seq<Seq<char>>) -> Seq<DomainView>
    decreases raw.len(),
{
    if raw.len() == 0 {
        Seq::empty()
    } else {
        let prev = parsed_domain_list(raw.drop_last());
        match parsed_domain(raw.last()) {
            Some(d) => prev.push(d),
            None => prev,
        }
    }
}

/// The views of a list of strings.
pub open spec fn string_views(v: Seq<String>) -> Seq<Seq<char>> {
    v.map_values(|s: String| s@)
}

/// The contents of a list of parsed entries.
pub open spec fn domain_views(v: Seq<ParsedDomain>) -> Seq<DomainView> {
    v.map_values(|d: ParsedDomain| d.dview())
}

/// Parses every entry of a list, dropping those that do not parse.
pub fn parse_domain_list(raw_list: &[String]) -> (r: Vec<ParsedDomain>)
    ensures
        domain_views(r@) == parsed_domain_list(string_views(raw_list@)),
        forall|i: int| 0 <= i < r@.len() ==> (#[trigger] r@[i]).wf(),
{
    let mut r: Vec<ParsedDomain> = Vec::new();
    let mut i: usize = 0;
    let ghost sv = string_views(raw_list@);
    while i < raw_list.len()
        invariant
            i <= raw_list@.len(),
            sv == string_views(raw_list@),
            domain_views(r@) == parsed_domain_list(sv.take(i as int)),
            forall|j: int| 0 <= j < r@.len() ==> (#[trigger] r@[j]).wf(),
        decreases raw_list@.len() - i,
    {
        proof {
            assert(sv.take(i + 1).drop_last() =~= sv.take(i as int));
            assert(sv.take(i + 1).last() == raw_list@[i as int]@);
        }
        match parse_domain(raw_list[i].as_str()) {
            Some(d) => {
                let ghost before = r@;
                r.push(d);
                assert(domain_views(r@) =~= domain_views(before).push(d.dview()));
            },
            None => {},
        }
        i = i + 1;
    }
    assert(sv.take(raw_list@.len() as int) =~= sv);
    r
}

/// A character of a plain label: a lower-case ASCII letter, a digit or `-`.
pub open spec fn plain_label_char(c: char) -> bool {
    ('a' <= c && c <= 'z') || ('0' <= c && c <= '9') || c == '-'
}

/// A non-empty label of plain characters.
pub open spec fn plain_label(l: Seq<char>) -> bool {
    l.len() > 0 && forall|i: int| 0 <= i < l.len() ==> plain_label_char(#[trigger] l[i])
}

proof fn lemma_split_len(s: Seq<char>, c: char)
    ensures split_on(s, c).len() >= 1,
    decreases s.len(),
{
    if s.len() > 0 {
        lemma_split_len(s.drop_last(), c);
    }
}

proof fn lemma_split_append(x: Seq<char>, y: Seq<char>, c: char)
    requires forall|i: int| 0 <= i < y.len() ==> y[i] != c,
    ensures
        split_on(x + y, c) == split_on(x, c).update(split_on(x, c).len() - 1, split_on(x, c).last() + y),
    decreases y.len(),
{
    lemma_split_len(x, c);
    let p = split_on(x, c);
    if y.len() == 0 {
        assert(x + y =~= x);
        assert(p.last() + y =~= p.last());
        assert(p.update(p.len() - 1, p.last()) =~= p);
    } else {
        let y0 = y.drop_last();
        lemma_split_append(x, y0, c);
        let s = x + y;
        assert(s.drop_last() =~= x + y0);
        assert(s.last() == y.last());
        let q = split_on(x + y0, c);
        assert(q == p.update(p.len() - 1, p.last() + y0));
        assert((p.last() + y0).push(y.last()) =~= p.last() + y);
        assert(q.update(q.len() - 1, q.last().push(s.last())) =~= p.update(p.len() - 1, p.last() + y));
    }
}

proof fn lemma_split_join(labels: Seq<Seq<char>>, c: char)
    requires
        labels.len() >= 1,
        forall|i: int, j: int| 0 <= i < labels.len() && 0 <= j < labels[i].len() ==> #[trigger] labels[i][j] != c,
    ensures split_on(join_with(labels, c), c) == labels,
    decreases labels.len(),
{
    let last = labels.last();
    assert forall|j: int| 0 <= j < last.len() implies last[j] != c by {
        assert(labels[labels.len() - 1][j] != c);
    }
    if labels.len() == 1 {
        let e = Seq::<char>::empty();
        lemma_split_append(e, labels[0], c);
        assert(e + labels[0] =~= labels[0]);
        assert(split_on(e, c) == seq![e]);
        assert(seq![e].update(0, e + labels[0]) =~= labels);
    } else {
        let dl = labels.drop_last();
        assert forall|i: int, j: int| 0 <= i < dl.len() && 0 <= j < dl[i].len() implies #[trigger] dl[i][j] != c by {
            assert(dl[i] == labels[i]);
        }
        lemma_split_join(dl, c);
        let jd = join_with(dl, c);
        lemma_split_append(jd.push(c), last, c);
        assert(jd.push(c).drop_last() =~= jd);
        assert(split_on(jd.push(c), c) == dl.push(Seq::<char>::empty()));
        assert(Seq::<char>::empty() + last =~= last);
        assert(dl.push(Seq::<char>::empty()).update(dl.len() as int, last) =~= labels);
    }
}

proof fn lemma_join_split(labels: Seq<Seq<char>>, m: int, c: char)
    requires 1 <= m < labels.len(),
    ensures join_with(labels, c) == join_with(labels.take(m), c).push(c) + join_with(labels.skip(m), c),
    decreases labels.len(),
{
    let dl = labels.drop_last();
    if m == labels.len() - 1 {
        assert(labels.take(m) =~= dl);
        assert(labels.skip(m) =~= seq![labels.last()]);
    } else {
        lemma_join_split(dl, m, c);
        assert(dl.take(m) =~= labels.take(m));
        assert(labels.skip(m).drop_last() =~= dl.skip(m));
        assert(labels.skip(m).last() == labels.last());
        assert(join_with(labels, c) =~= join_with(labels.take(m), c).push(c) + join_with(labels.skip(m), c));
    }
}

proof fn lemma_join_plain(labels: Seq<Seq<char>>)
    requires
        labels.len() >= 1,
        forall|i: int| 0 <= i < labels.len() ==> plain_label(#[trigger] labels[i]),
    ensures
        ({
            let s = join_with(labels, '.');
            &&& s.len() > 0
            &&& s[0] == labels[0][0]
            &&& s.last() == labels.last().last()
            &&& forall|i: int| 0 <= i < s.len() ==> plain_label_char(#[trigger] s[i]) || s[i] == '.'
        }),
    decreases labels.len(),
{
    let s = join_with(labels, '.');
    assert(plain_label(labels[0]));
    assert(plain_label(labels.last()));
    if labels.len() == 1 {
        assert forall|i: int| 0 <= i < s.len() implies plain_label_char(#[trigger] s[i]) || s[i] == '.' by {
            assert(plain_label_char(labels[0][i]));
        }
    } else {
        let dl = labels.drop_last();
        assert forall|i: int| 0 <= i < dl.len() implies plain_label(#[trigger] dl[i]) by {
            assert(dl[i] == labels[i]);
        }
        lemma_join_plain(dl);
        let jd = join_with(dl, '.');
        let l = labels.last();
        assert(s == jd.push('.') + l);
        assert(dl[0] == labels[0]);
        assert forall|i: int| 0 <= i < s.len() implies plain_label_char(#[trigger] s[i]) || s[i] == '.' by {
            if i < jd.len() {
                assert(s[i] == jd[i]);
            } else if i > jd.len() {
                assert(s[i] == l[i - jd.len() - 1]);
                assert(plain_label_char(l[i - jd.len() - 1]));
            }
        }
    }
}

/// What `parse_domain` makes of a plain dotted name (at least two non-empty labels of
/// lower-case letters, digits and `-`; `parse_domain` returns the value whose view is
/// `parsed_domain` of its input): the name itself as `raw`, no parameters, the root its last
/// two labels (three where `is_compound_suffix` holds of the last two), the sub-domain the
/// labels before (`@` where none remain), and sub-domain and root joined again give the name.
pub proof fn law_parse_domain_plain_name(labels: Seq<Seq<char>>)
    requires
        labels.len() >= 2,
        forall|i: int| 0 <= i < labels.len() ==> plain_label(#[trigger] labels[i]),
    ensures
        ({
            let s = join_with(labels, '.');
            let n = labels.len() as int;
            let k: int = if n >= 3 && is_compound(labels[n - 2], labels[n - 1]) { 3 } else { 2 };
            let root = join_with(labels.skip(n - k), '.');
            let sub = if n == k { seq!['@'] } else { join_with(labels.take(n - k), '.') };
            &&& parsed_domain(s) == Some(DomainView { raw: s, root, sub, params: Map::empty() })
            &&& full_name(sub, root) == s
        }),
{
    let s = join_with(labels, '.');
    let n = labels.len() as int;
    lemma_join_plain(labels);
    assert forall|i: int, j: int| 0 <= i < labels.len() && 0 <= j < labels[i].len()
        implies #[trigger] labels[i][j] != '.' by {
        assert(plain_label(labels[i]));
        assert(plain_label_char(labels[i][j]));
    }
    lemma_split_join(labels, '.');
    assert(!is_ws(s[0]) && !is_ws(s.last()));
    assert(trim(s) =~= s) by {
        assert(first_non_ws(s, 0) == 0);
        assert(end_non_ws(s, 0, s.len() as int) == s.len());
    }
    assert(s[0] != '#');
    assert(!has_prefix(s, seq!['/', '/'])) by {
        if has_prefix(s, seq!['/', '/']) {
            assert(s.take(2)[0] == s[0]);
        }
    }
    lemma_find_from(s, seq![':', '/', '/'], 0);
    if let Some(j) = find_from(s, seq![':', '/', '/'], 0) {
        assert(s.subrange(j, j + 3)[0] == s[j]);
        assert(false);
    }
    assert(strip_scheme(s) == s);
    lemma_find_char_from(s, '?', 0);
    lemma_find_char_from(s, '/', 0);
    lemma_find_char_from(s, ':', 0);
    assert(split_query(s) == (s, Option::<Seq<char>>::None));
    assert(before_path(s) == s);
    assert(split_colon(s) == (s, Option::<(Seq<char>, Seq<char>)>::None));
    assert(lower(s) =~= s) by {
        assert forall|i: int| 0 <= i < s.len() implies lower(s)[i] == s[i] by {
            assert(plain_label_char(s[i]) || s[i] == '.');
        }
    }
    assert(all_ascii(s)) by {
        assert forall|i: int| 0 <= i < s.len() implies (s[i] as u32) < 128 by {
            assert(plain_label_char(s[i]) || s[i] == '.');
        }
    }
    assert(ascii_domain(s) == s);
    assert(labels.skip(0) =~= labels);
    let k: int = if n >= 3 && is_compound(labels[n - 2], labels[n - 1]) { 3 } else { 2 };
    assert(labels.subrange(n - k, n) =~= labels.skip(n - k));
    if n > k {
        lemma_join_split(labels, n - k, '.');
        let tk = labels.take(n - k);
        assert forall|i: int| 0 <= i < tk.len() implies plain_label(#[trigger] tk[i]) by {
            assert(tk[i] == labels[i]);
        }
        lemma_join_plain(tk);
        let sub = join_with(tk, '.');
        assert(sub.len() > 0);
        assert(sub[0] == labels[0][0]);
        assert(plain_label_char(labels[0][0]));
        assert(sub != seq!['@']);
    }
}

/// `parse_domain_list` keeps, in input order, exactly the entries that parse, each as it
/// parses; so it never gives more entries than it is handed.
pub proof fn law_domain_list_filters(raw: Seq<Seq<char>>)
    ensures
        parsed_domain_list(raw) == raw.filter(|x: Seq<char>| parsed_domain(x) is Some)
            .map_values(|x: Seq<char>| parsed_domain(x)->0),
        parsed_domain_list(raw).len() <= raw.len(),
    decreases raw.len(),
{
    reveal(Seq::filter);
    let pred = |x: Seq<char>| parsed_domain(x) is Some;
    raw.lemma_filter_len(pred);
    if raw.len() > 0 {
        law_domain_list_filters(raw.drop_last());
        let f = raw.drop_last().filter(pred);
        if pred(raw.last()) {
            assert(f.push(raw.last()).map_values(|x: Seq<char>| parsed_domain(x)->0)
                =~= f.map_values(|x: Seq<char>| parsed_domain(x)->0).push(parsed_domain(raw.last())->0));
        }
    }
}

} // verus!
