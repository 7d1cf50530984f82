//! Alibaba-style ("POP") request signing: parameters kept sorted by name, a canonical
//! query of percent-encoded pairs, and an HMAC-SHA-1 signature of the method and query.
use vstd::prelude::*;
use vstd::string::StringSliceAdditionalSpecFns;
use crate::crypto::{base64_standard, hmac1, hmac_sha1_base64};
use crate::text::{append_chars, append_str, chars_eq, chars_of, string_of};
use crate::urlencode::{hex_upper, pair_views};

verus! {

broadcast use vstd::string::group_string_axioms;

/// Bytes that percent-encoding leaves as they are (RFC 3986's unreserved set).
pub open spec fn pop_unreserved(b: u8) -> bool {
    (48 <= b <= 57) || (65 <= b <= 90) || (97 <= b <= 122) || b == 45 || b == 46 || b == 95 || b == 126
}

/// Percent-encoding of bytes: unreserved bytes stay, every other byte becomes `%XX`
/// (upper-case hexadecimal), so a space is `%20`, `*` is `%2A` and `~` stays.
pub open spec fn pop_encode(bytes: Seq<u8>) -> Seq<char>
    decreases bytes.len(),
{
    if bytes.len() == 0 {
        Seq::<char>::empty()
    } else {
        let b = bytes.last();
        let piece = if pop_unreserved(b) { seq![b as char] } else { seq!['%', hex_upper(b / 16), hex_upper(b % 16)] };
        pop_encode(bytes.drop_last()) + piece
    }
}

/// Percent-encoding of the UTF-8 bytes of a text.
pub open spec fn pop_text(s: Seq<char>) -> Seq<char> {
    pop_encode(vstd::utf8::encode_utf8(s))
}

fn hex_upper_of(n: u8) -> (c: char)
    requires n < 16,
    ensures c == hex_upper(n),
{
    if n < 10 { (48 + n) as char } else { (55 + n) as char }
}

/// Percent-encodes the UTF-8 bytes of `s`.
pub fn pop_url_encode(s: &str) -> (r: String)
    ensures r@ == pop_encode(s.spec_bytes()),
{
    let bytes = s.as_bytes();
    let mut v: Vec<char> = Vec::new();
    let mut i: usize = 0;
    while i < bytes.len()
        invariant
            i <= bytes@.len(),
            v@ == pop_encode(bytes@.take(i as int)),
        decreases bytes@.len() - i,
    {
        let b = bytes[i];
        if (48 <= b && b <= 57) || (65 <= b && b <= 90) || (97 <= b && b <= 122) || b == 45 || b == 46 || b == 95 || b == 126 {
            v.push(b as char);
        } else {
            v.push('%');
            v.push(hex_upper_of(b / 16));
            v.push(hex_upper_of(b % 16));
        }
        assert(bytes@.take(i + 1).drop_last() =~= bytes@.take(i as int));
        i = i + 1;
    }
    assert(bytes@.take(bytes@.len() as int) =~= bytes@);
    string_of(v.as_slice())
}

/// `a` comes before `b` in the order of their characters (for UTF-8 text, the order of
/// its bytes too), a proper prefix first.
pub open spec fn text_lt(a: Seq<char>, b: Seq<char>) -> bool
    decreases a.len(),
{
    if a.len() == 0 {
        b.len() > 0
    } else if b.len() == 0 {
        false
    } else if a[0] != b[0] {
        (a[0] as int) < (b[0] as int)
    } else {
        text_lt(a.drop_first(), b.drop_first())
    }
}

proof fn lemma_text_lt_skip(a: Seq<char>, b: Seq<char>, i: int)
    requires
        0 <= i <= a.len(),
        i <= b.len(),
        forall|j: int| 0 <= j < i ==> a[j] == b[j],
    ensures
        text_lt(a, b) == text_lt(a.subrange(i, a.len() as int), b.subrange(i, b.len() as int)),
    decreases i,
{
    if i > 0 {
        lemma_text_lt_skip(a.drop_first(), b.drop_first(), i - 1);
        assert(a.drop_first().subrange(i - 1, a.len() - 1) =~= a.subrange(i, a.len() as int));
        assert(b.drop_first().subrange(i - 1, b.len() - 1) =~= b.subrange(i, b.len() as int));
    } else {
        assert(a.subrange(0, a.len() as int) =~= a);
        assert(b.subrange(0, b.len() as int) =~= b);
    }
}

/// Whether `a` comes before `b`.
pub fn chars_lt(a: &[char], b: &[char]) -> (r: bool)
    ensures r == text_lt(a@, b@),
{
    let mut i: usize = 0;
    while i < a.len() && i < b.len() && a[i] == b[i]
        invariant
            i <= a@.len(),
            i <= b@.len(),
            forall|j: int| 0 <= j < i ==> a@[j] == b@[j],
        decreases a@.len() - i,
    {
        i = i + 1;
    }
    proof {
        lemma_text_lt_skip(a@, b@, i as int);
    }
    let ghost sa = a@.subrange(i as int, a@.len() as int);
    let ghost sb = b@.subrange(i as int, b@.len() as int);
    if i == a.len() {
        assert(sa.len() == 0);
        assert(text_lt(sa, sb) == (sb.len() > 0));
        i < b.len()
    } else if i == b.len() {
        assert(sa.len() > 0 && sb.len() == 0);
        false
    } else {
        assert(sa[0] == a@[i as int] && sb[0] == b@[i as int]);
        assert(sa[0] != sb[0]);
        assert(text_lt(sa, sb) == ((sa[0] as int) < (sb[0] as int)));
        a[i] < b[i]
    }
}

/// The parameters after setting `k` to `v`, kept sorted by name: a parameter of that
/// name is replaced, otherwise the pair goes before the first greater name.
pub open spec fn param_insert(s: Seq<(Seq<char>, Seq<char>)>, k: Seq<char>, v: Seq<char>) -> Seq<(Seq<char>, Seq<char>)>
    decreases s.len(),
{
    if s.len() == 0 {
        seq![(k, v)]
    } else if s[0].0 == k {
        seq![(k, v)] + s.drop_first()
    } else if text_lt(k, s[0].0) {
        seq![(k, v)] + s
    } else {
        seq![s[0]] + param_insert(s.drop_first(), k, v)
    }
}

/// The names are strictly increasing.
pub open spec fn params_sorted(s: Seq<(Seq<char>, Seq<char>)>) -> bool {
    forall|i: int, j: int| 0 <= i < j < s.len() ==> text_lt(#[trigger] s[i].0, #[trigger] s[j].0)
}

/// The parameters as a map from name to value (of names that occur twice, the first).
pub open spec fn params_map(s: Seq<(Seq<char>, Seq<char>)>) -> Map<Seq<char>, Seq<char>>
    decreases s.len(),
{
    if s.len() == 0 {
        Map::empty()
    } else {
        params_map(s.drop_first()).insert(s[0].0, s[0].1)
    }
}

proof fn lemma_text_lt_irreflexive(a: Seq<char>)
    ensures !text_lt(a, a),
    decreases a.len(),
{
    if a.len() > 0 {
        lemma_text_lt_irreflexive(a.drop_first());
    }
}

proof fn lemma_text_lt_transitive(a: Seq<char>, b: Seq<char>, c: Seq<char>)
    requires text_lt(a, b), text_lt(b, c),
    ensures text_lt(a, c),
    decreases a.len(),
{
    if a.len() > 0 && b.len() > 0 && c.len() > 0 && a[0] == b[0] && b[0] == c[0] {
        lemma_text_lt_transitive(a.drop_first(), b.drop_first(), c.drop_first());
    }
}

proof fn lemma_text_lt_total(a: Seq<char>, b: Seq<char>)
    requires a != b,
    ensures text_lt(a, b) || text_lt(b, a),
    decreases a.len(),
{
    if a.len() > 0 && b.len() > 0 && a[0] == b[0] {
        if a.drop_first() == b.drop_first() {
            assert(a =~= seq![a[0]] + a.drop_first());
            assert(b =~= seq![b[0]] + b.drop_first());
        }
        lemma_text_lt_total(a.drop_first(), b.drop_first());
    } else if a.len() == 0 && b.len() == 0 {
        assert(a =~= b);
    }
}

proof fn lemma_insert_keys(s: Seq<(Seq<char>, Seq<char>)>, k: Seq<char>, v: Seq<char>, i: int)
    requires 0 <= i < param_insert(s, k, v).len(),
    ensures
        param_insert(s, k, v)[i].0 == k || exists|j: int| 0 <= j < s.len() && s[j].0 == param_insert(s, k, v)[i].0,
    decreases s.len(),
{
    if s.len() > 0 && s[0].0 != k && !text_lt(k, s[0].0) {
        if i > 0 {
            lemma_insert_keys(s.drop_first(), k, v, i - 1);
            if param_insert(s, k, v)[i].0 != k {
                let j = choose|j: int| 0 <= j < s.drop_first().len() && s.drop_first()[j].0 == param_insert(s.drop_first(), k, v)[i - 1].0;
                assert(s[j + 1].0 == param_insert(s, k, v)[i].0);
            }
        } else {
            assert(s[0].0 == param_insert(s, k, v)[0].0);
        }
    } else if s.len() > 0 && i > 0 {
        if s[0].0 == k {
            assert(s[i].0 == param_insert(s, k, v)[i].0);
        } else {
            assert(s[i - 1].0 == param_insert(s, k, v)[i].0);
        }
    }
}

/// Setting a parameter keeps the names strictly increasing, and the parameters then
/// denote the previous map with that name set to that value.
pub proof fn law_param_insert(s: Seq<(Seq<char>, Seq<char>)>, k: Seq<char>, v: Seq<char>)
    requires params_sorted(s),
    ensures
        params_sorted(param_insert(s, k, v)),
        params_map(param_insert(s, k, v)) == params_map(s).insert(k, v),
    decreases s.len(),
{
    let r = param_insert(s, k, v);
    if s.len() == 0 {
        assert(r.drop_first() =~= Seq::<(Seq<char>, Seq<char>)>::empty());
        assert(params_map(r.drop_first()) == Map::<Seq<char>, Seq<char>>::empty());
        assert(params_map(s) == Map::<Seq<char>, Seq<char>>::empty());
        assert(params_map(r) =~= params_map(s).insert(k, v));
    } else if s[0].0 == k {
        assert(r.drop_first() =~= s.drop_first());
        assert(params_map(r) =~= params_map(s).insert(k, v));
        assert forall|i: int, j: int| 0 <= i < j < r.len() implies text_lt(#[trigger] r[i].0, #[trigger] r[j].0) by {
            assert(s[i].0 == r[i].0 && s[j].0 == r[j].0);
        }
    } else if text_lt(k, s[0].0) {
        assert(r.drop_first() =~= s);
        assert(params_map(r) =~= params_map(s).insert(k, v));
        assert forall|i: int, j: int| 0 <= i < j < r.len() implies text_lt(#[trigger] r[i].0, #[trigger] r[j].0) by {
            if i == 0 {
                if j > 1 {
                    lemma_text_lt_transitive(k, s[0].0, s[j - 1].0);
                }
            } else {
                assert(s[i - 1].0 == r[i].0 && s[j - 1].0 == r[j].0);
            }
        }
    } else {
        let t = s.drop_first();
        assert(params_sorted(t)) by {
            assert forall|i: int, j: int| 0 <= i < j < t.len() implies text_lt(#[trigger] t[i].0, #[trigger] t[j].0) by {
                assert(t[i] == s[i + 1] && t[j] == s[j + 1]);
            }
        }
        law_param_insert(t, k, v);
        lemma_text_lt_total(k, s[0].0);
        assert(r.drop_first() =~= param_insert(t, k, v));
        assert(params_map(r) =~= params_map(s).insert(k, v));
        assert forall|i: int, j: int| 0 <= i < j < r.len() implies text_lt(#[trigger] r[i].0, #[trigger] r[j].0) by {
            if i == 0 {
                lemma_insert_keys(t, k, v, j - 1);
                assert(r[j] == param_insert(t, k, v)[j - 1]);
                if r[j].0 != k {
                    let m = choose|m: int| 0 <= m < t.len() && t[m].0 == param_insert(t, k, v)[j - 1].0;
                    assert(s[m + 1].0 == r[j].0);
                }
            } else {
                assert(r[i] == param_insert(t, k, v)[i - 1] && r[j] == param_insert(t, k, v)[j - 1]);
            }
        }
    }
}

proof fn lemma_insert_skip(s: Seq<(Seq<char>, Seq<char>)>, k: Seq<char>, v: Seq<char>, i: int)
    requires
        0 <= i < s.len(),
        s[i].0 != k,
        !text_lt(k, s[i].0),
    ensures
        param_insert(s.skip(i), k, v) == seq![s[i]] + param_insert(s.skip(i + 1), k, v),
{
    assert(s.skip(i).drop_first() =~= s.skip(i + 1));
    assert(s.skip(i)[0] == s[i]);
}

/// Sets parameter `k` to `v` in a sorted parameter list.
pub fn insert_param(params: &Vec<(String, String)>, k: &str, v: &str) -> (r: Vec<(String, String)>)
    ensures pair_views(r@) == param_insert(pair_views(params@), k@, v@),
{
    let ghost s = pair_views(params@);
    let kc = chars_of(k);
    let n = params.len();
    let mut i: usize = 0;
    let mut found = false;
    proof {
        assert(s.skip(0) =~= s);
        assert(s.take(0) + param_insert(s, k@, v@) =~= param_insert(s, k@, v@));
    }
    while i < n && !found
        invariant
            n == params@.len(),
            i <= n,
            s == pair_views(params@),
            kc@ == k@,
            param_insert(s, k@, v@) == s.take(i as int) + param_insert(s.skip(i as int), k@, v@),
            found ==> i < n && (s[i as int].0 == k@ || text_lt(k@, s[i as int].0)),
        decreases n - i + (if found { 0int } else { 1int }),
    {
        let key = chars_of(params[i].0.as_str());
        if chars_eq(key.as_slice(), kc.as_slice()) || chars_lt(kc.as_slice(), key.as_slice()) {
            found = true;
        } else {
            proof {
                lemma_insert_skip(s, k@, v@, i as int);
                assert(s.take(i + 1) =~= s.take(i as int).push(s[i as int]));
                assert(s.take(i as int) + (seq![s[i as int]] + param_insert(s.skip(i + 1), k@, v@))
                    =~= s.take(i + 1) + param_insert(s.skip(i + 1), k@, v@));
            }
            i = i + 1;
        }
    }
    let mut r: Vec<(String, String)> = Vec::new();
    let mut j: usize = 0;
    while j < i
        invariant
            j <= i <= n,
            n == params@.len(),
            s == pair_views(params@),
            pair_views(r@) == s.take(j as int),
        decreases i - j,
    {
        let ghost before = r@;
        r.push((params[j].0.clone(), params[j].1.clone()));
        proof {
            lemma_pair_views_push(before, r@.last());
            assert(before.push(r@.last()) =~= r@);
            assert(s.take(j + 1) =~= s.take(j as int).push(s[j as int]));
        }
        j = j + 1;
    }
    let ghost before = r@;
    r.push((k.to_string(), v.to_string()));
    proof {
        lemma_pair_views_push(before, r@.last());
        assert(before.push(r@.last()) =~= r@);
    }
    let mut rest = i;
    if i < n {
        let key = chars_of(params[i].0.as_str());
        if chars_eq(key.as_slice(), kc.as_slice()) {
            rest = i + 1;
        }
    }
    proof {
        if i == n {
            assert(s.skip(i as int) =~= Seq::<(Seq<char>, Seq<char>)>::empty());
        } else {
            assert(s.skip(i as int)[0] == s[i as int]);
            assert(s.skip(i as int).drop_first() =~= s.skip(i + 1));
        }
        assert(param_insert(s.skip(i as int), k@, v@) =~= seq![(k@, v@)] + s.skip(rest as int));
    }
    let mut m: usize = rest;
    while m < n
        invariant
            i <= rest <= m <= n,
            n == params@.len(),
            s == pair_views(params@),
            pair_views(r@) == s.take(i as int).push((k@, v@)) + s.subrange(rest as int, m as int),
        decreases n - m,
    {
        let ghost before = r@;
        r.push((params[m].0.clone(), params[m].1.clone()));
        proof {
            lemma_pair_views_push(before, r@.last());
            assert(before.push(r@.last()) =~= r@);
            assert(s.take(i as int).push((k@, v@)) + s.subrange(rest as int, m + 1)
                =~= (s.take(i as int).push((k@, v@)) + s.subrange(rest as int, m as int)).push(s[m as int]));
        }
        m = m + 1;
    }
    assert(s.subrange(rest as int, n as int) =~= s.skip(rest as int));
    assert(pair_views(r@) =~= param_insert(s, k@, v@));
    r
}

pub(crate) proof fn lemma_pair_views_push(v: Seq<(String, String)>, x: (String, String))
    ensures pair_views(v.push(x)) == pair_views(v).push((x.0@, x.1@)),
{
    assert(pair_views(v.push(x)) =~= pair_views(v).push((x.0@, x.1@)));
}

/// One `name=value` pair of the canonical query, both sides percent-encoded.
pub open spec fn pop_pair(p: (Seq<char>, Seq<char>)) -> Seq<char> {
    pop_text(p.0) + seq!['='] + pop_text(p.1)
}

/// The canonical query: the encoded pairs in order, joined with `&`.
pub open spec fn canonical_query(s: Seq<(Seq<char>, Seq<char>)>) -> Seq<char>
    decreases s.len(),
{
    if s.len() == 0 {
        Seq::<char>::empty()
    } else if s.len() == 1 {
        pop_pair(s[0])
    } else {
        canonical_query(s.drop_last()) + seq!['&'] + pop_pair(s.last())
    }
}

/// The canonical query of `params`.
pub fn canonical_query_of(params: &Vec<(String, String)>) -> (r: String)
    ensures r@ == canonical_query(pair_views(params@)),
{
    let ghost s = pair_views(params@);
    let mut v: Vec<char> = Vec::new();
    let mut i: usize = 0;
    while i < params.len()
        invariant
            i <= params@.len(),
            s == pair_views(params@),
            v@ == canonical_query(s.take(i as int)),
        decreases params@.len() - i,
    {
        if i > 0 {
            v.push('&');
        }
        let ek = pop_url_encode(params[i].0.as_str());
        let ev = pop_url_encode(params[i].1.as_str());
        append_chars(&mut v, chars_of(ek.as_str()).as_slice());
        v.push('=');
        append_chars(&mut v, chars_of(ev.as_str()).as_slice());
        proof {
            assert(s.take(i + 1).drop_last() =~= s.take(i as int));
            assert(s.take(i + 1).last() == s[i as int]);
            if i == 0 {
                assert(s.take(1)[0] == s[0]);
            }
        }
        i = i + 1;
    }
    assert(s.take(params@.len() as int) =~= s);
    string_of(v.as_slice())
}

/// The text that is signed: the method, the encoded path `/` and the encoded canonical query.
pub open spec fn pop_string_to_sign(method: Seq<char>, canonical: Seq<char>) -> Seq<char> {
    method + seq!['&'] + pop_text(seq!['/']) + seq!['&'] + pop_text(canonical)
}

/// The signature: base64 of the HMAC-SHA-1 of the text to sign, keyed by the secret and `&`.
pub open spec fn pop_signature(secret: Seq<char>, method: Seq<char>, canonical: Seq<char>) -> Seq<char> {
    base64_standard(hmac1(vstd::utf8::encode_utf8(secret + seq!['&']),
        vstd::utf8::encode_utf8(pop_string_to_sign(method, canonical))))
}

fn string_to_sign(method: &str, canonical: &str) -> (r: String)
    ensures r@ == pop_string_to_sign(method@, canonical@),
{
    let mut sts: Vec<char> = Vec::new();
    append_str(&mut sts, method);
    sts.push('&');
    let slash = pop_url_encode("/");
    proof {
        reveal_strlit("/");
        assert("/"@ =~= seq!['/']);
        assert(slash@ == pop_text(seq!['/']));
    }
    append_str(&mut sts, slash.as_str());
    sts.push('&');
    let ec = pop_url_encode(canonical);
    append_str(&mut sts, ec.as_str());
    assert(sts@ =~= pop_string_to_sign(method@, canonical@));
    string_of(sts.as_slice())
}

/// Signs a canonical query.
pub fn pop_sign(method: &str, secret: &str, canonical: &str) -> (r: String)
    ensures r@ == pop_signature(secret@, method@, canonical@),
{
    let sts = string_to_sign(method, canonical);
    let key = crate::providers::with_prefix(secret, "&");
    proof {
        reveal_strlit("&");
        assert(key@ =~= secret@ + seq!['&']);
    }
    hmac_sha1_base64(key.as_str().as_bytes(), sts.as_str().as_bytes())
}

/// The parameters after setting each pair of `list` in turn.
pub open spec fn params_with(base: Seq<(Seq<char>, Seq<char>)>, list: Seq<(Seq<char>, Seq<char>)>) -> Seq<(Seq<char>, Seq<char>)>
    decreases list.len(),
{
    if list.len() == 0 {
        base
    } else {
        params_with(param_insert(base, list[0].0, list[0].1), list.drop_first())
    }
}

proof fn lemma_params_with_push(base: Seq<(Seq<char>, Seq<char>)>, list: Seq<(Seq<char>, Seq<char>)>, p: (Seq<char>, Seq<char>))
    ensures params_with(base, list.push(p)) == param_insert(params_with(base, list), p.0, p.1),
    decreases list.len(),
{
    if list.len() == 0 {
        assert(list.push(p).drop_first() =~= Seq::<(Seq<char>, Seq<char>)>::empty());
        assert(list.push(p)[0] == p);
        assert(params_with(param_insert(base, p.0, p.1), Seq::<(Seq<char>, Seq<char>)>::empty()) == param_insert(base, p.0, p.1));
        assert(params_with(base, list) == base);
    } else {
        assert(list.push(p).drop_first() =~= list.drop_first().push(p));
        assert(list.push(p)[0] == list[0]);
        lemma_params_with_push(param_insert(base, list[0].0, list[0].1), list.drop_first(), p);
    }
}

/// Sets each pair of `list`, in order, in the sorted parameters `base`.
pub fn with_params(base: &Vec<(String, String)>, list: &Vec<(String, String)>) -> (r: Vec<(String, String)>)
    ensures pair_views(r@) == params_with(pair_views(base@), pair_views(list@)),
{
    let mut r: Vec<(String, String)> = Vec::new();
    let mut j: usize = 0;
    while j < base.len()
        invariant
            j <= base@.len(),
            pair_views(r@) == pair_views(base@).take(j as int),
        decreases base@.len() - j,
    {
        let ghost before = r@;
        r.push((base[j].0.clone(), base[j].1.clone()));
        proof {
            lemma_pair_views_push(before, r@.last());
            assert(before.push(r@.last()) =~= r@);
            assert(pair_views(base@).take(j + 1) =~= pair_views(base@).take(j as int).push(pair_views(base@)[j as int]));
        }
        j = j + 1;
    }
    assert(pair_views(base@).take(base@.len() as int) =~= pair_views(base@));
    assert(params_with(pair_views(base@), pair_views(list@).take(0)) == pair_views(base@));
    let mut i: usize = 0;
    while i < list.len()
        invariant
            i <= list@.len(),
            pair_views(r@) == params_with(pair_views(base@), pair_views(list@).take(i as int)),
        decreases list@.len() - i,
    {
        let next = insert_param(&r, list[i].0.as_str(), list[i].1.as_str());
        proof {
            let lv = pair_views(list@);
            assert(lv.take(i + 1) =~= lv.take(i as int).push(lv[i as int]));
            lemma_params_with_push(pair_views(base@), lv.take(i as int), lv[i as int]);
        }
        r = next;
        i = i + 1;
    }
    assert(pair_views(list@).take(list@.len() as int) =~= pair_views(list@));
    r
}

/// The parameters every Alibaba Cloud request carries, before its own.
pub open spec fn pop_common_list(version: Seq<char>, key_id: Seq<char>, action: Seq<char>, timestamp: Seq<char>,
    nonce: Seq<char>) -> Seq<(Seq<char>, Seq<char>)> {
    seq![("Format"@, "JSON"@), ("Version"@, version), ("AccessKeyId"@, key_id), ("SignatureMethod"@, "HMAC-SHA1"@),
        ("Timestamp"@, timestamp), ("SignatureVersion"@, "1.0"@), ("SignatureNonce"@, nonce), ("Action"@, action)]
}

/// The sorted parameters of an Alibaba Cloud request: the common ones, then its own.
#[verifier::opaque]
pub open spec fn pop_params(version: Seq<char>, key_id: Seq<char>, action: Seq<char>, timestamp: Seq<char>,
    nonce: Seq<char>, custom: Seq<(Seq<char>, Seq<char>)>) -> Seq<(Seq<char>, Seq<char>)> {
    params_with(Seq::empty(), pop_common_list(version, key_id, action, timestamp, nonce) + custom)
}

/// The signed URL of an Alibaba Cloud request: the endpoint, `/?`, the canonical query,
/// and the encoded signature as the last parameter.
#[verifier::opaque]
pub open spec fn pop_url(endpoint: Seq<char>, method: Seq<char>, secret: Seq<char>,
    params: Seq<(Seq<char>, Seq<char>)>) -> Seq<char> {
    let q = canonical_query(params);
    endpoint + "/?"@ + q + "&Signature="@ + pop_text(pop_signature(secret, method, q))
}

/// Builds the sorted parameters of an Alibaba Cloud request.
pub fn pop_params_of(version: &str, key_id: &str, action: &str, timestamp: &str, nonce: &str,
    custom: &Vec<(String, String)>) -> (r: Vec<(String, String)>)
    ensures pair_views(r@) == pop_params(version@, key_id@, action@, timestamp@, nonce@, pair_views(custom@)),
{
    let mut list: Vec<(String, String)> = Vec::new();
    list.push(("Format".to_string(), "JSON".to_string()));
    list.push(("Version".to_string(), version.to_string()));
    list.push(("AccessKeyId".to_string(), key_id.to_string()));
    list.push(("SignatureMethod".to_string(), "HMAC-SHA1".to_string()));
    list.push(("Timestamp".to_string(), timestamp.to_string()));
    list.push(("SignatureVersion".to_string(), "1.0".to_string()));
    list.push(("SignatureNonce".to_string(), nonce.to_string()));
    list.push(("Action".to_string(), action.to_string()));
    let ghost common = list@;
    assert(pair_views(common) =~= pop_common_list(version@, key_id@, action@, timestamp@, nonce@));
    let mut i: usize = 0;
    while i < custom.len()
        invariant
            i <= custom@.len(),
            pair_views(list@) == pair_views(common) + pair_views(custom@).take(i as int),
        decreases custom@.len() - i,
    {
        let ghost before = list@;
        list.push((custom[i].0.clone(), custom[i].1.clone()));
        proof {
            lemma_pair_views_push(before, list@.last());
            assert(before.push(list@.last()) =~= list@);
            assert(pair_views(common) + pair_views(custom@).take(i + 1)
                =~= (pair_views(common) + pair_views(custom@).take(i as int)).push(pair_views(custom@)[i as int]));
        }
        i = i + 1;
    }
    assert(pair_views(custom@).take(custom@.len() as int) =~= pair_views(custom@));
    let empty: Vec<(String, String)> = Vec::new();
    assert(pair_views(empty@) =~= Seq::<(Seq<char>, Seq<char>)>::empty());
    proof { reveal(pop_params); }
    with_params(&empty, &list)
}

/// The signed URL of a request with the given sorted parameters.
pub fn pop_signed_url(endpoint: &str, method: &str, secret: &str, params: &Vec<(String, String)>) -> (r: String)
    ensures r@ == pop_url(endpoint@, method@, secret@, pair_views(params@)),
{
    let q = canonical_query_of(params);
    let sig = pop_sign(method, secret, q.as_str());
    let esig = pop_url_encode(sig.as_str());
    let mut v: Vec<char> = Vec::new();
    append_str(&mut v, endpoint);
    append_str(&mut v, "/?");
    append_str(&mut v, q.as_str());
    append_str(&mut v, "&Signature=");
    append_str(&mut v, esig.as_str());
    proof { reveal(pop_url); }
    string_of(v.as_slice())
}

} // verus!
