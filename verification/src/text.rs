//! Character-level text operations used throughout the library.
//!
//! Strings are handled as sequences of `char`; every helper here states its
//! result over `Seq<char>` so that callers can reason about exact contents.
use vstd::prelude::*;

verus! {

broadcast use vstd::string::group_string_axioms;

/// Unicode `White_Space` characters, as recognised by `char::is_whitespace`.
pub open spec fn is_ws(c: char) -> bool {
    ||| c == '\t' || c == '\n' || c == '\u{b}' || c == '\u{c}' || c == '\r' || c == ' '
    ||| c == '\u{85}' || c == '\u{a0}' || c == '\u{1680}'
    ||| ('\u{2000}' <= c && c <= '\u{200a}')
    ||| c == '\u{2028}' || c == '\u{2029}' || c == '\u{202f}' || c == '\u{205f}' || c == '\u{3000}'
}

/// Decides `is_ws`.
pub fn is_whitespace(c: char) -> (r: bool)
    ensures r == is_ws(c),
{
    c == '\t' || c == '\n' || c == '\u{b}' || c == '\u{c}' || c == '\r' || c == ' '
        || c == '\u{85}' || c == '\u{a0}' || c == '\u{1680}'
        || ('\u{2000}' <= c && c <= '\u{200a}')
        || c == '\u{2028}' || c == '\u{2029}' || c == '\u{202f}' || c == '\u{205f}'
        || c == '\u{3000}'
}

/// Index of the first non-whitespace character at or after `i` (or `s.len()`).
pub open spec fn first_non_ws(s: Seq<char>, i: int) -> int
    decreases s.len() - i,
{
    if i < 0 || i >= s.len() {
        s.len() as int
    } else if is_ws(s[i]) {
        first_non_ws(s, i + 1)
    } else {
        i
    }
}

/// End (exclusive) of the last non-whitespace character in `s[lo..j]` (or `lo`).
pub open spec fn end_non_ws(s: Seq<char>, lo: int, j: int) -> int
    decreases j - lo,
{
    if j <= lo || j > s.len() {
        lo
    } else if is_ws(s[j - 1]) {
        end_non_ws(s, lo, j - 1)
    } else {
        j
    }
}

/// `s` with leading and trailing whitespace removed (as `str::trim`).
pub open spec fn trim(s: Seq<char>) -> Seq<char> {
    let a = first_non_ws(s, 0);
    s.subrange(a, end_non_ws(s, a, s.len() as int))
}

proof fn lemma_first_non_ws_bounds(s: Seq<char>, i: int)
    requires 0 <= i <= s.len(),
    ensures i <= first_non_ws(s, i) <= s.len(),
    decreases s.len() - i,
{
    if i < s.len() && is_ws(s[i]) {
        lemma_first_non_ws_bounds(s, i + 1);
    }
}

proof fn lemma_end_non_ws_bounds(s: Seq<char>, lo: int, j: int)
    requires 0 <= lo <= j <= s.len(),
    ensures lo <= end_non_ws(s, lo, j) <= j,
    decreases j - lo,
{
    if j > lo && is_ws(s[j - 1]) {
        lemma_end_non_ws_bounds(s, lo, j - 1);
    }
}

/// The characters of a string slice.
pub fn chars_of(s: &str) -> (v: Vec<char>)
    ensures v@ == s@,
{
    let mut v: Vec<char> = Vec::new();
    for c in it: s.chars()
        invariant
            v@ == it.seq().take(it.index()),
    {
        v.push(c);
    }
    assert(v@ =~= s@);
    v
}

/// Appends one character (`String::push`).
#[verifier::external_body]
fn push_char(s: &mut String, c: char)
    ensures final(s)@ == old(s)@.push(c),
{
    s.push(c);
}

/// Builds a `String` holding exactly the given characters.
pub fn string_of(v: &[char]) -> (s: String)
    ensures s@ == v@,
{
    let mut s = String::new();
    let mut i: usize = 0;
    while i < v.len()
        invariant
            i <= v@.len(),
            s@ == v@.take(i as int),
        decreases v@.len() - i,
    {
        push_char(&mut s, v[i]);
        assert(v@.take(i as int).push(v@[i as int]) =~= v@.take(i + 1));
        i = i + 1;
    }
    assert(v@.take(v@.len() as int) =~= v@);
    s
}

/// Copies `v[from..to]` into a new vector.
pub fn sub_chars(v: &[char], from: usize, to: usize) -> (r: Vec<char>)
    requires from <= to <= v@.len(),
    ensures r@ == v@.subrange(from as int, to as int),
{
    let mut r: Vec<char> = Vec::new();
    let mut i: usize = from;
    while i < to
        invariant
            from <= i <= to <= v@.len(),
            r@ == v@.subrange(from as int, i as int),
        decreases to - i,
    {
        r.push(v[i]);
        assert(v@.subrange(from as int, i as int).push(v@[i as int]) =~= v@.subrange(from as int, i + 1));
        i = i + 1;
    }
    r
}

/// `str::trim` on a character sequence.
pub fn trim_chars(v: &[char]) -> (r: Vec<char>)
    ensures r@ == trim(v@),
{
    let mut a: usize = 0;
    while a < v.len() && is_whitespace(v[a])
        invariant
            a <= v@.len(),
            first_non_ws(v@, 0) == first_non_ws(v@, a as int),
        decreases v@.len() - a,
    {
        a = a + 1;
    }
    let mut b: usize = v.len();
    proof { lemma_first_non_ws_bounds(v@, 0); }
    while b > a && is_whitespace(v[b - 1])
        invariant
            a <= b <= v@.len(),
            a == first_non_ws(v@, 0),
            end_non_ws(v@, a as int, v@.len() as int) == end_non_ws(v@, a as int, b as int),
        decreases b,
    {
        b = b - 1;
    }
    sub_chars(v, a, b)
}

/// The characters of `s`, trimmed.
pub fn trimmed_chars(s: &str) -> (r: Vec<char>)
    ensures r@ == trim(s@),
{
    let v = chars_of(s);
    trim_chars(v.as_slice())
}

/// Whether `s` is empty after trimming (`s.trim().is_empty()`).
pub open spec fn is_blank(s: Seq<char>) -> bool {
    trim(s).len() == 0
}

/// Decides `is_blank`.
pub fn blank(s: &str) -> (r: bool)
    ensures r == is_blank(s@),
{
    let t = trimmed_chars(s);
    t.len() == 0
}

/// ASCII lower-casing of one character (`char::to_ascii_lowercase`).
pub open spec fn lower_char(c: char) -> char {
    if 'A' <= c && c <= 'Z' { ((c as u8) + 32) as char } else { c }
}

/// ASCII lower-casing of a sequence (`str::to_ascii_lowercase`).
pub open spec fn lower(s: Seq<char>) -> Seq<char> {
    s.map_values(|c: char| lower_char(c))
}

/// Decides `lower_char`.
pub fn to_lower_char(c: char) -> (r: char)
    ensures r == lower_char(c),
{
    if 'A' <= c && c <= 'Z' {
        let b: u8 = (c as u8) + 32;
        b as char
    } else {
        c
    }
}

/// Decides equality of two character sequences.
pub fn chars_eq(a: &[char], b: &[char]) -> (r: bool)
    ensures r == (a@ == b@),
{
    if a.len() != b.len() {
        return false;
    }
    let mut i: usize = 0;
    while i < a.len()
        invariant
            a@.len() == b@.len(),
            i <= a@.len(),
            forall|k: int| 0 <= k < i ==> a@[k] == b@[k],
        decreases a@.len() - i,
    {
        if a[i] != b[i] {
            return false;
        }
        i = i + 1;
    }
    assert(a@ =~= b@);
    true
}

/// Decides equality of a string and a character sequence.
pub fn str_is(s: &str, b: &[char]) -> (r: bool)
    ensures r == (s@ == b@),
{
    let a = chars_of(s);
    chars_eq(a.as_slice(), b)
}

/// `s` begins with `p`.
pub open spec fn has_prefix(s: Seq<char>, p: Seq<char>) -> bool {
    p.len() <= s.len() && s.take(p.len() as int) == p
}

/// Decides `has_prefix`.
pub fn starts_with(s: &[char], p: &[char]) -> (r: bool)
    ensures r == has_prefix(s@, p@),
{
    if p.len() > s.len() {
        return false;
    }
    let mut i: usize = 0;
    while i < p.len()
        invariant
            p@.len() <= s@.len(),
            i <= p@.len(),
            forall|k: int| 0 <= k < i ==> s@[k] == p@[k],
        decreases p@.len() - i,
    {
        if s[i] != p[i] {
            assert(s@.take(p@.len() as int)[i as int] != p@[i as int]);
            return false;
        }
        i = i + 1;
    }
    assert(s@.take(p@.len() as int) =~= p@);
    true
}

/// Index of the first occurrence of `c` in `s` at or after `i`.
pub open spec fn find_char_from(s: Seq<char>, c: char, i: int) -> Option<int>
    decreases s.len() - i,
{
    if i < 0 || i >= s.len() {
        None
    } else if s[i] == c {
        Some(i)
    } else {
        find_char_from(s, c, i + 1)
    }
}

/// Index of the first occurrence of `c` in `s`.
pub open spec fn find_char(s: Seq<char>, c: char) -> Option<int> {
    find_char_from(s, c, 0)
}

pub proof fn lemma_find_char_from(s: Seq<char>, c: char, i: int)
    requires 0 <= i <= s.len(),
    ensures
        match find_char_from(s, c, i) {
            Some(j) => i <= j < s.len() && s[j] == c && forall|k: int| i <= k < j ==> s[k] != c,
            None => forall|k: int| i <= k < s.len() ==> s[k] != c,
        },
    decreases s.len() - i,
{
    if i < s.len() && s[i] != c {
        lemma_find_char_from(s, c, i + 1);
    }
}

/// Decides `find_char`.
pub fn position_of(s: &[char], c: char) -> (r: Option<usize>)
    ensures
        match r {
            Some(j) => find_char(s@, c) == Some(j as int),
            None => find_char(s@, c) is None,
        },
{
    let mut i: usize = 0;
    while i < s.len()
        invariant
            i <= s@.len(),
            find_char(s@, c) == find_char_from(s@, c, i as int),
        decreases s@.len() - i,
    {
        if s[i] == c {
            return Some(i);
        }
        i = i + 1;
    }
    None
}

/// Index of the first occurrence of `p` in `s` at or after `i`.
pub open spec fn find_from(s: Seq<char>, p: Seq<char>, i: int) -> Option<int>
    decreases s.len() - i,
{
    if i < 0 || i + p.len() > s.len() {
        None
    } else if s.subrange(i, i + p.len()) == p {
        Some(i)
    } else if i >= s.len() {
        None
    } else {
        find_from(s, p, i + 1)
    }
}

pub proof fn lemma_find_from(s: Seq<char>, p: Seq<char>, i: int)
    requires 0 <= i,
    ensures
        match find_from(s, p, i) {
            Some(j) => i <= j && j + p.len() <= s.len() && s.subrange(j, j + p.len()) == p,
            None => true,
        },
    decreases s.len() - i,
{
    if i + p.len() <= s.len() && s.subrange(i, i + p.len()) != p && i < s.len() {
        lemma_find_from(s, p, i + 1);
    }
}

/// Whether `s[i..i + p.len()]` equals `p`.
fn matches_at(s: &[char], p: &[char], i: usize) -> (r: bool)
    requires i + p@.len() <= s@.len(),
    ensures r == (s@.subrange(i as int, i + p@.len()) == p@),
{
    let n = s.len();
    let mut k: usize = 0;
    while k < p.len()
        invariant
            n == s@.len(),
            i + p@.len() <= s@.len(),
            k <= p@.len(),
            forall|m: int| 0 <= m < k ==> s@[i + m] == p@[m],
        decreases p@.len() - k,
    {
        assert(i + k < s@.len());
        if s[i + k] != p[k] {
            assert(s@.subrange(i as int, i + p@.len())[k as int] != p@[k as int]);
            return false;
        }
        k = k + 1;
    }
    assert(s@.subrange(i as int, i + p@.len()) =~= p@);
    true
}

/// Decides `find_from(s, p, 0)`.
pub fn find(s: &[char], p: &[char]) -> (r: Option<usize>)
    ensures
        match r {
            Some(j) => find_from(s@, p@, 0) == Some(j as int),
            None => find_from(s@, p@, 0) is None,
        },
{
    if p.len() > s.len() {
        return None;
    }
    if p.len() == 0 {
        assert(s@.subrange(0, 0) =~= p@);
        return Some(0);
    }
    let mut i: usize = 0;
    while i <= s.len() - p.len()
        invariant
            1 <= p@.len() <= s@.len(),
            i <= s@.len() - p@.len() + 1,
            find_from(s@, p@, 0) == find_from(s@, p@, i as int),
        decreases s@.len() - i,
    {
        if matches_at(s, p, i) {
            return Some(i);
        }
        i = i + 1;
    }
    None
}

/// Pieces of `s` between occurrences of `c` (as `str::split` with a `char`).
pub open spec fn split_on(s: Seq<char>, c: char) -> Seq<Seq<char>>
    decreases s.len(),
{
    if s.len() == 0 {
        seq![Seq::<char>::empty()]
    } else {
        let prev = split_on(s.drop_last(), c);
        if s.last() == c {
            prev.push(Seq::<char>::empty())
        } else {
            prev.update(prev.len() - 1, prev.last().push(s.last()))
        }
    }
}

pub proof fn lemma_split_on_nonempty(s: Seq<char>, c: char)
    ensures split_on(s, c).len() >= 1,
    decreases s.len(),
{
    if s.len() > 0 {
        lemma_split_on_nonempty(s.drop_last(), c);
    }
}

/// Pieces joined with separator `c` (as `[&str]::join`).
pub open spec fn join_with(parts: Seq<Seq<char>>, c: char) -> Seq<char>
    decreases parts.len(),
{
    if parts.len() == 0 {
        Seq::<char>::empty()
    } else if parts.len() == 1 {
        parts[0]
    } else {
        join_with(parts.drop_last(), c).push(c) + parts.last()
    }
}

/// The views of a vector of character vectors.
pub open spec fn views_of(v: Seq<Vec<char>>) -> Seq<Seq<char>> {
    v.map_values(|x: Vec<char>| x@)
}

/// Executes `split_on`.
pub fn split_chars(s: &[char], c: char) -> (r: Vec<Vec<char>>)
    ensures views_of(r@) == split_on(s@, c),
{
    let mut parts: Vec<Vec<char>> = Vec::new();
    let mut cur: Vec<char> = Vec::new();
    let mut i: usize = 0;
    proof {
        assert(s@.take(0) =~= Seq::<char>::empty());
        assert(views_of(parts@).push(cur@) =~= split_on(s@.take(0), c));
    }
    while i < s.len()
        invariant
            i <= s@.len(),
            views_of(parts@).push(cur@) == split_on(s@.take(i as int), c),
        decreases s@.len() - i,
    {
        let ghost old_parts = parts@;
        let ghost old_cur = cur@;
        proof {
            assert(s@.take(i + 1).drop_last() =~= s@.take(i as int));
        }
        if s[i] == c {
            parts.push(cur);
            cur = Vec::new();
            assert(views_of(parts@) =~= views_of(old_parts).push(old_cur));
            assert(views_of(parts@).push(cur@) =~= split_on(s@.take(i + 1), c));
        } else {
            cur.push(s[i]);
            assert(views_of(parts@).push(cur@) =~= split_on(s@.take(i + 1), c));
        }
        i = i + 1;
    }
    assert(s@.take(s@.len() as int) =~= s@);
    parts.push(cur);
    assert(views_of(parts@) =~= split_on(s@, c));
    parts
}

/// Executes `join_with` on `parts[from..to]`.
pub fn join_range(parts: &Vec<Vec<char>>, from: usize, to: usize, c: char) -> (r: Vec<char>)
    requires from <= to <= parts@.len(),
    ensures r@ == join_with(views_of(parts@).subrange(from as int, to as int), c),
{
    let mut r: Vec<char> = Vec::new();
    let mut i: usize = from;
    assert(views_of(parts@).subrange(from as int, from as int) =~= Seq::<Seq<char>>::empty());
    while i < to
        invariant
            from <= i <= to <= parts@.len(),
            r@ == join_with(views_of(parts@).subrange(from as int, i as int), c),
        decreases to - i,
    {
        let ghost sub = views_of(parts@).subrange(from as int, i + 1);
        assert(sub.drop_last() =~= views_of(parts@).subrange(from as int, i as int));
        if i > from {
            r.push(c);
        }
        let p = &parts[i];
        let mut k: usize = 0;
        let ghost base = r@;
        while k < p.len()
            invariant
                k <= p@.len(),
                r@ == base + p@.take(k as int),
            decreases p@.len() - k,
        {
            r.push(p[k]);
            assert(base + p@.take(k + 1) =~= (base + p@.take(k as int)).push(p@[k as int]));
            k = k + 1;
        }
        assert(p@.take(p@.len() as int) =~= p@);
        if i == from {
            assert(sub.len() == 1);
            assert(r@ =~= sub[0]);
        }
        i = i + 1;
    }
    r
}

/// Whitespace-separated words of `s` (as `str::split_whitespace`).
pub open spec fn words(s: Seq<char>) -> Seq<Seq<char>>
    decreases s.len(),
{
    if s.len() == 0 {
        Seq::<Seq<char>>::empty()
    } else {
        let w = words(s.drop_last());
        if is_ws(s.last()) {
            w
        } else if s.len() >= 2 && !is_ws(s[s.len() - 2]) {
            w.update(w.len() - 1, w.last().push(s.last()))
        } else {
            w.push(seq![s.last()])
        }
    }
}

proof fn lemma_words_nonempty(s: Seq<char>)
    requires s.len() > 0, !is_ws(s.last()),
    ensures words(s).len() >= 1,
    decreases s.len(),
{
    if s.len() >= 2 && !is_ws(s[s.len() - 2]) {
        assert(s.drop_last().last() == s[s.len() - 2]);
        lemma_words_nonempty(s.drop_last());
    }
}

/// Executes `words`.
pub fn split_words(s: &[char]) -> (r: Vec<Vec<char>>)
    ensures views_of(r@) == words(s@),
{
    let mut parts: Vec<Vec<char>> = Vec::new();
    let mut cur: Vec<char> = Vec::new();
    let mut in_word = false;
    let mut i: usize = 0;
    assert(s@.take(0) =~= Seq::<char>::empty());
    while i < s.len()
        invariant
            i <= s@.len(),
            in_word == (i > 0 && !is_ws(s@[i - 1])),
            in_word ==> words(s@.take(i as int)) == views_of(parts@).push(cur@),
            !in_word ==> words(s@.take(i as int)) == views_of(parts@),
        decreases s@.len() - i,
    {
        let ghost t = s@.take(i + 1);
        proof {
            assert(t.drop_last() =~= s@.take(i as int));
            assert(t.last() == s@[i as int]);
            if i > 0 {
                assert(t[t.len() - 2] == s@[i - 1]);
            }
        }
        if is_whitespace(s[i]) {
            if in_word {
                parts.push(cur);
                cur = Vec::new();
                assert(views_of(parts@) =~= words(s@.take(i as int)));
            }
            in_word = false;
        } else {
            if in_word {
                let ghost before = views_of(parts@).push(cur@);
                cur.push(s[i]);
                assert(views_of(parts@).push(cur@) =~= before.update(before.len() - 1, before.last().push(s@[i as int])));
            } else {
                cur = Vec::new();
                cur.push(s[i]);
                assert(cur@ =~= seq![s@[i as int]]);
            }
            in_word = true;
        }
        i = i + 1;
    }
    assert(s@.take(s@.len() as int) =~= s@);
    if in_word {
        parts.push(cur);
        assert(views_of(parts@) =~= words(s@));
    }
    parts
}

/// Whether two texts are equal.
pub fn eq_exact(a: &str, b: &str) -> (r: bool)
    ensures r == (a@ == b@),
{
    let ac = chars_of(a);
    let bc = chars_of(b);
    chars_eq(ac.as_slice(), bc.as_slice())
}

/// Whether two texts are equal ignoring ASCII case (`str::eq_ignore_ascii_case`).
pub fn eq_ignore_case(a: &str, b: &str) -> (r: bool)
    ensures r == (lower(a@) == lower(b@)),
{
    let ac = chars_of(a);
    let bc = chars_of(b);
    let al = lower_chars(ac.as_slice());
    let bl = lower_chars(bc.as_slice());
    chars_eq(al.as_slice(), bl.as_slice())
}

/// Whether every character is ASCII.
pub open spec fn all_ascii(s: Seq<char>) -> bool {
    forall|i: int| 0 <= i < s.len() ==> (s[i] as u32) < 128
}

/// Decides `all_ascii`.
pub fn is_all_ascii(s: &[char]) -> (r: bool)
    ensures r == all_ascii(s@),
{
    let mut i: usize = 0;
    while i < s.len()
        invariant
            i <= s@.len(),
            forall|k: int| 0 <= k < i ==> (s@[k] as u32) < 128,
        decreases s@.len() - i,
    {
        if (s[i] as u32) >= 128 {
            return false;
        }
        i = i + 1;
    }
    true
}

/// Executes `lower`.
pub fn lower_chars(s: &[char]) -> (r: Vec<char>)
    ensures r@ == lower(s@),
{
    let mut r: Vec<char> = Vec::new();
    let mut i: usize = 0;
    while i < s.len()
        invariant
            i <= s@.len(),
            r@ == lower(s@.take(i as int)),
        decreases s@.len() - i,
    {
        r.push(to_lower_char(s[i]));
        assert(lower(s@.take(i + 1)) =~= lower(s@.take(i as int)).push(lower_char(s@[i as int])));
        i = i + 1;
    }
    assert(s@.take(s@.len() as int) =~= s@);
    r
}

/// Value of digit `c` in `radix` (10 or 16), or -1 (as `char::to_digit`).
pub open spec fn digit_value(c: char, radix: int) -> int {
    if '0' <= c && c <= '9' {
        (c as int) - ('0' as int)
    } else if radix == 16 && 'a' <= c && c <= 'f' {
        (c as int) - ('a' as int) + 10
    } else if radix == 16 && 'A' <= c && c <= 'F' {
        (c as int) - ('A' as int) + 10
    } else {
        -1
    }
}

/// Whether every character of `d` is a digit in `radix`.
pub open spec fn all_digits(d: Seq<char>, radix: int) -> bool {
    forall|i: int| 0 <= i < d.len() ==> digit_value(#[trigger] d[i], radix) >= 0
}

/// Numeric value of a digit string in `radix`.
pub open spec fn digits_value(d: Seq<char>, radix: int) -> int
    decreases d.len(),
{
    if d.len() == 0 {
        0
    } else {
        digits_value(d.drop_last(), radix) * radix + digit_value(d.last(), radix)
    }
}

/// The digit part of an unsigned integer literal: a single leading `+` is dropped.
pub open spec fn unsigned_digits(s: Seq<char>) -> Seq<char> {
    if s.len() > 0 && s[0] == '+' { s.drop_first() } else { s }
}

/// The value that `from_str_radix` gives an unsigned integer type whose maximum is `max`,
/// or `None` where it returns an error.
pub open spec fn parse_unsigned(s: Seq<char>, radix: int, max: int) -> Option<int> {
    let d = unsigned_digits(s);
    if s.len() == 0 || d.len() == 0 || !all_digits(d, radix) || digits_value(d, radix) > max {
        None
    } else {
        Some(digits_value(d, radix))
    }
}

proof fn lemma_digits_value_mono(d: Seq<char>, radix: int, i: int)
    requires
        radix == 10 || radix == 16,
        0 <= i <= d.len(),
        all_digits(d, radix),
    ensures digits_value(d.take(i), radix) <= digits_value(d, radix),
    decreases d.len() - i,
{
    if i < d.len() {
        lemma_digits_value_mono(d, radix, i + 1);
        assert(d.take(i + 1).drop_last() =~= d.take(i));
        assert(d.take(i + 1).last() == d[i]);
        lemma_digits_value_nonneg(d.take(i), radix);
        assert(digit_value(d[i], radix) >= 0);
        assert(digits_value(d.take(i), radix) * radix >= digits_value(d.take(i), radix))
            by (nonlinear_arith)
            requires digits_value(d.take(i), radix) >= 0, radix >= 10;
    } else {
        assert(d.take(i) =~= d);
    }
}

proof fn lemma_digits_value_nonneg(d: Seq<char>, radix: int)
    requires
        radix == 10 || radix == 16,
        all_digits(d, radix),
    ensures digits_value(d, radix) >= 0,
    decreases d.len(),
{
    if d.len() > 0 {
        assert(all_digits(d.drop_last(), radix)) by {
            assert forall|i: int| 0 <= i < d.drop_last().len() implies
                digit_value(#[trigger] d.drop_last()[i], radix) >= 0 by {
                assert(d.drop_last()[i] == d[i]);
            }
        }
        lemma_digits_value_nonneg(d.drop_last(), radix);
        assert(digit_value(d[d.len() - 1], radix) >= 0);
        assert(digits_value(d.drop_last(), radix) * radix >= 0) by (nonlinear_arith)
            requires digits_value(d.drop_last(), radix) >= 0, radix >= 10;
    }
}

/// A parsed value lies between zero and the maximum.
pub proof fn lemma_parse_unsigned_bounds(s: Seq<char>, radix: int, max: int)
    requires
        radix == 10 || radix == 16,
        parse_unsigned(s, radix, max) is Some,
    ensures 0 <= parse_unsigned(s, radix, max)->0 <= max,
{
    lemma_digits_value_nonneg(unsigned_digits(s), radix);
}

/// Value of one digit.
fn digit_of(c: char, radix: u32) -> (r: Option<u32>)
    requires radix == 10 || radix == 16,
    ensures
        match r {
            Some(v) => digit_value(c, radix as int) == v as int && v < radix,
            None => digit_value(c, radix as int) < 0,
        },
{
    if '0' <= c && c <= '9' {
        Some((c as u32) - ('0' as u32))
    } else if radix == 16 && 'a' <= c && c <= 'f' {
        Some((c as u32) - ('a' as u32) + 10)
    } else if radix == 16 && 'A' <= c && c <= 'F' {
        Some((c as u32) - ('A' as u32) + 10)
    } else {
        None
    }
}

/// `from_str_radix` for an unsigned type with maximum `max` (at most `u64::MAX`).
pub fn parse_unsigned_chars(s: &[char], radix: u32, max: u64) -> (r: Option<u64>)
    requires radix == 10 || radix == 16,
    ensures
        match r {
            Some(v) => parse_unsigned(s@, radix as int, max as int) == Some(v as int),
            None => parse_unsigned(s@, radix as int, max as int) is None,
        },
{
    if s.len() == 0 {
        return None;
    }
    let start: usize = if s[0] == '+' { 1 } else { 0 };
    let ghost d = unsigned_digits(s@);
    assert(d =~= s@.subrange(start as int, s@.len() as int));
    if start >= s.len() {
        return None;
    }
    let mut acc: u128 = 0;
    let mut i: usize = start;
    while i < s.len()
        invariant
            radix == 10 || radix == 16,
            start <= i <= s@.len(),
            d == s@.subrange(start as int, s@.len() as int),
            d == unsigned_digits(s@),
            s@.len() > 0,
            all_digits(d.take(i - start), radix as int),
            acc as int == digits_value(d.take(i - start), radix as int),
            acc <= max,
        decreases s@.len() - i,
    {
        let ghost k: int = i - start;
        assert(d[k] == s@[i as int]);
        match digit_of(s[i], radix) {
            None => {
                assert(!all_digits(d, radix as int)) by {
                    assert(digit_value(d[k], radix as int) < 0);
                }
                return None;
            },
            Some(dv) => {
                assert(d.take(k + 1).drop_last() =~= d.take(k));
                assert(d.take(k + 1).last() == d[k]);
                assert(all_digits(d.take(k + 1), radix as int)) by {
                    assert forall|j: int| 0 <= j < d.take(k + 1).len() implies
                        digit_value(#[trigger] d.take(k + 1)[j], radix as int) >= 0 by {
                        if j < k {
                            assert(d.take(k + 1)[j] == d.take(k)[j]);
                        }
                    }
                }
                assert(acc * (radix as u128) <= 0xffff_ffff_ffff_ffffu128 * 16) by (nonlinear_arith)
                    requires acc <= 0xffff_ffff_ffff_ffffu128, radix <= 16;
                let next: u128 = acc * (radix as u128) + (dv as u128);
                if next > max as u128 {
                    proof {
                        if all_digits(d, radix as int) {
                            lemma_digits_value_mono(d, radix as int, k + 1);
                        }
                    }
                    return None;
                }
                acc = next;
            },
        }
        i = i + 1;
    }
    assert(d.take(i - start) =~= d);
    Some(acc as u64)
}

/// Appends the characters of `s`.
pub fn append_str(v: &mut Vec<char>, s: &str)
    ensures final(v)@ == old(v)@ + s@,
{
    let c = chars_of(s);
    append_chars(v, c.as_slice());
}

/// Appends the characters of `s`.
pub fn append_chars(v: &mut Vec<char>, s: &[char])
    ensures final(v)@ == old(v)@ + s@,
{
    let ghost head = v@;
    let mut i: usize = 0;
    while i < s.len()
        invariant
            i <= s@.len(),
            v@ == head + s@.take(i as int),
        decreases s@.len() - i,
    {
        v.push(s[i]);
        assert(head + s@.take(i + 1) =~= (head + s@.take(i as int)).push(s@[i as int]));
        i = i + 1;
    }
    assert(s@.take(s@.len() as int) =~= s@);
}

/// `s` without the copies of `c` at its end (`trim_end_matches` with one character).
pub open spec fn trim_end(s: Seq<char>, c: char) -> Seq<char>
    decreases s.len(),
{
    if s.len() > 0 && s.last() == c { trim_end(s.drop_last(), c) } else { s }
}

proof fn lemma_trim_end_prefix(s: Seq<char>, c: char, n: int)
    requires
        0 <= n <= s.len(),
        forall|j: int| n <= j < s.len() ==> s[j] == c,
        n == 0 || s[n - 1] != c,
    ensures
        trim_end(s, c) == s.take(n),
    decreases s.len(),
{
    if s.len() > n {
        assert(s.drop_last().take(n) =~= s.take(n));
        lemma_trim_end_prefix(s.drop_last(), c, n);
    } else {
        assert(s.take(n) =~= s);
        if n > 0 {
            assert(s.last() == s[n - 1]);
        }
    }
}

/// Decides `trim_end`.
pub fn trim_end_chars(v: &[char], c: char) -> (r: Vec<char>)
    ensures r@ == trim_end(v@, c),
{
    let mut n: usize = v.len();
    while n > 0 && v[n - 1] == c
        invariant
            n <= v@.len(),
            forall|j: int| n <= j < v@.len() ==> v@[j] == c,
        decreases n,
    {
        n = n - 1;
    }
    proof { lemma_trim_end_prefix(v@, c, n as int); }
    sub_chars(v, 0, n)
}

} // verus!
