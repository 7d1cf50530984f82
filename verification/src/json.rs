//! JSON documents: a value type for building request bodies and messages, and its
//! compact text form (as `serde_json::to_string` writes it).
use vstd::prelude::*;
use crate::net::decimal_text;
use crate::notify::{signed_text, signed_decimal_text};
use crate::text::{chars_of, append_chars, string_of};

verus! {

/// A JSON document as a mathematical value.
#[verifier::ext_equal]
pub enum Json {
    Null,
    Bool(bool),
    Int(int),
    Str(Seq<char>),
    Array(Seq<Json>),
    Object(Seq<(Seq<char>, Json)>),
    /// A JSON text taken as it is.
    Raw(Seq<char>),
}

/// A JSON document. Object members keep the order in which they were added.
#[derive(Debug)]
pub enum JsonValue {
    Null,
    Bool(bool),
    Int(i64),
    UInt(u64),
    Str(String),
    Array(Vec<JsonValue>),
    Object(Vec<(String, JsonValue)>),
    /// A JSON text already serialised, written out as it is.
    Raw(String),
}

/// The document a value denotes.
pub open spec fn deep(v: JsonValue) -> Json
    decreases v,
{
    match v {
        JsonValue::Null => Json::Null,
        JsonValue::Bool(b) => Json::Bool(b),
        JsonValue::Int(n) => Json::Int(n as int),
        JsonValue::UInt(n) => Json::Int(n as int),
        JsonValue::Str(s) => Json::Str(s@),
        JsonValue::Array(items) => Json::Array(deep_seq(items@)),
        JsonValue::Object(members) => Json::Object(deep_members(members@)),
        JsonValue::Raw(t) => Json::Raw(t@),
    }
}

/// The documents of a sequence of values.
pub open spec fn deep_seq(s: Seq<JsonValue>) -> Seq<Json>
    decreases s,
{
    if s.len() == 0 {
        Seq::empty()
    } else {
        deep_seq(s.drop_last()).push(deep(s.last()))
    }
}

/// The members of an object.
pub open spec fn deep_members(s: Seq<(String, JsonValue)>) -> Seq<(Seq<char>, Json)>
    decreases s,
{
    if s.len() == 0 {
        Seq::empty()
    } else {
        deep_members(s.drop_last()).push((s.last().0@, deep(s.last().1)))
    }
}

/// Lower-case hexadecimal digit of a value below 16.
pub open spec fn hex_lower(d: int) -> char {
    if d < 10 { (48 + d) as char } else { (87 + d) as char }
}

/// How one character stands inside a JSON string: `"` and `\` and the control
/// characters are escaped, short forms first, `\u00XX` otherwise; all else stands as it is.
pub open spec fn escape_char(c: char) -> Seq<char> {
    if c == '"' {
        seq!['\\', '"']
    } else if c == '\\' {
        seq!['\\', '\\']
    } else if c == '\n' {
        seq!['\\', 'n']
    } else if c == '\r' {
        seq!['\\', 'r']
    } else if c == '\t' {
        seq!['\\', 't']
    } else if c == '\u{8}' {
        seq!['\\', 'b']
    } else if c == '\u{c}' {
        seq!['\\', 'f']
    } else if (c as int) < 0x20 {
        seq!['\\', 'u', '0', '0', hex_lower((c as int) / 16), hex_lower((c as int) % 16)]
    } else {
        seq![c]
    }
}

/// The escaped characters of a string.
pub open spec fn escape_str(s: Seq<char>) -> Seq<char>
    decreases s.len(),
{
    if s.len() == 0 {
        Seq::empty()
    } else {
        escape_str(s.drop_last()) + escape_char(s.last())
    }
}

/// A JSON string literal.
pub open spec fn quoted(s: Seq<char>) -> Seq<char> {
    seq!['"'] + escape_str(s) + seq!['"']
}

/// Compact JSON text of a document.
pub open spec fn render(j: Json) -> Seq<char>
    decreases j,
{
    match j {
        Json::Null => seq!['n', 'u', 'l', 'l'],
        Json::Bool(b) => if b { seq!['t', 'r', 'u', 'e'] } else { seq!['f', 'a', 'l', 's', 'e'] },
        Json::Int(n) => signed_text(n),
        Json::Str(s) => quoted(s),
        Json::Array(items) => seq!['['] + render_items(items) + seq![']'],
        Json::Object(members) => seq!['{'] + render_members(members) + seq!['}'],
        Json::Raw(t) => t,
    }
}

/// Array elements separated by commas.
pub open spec fn render_items(s: Seq<Json>) -> Seq<char>
    decreases s,
{
    if s.len() == 0 {
        Seq::empty()
    } else if s.len() == 1 {
        render(s[0])
    } else {
        render_items(s.drop_last()) + seq![','] + render(s.last())
    }
}

/// Object members `"key":value` separated by commas.
pub open spec fn render_members(s: Seq<(Seq<char>, Json)>) -> Seq<char>
    decreases s,
{
    if s.len() == 0 {
        Seq::empty()
    } else if s.len() == 1 {
        quoted(s[0].0) + seq![':'] + render(s[0].1)
    } else {
        render_members(s.drop_last()) + seq![','] + quoted(s.last().0) + seq![':'] + render(s.last().1)
    }
}

proof fn lemma_deep_seq_len(s: Seq<JsonValue>)
    ensures deep_seq(s).len() == s.len(),
    decreases s.len(),
{
    if s.len() > 0 {
        lemma_deep_seq_len(s.drop_last());
    }
}

proof fn lemma_deep_members_len(s: Seq<(String, JsonValue)>)
    ensures deep_members(s).len() == s.len(),
    decreases s.len(),
{
    if s.len() > 0 {
        lemma_deep_members_len(s.drop_last());
    }
}

fn hex_lower_char(d: u32) -> (r: char)
    requires d < 16,
    ensures r == hex_lower(d as int),
{
    if d < 10 { ((48 + d) as u8) as char } else { ((87 + d) as u8) as char }
}

fn push_escaped_char(c: char, out: &mut Vec<char>)
    ensures final(out)@ == old(out)@ + escape_char(c),
{
    let ghost start = out@;
    if c == '"' {
        out.push('\\');
        out.push('"');
    } else if c == '\\' {
        out.push('\\');
        out.push('\\');
    } else if c == '\n' {
        out.push('\\');
        out.push('n');
    } else if c == '\r' {
        out.push('\\');
        out.push('r');
    } else if c == '\t' {
        out.push('\\');
        out.push('t');
    } else if c == '\u{8}' {
        out.push('\\');
        out.push('b');
    } else if c == '\u{c}' {
        out.push('\\');
        out.push('f');
    } else if (c as u32) < 0x20 {
        out.push('\\');
        out.push('u');
        out.push('0');
        out.push('0');
        out.push(hex_lower_char((c as u32) / 16));
        out.push(hex_lower_char((c as u32) % 16));
    } else {
        out.push(c);
    }
    assert(out@ =~= start + escape_char(c));
}

fn push_quoted(s: &str, out: &mut Vec<char>)
    ensures final(out)@ == old(out)@ + quoted(s@),
{
    let ghost start = out@;
    let cs = chars_of(s);
    out.push('"');
    let mut i: usize = 0;
    while i < cs.len()
        invariant
            i <= cs@.len(),
            cs@ == s@,
            out@ == start + seq!['"'] + escape_str(cs@.take(i as int)),
        decreases cs@.len() - i,
    {
        assert(cs@.take(i + 1).drop_last() =~= cs@.take(i as int));
        push_escaped_char(cs[i], out);
        assert(out@ =~= start + seq!['"'] + escape_str(cs@.take(i + 1)));
        i = i + 1;
    }
    assert(cs@.take(cs@.len() as int) =~= cs@);
    out.push('"');
    assert(out@ =~= start + quoted(s@));
}

/// Appends the compact JSON text of `v`.
pub fn write_json(v: &JsonValue, out: &mut Vec<char>)
    ensures final(out)@ == old(out)@ + render(deep(*v)),
    decreases v,
{
    let ghost start = out@;
    match v {
        JsonValue::Null => {
            out.push('n');
            out.push('u');
            out.push('l');
            out.push('l');
            assert(out@ =~= start + render(deep(*v)));
        },
        JsonValue::Bool(b) => {
            if *b {
                out.push('t');
                out.push('r');
                out.push('u');
                out.push('e');
            } else {
                out.push('f');
                out.push('a');
                out.push('l');
                out.push('s');
                out.push('e');
            }
            assert(out@ =~= start + render(deep(*v)));
        },
        JsonValue::Int(n) => {
            let t = signed_decimal_text(*n);
            let tc = chars_of(t.as_str());
            append_chars(out, tc.as_slice());
        },
        JsonValue::UInt(n) => {
            let t = decimal_text(*n);
            let tc = chars_of(t.as_str());
            append_chars(out, tc.as_slice());
        },
        JsonValue::Str(s) => {
            push_quoted(s.as_str(), out);
        },
        JsonValue::Raw(t) => {
            let tc = chars_of(t.as_str());
            append_chars(out, tc.as_slice());
        },
        JsonValue::Array(items) => {
            out.push('[');
            let mut i: usize = 0;
            proof { lemma_deep_seq_len(items@.take(0)); }
            assert(items@.take(0) =~= Seq::<JsonValue>::empty());
            while i < items.len()
                invariant
                    i <= items@.len(),
                    (*v) is Array && (*v)->Array_0 == *items,
                    out@ == start + seq!['['] + render_items(deep_seq(items@.take(i as int))),
                decreases items@.len() - i,
            {
                let ghost prev = deep_seq(items@.take(i as int));
                proof {
                    assert(items@.take(i + 1).drop_last() =~= items@.take(i as int));
                    lemma_deep_seq_len(items@.take(i as int));
                    assert(*items == (*v)->Array_0);
                    assert(decreases_to!(*v => (*v)->Array_0));
                    assert(decreases_to!(*items => items@));
                    assert(decreases_to!(items@ => items@[i as int]));
                    assert(decreases_to!(*v => items@[i as int]));
                }
                let ghost now = deep_seq(items@.take(i + 1));
                assert(now == prev.push(deep(items@[i as int])));
                assert(now.drop_last() =~= prev);
                if i > 0 {
                    out.push(',');
                }
                write_json(&items[i], out);
                proof {
                    if i == 0 {
                        assert(prev.len() == 0);
                        assert(render_items(now) == render(now[0]));
                        assert(out@ =~= start + seq!['['] + render_items(now));
                    } else {
                        assert(out@ =~= start + seq!['['] + render_items(now));
                    }
                }
                i = i + 1;
            }
            assert(items@.take(items@.len() as int) =~= items@);
            out.push(']');
            assert(out@ =~= start + render(deep(*v)));
        },
        JsonValue::Object(members) => {
            out.push('{');
            let mut i: usize = 0;
            assert(members@.take(0) =~= Seq::<(String, JsonValue)>::empty());
            while i < members.len()
                invariant
                    i <= members@.len(),
                    (*v) is Object && (*v)->Object_0 == *members,
                    out@ == start + seq!['{'] + render_members(deep_members(members@.take(i as int))),
                decreases members@.len() - i,
            {
                let ghost prev = deep_members(members@.take(i as int));
                proof {
                    assert(members@.take(i + 1).drop_last() =~= members@.take(i as int));
                    lemma_deep_members_len(members@.take(i as int));
                    assert(*members == (*v)->Object_0);
                    assert(decreases_to!(*v => (*v)->Object_0));
                    assert(decreases_to!(*members => members@));
                    assert(decreases_to!(members@ => members@[i as int]));
                    assert(decreases_to!(members@[i as int] => members@[i as int].1));
                    assert(decreases_to!(*v => members@[i as int].1));
                }
                let ghost now = deep_members(members@.take(i + 1));
                assert(now == prev.push((members@[i as int].0@, deep(members@[i as int].1))));
                assert(now.drop_last() =~= prev);
                if i > 0 {
                    out.push(',');
                }
                let m = &members[i];
                push_quoted(m.0.as_str(), out);
                out.push(':');
                write_json(&m.1, out);
                proof {
                    if i == 0 {
                        assert(prev.len() == 0);
                        assert(out@ =~= start + seq!['{'] + render_members(now));
                    } else {
                        assert(out@ =~= start + seq!['{'] + render_members(now));
                    }
                }
                i = i + 1;
            }
            assert(members@.take(members@.len() as int) =~= members@);
            out.push('}');
            assert(out@ =~= start + render(deep(*v)));
        },
    }
}

impl JsonValue {
    /// The compact JSON text of the document.
    pub fn to_text(&self) -> (r: String)
        ensures r@ == render(deep(*self)),
    {
        let mut out: Vec<char> = Vec::new();
        write_json(self, &mut out);
        assert(out@ =~= render(deep(*self)));
        string_of(out.as_slice())
    }

    /// An object with the given members.
    pub fn object(members: Vec<(String, JsonValue)>) -> (r: JsonValue)
        ensures deep(r) == Json::Object(deep_members(members@)),
    {
        JsonValue::Object(members)
    }

    /// An array with the given elements.
    pub fn array(items: Vec<JsonValue>) -> (r: JsonValue)
        ensures deep(r) == Json::Array(deep_seq(items@)),
    {
        JsonValue::Array(items)
    }

    /// A string value.
    pub fn text(s: &str) -> (r: JsonValue)
        ensures deep(r) == Json::Str(s@),
    {
        JsonValue::Str(s.to_string())
    }
}

/// Adds a member at the end of an object.
pub fn push_member(members: &mut Vec<(String, JsonValue)>, key: &str, value: JsonValue)
    ensures
        deep_members(final(members)@) == deep_members(old(members)@).push((key@, deep(value))),
        old(members)@.len() == 0 ==> deep_members(old(members)@) == Seq::<(Seq<char>, Json)>::empty(),
{
    members.push((key.to_string(), value));
    assert(final(members)@.drop_last() =~= old(members)@);
}

/// Adds an element at the end of an array.
pub fn push_item(items: &mut Vec<JsonValue>, value: JsonValue)
    ensures
        deep_seq(final(items)@) == deep_seq(old(items)@).push(deep(value)),
        old(items)@.len() == 0 ==> deep_seq(old(items)@) == Seq::<Json>::empty(),
{
    items.push(value);
    assert(final(items)@.drop_last() =~= old(items)@);
}

} // verus!
