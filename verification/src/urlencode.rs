//! `application/x-www-form-urlencoded` parsing and serialisation, through the `url` crate.
use vstd::prelude::*;
use vstd::string::StringSliceAdditionalSpecFns;

verus! {

/// The name/value pairs that `form_urlencoded::parse` yields for query text `q`, in order.
pub uninterp spec fn form_urlencoded_pairs(q: Seq<char>) -> Seq<(Seq<char>, Seq<char>)>;

/// The views of a list of string pairs.
pub open spec fn pair_views(v: Seq<(String, String)>) -> Seq<(Seq<char>, Seq<char>)> {
    v.map_values(|p: (String, String)| (p.0@, p.1@))
}

/// Calls `url::form_urlencoded::parse` on the bytes of `q` and collects the owned pairs.
/// The contract names the pairs (`form_urlencoded_pairs`); it states nothing of how
/// percent-escapes and `+` are decoded.
#[verifier::external_body]
pub(crate) fn parse_form_pairs(q: &str) -> (r: Vec<(String, String)>)
    ensures pair_views(r@) == form_urlencoded_pairs(q@),
{
    url::form_urlencoded::parse(q.as_bytes()).into_owned().collect()
}

/// Bytes that `form_urlencoded::byte_serialize` copies unchanged.
pub open spec fn form_unreserved(b: u8) -> bool {
    b == 42 || b == 45 || b == 46 || (48 <= b <= 57) || (65 <= b <= 90) || b == 95 || (97 <= b <= 122)
}

/// Upper-case hexadecimal digit of a value below 16.
pub open spec fn hex_upper(n: u8) -> char {
    if n < 10 { (48 + n) as char } else { (55 + n) as char }
}

/// The `application/x-www-form-urlencoded` byte serialisation of `bytes`:
/// unreserved bytes stay, a space becomes `+`, any other byte becomes `%XX`.
pub open spec fn form_encode(bytes: Seq<u8>) -> Seq<char>
    decreases bytes.len(),
{
    if bytes.len() == 0 {
        Seq::<char>::empty()
    } else {
        let b = bytes.last();
        let piece = if form_unreserved(b) {
            seq![b as char]
        } else if b == 32 {
            seq!['+']
        } else {
            seq!['%', hex_upper(b / 16), hex_upper(b % 16)]
        };
        form_encode(bytes.drop_last()) + piece
    }
}

/// Calls `url::form_urlencoded::byte_serialize` on the UTF-8 bytes of `s` and concatenates
/// the pieces; the contract states the serialisation byte by byte as the crate's source does.
#[verifier::external_body]
pub(crate) fn form_urlencode(s: &str) -> (r: String)
    ensures r@ == form_encode(s.spec_bytes()),
{
    url::form_urlencoded::byte_serialize(s.as_bytes()).collect()
}

} // verus!
