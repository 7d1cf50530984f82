//! STUN (RFC 5389) binding requests and responses, for discovering the public address.
use vstd::prelude::*;
use crate::engine::IpAddress;
use crate::net::{Ipv4, Ipv6, dec_text, decimal_text, hex_text};
use crate::text::{append_chars, append_str, chars_of, string_of, trim, trimmed_chars, find_from, find, find_char, position_of, lemma_find_from};
use crate::ip_source::FetchError;

verus! {

broadcast use vstd::string::group_string_axioms;

/// Binding request message type.
pub const STUN_BINDING_REQUEST: u16 = 0x0001;
/// Binding success response message type.
pub const STUN_BINDING_RESPONSE: u16 = 0x0101;
/// Magic cookie.
pub const STUN_MAGIC_COOKIE: u32 = 0x2112_A442;
/// MAPPED-ADDRESS attribute.
pub const ATTR_MAPPED_ADDRESS: u16 = 0x0001;
/// XOR-MAPPED-ADDRESS attribute.
pub const ATTR_XOR_MAPPED_ADDRESS: u16 = 0x0020;
/// XOR-MAPPED-ADDRESS attribute (pre-RFC code point).
pub const ATTR_XOR_MAPPED_ADDRESS_ALT: u16 = 0x8020;

/// Bytes of the magic cookie, most significant first.
pub open spec fn cookie_bytes() -> Seq<u8> {
    seq![0x21u8, 0x12u8, 0xa4u8, 0x42u8]
}

/// Twelve random bytes (`fastrand::fill`); nothing is promised of their values.
#[verifier::external_body]
fn random_transaction_id() -> (r: [u8; 12]) {
    let mut b = [0u8; 12];
    fastrand::fill(&mut b);
    b
}

/// STUN client settings.
pub struct StunIpFetcher {
    /// Servers given by the user (separated by `,`, `;` or spaces), or `None` for the defaults.
    pub custom_server: Option<String>,
    /// Interface whose address requests are sent from.
    pub http_interface: Option<String>,
    /// Reply timeout in milliseconds.
    pub timeout_ms: u64,
}

/// A text that is present and non-blank after trimming, trimmed.
pub open spec fn trimmed_opt(s: Option<Seq<char>>) -> Option<Seq<char>> {
    match s {
        Some(v) => if trim(v).len() > 0 { Some(trim(v)) } else { None },
        None => None,
    }
}

fn trimmed_string(s: &str) -> (r: Option<String>)
    ensures
        match r {
            Some(v) => trimmed_opt(Some(s@)) == Some(v@),
            None => trimmed_opt(Some(s@)) is None,
        },
{
    let t = trimmed_chars(s);
    if t.len() == 0 { None } else { Some(string_of(t.as_slice())) }
}

impl StunIpFetcher {
    /// Settings with the given servers and interface (trimmed; blank values dropped) and a
    /// two-second timeout.
    pub fn new(custom_server: Option<String>, http_interface: Option<&str>) -> (r: Self)
        ensures
            match r.custom_server {
                Some(v) => trimmed_opt(match custom_server { Some(c) => Some(c@), None => None }) == Some(v@),
                None => trimmed_opt(match custom_server { Some(c) => Some(c@), None => None }) is None,
            },
            match r.http_interface {
                Some(v) => trimmed_opt(match http_interface { Some(c) => Some(c@), None => None }) == Some(v@),
                None => trimmed_opt(match http_interface { Some(c) => Some(c@), None => None }) is None,
            },
            r.timeout_ms == 2000,
    {
        let cs = match &custom_server {
            Some(c) => trimmed_string(c.as_str()),
            None => None,
        };
        let hi = match http_interface {
            Some(c) => trimmed_string(c),
            None => None,
        };
        StunIpFetcher { custom_server: cs, http_interface: hi, timeout_ms: 2000 }
    }

    /// Builds a 20-byte binding request with a random 12-byte transaction id, returning both.
    pub fn build_binding_request() -> (r: ([u8; 20], [u8; 12]))
        ensures
            r.0@.subrange(0, 2) == seq![0x00u8, 0x01u8],
            r.0@.subrange(2, 4) == seq![0x00u8, 0x00u8],
            r.0@.subrange(4, 8) == cookie_bytes(),
            r.0@.subrange(8, 20) == r.1@,
    {
        let tx = random_transaction_id();
        let mut req = [0u8; 20];
        req.set(0, 0x00);
        req.set(1, 0x01);
        req.set(2, 0x00);
        req.set(3, 0x00);
        req.set(4, 0x21);
        req.set(5, 0x12);
        req.set(6, 0xa4);
        req.set(7, 0x42);
        let mut i: usize = 0;
        while i < 12
            invariant
                i <= 12,
                req@.len() == 20,
                req@.subrange(0, 2) == seq![0x00u8, 0x01u8],
                req@.subrange(2, 4) == seq![0x00u8, 0x00u8],
                req@.subrange(4, 8) == cookie_bytes(),
                forall|k: int| 0 <= k < i ==> req@[8 + k] == tx@[k],
            decreases 12 - i,
        {
            req.set(8 + i, tx[i]);
            assert(req@.subrange(0, 2) =~= seq![0x00u8, 0x01u8]);
            assert(req@.subrange(2, 4) =~= seq![0x00u8, 0x00u8]);
            assert(req@.subrange(4, 8) =~= cookie_bytes());
            i = i + 1;
        }
        assert(req@.subrange(0, 2) =~= seq![0x00u8, 0x01u8]);
        assert(req@.subrange(8, 20) =~= tx@);
        (req, tx)
    }
}

/// A big-endian 16-bit value.
pub open spec fn be16(hi: u8, lo: u8) -> u16 {
    (hi as u16 * 256 + lo as u16) as u16
}

/// A big-endian 32-bit value.
pub open spec fn be32(b0: u8, b1: u8, b2: u8, b3: u8) -> u32 {
    (b0 as u32 * 16777216 + b1 as u32 * 65536 + b2 as u32 * 256 + b3 as u32) as u32
}

/// The IPv4 address of an attribute value whose address starts at `at`, each byte XORed
/// with `key` where given.
pub open spec fn v4_at(buf: Seq<u8>, at: int, key: Option<Seq<u8>>) -> Ipv4 {
    let b = |i: int| match key { Some(k) => (buf[at + i] ^ k[i]) as u8, None => buf[at + i] };
    Ipv4 { octets: [b(0), b(1), b(2), b(3)] }
}

/// The IPv6 address of an attribute value whose address starts at `at`, each byte XORed
/// with `key` where given.
pub open spec fn v6_at(buf: Seq<u8>, at: int, key: Option<Seq<u8>>) -> Ipv6 {
    let b = |i: int| match key { Some(k) => (buf[at + i] ^ k[i]) as u8, None => buf[at + i] };
    Ipv6 { segments: [be16(b(0), b(1)), be16(b(2), b(3)), be16(b(4), b(5)), be16(b(6), b(7)),
        be16(b(8), b(9)), be16(b(10), b(11)), be16(b(12), b(13)), be16(b(14), b(15))] }
}

/// Effect of one attribute `[vs, ve)` of type `atype` on the addresses found so far.
pub open spec fn attr_effect(
    buf: Seq<u8>, vs: int, ve: int, atype: u16, tx: Seq<u8>,
    mapped: Option<IpAddress>, xor: Option<IpAddress>,
) -> (Option<IpAddress>, Option<IpAddress>) {
    let len = ve - vs;
    if (atype == 0x0020 || atype == 0x8020) && len >= 4 {
        let family = buf[vs + 1];
        if family == 1 && len >= 8 {
            (mapped, Some(IpAddress::V4(v4_at(buf, vs + 4, Some(cookie_bytes())))))
        } else if family == 2 && len >= 20 {
            (mapped, Some(IpAddress::V6(v6_at(buf, vs + 4, Some(cookie_bytes() + tx)))))
        } else {
            (mapped, xor)
        }
    } else if atype == 0x0001 && len >= 4 {
        let family = buf[vs + 1];
        if family == 1 && len >= 8 {
            (Some(IpAddress::V4(v4_at(buf, vs + 4, None))), xor)
        } else if family == 2 && len >= 20 {
            (Some(IpAddress::V6(v6_at(buf, vs + 4, None))), xor)
        } else {
            (mapped, xor)
        }
    } else {
        (mapped, xor)
    }
}

/// Walks the attributes from `offset` to `end` (each padded to four bytes), returning the
/// last MAPPED-ADDRESS and the last XOR-MAPPED-ADDRESS found.
pub open spec fn scan_attrs(
    buf: Seq<u8>, tx: Seq<u8>, offset: int, end: int,
    mapped: Option<IpAddress>, xor: Option<IpAddress>,
) -> (Option<IpAddress>, Option<IpAddress>)
    decreases end - offset + 4,
{
    if offset < 0 || offset + 4 > end || end > buf.len() {
        (mapped, xor)
    } else {
        let atype = be16(buf[offset], buf[offset + 1]);
        let alen = be16(buf[offset + 2], buf[offset + 3]) as int;
        let vs = offset + 4;
        let ve = vs + alen;
        if ve > end {
            (mapped, xor)
        } else {
            let (m2, x2) = attr_effect(buf, vs, ve, atype, tx, mapped, xor);
            let pad: int = if alen % 4 == 0 { 0 } else { 4 - alen % 4 };
            scan_attrs(buf, tx, ve + pad, end, m2, x2)
        }
    }
}

/// `0x` and a value in lower-case hexadecimal, zero-padded to `width` digits (`{:0width$x}`).
pub open spec fn padded_hex(n: nat, width: nat) -> Seq<char> {
    let h = hex_text(n);
    if h.len() >= width { h } else { Seq::new((width - h.len()) as nat, |i: int| '0') + h }
}

/// The outcome of parsing a binding response.
pub open spec fn binding_outcome(buf: Seq<u8>, tx: Seq<u8>) -> Result<IpAddress, Seq<char>> {
    if buf.len() < 20 {
        Err("STUN 响应报文长度不足 20 字节 (实际: "@ + dec_text(buf.len()) + " 字节)"@)
    } else if be16(buf[0], buf[1]) != 0x0101 {
        Err("STUN 响应消息类型异常: 0x"@ + padded_hex(be16(buf[0], buf[1]) as nat, 4) + " (预期: 0x0101)"@)
    } else if be32(buf[4], buf[5], buf[6], buf[7]) != 0x2112A442 {
        Err("STUN 响应 Magic Cookie 校验失败: 0x"@ + padded_hex(be32(buf[4], buf[5], buf[6], buf[7]) as nat, 8))
    } else if buf.subrange(8, 20) != tx {
        Err("STUN 响应 Transaction ID 与发出的请求不匹配"@)
    } else {
        let msg_len = be16(buf[2], buf[3]) as int;
        let avail = buf.len() - 20;
        let end = 20 + if msg_len < avail { msg_len } else { avail };
        let (mapped, xor) = scan_attrs(buf, tx, 20, end, None, None);
        match xor {
            Some(a) => Ok(a),
            None => match mapped {
                Some(a) => Ok(a),
                None => Err("STUN 响应中未找到有效的 (XOR-)MAPPED-ADDRESS 属性"@),
            },
        }
    }
}

fn push_padded_hex(v: &mut Vec<char>, n: u64, width: usize)
    requires width <= 16,
    ensures final(v)@ == old(v)@ + padded_hex(n as nat, width as nat),
{
    let mut h: Vec<char> = Vec::new();
    crate::net::push_hex_pub(n, &mut h);
    assert(h@ =~= hex_text(n as nat));
    let ghost pre = v@;
    if h.len() < width {
        let mut k: usize = 0;
        let pad = width - h.len();
        while k < pad
            invariant
                k <= pad,
                v@ == pre + Seq::new(k as nat, |i: int| '0'),
            decreases pad - k,
        {
            v.push('0');
            assert(pre + Seq::new((k + 1) as nat, |i: int| '0') =~= (pre + Seq::new(k as nat, |i: int| '0')).push('0'));
            k = k + 1;
        }
    }
    append_chars(v, h.as_slice());
    assert(final(v)@ =~= old(v)@ + padded_hex(n as nat, width as nat));
}

fn v4_from(buf: &[u8], at: usize, xor_key: bool) -> (r: Ipv4)
    requires at + 4 <= buf@.len(),
    ensures r == v4_at(buf@, at as int, if xor_key { Some(cookie_bytes()) } else { None }),
{
    let k: [u8; 4] = [0x21, 0x12, 0xa4, 0x42];
    assert(k@ =~= cookie_bytes());
    let b0 = if xor_key { buf[at] ^ k[0] } else { buf[at] };
    let b1 = if xor_key { buf[at + 1] ^ k[1] } else { buf[at + 1] };
    let b2 = if xor_key { buf[at + 2] ^ k[2] } else { buf[at + 2] };
    let b3 = if xor_key { buf[at + 3] ^ k[3] } else { buf[at + 3] };
    Ipv4 { octets: [b0, b1, b2, b3] }
}

fn v6_from(buf: &[u8], at: usize, key: Option<&[u8; 16]>) -> (r: Ipv6)
    requires at + 16 <= buf@.len(),
    ensures r == v6_at(buf@, at as int, match key { Some(k) => Some(k@), None => None }),
{
    let mut b = [0u8; 16];
    let n = buf.len();
    let mut i: usize = 0;
    while i < 16
        invariant
            i <= 16,
            n == buf@.len(),
            at + 16 <= buf@.len(),
            forall|j: int| 0 <= j < i ==> b@[j] == match key { Some(k) => (buf@[at + j] ^ k@[j]) as u8, None => buf@[at + j] },
        decreases 16 - i,
    {
        let x = match key { Some(k) => buf[at + i] ^ k[i], None => buf[at + i] };
        b.set(i, x);
        i = i + 1;
    }
    let s0 = (b[0] as u16) * 256 + (b[1] as u16);
    let s1 = (b[2] as u16) * 256 + (b[3] as u16);
    let s2 = (b[4] as u16) * 256 + (b[5] as u16);
    let s3 = (b[6] as u16) * 256 + (b[7] as u16);
    let s4 = (b[8] as u16) * 256 + (b[9] as u16);
    let s5 = (b[10] as u16) * 256 + (b[11] as u16);
    let s6 = (b[12] as u16) * 256 + (b[13] as u16);
    let s7 = (b[14] as u16) * 256 + (b[15] as u16);
    let r = Ipv6 { segments: [s0, s1, s2, s3, s4, s5, s6, s7] };
    let ghost sk = match key { Some(k) => Some(k@), None => None };
    assert(r.segments =~= v6_at(buf@, at as int, sk).segments) by {
        broadcast use vstd::array::group_array_axioms;
    }
    r
}

fn apply_attr(
    buf: &[u8], tx: &[u8; 12], key: &[u8; 16], vs: usize, ve: usize, atype: u16,
    mapped: Option<IpAddress>, xor: Option<IpAddress>,
) -> (r: (Option<IpAddress>, Option<IpAddress>))
    requires
        vs <= ve <= buf@.len(),
        vs >= 1,
        key@ == cookie_bytes() + tx@,
    ensures r == attr_effect(buf@, vs as int, ve as int, atype, tx@, mapped, xor),
{
    let alen = ve - vs;
    if (atype == 0x0020 || atype == 0x8020) && alen >= 4 {
        let family = buf[vs + 1];
        if family == 1 && alen >= 8 {
            (mapped, Some(IpAddress::V4(v4_from(buf, vs + 4, true))))
        } else if family == 2 && alen >= 20 {
            (mapped, Some(IpAddress::V6(v6_from(buf, vs + 4, Some(key)))))
        } else {
            (mapped, xor)
        }
    } else if atype == 0x0001 && alen >= 4 {
        let family = buf[vs + 1];
        if family == 1 && alen >= 8 {
            (Some(IpAddress::V4(v4_from(buf, vs + 4, false))), xor)
        } else if family == 2 && alen >= 20 {
            (Some(IpAddress::V6(v6_from(buf, vs + 4, None))), xor)
        } else {
            (mapped, xor)
        }
    } else {
        (mapped, xor)
    }
}

impl StunIpFetcher {
    /// Parses a binding response: checks the header (length, type, cookie, transaction id),
    /// then walks the attributes and returns the XOR-MAPPED-ADDRESS, or else the
    /// MAPPED-ADDRESS.
    pub fn parse_binding_response(buf: &[u8], expected_tx_id: &[u8; 12]) -> (r: Result<IpAddress, FetchError>)
        ensures
            match binding_outcome(buf@, expected_tx_id@) {
                Ok(a) => r == Ok::<IpAddress, FetchError>(a),
                Err(m) => r matches Err(FetchError::Other(s)) && s@ == m,
            },
    {
        let n = buf.len();
        if n < 20 {
            let mut v: Vec<char> = Vec::new();
            append_str(&mut v, "STUN 响应报文长度不足 20 字节 (实际: ");
            let t = decimal_text(n as u64);
            append_str(&mut v, t.as_str());
            append_str(&mut v, " 字节)");
            return Err(FetchError::Other(string_of(v.as_slice())));
        }
        let msg_type: u16 = (buf[0] as u16) * 256 + (buf[1] as u16);
        if msg_type != 0x0101 {
            let mut v: Vec<char> = Vec::new();
            append_str(&mut v, "STUN 响应消息类型异常: 0x");
            push_padded_hex(&mut v, msg_type as u64, 4);
            append_str(&mut v, " (预期: 0x0101)");
            return Err(FetchError::Other(string_of(v.as_slice())));
        }
        let cookie: u32 = (buf[4] as u32) * 16777216 + (buf[5] as u32) * 65536 + (buf[6] as u32) * 256 + (buf[7] as u32);
        if cookie != 0x2112A442 {
            let mut v: Vec<char> = Vec::new();
            append_str(&mut v, "STUN 响应 Magic Cookie 校验失败: 0x");
            push_padded_hex(&mut v, cookie as u64, 8);
            return Err(FetchError::Other(string_of(v.as_slice())));
        }
        let mut k: usize = 0;
        while k < 12
            invariant
                k <= 12,
                n == buf@.len(),
                n >= 20,
                be16(buf@[0], buf@[1]) == 0x0101,
                be32(buf@[4], buf@[5], buf@[6], buf@[7]) == 0x2112A442,
                forall|j: int| 0 <= j < k ==> buf@[8 + j] == expected_tx_id@[j],
            decreases 12 - k,
        {
            if buf[8 + k] != expected_tx_id[k] {
                assert(buf@.subrange(8, 20)[k as int] != expected_tx_id@[k as int]);
                return Err(FetchError::Other("STUN 响应 Transaction ID 与发出的请求不匹配".to_owned()));
            }
            k = k + 1;
        }
        assert(buf@.subrange(8, 20) =~= expected_tx_id@);

        let msg_len: usize = ((buf[2] as u16) * 256 + (buf[3] as u16)) as usize;
        let total_available = n - 20;
        let attr_data_len = if msg_len < total_available { msg_len } else { total_available };
        let end_offset = 20 + attr_data_len;
        let mut key = [0u8; 16];
        key.set(0, 0x21);
        key.set(1, 0x12);
        key.set(2, 0xa4);
        key.set(3, 0x42);
        let mut q: usize = 0;
        while q < 12
            invariant
                q <= 12,
                key@.len() == 16,
                key@.subrange(0, 4) == cookie_bytes(),
                forall|j: int| 0 <= j < q ==> key@[4 + j] == expected_tx_id@[j],
            decreases 12 - q,
        {
            key.set(4 + q, expected_tx_id[q]);
            assert(key@.subrange(0, 4) =~= cookie_bytes());
            q = q + 1;
        }
        assert(key@.subrange(0, 4) =~= cookie_bytes());
        assert(key@ =~= cookie_bytes() + expected_tx_id@);

        let mut offset: usize = 20;
        let mut mapped: Option<IpAddress> = None;
        let mut xor: Option<IpAddress> = None;
        let ghost total = scan_attrs(buf@, expected_tx_id@, 20, end_offset as int, None, None);
        while offset <= end_offset && end_offset - offset >= 4
            invariant
                n == buf@.len(),
                n >= 20,
                be16(buf@[0], buf@[1]) == 0x0101,
                be32(buf@[4], buf@[5], buf@[6], buf@[7]) == 0x2112A442,
                buf@.subrange(8, 20) == expected_tx_id@,
                end_offset == 20 + attr_data_len,
                attr_data_len as int == if (be16(buf@[2], buf@[3]) as int) < n - 20 { be16(buf@[2], buf@[3]) as int } else { n - 20 },
                end_offset <= n,
                key@ == cookie_bytes() + expected_tx_id@,
                total == scan_attrs(buf@, expected_tx_id@, offset as int, end_offset as int, mapped, xor),
            ensures
                total == (mapped, xor),
                n >= 20,
                be16(buf@[0], buf@[1]) == 0x0101,
                be32(buf@[4], buf@[5], buf@[6], buf@[7]) == 0x2112A442,
                buf@.subrange(8, 20) == expected_tx_id@,
                end_offset == 20 + attr_data_len,
                attr_data_len as int == if (be16(buf@[2], buf@[3]) as int) < n - 20 { be16(buf@[2], buf@[3]) as int } else { n - 20 },
            decreases end_offset + 4 - offset,
        {
            let atype: u16 = (buf[offset] as u16) * 256 + (buf[offset + 1] as u16);
            let alen: usize = ((buf[offset + 2] as u16) * 256 + (buf[offset + 3] as u16)) as usize;
            let vs = offset + 4;
            if alen > end_offset - vs {
                break;
            }
            let ve = vs + alen;
            let ghost m0 = mapped;
            let ghost x0 = xor;
            let (m2, x2) = apply_attr(buf, expected_tx_id, &key, vs, ve, atype, mapped, xor);
            mapped = m2;
            xor = x2;
            let pad: usize = if alen % 4 == 0 { 0 } else { 4 - alen % 4 };
            proof {
                assert(scan_attrs(buf@, expected_tx_id@, offset as int, end_offset as int, m0, x0)
                    == scan_attrs(buf@, expected_tx_id@, (ve + pad) as int, end_offset as int, mapped, xor));
            }
            if pad > end_offset - ve {
                break;
            }
            offset = ve + pad;
        }
        match xor {
            Some(a) => Ok(a),
            None => match mapped {
                Some(a) => Ok(a),
                None => Err(FetchError::Other("STUN 响应中未找到有效的 (XOR-)MAPPED-ADDRESS 属性".to_owned())),
            },
        }
    }
}

/// `host:port`, with port 3478 added where none is given (IPv6 literals are bracketed).
pub open spec fn normalized_server(s: Seq<char>) -> Seq<char> {
    let t = trim(s);
    if t.len() > 0 && t[0] == '[' {
        if find_from(t, seq![']', ':'], 0) is Some { t } else { t + ":3478"@ }
    } else if colon_count(t) == 1 {
        t
    } else if colon_count(t) > 1 {
        seq!['['] + t + "]:3478"@
    } else {
        t + ":3478"@
    }
}

/// Number of `:` in a text.
pub open spec fn colon_count(s: Seq<char>) -> nat
    decreases s.len(),
{
    if s.len() == 0 { 0 } else { colon_count(s.drop_last()) + if s.last() == ':' { 1nat } else { 0nat } }
}

impl StunIpFetcher {
    /// Normalises a STUN server address to `host:port` (default port 3478).
    pub fn normalize_server_addr(server: &str) -> (r: String)
        ensures r@ == normalized_server(server@),
    {
        let t = trimmed_chars(server);
        let mut count: usize = 0;
        let mut i: usize = 0;
        while i < t.len()
            invariant
                i <= t@.len(),
                count == colon_count(t@.take(i as int)),
                count <= i,
            decreases t@.len() - i,
        {
            assert(t@.take(i + 1).drop_last() =~= t@.take(i as int));
            if t[i] == ':' {
                count = count + 1;
            }
            i = i + 1;
        }
        assert(t@.take(t@.len() as int) =~= t@);
        proof { reveal_strlit(":3478"); reveal_strlit("]:3478"); }
        if t.len() > 0 && t[0] == '[' {
            let pat: [char; 2] = [']', ':'];
            assert(pat@ =~= seq![']', ':']);
            if find(t.as_slice(), &pat).is_some() {
                return string_of(t.as_slice());
            }
            let mut v = t;
            append_str(&mut v, ":3478");
            return string_of(v.as_slice());
        }
        if count == 1 {
            string_of(t.as_slice())
        } else if count > 1 {
            let mut v: Vec<char> = Vec::new();
            v.push('[');
            append_chars(&mut v, t.as_slice());
            append_str(&mut v, "]:3478");
            assert(v@ =~= seq!['['] + t@ + "]:3478"@);
            string_of(v.as_slice())
        } else {
            let mut v = t;
            append_str(&mut v, ":3478");
            string_of(v.as_slice())
        }
    }
}

/// Default STUN servers for IPv4 (mainland-China nodes first, then anycast nodes).
pub open spec fn default_ipv4_servers() -> Seq<Seq<char>> {
    seq!["stun.miwifi.com:3478"@, "stun.qq.com:3478"@, "stun.chat.bilibili.com:3478"@,
        "stun.baidu.com:3478"@, "stun.cloudflare.com:3478"@, "stun.synology.com:3478"@]
}

/// Default STUN servers for IPv6.
pub open spec fn default_ipv6_servers() -> Seq<Seq<char>> {
    seq!["stun.nextcloud.com:3478"@, "stun.freeswitch.org:3478"@, "stun.sipgate.net:3478"@,
        "stun.l.google.com:19302"@, "stun1.l.google.com:19302"@, "stun.fitauto.ru:3478"@]
}

impl StunIpFetcher {
    /// The default server list of a protocol.
    pub fn default_servers(is_ipv6: bool) -> (r: Vec<String>)
        ensures r@.map_values(|s: String| s@) == if is_ipv6 { default_ipv6_servers() } else { default_ipv4_servers() },
    {
        let pool: [&str; 6] = if is_ipv6 {
            ["stun.nextcloud.com:3478", "stun.freeswitch.org:3478", "stun.sipgate.net:3478",
                "stun.l.google.com:19302", "stun1.l.google.com:19302", "stun.fitauto.ru:3478"]
        } else {
            ["stun.miwifi.com:3478", "stun.qq.com:3478", "stun.chat.bilibili.com:3478",
                "stun.baidu.com:3478", "stun.cloudflare.com:3478", "stun.synology.com:3478"]
        };
        let ghost want = if is_ipv6 { default_ipv6_servers() } else { default_ipv4_servers() };
        assert(pool@.map_values(|s: &str| s@) =~= want);
        let mut r: Vec<String> = Vec::new();
        let mut i: usize = 0;
        while i < 6
            invariant
                i <= 6,
                pool@.map_values(|s: &str| s@) == want,
                r@.map_values(|s: String| s@) == want.take(i as int),
            decreases 6 - i,
        {
            assert(want[i as int] == pool@[i as int]@);
            let ghost before = r@;
            let item = pool[i].to_owned();
            assert(item@ == want[i as int]);
            r.push(item);
            assert(r@.map_values(|s: String| s@) =~= before.map_values(|s: String| s@).push(item@));
            assert(r@.map_values(|s: String| s@) =~= want.take(i + 1));
            i = i + 1;
        }
        assert(want.take(6) =~= want);
        r
    }
}

/// Whether a character separates servers in the custom server list.
pub open spec fn is_server_sep(c: char) -> bool {
    c == ',' || c == ';' || c == ' '
}

/// Pieces of `s` separated by `,`, `;` or spaces (as `str::split` with a char array).
pub open spec fn split_servers(s: Seq<char>) -> Seq<Seq<char>>
    decreases s.len(),
{
    if s.len() == 0 {
        seq![Seq::<char>::empty()]
    } else {
        let prev = split_servers(s.drop_last());
        if is_server_sep(s.last()) {
            prev.push(Seq::<char>::empty())
        } else {
            prev.update(prev.len() - 1, prev.last().push(s.last()))
        }
    }
}

proof fn lemma_split_servers_nonempty(s: Seq<char>)
    ensures split_servers(s).len() >= 1,
    decreases s.len(),
{
    if s.len() > 0 {
        lemma_split_servers_nonempty(s.drop_last());
    }
}

/// The trimmed, non-blank pieces, in order.
pub open spec fn nonblank_trimmed(parts: Seq<Seq<char>>) -> Seq<Seq<char>>
    decreases parts.len(),
{
    if parts.len() == 0 {
        Seq::empty()
    } else {
        let prev = nonblank_trimmed(parts.drop_last());
        if trim(parts.last()).len() > 0 { prev.push(trim(parts.last())) } else { prev }
    }
}

/// The servers to try: the custom list where it names any, otherwise the defaults.
pub open spec fn server_candidates(custom: Option<Seq<char>>, is_ipv6: bool) -> Seq<Seq<char>> {
    let defaults = if is_ipv6 { default_ipv6_servers() } else { default_ipv4_servers() };
    match custom {
        Some(c) => {
            let list = nonblank_trimmed(split_servers(c));
            if list.len() == 0 { defaults } else { list }
        },
        None => defaults,
    }
}

/// Lists the servers to try, in order.
pub fn server_list(custom_server: &Option<String>, is_ipv6: bool) -> (r: Vec<String>)
    ensures
        r@.map_values(|s: String| s@) == server_candidates(match custom_server { Some(c) => Some(c@), None => None }, is_ipv6),
{
    match custom_server {
        None => StunIpFetcher::default_servers(is_ipv6),
        Some(c) => {
            let s = chars_of(c.as_str());
            let mut list: Vec<String> = Vec::new();
            let mut cur: Vec<char> = Vec::new();
            let mut i: usize = 0;
            proof { assert(s@.take(0) =~= Seq::<char>::empty()); }
            while i < s.len()
                invariant
                    i <= s@.len(),
                    split_servers(s@.take(i as int)).len() >= 1,
                    split_servers(s@.take(i as int)).last() == cur@,
                    list@.map_values(|x: String| x@) == nonblank_trimmed(split_servers(s@.take(i as int)).drop_last()),
                decreases s@.len() - i,
            {
                let ghost prev = split_servers(s@.take(i as int));
                assert(s@.take(i + 1).drop_last() =~= s@.take(i as int));
                let ch = s[i];
                if ch == ',' || ch == ';' || ch == ' ' {
                    let t = crate::text::trim_chars(cur.as_slice());
                    if t.len() > 0 {
                        list.push(string_of(t.as_slice()));
                    }
                    proof {
                        let nxt = split_servers(s@.take(i + 1));
                        assert(nxt == prev.push(Seq::<char>::empty()));
                        assert(nxt.drop_last() =~= prev);
                        assert(prev.drop_last().push(prev.last()) =~= prev);
                        assert(nonblank_trimmed(prev) == if trim(prev.last()).len() > 0 {
                            nonblank_trimmed(prev.drop_last()).push(trim(prev.last()))
                        } else {
                            nonblank_trimmed(prev.drop_last())
                        });
                        assert(list@.map_values(|x: String| x@) =~= nonblank_trimmed(nxt.drop_last()));
                    }
                    cur = Vec::new();
                } else {
                    cur.push(ch);
                    proof {
                        let nxt = split_servers(s@.take(i + 1));
                        assert(nxt.drop_last() =~= prev.drop_last());
                    }
                }
                i = i + 1;
            }
            assert(s@.take(s@.len() as int) =~= s@);
            let t = crate::text::trim_chars(cur.as_slice());
            if t.len() > 0 {
                list.push(string_of(t.as_slice()));
            }
            proof {
                let all = split_servers(s@);
                assert(all.drop_last().push(all.last()) =~= all);
                assert(list@.map_values(|x: String| x@) =~= nonblank_trimmed(all));
            }
            if list.len() == 0 {
                StunIpFetcher::default_servers(is_ipv6)
            } else {
                list
            }
        },
    }
}

/// What a STUN answer gives for IPv4: a usable IPv4 address (neither unspecified nor
/// loopback), or the reason it is refused.
pub open spec fn stun_ipv4_outcome(ip: IpAddress) -> Result<Ipv4, Seq<char>> {
    match ip {
        IpAddress::V4(a) => if !a.spec_is_unspecified() && a.octets[0] != 127 {
            Ok(a)
        } else {
            Err("STUN 返回了非法的 IPv4: "@ + crate::net::ipv4_text(a))
        },
        IpAddress::V6(a) => Err("预期 IPv4 但 STUN 返回了 IPv6: "@ + crate::net::ipv6_text(a)),
    }
}

/// What a STUN answer gives for IPv6: a global unicast IPv6 address, or the reason it is
/// refused.
pub open spec fn stun_ipv6_outcome(ip: IpAddress) -> Result<Ipv6, Seq<char>> {
    match ip {
        IpAddress::V6(a) => if a.spec_is_global_unicast() {
            Ok(a)
        } else {
            Err("STUN 返回的 IPv6 非全球单播地址: "@ + crate::net::ipv6_text(a))
        },
        IpAddress::V4(a) => Err("预期 IPv6 但 STUN 返回了 IPv4: "@ + crate::net::ipv4_text(a)),
    }
}

impl StunIpFetcher {
    /// Checks the address a server reported against the family asked for (IPv4).
    pub fn accept_ipv4(ip: IpAddress) -> (r: Result<Ipv4, FetchError>)
        ensures
            match stun_ipv4_outcome(ip) {
                Ok(a) => r == Ok::<Ipv4, FetchError>(a),
                Err(m) => r matches Err(FetchError::NoValidIpv4(t)) && t@ == m,
            },
    {
        match ip {
            IpAddress::V4(a) => {
                if !a.is_unspecified() && !a.is_loopback() {
                    Ok(a)
                } else {
                    let t = a.to_text();
                    Err(FetchError::NoValidIpv4(crate::providers::with_prefix("STUN 返回了非法的 IPv4: ", t.as_str())))
                }
            },
            IpAddress::V6(a) => {
                let t = a.to_text();
                Err(FetchError::NoValidIpv4(crate::providers::with_prefix("预期 IPv4 但 STUN 返回了 IPv6: ", t.as_str())))
            },
        }
    }

    /// Checks the address a server reported against the family asked for (IPv6).
    pub fn accept_ipv6(ip: IpAddress) -> (r: Result<Ipv6, FetchError>)
        ensures
            match stun_ipv6_outcome(ip) {
                Ok(a) => r == Ok::<Ipv6, FetchError>(a),
                Err(m) => r matches Err(FetchError::NoValidIpv6(t)) && t@ == m,
            },
    {
        match ip {
            IpAddress::V6(a) => {
                if a.is_global_unicast() {
                    Ok(a)
                } else {
                    let t = a.to_text();
                    Err(FetchError::NoValidIpv6(crate::providers::with_prefix("STUN 返回的 IPv6 非全球单播地址: ", t.as_str())))
                }
            },
            IpAddress::V4(a) => {
                let t = a.to_text();
                Err(FetchError::NoValidIpv6(crate::providers::with_prefix("预期 IPv6 但 STUN 返回了 IPv4: ", t.as_str())))
            },
        }
    }
}

} // verus!
