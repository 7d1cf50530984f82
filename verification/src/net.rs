//! IP addresses as plain values, with their textual forms.
use vstd::prelude::*;
use crate::text::string_of;

verus! {

/// An IPv4 address.
#[derive(Debug, Clone, Copy, PartialEq, Eq)]
pub struct Ipv4 {
    pub octets: [u8; 4],
}

/// An IPv6 address as eight 16-bit segments.
#[derive(Debug, Clone, Copy, PartialEq, Eq)]
pub struct Ipv6 {
    pub segments: [u16; 8],
}

/// Decimal digit character of a value below 10.
pub open spec fn digit_char(d: nat) -> char {
    (48 + d) as char
}

/// Decimal text of a natural number, without leading zeros.
pub open spec fn dec_text(n: nat) -> Seq<char>
    decreases n,
{
    if n < 10 {
        seq![digit_char(n)]
    } else {
        dec_text(n / 10).push(digit_char(n % 10))
    }
}

fn push_decimal(n: u64, out: &mut Vec<char>)
    ensures final(out)@ == old(out)@ + dec_text(n as nat),
    decreases n,
{
    if n >= 10 {
        push_decimal(n / 10, out);
    }
    let d: u8 = (n % 10) as u8;
    out.push((48 + d) as char);
    proof {
        if n >= 10 {
            assert(old(out)@ + dec_text(n as nat) =~= (old(out)@ + dec_text((n / 10) as nat)).push(digit_char((n % 10) as nat)));
        } else {
            assert(old(out)@ + dec_text(n as nat) =~= old(out)@.push(digit_char(n as nat)));
        }
    }
}

/// Decimal text of a number (`u64::to_string`).
pub fn decimal_text(n: u64) -> (r: String)
    ensures r@ == dec_text(n as nat),
{
    let mut v: Vec<char> = Vec::new();
    push_decimal(n, &mut v);
    assert(v@ =~= dec_text(n as nat));
    string_of(v.as_slice())
}

/// Dotted-decimal text of an IPv4 address (as `Ipv4Addr`'s `Display`).
pub open spec fn ipv4_text(ip: Ipv4) -> Seq<char> {
    dec_text(ip.octets[0] as nat).push('.') + dec_text(ip.octets[1] as nat).push('.')
        + dec_text(ip.octets[2] as nat).push('.') + dec_text(ip.octets[3] as nat)
}

impl Ipv4 {
    /// The address `a.b.c.d`.
    pub fn new(a: u8, b: u8, c: u8, d: u8) -> (r: Self)
        ensures r.octets@ == seq![a, b, c, d],
    {
        let r = Ipv4 { octets: [a, b, c, d] };
        assert(r.octets@ =~= seq![a, b, c, d]);
        r
    }

    /// Dotted-decimal text.
    pub fn to_text(&self) -> (r: String)
        ensures r@ == ipv4_text(*self),
    {
        let mut v: Vec<char> = Vec::new();
        push_decimal(self.octets[0] as u64, &mut v);
        v.push('.');
        push_decimal(self.octets[1] as u64, &mut v);
        v.push('.');
        push_decimal(self.octets[2] as u64, &mut v);
        v.push('.');
        push_decimal(self.octets[3] as u64, &mut v);
        assert(v@ =~= ipv4_text(*self));
        string_of(v.as_slice())
    }

    /// Whether two addresses are equal.
    pub fn same(&self, other: &Self) -> (r: bool)
        ensures r == (*self == *other),
    {
        broadcast use vstd::array::group_array_axioms;
        let r = self.octets[0] == other.octets[0] && self.octets[1] == other.octets[1]
            && self.octets[2] == other.octets[2] && self.octets[3] == other.octets[3];
        if r {
            assert(self.octets =~= other.octets);
        }
        r
    }

    /// `0.0.0.0`.
    pub open spec fn spec_is_unspecified(&self) -> bool {
        self.octets[0] == 0 && self.octets[1] == 0 && self.octets[2] == 0 && self.octets[3] == 0
    }

    /// Whether the address is `0.0.0.0`.
    pub fn is_unspecified(&self) -> (r: bool)
        ensures r == self.spec_is_unspecified(),
    {
        self.octets[0] == 0 && self.octets[1] == 0 && self.octets[2] == 0 && self.octets[3] == 0
    }

    /// Whether the address is in `127.0.0.0/8`.
    pub fn is_loopback(&self) -> (r: bool)
        ensures r == (self.octets[0] == 127),
    {
        self.octets[0] == 127
    }
}

/// Lower-case hexadecimal digit of a value below 16.
pub open spec fn hex_char(d: nat) -> char {
    if d < 10 { (48 + d) as char } else { (87 + d) as char }
}

/// Lower-case hexadecimal text of a natural number, without leading zeros (`{:x}`).
pub open spec fn hex_text(n: nat) -> Seq<char>
    decreases n,
{
    if n < 16 {
        seq![hex_char(n)]
    } else {
        hex_text(n / 16).push(hex_char(n % 16))
    }
}

fn push_hex(n: u64, out: &mut Vec<char>)
    ensures final(out)@ == old(out)@ + hex_text(n as nat),
    decreases n,
{
    if n >= 16 {
        push_hex(n / 16, out);
    }
    let d: u8 = (n % 16) as u8;
    let c: char = if d < 10 { (48 + d) as char } else { (87 + d) as char };
    out.push(c);
    proof {
        if n >= 16 {
            assert(old(out)@ + hex_text(n as nat) =~= (old(out)@ + hex_text((n / 16) as nat)).push(hex_char((n % 16) as nat)));
        } else {
            assert(old(out)@ + hex_text(n as nat) =~= old(out)@.push(hex_char(n as nat)));
        }
    }
}

/// Appends the lower-case hexadecimal text of `n`.
pub fn push_hex_pub(n: u64, out: &mut Vec<char>)
    ensures final(out)@ == old(out)@ + hex_text(n as nat),
{
    push_hex(n, out);
}

/// Segments in hexadecimal, separated by `:`.
pub open spec fn hex_join(segs: Seq<u16>) -> Seq<char>
    decreases segs.len(),
{
    if segs.len() == 0 {
        Seq::empty()
    } else if segs.len() == 1 {
        hex_text(segs[0] as nat)
    } else {
        hex_join(segs.drop_last()).push(':') + hex_text(segs.last() as nat)
    }
}

/// The first longest run of zero segments: scanning from `i` with the current run
/// `(cs, cl)` and the best so far `(bs, bl)`, as `(start, length)`.
pub open spec fn zero_run_from(segs: Seq<u16>, i: int, cs: int, cl: int, bs: int, bl: int) -> (int, int)
    decreases segs.len() - i,
{
    if i < 0 || i >= segs.len() {
        (bs, bl)
    } else if segs[i] == 0 {
        let ncs = if cl == 0 { i } else { cs };
        let ncl = cl + 1;
        if ncl > bl {
            zero_run_from(segs, i + 1, ncs, ncl, ncs, ncl)
        } else {
            zero_run_from(segs, i + 1, ncs, ncl, bs, bl)
        }
    } else {
        zero_run_from(segs, i + 1, 0, 0, bs, bl)
    }
}

/// Whether the address is an IPv4-mapped address `::ffff:a.b.c.d`.
pub open spec fn is_v4_mapped(segs: Seq<u16>) -> bool {
    segs[0] == 0 && segs[1] == 0 && segs[2] == 0 && segs[3] == 0 && segs[4] == 0 && segs[5] == 0xffff
}

/// RFC 5952 text of an IPv6 address, as `std::net::Ipv6Addr`'s `Display` writes it:
/// IPv4-mapped addresses as `::ffff:a.b.c.d`; otherwise hexadecimal segments with the
/// first longest run of two or more zero segments written as `::`.
pub open spec fn ipv6_text(ip: Ipv6) -> Seq<char> {
    let segs = ip.segments@;
    if is_v4_mapped(segs) {
        "::ffff:"@ + ipv4_text(Ipv4 { octets: [(segs[6] / 256) as u8, (segs[6] % 256) as u8,
            (segs[7] / 256) as u8, (segs[7] % 256) as u8] })
    } else {
        let (start, len) = zero_run_from(segs, 0, 0, 0, 0, 0);
        if len > 1 {
            hex_join(segs.take(start)) + seq![':', ':'] + hex_join(segs.subrange(start + len, 8))
        } else {
            hex_join(segs)
        }
    }
}

proof fn lemma_zero_run_bounds(segs: Seq<u16>, i: int, cs: int, cl: int, bs: int, bl: int)
    requires
        segs.len() == 8, 0 <= i <= 8, 0 <= bs, 0 <= bl, bs + bl <= i,
        0 <= cl, cl <= i, (cl > 0 ==> cs + cl == i && 0 <= cs),
    ensures
        ({ let (s, l) = zero_run_from(segs, i, cs, cl, bs, bl); 0 <= s && 0 <= l && s + l <= 8 }),
    decreases 8 - i,
{
    if i < 8 {
        if segs[i] == 0 {
            let ncs = if cl == 0 { i } else { cs };
            let ncl = cl + 1;
            if ncl > bl {
                lemma_zero_run_bounds(segs, i + 1, ncs, ncl, ncs, ncl);
            } else {
                lemma_zero_run_bounds(segs, i + 1, ncs, ncl, bs, bl);
            }
        } else {
            lemma_zero_run_bounds(segs, i + 1, 0, 0, bs, bl);
        }
    }
}

fn push_hex_join(segs: &[u16; 8], from: usize, to: usize, out: &mut Vec<char>)
    requires from <= to <= 8,
    ensures final(out)@ == old(out)@ + hex_join(segs@.subrange(from as int, to as int)),
{
    let mut i: usize = from;
    let ghost base = out@;
    assert(segs@.subrange(from as int, from as int) =~= Seq::<u16>::empty());
    while i < to
        invariant
            from <= i <= to <= 8,
            out@ == base + hex_join(segs@.subrange(from as int, i as int)),
        decreases to - i,
    {
        let ghost sub = segs@.subrange(from as int, i + 1);
        assert(sub.drop_last() =~= segs@.subrange(from as int, i as int));
        if i > from {
            out.push(':');
        }
        push_hex(segs[i] as u64, out);
        proof {
            if i == from {
                assert(sub.len() == 1);
                assert(out@ =~= base + hex_join(sub));
            } else {
                assert(out@ =~= base + hex_join(sub));
            }
        }
        i = i + 1;
    }
}

impl Ipv6 {
    /// The address with these segments.
    pub fn new(segments: [u16; 8]) -> (r: Self)
        ensures r.segments == segments,
    {
        Ipv6 { segments }
    }

    /// RFC 5952 text (as `std::net::Ipv6Addr`'s `Display`).
    pub fn to_text(&self) -> (r: String)
        ensures r@ == ipv6_text(*self),
    {
        let segs = self.segments;
        if segs[0] == 0 && segs[1] == 0 && segs[2] == 0 && segs[3] == 0 && segs[4] == 0 && segs[5] == 0xffff {
            let v4 = Ipv4 { octets: [(segs[6] / 256) as u8, (segs[6] % 256) as u8, (segs[7] / 256) as u8, (segs[7] % 256) as u8] };
            let t = v4.to_text();
            let mut v: Vec<char> = Vec::new();
            v.push(':');
            v.push(':');
            v.push('f');
            v.push('f');
            v.push('f');
            v.push('f');
            v.push(':');
            proof { reveal_strlit("::ffff:"); }
            assert(v@ =~= "::ffff:"@);
            let tc = crate::text::chars_of(t.as_str());
            let mut i: usize = 0;
            let ghost head = v@;
            while i < tc.len()
                invariant
                    i <= tc@.len(),
                    v@ == head + tc@.take(i as int),
                decreases tc@.len() - i,
            {
                v.push(tc[i]);
                assert(head + tc@.take(i + 1) =~= (head + tc@.take(i as int)).push(tc@[i as int]));
                i = i + 1;
            }
            assert(tc@.take(tc@.len() as int) =~= tc@);
            return string_of(v.as_slice());
        }
        let mut best_start: usize = 0;
        let mut best_len: usize = 0;
        let mut cur_start: usize = 0;
        let mut cur_len: usize = 0;
        let mut i: usize = 0;
        while i < 8
            invariant
                0 <= i <= 8,
                best_start + best_len <= i,
                cur_len <= i,
                cur_len > 0 ==> cur_start + cur_len == i,
                zero_run_from(segs@, 0, 0, 0, 0, 0) == zero_run_from(segs@, i as int, cur_start as int, cur_len as int, best_start as int, best_len as int),
            decreases 8 - i,
        {
            if segs[i] == 0 {
                if cur_len == 0 {
                    cur_start = i;
                }
                cur_len = cur_len + 1;
                if cur_len > best_len {
                    best_start = cur_start;
                    best_len = cur_len;
                }
            } else {
                cur_start = 0;
                cur_len = 0;
            }
            i = i + 1;
        }
        let mut v: Vec<char> = Vec::new();
        if best_len > 1 {
            push_hex_join(&segs, 0, best_start, &mut v);
            v.push(':');
            v.push(':');
            push_hex_join(&segs, best_start + best_len, 8, &mut v);
            assert(segs@.subrange(0, best_start as int) =~= segs@.take(best_start as int));
            assert(v@ =~= hex_join(segs@.take(best_start as int)) + seq![':', ':'] + hex_join(segs@.subrange(best_start + best_len, 8)));
        } else {
            push_hex_join(&segs, 0, 8, &mut v);
            assert(segs@.subrange(0, 8) =~= segs@);
        }
        string_of(v.as_slice())
    }

    /// Whether two addresses are equal.
    pub fn same(&self, other: &Self) -> (r: bool)
        ensures r == (*self == *other),
    {
        broadcast use vstd::array::group_array_axioms;
        let mut i: usize = 0;
        while i < 8
            invariant
                i <= 8,
                forall|k: int| 0 <= k < i ==> self.segments@[k] == other.segments@[k],
            decreases 8 - i,
        {
            if self.segments[i] != other.segments[i] {
                return false;
            }
            i = i + 1;
        }
        assert(self.segments =~= other.segments);
        true
    }

    /// In the global unicast block `2000::/3`.
    pub open spec fn spec_is_global_unicast(&self) -> bool {
        0x2000 <= self.segments[0] < 0x4000
    }

    /// Whether the address is a global unicast address (`2000::/3`).
    pub fn is_global_unicast(&self) -> (r: bool)
        ensures r == self.spec_is_global_unicast(),
    {
        0x2000 <= self.segments[0] && self.segments[0] < 0x4000
    }
}

} // verus!
