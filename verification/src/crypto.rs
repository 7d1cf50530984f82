//! What requests are signed and authorised with: SHA-256 and SHA-1 (FIPS 180-4),
//! HMAC (RFC 2104) over each, lower-case hexadecimal and base64.
use vstd::prelude::*;
use crate::text::string_of;

verus! {

/// Addition modulo 2^32.
pub open spec fn wadd(a: u32, b: u32) -> u32 {
    if a + b > u32::MAX { (a + b - 0x1_0000_0000) as u32 } else { (a + b) as u32 }
}

/// Rotation to the right by `n` bits (0 < n < 32).
pub open spec fn rotr(x: u32, n: u32) -> u32 {
    (x >> n) | (x << ((32 - n) as u32))
}

fn add32(a: u32, b: u32) -> (r: u32)
    ensures r == wadd(a, b),
{
    a.wrapping_add(b)
}

fn rotr32(x: u32, n: u32) -> (r: u32)
    requires 0 < n < 32,
    ensures r == rotr(x, n),
{
    (x >> n) | (x << (32 - n))
}

/// The big-endian word at bytes `4i .. 4i + 4` of `b`.
pub open spec fn be_word(b: Seq<u8>, i: int) -> u32 {
    ((b[4 * i] as u32) << 24u32) | ((b[4 * i + 1] as u32) << 16u32) | ((b[4 * i + 2] as u32) << 8u32) | (b[4 * i + 3] as u32)
}

/// The four big-endian bytes of a word.
pub open spec fn be32(x: u32) -> Seq<u8> {
    seq![(x >> 24u32) as u8].push(((x >> 16u32) & 0xff) as u8).push(((x >> 8u32) & 0xff) as u8).push((x & 0xff) as u8)
}

/// The eight big-endian bytes of a 64-bit number.
pub open spec fn be64(x: u64) -> Seq<u8> {
    be32((x >> 32u64) as u32) + be32((x & 0xffff_ffff) as u32)
}

/// Number of zero bytes put between the `0x80` byte and the length.
pub open spec fn zero_fill(len: nat) -> nat {
    let r = len % 64;
    if r <= 55 { (55 - r) as nat } else { (119 - r) as nat }
}

/// The message's length in bits, modulo 2^64.
pub open spec fn bit_len(len: nat) -> u64 {
    ((len * 8) % 0x1_0000_0000_0000_0000) as u64
}

/// The message padded to whole 64-byte blocks: `0x80`, zeros, and its length in bits.
pub open spec fn md_pad(msg: Seq<u8>) -> Seq<u8> {
    msg.push(0x80u8) + Seq::new(zero_fill(msg.len()), |i: int| 0u8) + be64(bit_len(msg.len()))
}

proof fn lemma_pad_len(len: nat)
    ensures
        (len + 1 + zero_fill(len) + 8) % 64 == 0,
        len + 1 + zero_fill(len) + 8 >= 64,
{
    let q = len / 64;
    let r = len % 64;
    assert(len == 64 * q + r) by (nonlinear_arith)
        requires q == len / 64, r == len % 64;
    if r <= 55 {
        assert(len + 1 + zero_fill(len) + 8 == 64 * (q + 1)) by (nonlinear_arith)
            requires len == 64 * q + r, zero_fill(len) == 55 - r;
    } else {
        assert(len + 1 + zero_fill(len) + 8 == 64 * (q + 2)) by (nonlinear_arith)
            requires len == 64 * q + r, zero_fill(len) == 119 - r;
    }
    assert((64 * (q + 1)) % 64 == 0) by (nonlinear_arith);
    assert((64 * (q + 2)) % 64 == 0) by (nonlinear_arith);
}

fn push_be32(v: &mut Vec<u8>, x: u32)
    ensures final(v)@ == old(v)@ + be32(x),
{
    v.push((x >> 24) as u8);
    v.push(((x >> 16) & 0xff) as u8);
    v.push(((x >> 8) & 0xff) as u8);
    v.push((x & 0xff) as u8);
    assert(final(v)@ =~= old(v)@ + be32(x));
}

/// The padded message, whole 64-byte blocks.
pub fn pad_message(msg: &[u8]) -> (r: Vec<u8>)
    ensures
        r@ == md_pad(msg@),
        r@.len() % 64 == 0,
        r@.len() >= 64,
{
    let mut v: Vec<u8> = Vec::new();
    let mut i: usize = 0;
    while i < msg.len()
        invariant
            i <= msg@.len(),
            v@ == msg@.take(i as int),
        decreases msg@.len() - i,
    {
        v.push(msg[i]);
        assert(msg@.take(i + 1) =~= msg@.take(i as int).push(msg@[i as int]));
        i = i + 1;
    }
    assert(msg@.take(msg@.len() as int) =~= msg@);
    v.push(0x80);
    let r = msg.len() % 64;
    let zeros: usize = if r <= 55 { 55 - r } else { 119 - r };
    let ghost head = v@;
    let mut k: usize = 0;
    while k < zeros
        invariant
            k <= zeros,
            v@ == head + Seq::new(k as nat, |j: int| 0u8),
        decreases zeros - k,
    {
        v.push(0);
        assert(head + Seq::new((k + 1) as nat, |j: int| 0u8) =~= (head + Seq::new(k as nat, |j: int| 0u8)).push(0u8));
        k = k + 1;
    }
    let bits: u64 = (msg.len() as u64).wrapping_mul(8);
    assert(bits == bit_len(msg@.len()));
    push_be32(&mut v, (bits >> 32) as u32);
    push_be32(&mut v, (bits & 0xffff_ffff) as u32);
    proof {
        lemma_pad_len(msg@.len());
        assert(v@ =~= md_pad(msg@));
    }
    v
}

/// SHA-256's working state: eight words.
#[derive(Debug, Clone, Copy, PartialEq, Eq)]
pub struct Words8 {
    pub a: u32,
    pub b: u32,
    pub c: u32,
    pub d: u32,
    pub e: u32,
    pub f: u32,
    pub g: u32,
    pub h: u32,
}

/// The initial hash value of SHA-256.
pub open spec fn sha256_init() -> Words8 {
    Words8 {
        a: 0x6a09e667, b: 0xbb67ae85, c: 0x3c6ef372, d: 0xa54ff53a,
        e: 0x510e527f, f: 0x9b05688c, g: 0x1f83d9ab, h: 0x5be0cd19,
    }
}

/// The round constants of SHA-256.
pub open spec fn sha256_k(t: int) -> u32 {
    if t < 32 {
        if t < 16 {
            if t == 0 { 0x428a2f98 } else if t == 1 { 0x71374491 } else if t == 2 { 0xb5c0fbcf } else if t == 3 { 0xe9b5dba5 }
            else if t == 4 { 0x3956c25b } else if t == 5 { 0x59f111f1 } else if t == 6 { 0x923f82a4 } else if t == 7 { 0xab1c5ed5 }
            else if t == 8 { 0xd807aa98 } else if t == 9 { 0x12835b01 } else if t == 10 { 0x243185be } else if t == 11 { 0x550c7dc3 }
            else if t == 12 { 0x72be5d74 } else if t == 13 { 0x80deb1fe } else if t == 14 { 0x9bdc06a7 } else { 0xc19bf174 }
        } else {
            if t == 16 { 0xe49b69c1 } else if t == 17 { 0xefbe4786 } else if t == 18 { 0x0fc19dc6 } else if t == 19 { 0x240ca1cc }
            else if t == 20 { 0x2de92c6f } else if t == 21 { 0x4a7484aa } else if t == 22 { 0x5cb0a9dc } else if t == 23 { 0x76f988da }
            else if t == 24 { 0x983e5152 } else if t == 25 { 0xa831c66d } else if t == 26 { 0xb00327c8 } else if t == 27 { 0xbf597fc7 }
            else if t == 28 { 0xc6e00bf3 } else if t == 29 { 0xd5a79147 } else if t == 30 { 0x06ca6351 } else { 0x14292967 }
        }
    } else {
        if t < 48 {
            if t == 32 { 0x27b70a85 } else if t == 33 { 0x2e1b2138 } else if t == 34 { 0x4d2c6dfc } else if t == 35 { 0x53380d13 }
            else if t == 36 { 0x650a7354 } else if t == 37 { 0x766a0abb } else if t == 38 { 0x81c2c92e } else if t == 39 { 0x92722c85 }
            else if t == 40 { 0xa2bfe8a1 } else if t == 41 { 0xa81a664b } else if t == 42 { 0xc24b8b70 } else if t == 43 { 0xc76c51a3 }
            else if t == 44 { 0xd192e819 } else if t == 45 { 0xd6990624 } else if t == 46 { 0xf40e3585 } else { 0x106aa070 }
        } else {
            if t == 48 { 0x19a4c116 } else if t == 49 { 0x1e376c08 } else if t == 50 { 0x2748774c } else if t == 51 { 0x34b0bcb5 }
            else if t == 52 { 0x391c0cb3 } else if t == 53 { 0x4ed8aa4a } else if t == 54 { 0x5b9cca4f } else if t == 55 { 0x682e6ff3 }
            else if t == 56 { 0x748f82ee } else if t == 57 { 0x78a5636f } else if t == 58 { 0x84c87814 } else if t == 59 { 0x8cc70208 }
            else if t == 60 { 0x90befffa } else if t == 61 { 0xa4506ceb } else if t == 62 { 0xbef9a3f7 } else { 0xc67178f2 }
        }
    }
}

fn sha256_k_at(t: usize) -> (r: u32)
    requires t < 64,
    ensures r == sha256_k(t as int),
{
    if t < 32 {
        if t < 16 {
            if t == 0 { 0x428a2f98 } else if t == 1 { 0x71374491 } else if t == 2 { 0xb5c0fbcf } else if t == 3 { 0xe9b5dba5 }
            else if t == 4 { 0x3956c25b } else if t == 5 { 0x59f111f1 } else if t == 6 { 0x923f82a4 } else if t == 7 { 0xab1c5ed5 }
            else if t == 8 { 0xd807aa98 } else if t == 9 { 0x12835b01 } else if t == 10 { 0x243185be } else if t == 11 { 0x550c7dc3 }
            else if t == 12 { 0x72be5d74 } else if t == 13 { 0x80deb1fe } else if t == 14 { 0x9bdc06a7 } else { 0xc19bf174 }
        } else {
            if t == 16 { 0xe49b69c1 } else if t == 17 { 0xefbe4786 } else if t == 18 { 0x0fc19dc6 } else if t == 19 { 0x240ca1cc }
            else if t == 20 { 0x2de92c6f } else if t == 21 { 0x4a7484aa } else if t == 22 { 0x5cb0a9dc } else if t == 23 { 0x76f988da }
            else if t == 24 { 0x983e5152 } else if t == 25 { 0xa831c66d } else if t == 26 { 0xb00327c8 } else if t == 27 { 0xbf597fc7 }
            else if t == 28 { 0xc6e00bf3 } else if t == 29 { 0xd5a79147 } else if t == 30 { 0x06ca6351 } else { 0x14292967 }
        }
    } else {
        if t < 48 {
            if t == 32 { 0x27b70a85 } else if t == 33 { 0x2e1b2138 } else if t == 34 { 0x4d2c6dfc } else if t == 35 { 0x53380d13 }
            else if t == 36 { 0x650a7354 } else if t == 37 { 0x766a0abb } else if t == 38 { 0x81c2c92e } else if t == 39 { 0x92722c85 }
            else if t == 40 { 0xa2bfe8a1 } else if t == 41 { 0xa81a664b } else if t == 42 { 0xc24b8b70 } else if t == 43 { 0xc76c51a3 }
            else if t == 44 { 0xd192e819 } else if t == 45 { 0xd6990624 } else if t == 46 { 0xf40e3585 } else { 0x106aa070 }
        } else {
            if t == 48 { 0x19a4c116 } else if t == 49 { 0x1e376c08 } else if t == 50 { 0x2748774c } else if t == 51 { 0x34b0bcb5 }
            else if t == 52 { 0x391c0cb3 } else if t == 53 { 0x4ed8aa4a } else if t == 54 { 0x5b9cca4f } else if t == 55 { 0x682e6ff3 }
            else if t == 56 { 0x748f82ee } else if t == 57 { 0x78a5636f } else if t == 58 { 0x84c87814 } else if t == 59 { 0x8cc70208 }
            else if t == 60 { 0x90befffa } else if t == 61 { 0xa4506ceb } else if t == 62 { 0xbef9a3f7 } else { 0xc67178f2 }
        }
    }
}

/// σ0 of the message schedule.
pub open spec fn small_sigma0(x: u32) -> u32 {
    rotr(x, 7) ^ rotr(x, 18) ^ (x >> 3u32)
}

/// σ1 of the message schedule.
pub open spec fn small_sigma1(x: u32) -> u32 {
    rotr(x, 17) ^ rotr(x, 19) ^ (x >> 10u32)
}

/// Σ0 of the rounds.
pub open spec fn big_sigma0(x: u32) -> u32 {
    rotr(x, 2) ^ rotr(x, 13) ^ rotr(x, 22)
}

/// Σ1 of the rounds.
pub open spec fn big_sigma1(x: u32) -> u32 {
    rotr(x, 6) ^ rotr(x, 11) ^ rotr(x, 25)
}

/// The choice function.
pub open spec fn ch(x: u32, y: u32, z: u32) -> u32 {
    (x & y) ^ (!x & z)
}

/// The majority function.
pub open spec fn maj(x: u32, y: u32, z: u32) -> u32 {
    (x & y) ^ (x & z) ^ (y & z)
}

/// Word `t` of SHA-256's message schedule of a 64-byte block.
pub open spec fn sha256_w(block: Seq<u8>, t: nat) -> u32
    decreases t,
{
    if t < 16 {
        be_word(block, t as int)
    } else {
        wadd(wadd(wadd(small_sigma1(sha256_w(block, (t - 2) as nat)), sha256_w(block, (t - 7) as nat)),
            small_sigma0(sha256_w(block, (t - 15) as nat))), sha256_w(block, (t - 16) as nat))
    }
}

/// One round of SHA-256 with constant `k` and schedule word `w`.
pub open spec fn sha256_round(s: Words8, k: u32, w: u32) -> Words8 {
    let t1 = wadd(wadd(wadd(wadd(s.h, big_sigma1(s.e)), ch(s.e, s.f, s.g)), k), w);
    let t2 = wadd(big_sigma0(s.a), maj(s.a, s.b, s.c));
    Words8 { a: wadd(t1, t2), b: s.a, c: s.b, d: s.c, e: wadd(s.d, t1), f: s.e, g: s.f, h: s.g }
}

/// The working state after the first `t` rounds on a block.
pub open spec fn sha256_rounds(s: Words8, block: Seq<u8>, t: nat) -> Words8
    decreases t,
{
    if t == 0 {
        s
    } else {
        sha256_round(sha256_rounds(s, block, (t - 1) as nat), sha256_k(t - 1), sha256_w(block, (t - 1) as nat))
    }
}

/// The hash value after a block.
pub open spec fn sha256_compress(s: Words8, block: Seq<u8>) -> Words8 {
    let r = sha256_rounds(s, block, 64);
    Words8 {
        a: wadd(s.a, r.a), b: wadd(s.b, r.b), c: wadd(s.c, r.c), d: wadd(s.d, r.d),
        e: wadd(s.e, r.e), f: wadd(s.f, r.f), g: wadd(s.g, r.g), h: wadd(s.h, r.h),
    }
}

/// The hash value after the first `n` blocks of a padded message.
pub open spec fn sha256_blocks(padded: Seq<u8>, n: nat) -> Words8
    decreases n,
{
    if n == 0 {
        sha256_init()
    } else {
        sha256_compress(sha256_blocks(padded, (n - 1) as nat), padded.subrange(64 * (n - 1), 64 * n as int))
    }
}

/// The bytes of a SHA-256 hash value.
pub open spec fn words8_bytes(s: Words8) -> Seq<u8> {
    be32(s.a) + be32(s.b) + be32(s.c) + be32(s.d) + be32(s.e) + be32(s.f) + be32(s.g) + be32(s.h)
}

/// The SHA-256 digest of a message.
pub open spec fn sha256(msg: Seq<u8>) -> Seq<u8> {
    let p = md_pad(msg);
    words8_bytes(sha256_blocks(p, p.len() / 64))
}

fn word_at(p: &Vec<u8>, off: usize, i: usize) -> (r: u32)
    requires off + 64 <= p@.len(), i < 16,
    ensures r == be_word(p@.subrange(off as int, off + 64), i as int),
{
    let len = p.len();
    assert(off + 4 * i + 3 < len);
    let b0 = p[off + 4 * i] as u32;
    let b1 = p[off + 4 * i + 1] as u32;
    let b2 = p[off + 4 * i + 2] as u32;
    let b3 = p[off + 4 * i + 3] as u32;
    (b0 << 24) | (b1 << 16) | (b2 << 8) | b3
}

fn sha256_compress_at(s: Words8, p: &Vec<u8>, off: usize) -> (r: Words8)
    requires off + 64 <= p@.len(),
    ensures r == sha256_compress(s, p@.subrange(off as int, off + 64)),
{
    let ghost block = p@.subrange(off as int, off + 64);
    let mut w: Vec<u32> = Vec::new();
    let mut t: usize = 0;
    while t < 64
        invariant
            t <= 64,
            off + 64 <= p@.len(),
            block == p@.subrange(off as int, off + 64),
            w@.len() == t,
            forall|j: int| 0 <= j < t ==> w@[j] == sha256_w(block, j as nat),
        decreases 64 - t,
    {
        let x = if t < 16 {
            word_at(p, off, t)
        } else {
            let a = w[t - 2];
            let s1 = rotr32(a, 17) ^ rotr32(a, 19) ^ (a >> 10);
            let c = w[t - 15];
            let s0 = rotr32(c, 7) ^ rotr32(c, 18) ^ (c >> 3);
            add32(add32(add32(s1, w[t - 7]), s0), w[t - 16])
        };
        w.push(x);
        t = t + 1;
    }
    let mut st = s;
    let mut r: usize = 0;
    while r < 64
        invariant
            r <= 64,
            w@.len() == 64,
            forall|j: int| 0 <= j < 64 ==> w@[j] == sha256_w(block, j as nat),
            st == sha256_rounds(s, block, r as nat),
        decreases 64 - r,
    {
        let e = st.e;
        let a = st.a;
        let big1 = rotr32(e, 6) ^ rotr32(e, 11) ^ rotr32(e, 25);
        let chv = (e & st.f) ^ (!e & st.g);
        let t1 = add32(add32(add32(add32(st.h, big1), chv), sha256_k_at(r)), w[r]);
        let big0 = rotr32(a, 2) ^ rotr32(a, 13) ^ rotr32(a, 22);
        let mj = (a & st.b) ^ (a & st.c) ^ (st.b & st.c);
        let t2 = add32(big0, mj);
        st = Words8 { a: add32(t1, t2), b: a, c: st.b, d: st.c, e: add32(st.d, t1), f: e, g: st.f, h: st.g };
        r = r + 1;
    }
    Words8 {
        a: add32(s.a, st.a), b: add32(s.b, st.b), c: add32(s.c, st.c), d: add32(s.d, st.d),
        e: add32(s.e, st.e), f: add32(s.f, st.f), g: add32(s.g, st.g), h: add32(s.h, st.h),
    }
}

/// The SHA-256 digest of `msg`.
pub fn sha256_digest(msg: &[u8]) -> (r: Vec<u8>)
    ensures r@ == sha256(msg@), r@.len() == 32,
{
    let p = pad_message(msg);
    let n = p.len() / 64;
    let mut s = Words8 {
        a: 0x6a09e667, b: 0xbb67ae85, c: 0x3c6ef372, d: 0xa54ff53a,
        e: 0x510e527f, f: 0x9b05688c, g: 0x1f83d9ab, h: 0x5be0cd19,
    };
    let mut i: usize = 0;
    while i < n
        invariant
            i <= n,
            n == p@.len() / 64,
            p@.len() % 64 == 0,
            s == sha256_blocks(p@, i as nat),
        decreases n - i,
    {
        let plen = p.len();
        assert(64 * i + 64 <= plen) by (nonlinear_arith)
            requires i < n, n == plen / 64, plen % 64 == 0;
        s = sha256_compress_at(s, &p, 64 * i);
        assert(64 * (i + 1) == 64 * i + 64);
        i = i + 1;
    }
    let mut out: Vec<u8> = Vec::new();
    push_be32(&mut out, s.a);
    push_be32(&mut out, s.b);
    push_be32(&mut out, s.c);
    push_be32(&mut out, s.d);
    push_be32(&mut out, s.e);
    push_be32(&mut out, s.f);
    push_be32(&mut out, s.g);
    push_be32(&mut out, s.h);
    assert(out@ =~= words8_bytes(s));
    out
}

/// Rotation to the left by `n` bits (0 < n < 32).
pub open spec fn rotl(x: u32, n: u32) -> u32 {
    (x << n) | (x >> ((32 - n) as u32))
}

fn rotl32(x: u32, n: u32) -> (r: u32)
    requires 0 < n < 32,
    ensures r == rotl(x, n),
{
    (x << n) | (x >> (32 - n))
}

/// SHA-1's working state: five words.
#[derive(Debug, Clone, Copy, PartialEq, Eq)]
pub struct Words5 {
    pub a: u32,
    pub b: u32,
    pub c: u32,
    pub d: u32,
    pub e: u32,
}

/// The initial hash value of SHA-1.
pub open spec fn sha1_init() -> Words5 {
    Words5 { a: 0x67452301, b: 0xefcdab89, c: 0x98badcfe, d: 0x10325476, e: 0xc3d2e1f0 }
}

/// The constant of SHA-1's round `t`.
pub open spec fn sha1_k(t: int) -> u32 {
    if t < 20 { 0x5a827999 } else if t < 40 { 0x6ed9eba1 } else if t < 60 { 0x8f1bbcdc } else { 0xca62c1d6 }
}

/// The function of SHA-1's round `t`.
pub open spec fn sha1_f(t: int, x: u32, y: u32, z: u32) -> u32 {
    if t < 20 { ch(x, y, z) } else if 40 <= t < 60 { maj(x, y, z) } else { x ^ y ^ z }
}

/// Word `t` of SHA-1's message schedule of a 64-byte block.
pub open spec fn sha1_w(block: Seq<u8>, t: nat) -> u32
    decreases t,
{
    if t < 16 {
        be_word(block, t as int)
    } else {
        rotl(sha1_w(block, (t - 3) as nat) ^ sha1_w(block, (t - 8) as nat) ^ sha1_w(block, (t - 14) as nat)
            ^ sha1_w(block, (t - 16) as nat), 1)
    }
}

/// One round of SHA-1.
pub open spec fn sha1_round(s: Words5, t: int, w: u32) -> Words5 {
    let tmp = wadd(wadd(wadd(wadd(rotl(s.a, 5), sha1_f(t, s.b, s.c, s.d)), s.e), sha1_k(t)), w);
    Words5 { a: tmp, b: s.a, c: rotl(s.b, 30), d: s.c, e: s.d }
}

/// The working state after the first `t` rounds on a block.
pub open spec fn sha1_rounds(s: Words5, block: Seq<u8>, t: nat) -> Words5
    decreases t,
{
    if t == 0 {
        s
    } else {
        sha1_round(sha1_rounds(s, block, (t - 1) as nat), t - 1, sha1_w(block, (t - 1) as nat))
    }
}

/// The hash value after a block.
pub open spec fn sha1_compress(s: Words5, block: Seq<u8>) -> Words5 {
    let r = sha1_rounds(s, block, 80);
    Words5 { a: wadd(s.a, r.a), b: wadd(s.b, r.b), c: wadd(s.c, r.c), d: wadd(s.d, r.d), e: wadd(s.e, r.e) }
}

/// The hash value after the first `n` blocks of a padded message.
pub open spec fn sha1_blocks(padded: Seq<u8>, n: nat) -> Words5
    decreases n,
{
    if n == 0 {
        sha1_init()
    } else {
        sha1_compress(sha1_blocks(padded, (n - 1) as nat), padded.subrange(64 * (n - 1), 64 * n as int))
    }
}

/// The bytes of a SHA-1 hash value.
pub open spec fn words5_bytes(s: Words5) -> Seq<u8> {
    be32(s.a) + be32(s.b) + be32(s.c) + be32(s.d) + be32(s.e)
}

/// The SHA-1 digest of a message.
pub open spec fn sha1(msg: Seq<u8>) -> Seq<u8> {
    let p = md_pad(msg);
    words5_bytes(sha1_blocks(p, p.len() / 64))
}

fn sha1_compress_at(s: Words5, p: &Vec<u8>, off: usize) -> (r: Words5)
    requires off + 64 <= p@.len(),
    ensures r == sha1_compress(s, p@.subrange(off as int, off + 64)),
{
    let ghost block = p@.subrange(off as int, off + 64);
    let mut w: Vec<u32> = Vec::new();
    let mut t: usize = 0;
    while t < 80
        invariant
            t <= 80,
            off + 64 <= p@.len(),
            block == p@.subrange(off as int, off + 64),
            w@.len() == t,
            forall|j: int| 0 <= j < t ==> w@[j] == sha1_w(block, j as nat),
        decreases 80 - t,
    {
        let x = if t < 16 {
            word_at(p, off, t)
        } else {
            rotl32(w[t - 3] ^ w[t - 8] ^ w[t - 14] ^ w[t - 16], 1)
        };
        w.push(x);
        t = t + 1;
    }
    let mut st = s;
    let mut r: usize = 0;
    while r < 80
        invariant
            r <= 80,
            w@.len() == 80,
            forall|j: int| 0 <= j < 80 ==> w@[j] == sha1_w(block, j as nat),
            st == sha1_rounds(s, block, r as nat),
        decreases 80 - r,
    {
        let f = if r < 20 {
            (st.b & st.c) ^ (!st.b & st.d)
        } else if 40 <= r && r < 60 {
            (st.b & st.c) ^ (st.b & st.d) ^ (st.c & st.d)
        } else {
            st.b ^ st.c ^ st.d
        };
        let k: u32 = if r < 20 { 0x5a827999 } else if r < 40 { 0x6ed9eba1 } else if r < 60 { 0x8f1bbcdc } else { 0xca62c1d6 };
        let tmp = add32(add32(add32(add32(rotl32(st.a, 5), f), st.e), k), w[r]);
        st = Words5 { a: tmp, b: st.a, c: rotl32(st.b, 30), d: st.c, e: st.d };
        r = r + 1;
    }
    Words5 { a: add32(s.a, st.a), b: add32(s.b, st.b), c: add32(s.c, st.c), d: add32(s.d, st.d), e: add32(s.e, st.e) }
}

/// The SHA-1 digest of `msg`.
pub fn sha1_digest(msg: &[u8]) -> (r: Vec<u8>)
    ensures r@ == sha1(msg@),
{
    let p = pad_message(msg);
    let n = p.len() / 64;
    let mut s = Words5 { a: 0x67452301, b: 0xefcdab89, c: 0x98badcfe, d: 0x10325476, e: 0xc3d2e1f0 };
    let mut i: usize = 0;
    while i < n
        invariant
            i <= n,
            n == p@.len() / 64,
            p@.len() % 64 == 0,
            s == sha1_blocks(p@, i as nat),
        decreases n - i,
    {
        let plen = p.len();
        assert(64 * i + 64 <= plen) by (nonlinear_arith)
            requires i < n, n == plen / 64, plen % 64 == 0;
        s = sha1_compress_at(s, &p, 64 * i);
        assert(64 * (i + 1) == 64 * i + 64);
        i = i + 1;
    }
    let mut out: Vec<u8> = Vec::new();
    push_be32(&mut out, s.a);
    push_be32(&mut out, s.b);
    push_be32(&mut out, s.c);
    push_be32(&mut out, s.d);
    push_be32(&mut out, s.e);
    assert(out@ =~= words5_bytes(s));
    out
}

/// A key of at most one block, filled with zeros to 64 bytes.
pub open spec fn key_block(k: Seq<u8>) -> Seq<u8> {
    k + Seq::new((64 - k.len()) as nat, |i: int| 0u8)
}

/// Each byte of a 64-byte block xor-ed with `pad`.
pub open spec fn xor_block(kb: Seq<u8>, pad: u8) -> Seq<u8> {
    Seq::new(64, |i: int| kb[i] ^ pad)
}

/// HMAC-SHA-256 of `msg` under `key` (RFC 2104): a key longer than a block is hashed first.
pub open spec fn hmac256(key: Seq<u8>, msg: Seq<u8>) -> Seq<u8> {
    let kb = key_block(if key.len() > 64 { sha256(key) } else { key });
    sha256(xor_block(kb, 0x5c) + sha256(xor_block(kb, 0x36) + msg))
}

/// HMAC-SHA-1 of `msg` under `key` (RFC 2104).
pub open spec fn hmac1(key: Seq<u8>, msg: Seq<u8>) -> Seq<u8> {
    let kb = key_block(if key.len() > 64 { sha1(key) } else { key });
    sha1(xor_block(kb, 0x5c) + sha1(xor_block(kb, 0x36) + msg))
}

fn fill_key_block(k: &[u8]) -> (r: Vec<u8>)
    requires k@.len() <= 64,
    ensures r@ == key_block(k@),
{
    let mut v: Vec<u8> = Vec::new();
    let mut i: usize = 0;
    while i < 64
        invariant
            i <= 64,
            k@.len() <= 64,
            v@.len() == i,
            forall|j: int| 0 <= j < i ==> v@[j] == key_block(k@)[j],
        decreases 64 - i,
    {
        if i < k.len() {
            v.push(k[i]);
        } else {
            v.push(0);
        }
        i = i + 1;
    }
    assert(v@ =~= key_block(k@));
    v
}

fn xor_then(kb: &Vec<u8>, pad: u8, msg: &[u8]) -> (r: Vec<u8>)
    requires kb@.len() == 64,
    ensures r@ == xor_block(kb@, pad) + msg@,
{
    let mut v: Vec<u8> = Vec::new();
    let mut i: usize = 0;
    while i < 64
        invariant
            i <= 64,
            kb@.len() == 64,
            v@ == xor_block(kb@, pad).take(i as int),
        decreases 64 - i,
    {
        v.push(kb[i] ^ pad);
        assert(xor_block(kb@, pad).take(i + 1) =~= xor_block(kb@, pad).take(i as int).push(kb@[i as int] ^ pad));
        i = i + 1;
    }
    assert(xor_block(kb@, pad).take(64) =~= xor_block(kb@, pad));
    let mut j: usize = 0;
    while j < msg.len()
        invariant
            j <= msg@.len(),
            v@ == xor_block(kb@, pad) + msg@.take(j as int),
        decreases msg@.len() - j,
    {
        v.push(msg[j]);
        assert(msg@.take(j + 1) =~= msg@.take(j as int).push(msg@[j as int]));
        j = j + 1;
    }
    assert(msg@.take(msg@.len() as int) =~= msg@);
    v
}

/// HMAC-SHA-256 of `msg` under `key`.
pub fn hmac_sha256(key: &[u8], msg: &[u8]) -> (r: Vec<u8>)
    ensures r@ == hmac256(key@, msg@), r@.len() == 32,
{
    let kb = if key.len() > 64 {
        let d = sha256_digest(key);
        fill_key_block(d.as_slice())
    } else {
        fill_key_block(key)
    };
    let inner_msg = xor_then(&kb, 0x36, msg);
    let inner = sha256_digest(inner_msg.as_slice());
    let outer_msg = xor_then(&kb, 0x5c, inner.as_slice());
    sha256_digest(outer_msg.as_slice())
}

/// HMAC-SHA-1 of `msg` under `key`.
pub fn hmac_sha1(key: &[u8], msg: &[u8]) -> (r: Vec<u8>)
    ensures r@ == hmac1(key@, msg@),
{
    let kb = if key.len() > 64 {
        let d = sha1_digest(key);
        fill_key_block(d.as_slice())
    } else {
        fill_key_block(key)
    };
    let inner_msg = xor_then(&kb, 0x36, msg);
    let inner = sha1_digest(inner_msg.as_slice());
    let outer_msg = xor_then(&kb, 0x5c, inner.as_slice());
    sha1_digest(outer_msg.as_slice())
}

/// The lower-case hexadecimal digit of a nibble.
pub open spec fn hex_digit(n: u8) -> char {
    if n < 10 { ((48 + n) as u8) as char } else { ((87 + n) as u8) as char }
}

/// Lower-case hexadecimal of bytes, two digits per byte, high nibble first.
pub open spec fn lower_hex(b: Seq<u8>) -> Seq<char>
    decreases b.len(),
{
    if b.len() == 0 {
        Seq::empty()
    } else {
        lower_hex(b.drop_last()) + seq![hex_digit(b.last() >> 4u8), hex_digit(b.last() & 15u8)]
    }
}

fn hex_digit_of(n: u8) -> (c: char)
    requires n < 16,
    ensures c == hex_digit(n),
{
    if n < 10 { (48 + n) as char } else { (87 + n) as char }
}

/// Lower-case hexadecimal of `bytes`.
pub fn hex_encode(bytes: &[u8]) -> (r: String)
    ensures r@ == lower_hex(bytes@),
{
    let mut v: Vec<char> = Vec::new();
    let mut i: usize = 0;
    while i < bytes.len()
        invariant
            i <= bytes@.len(),
            v@ == lower_hex(bytes@.take(i as int)),
        decreases bytes@.len() - i,
    {
        let b = bytes[i];
        assert(b >> 4u8 < 16) by (bit_vector);
        assert(b & 15u8 < 16) by (bit_vector);
        v.push(hex_digit_of(b >> 4));
        v.push(hex_digit_of(b & 15));
        assert(bytes@.take(i + 1).drop_last() =~= bytes@.take(i as int));
        i = i + 1;
    }
    assert(bytes@.take(bytes@.len() as int) =~= bytes@);
    string_of(v.as_slice())
}

/// Lower-case hexadecimal SHA-256 of `data`.
pub fn sha256_hex(data: &[u8]) -> (r: String)
    ensures r@ == lower_hex(sha256(data@)),
{
    let d = sha256_digest(data);
    hex_encode(d.as_slice())
}

/// Lower-case hexadecimal HMAC-SHA-256 of `msg` under `key`.
pub fn hmac_sha256_hex(key: &[u8], msg: &[u8]) -> (r: String)
    ensures r@ == lower_hex(hmac256(key@, msg@)),
{
    let d = hmac_sha256(key, msg);
    hex_encode(d.as_slice())
}


/// What `base64::engine::general_purpose::STANDARD.encode` returns for `bytes`.
pub uninterp spec fn base64_standard(bytes: Seq<u8>) -> Seq<char>;

/// Calls `base64::Engine::encode` with the standard engine (standard alphabet, padded)
/// on `bytes`. The contract names the result; it states nothing of the
/// encoding itself. The crate computes the output length first and panics where it does
/// not fit in `usize`; inputs of at most half the address space are far below that.
#[verifier::external_body]
pub(crate) fn base64_encode(bytes: &[u8]) -> (r: String)
    requires bytes@.len() <= usize::MAX / 2,
    ensures r@ == base64_standard(bytes@),
{
    base64::Engine::encode(&base64::engine::general_purpose::STANDARD, bytes)
}

/// Base64 (standard alphabet, padded) of the HMAC-SHA-1 of `msg` under `key`.
pub fn hmac_sha1_base64(key: &[u8], msg: &[u8]) -> (r: String)
    ensures r@ == base64_standard(hmac1(key@, msg@)),
{
    let d = hmac_sha1(key, msg);
    assert(d@.len() == 20);
    base64_encode(d.as_slice())
}

} // verus!
