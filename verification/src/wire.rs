//! Big-endian integer encoding and a few byte-buffer helpers shared by all
//! wire formats of the library.

use vstd::prelude::*;

verus! {

/// The two big-endian bytes of `x`.
pub open spec fn be16(x: u16) -> Seq<u8> {
    seq![(x >> 8u16) as u8, x as u8]
}

/// The four big-endian bytes of `x`.
pub open spec fn be32(x: u32) -> Seq<u8> {
    seq![(x >> 24u32) as u8, (x >> 16u32) as u8, (x >> 8u32) as u8, x as u8]
}

/// The eight big-endian bytes of `x`.
pub open spec fn be64(x: u64) -> Seq<u8> {
    seq![
        (x >> 56u64) as u8,
        (x >> 48u64) as u8,
        (x >> 40u64) as u8,
        (x >> 32u64) as u8,
        (x >> 24u64) as u8,
        (x >> 16u64) as u8,
        (x >> 8u64) as u8,
        x as u8,
    ]
}

/// The number whose big-endian encoding is the first two bytes of `s`.
pub open spec fn from_be16(s: Seq<u8>) -> u16 {
    ((s[0] as u16) << 8u16) | (s[1] as u16)
}

/// The number whose big-endian encoding is the first four bytes of `s`.
pub open spec fn from_be32(s: Seq<u8>) -> u32 {
    ((s[0] as u32) << 24u32) | ((s[1] as u32) << 16u32) | ((s[2] as u32) << 8u32) | (s[3] as u32)
}

/// The number whose big-endian encoding is the first eight bytes of `s`.
pub open spec fn from_be64(s: Seq<u8>) -> u64 {
    ((s[0] as u64) << 56u64) | ((s[1] as u64) << 48u64) | ((s[2] as u64) << 40u64) | ((
    s[3] as u64) << 32u64) | ((s[4] as u64) << 24u64) | ((s[5] as u64) << 16u64) | ((
    s[6] as u64) << 8u64) | (s[7] as u64)
}

proof fn lemma_bv16(x: u16)
    ensures
        ((((x >> 8u16) as u8) as u16) << 8u16) | ((x as u8) as u16) == x,
{
    assert(((((x >> 8u16) as u8) as u16) << 8u16) | ((x as u8) as u16) == x) by (bit_vector);
}

proof fn lemma_bv32(x: u32)
    ensures
        ((((x >> 24u32) as u8) as u32) << 24u32) | ((((x >> 16u32) as u8) as u32) << 16u32) | ((((
        x >> 8u32) as u8) as u32) << 8u32) | ((x as u8) as u32) == x,
{
    assert(((((x >> 24u32) as u8) as u32) << 24u32) | ((((x >> 16u32) as u8) as u32) << 16u32)
        | ((((x >> 8u32) as u8) as u32) << 8u32) | ((x as u8) as u32) == x) by (bit_vector);
}

proof fn lemma_bv64(x: u64)
    ensures
        ((((x >> 56u64) as u8) as u64) << 56u64) | ((((x >> 48u64) as u8) as u64) << 48u64) | ((((
        x >> 40u64) as u8) as u64) << 40u64) | ((((x >> 32u64) as u8) as u64) << 32u64) | ((((x
            >> 24u64) as u8) as u64) << 24u64) | ((((x >> 16u64) as u8) as u64) << 16u64) | ((((x
            >> 8u64) as u8) as u64) << 8u64) | ((x as u8) as u64) == x,
{
    assert(((((x >> 56u64) as u8) as u64) << 56u64) | ((((x >> 48u64) as u8) as u64) << 48u64)
        | ((((x >> 40u64) as u8) as u64) << 40u64) | ((((x >> 32u64) as u8) as u64) << 32u64) | ((((
    x >> 24u64) as u8) as u64) << 24u64) | ((((x >> 16u64) as u8) as u64) << 16u64) | ((((x
        >> 8u64) as u8) as u64) << 8u64) | ((x as u8) as u64) == x) by (bit_vector);
}

/// Reading back a big-endian `u16` gives the number that was written.
pub proof fn lemma_be16_roundtrip(x: u16)
    ensures
        be16(x).len() == 2,
        from_be16(be16(x)) == x,
{
    lemma_bv16(x);
}

/// Reading back a big-endian `u32` gives the number that was written.
pub proof fn lemma_be32_roundtrip(x: u32)
    ensures
        be32(x).len() == 4,
        from_be32(be32(x)) == x,
{
    lemma_bv32(x);
}

/// Reading back a big-endian `u64` gives the number that was written.
pub proof fn lemma_be64_roundtrip(x: u64)
    ensures
        be64(x).len() == 8,
        from_be64(be64(x)) == x,
{
    lemma_bv64(x);
}

/// Different numbers have different big-endian encodings.
pub proof fn lemma_be64_injective(x: u64, y: u64)
    requires
        be64(x) == be64(y),
    ensures
        x == y,
{
    lemma_be64_roundtrip(x);
    lemma_be64_roundtrip(y);
}

/// Appends the bytes of `src` to `buf`.
pub fn push_bytes(buf: &mut Vec<u8>, src: &[u8])
    ensures
        final(buf)@ == old(buf)@ + src@,
{
    let ghost start = buf@;
    let mut i: usize = 0;
    while i < src.len()
        invariant
            i <= src@.len(),
            buf@ == start + src@.take(i as int),
        decreases src@.len() - i,
    {
        buf.push(src[i]);
        i = i + 1;
        assert(src@.take(i as int) == src@.take((i - 1) as int).push(src@[i - 1]));
    }
    assert(src@.take(src@.len() as int) == src@);
}

/// Appends the big-endian encoding of `x` to `buf`.
pub fn push_u16_be(buf: &mut Vec<u8>, x: u16)
    ensures
        final(buf)@ == old(buf)@ + be16(x),
{
    buf.push((x >> 8u16) as u8);
    buf.push(x as u8);
    assert(buf@ == old(buf)@ + be16(x));
}

/// Appends the big-endian encoding of `x` to `buf`.
pub fn push_u32_be(buf: &mut Vec<u8>, x: u32)
    ensures
        final(buf)@ == old(buf)@ + be32(x),
{
    buf.push((x >> 24u32) as u8);
    buf.push((x >> 16u32) as u8);
    buf.push((x >> 8u32) as u8);
    buf.push(x as u8);
    assert(buf@ == old(buf)@ + be32(x));
}

/// Appends the big-endian encoding of `x` to `buf`.
pub fn push_u64_be(buf: &mut Vec<u8>, x: u64)
    ensures
        final(buf)@ == old(buf)@ + be64(x),
{
    buf.push((x >> 56u64) as u8);
    buf.push((x >> 48u64) as u8);
    buf.push((x >> 40u64) as u8);
    buf.push((x >> 32u64) as u8);
    buf.push((x >> 24u64) as u8);
    buf.push((x >> 16u64) as u8);
    buf.push((x >> 8u64) as u8);
    buf.push(x as u8);
    assert(buf@ == old(buf)@ + be64(x));
}

/// Reads the big-endian `u16` stored at `pos`, or `None` when fewer than two
/// bytes are left there.
pub fn read_u16_be(s: &[u8], pos: usize) -> (r: Option<u16>)
    requires
        pos <= s@.len(),
    ensures
        r is Some <==> pos + 2 <= s@.len(),
        r matches Some(v) ==> v == from_be16(s@.subrange(pos as int, pos + 2)),
{
    if s.len() - pos < 2 {
        return None;
    }
    let ghost w = s@.subrange(pos as int, pos + 2);
    Some(((s[pos] as u16) << 8u16) | (s[pos + 1] as u16))
}

/// Reads the big-endian `u32` stored at `pos`, or `None` when fewer than four
/// bytes are left there.
pub fn read_u32_be(s: &[u8], pos: usize) -> (r: Option<u32>)
    requires
        pos <= s@.len(),
    ensures
        r is Some <==> pos + 4 <= s@.len(),
        r matches Some(v) ==> v == from_be32(s@.subrange(pos as int, pos + 4)),
{
    if s.len() - pos < 4 {
        return None;
    }
    let ghost w = s@.subrange(pos as int, pos + 4);
    Some(((s[pos] as u32) << 24u32) | ((s[pos + 1] as u32) << 16u32) | ((s[pos + 2] as u32)
        << 8u32) | (s[pos + 3] as u32))
}

/// Reads the big-endian `u64` stored at `pos`, or `None` when fewer than eight
/// bytes are left there.
pub fn read_u64_be(s: &[u8], pos: usize) -> (r: Option<u64>)
    requires
        pos <= s@.len(),
    ensures
        r is Some <==> pos + 8 <= s@.len(),
        r matches Some(v) ==> v == from_be64(s@.subrange(pos as int, pos + 8)),
{
    if s.len() - pos < 8 {
        return None;
    }
    let ghost w = s@.subrange(pos as int, pos + 8);
    Some(((s[pos] as u64) << 56u64) | ((s[pos + 1] as u64) << 48u64) | ((s[pos + 2] as u64)
        << 40u64) | ((s[pos + 3] as u64) << 32u64) | ((s[pos + 4] as u64) << 24u64) | ((s[pos
        + 5] as u64) << 16u64) | ((s[pos + 6] as u64) << 8u64) | (s[pos + 7] as u64))
}

/// Copies the `len` bytes that start at `pos`.
pub fn copy_range(s: &[u8], pos: usize, len: usize) -> (r: Vec<u8>)
    requires
        pos + len <= s@.len(),
    ensures
        r@ == s@.subrange(pos as int, pos + len),
{
    let mut out: Vec<u8> = Vec::new();
    let n = s.len();
    assert(n == s@.len());
    push_bytes(&mut out, &s[pos..pos + len]);
    out
}

} // verus!
