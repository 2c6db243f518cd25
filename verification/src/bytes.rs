//! Byte strings and fixed-width integers in network byte order.

use vstd::prelude::*;

verus! {

/// The two bytes of `x`, most significant first.
pub open spec fn be16(x: u16) -> Seq<u8> {
    seq![(x / 256) as u8, (x % 256) as u8]
}

/// The four bytes of `x`, most significant first.
pub open spec fn be32(x: u32) -> Seq<u8> {
    be16((x / 65536) as u16) + be16((x % 65536) as u16)
}

/// The eight bytes of `x`, most significant first.
pub open spec fn be64(x: u64) -> Seq<u8> {
    be32((x / 4294967296) as u32) + be32((x % 4294967296) as u32)
}

/// The number whose two bytes stand at `at` and `at + 1` of `b`.
pub open spec fn from_be16(b: Seq<u8>, at: int) -> u16 {
    (b[at] * 256 + b[at + 1]) as u16
}

/// The number whose four bytes start at `at` of `b`.
pub open spec fn from_be32(b: Seq<u8>, at: int) -> u32 {
    (from_be16(b, at) * 65536 + from_be16(b, at + 2)) as u32
}

/// The number whose eight bytes start at `at` of `b`.
pub open spec fn from_be64(b: Seq<u8>, at: int) -> u64 {
    (from_be32(b, at) * 4294967296 + from_be32(b, at + 4)) as u64
}

/// Reading back what `be16` wrote gives the number, wherever the bytes stand.
pub proof fn lemma_be16_read(b: Seq<u8>, at: int, x: u16)
    requires
        0 <= at,
        at + 2 <= b.len(),
        b.subrange(at, at + 2) == be16(x),
    ensures
        from_be16(b, at) == x,
{
    assert(b[at] == b.subrange(at, at + 2)[0]);
    assert(b[at + 1] == b.subrange(at, at + 2)[1]);
}

/// Reading back what `be32` wrote gives the number, wherever the bytes stand.
pub proof fn lemma_be32_read(b: Seq<u8>, at: int, x: u32)
    requires
        0 <= at,
        at + 4 <= b.len(),
        b.subrange(at, at + 4) == be32(x),
    ensures
        from_be32(b, at) == x,
{
    let hi = (x / 65536) as u16;
    let lo = (x % 65536) as u16;
    assert(b.subrange(at, at + 2) =~= b.subrange(at, at + 4).subrange(0, 2));
    assert(b.subrange(at + 2, at + 4) =~= b.subrange(at, at + 4).subrange(2, 4));
    assert(be32(x).subrange(0, 2) =~= be16(hi));
    assert(be32(x).subrange(2, 4) =~= be16(lo));
    lemma_be16_read(b, at, hi);
    lemma_be16_read(b, at + 2, lo);
}

/// Reading back what `be64` wrote gives the number, wherever the bytes stand.
pub proof fn lemma_be64_read(b: Seq<u8>, at: int, x: u64)
    requires
        0 <= at,
        at + 8 <= b.len(),
        b.subrange(at, at + 8) == be64(x),
    ensures
        from_be64(b, at) == x,
{
    let hi = (x / 4294967296) as u32;
    let lo = (x % 4294967296) as u32;
    assert(b.subrange(at, at + 4) =~= b.subrange(at, at + 8).subrange(0, 4));
    assert(b.subrange(at + 4, at + 8) =~= b.subrange(at, at + 8).subrange(4, 8));
    assert(be64(x).subrange(0, 4) =~= be32(hi));
    assert(be64(x).subrange(4, 8) =~= be32(lo));
    lemma_be32_read(b, at, hi);
    lemma_be32_read(b, at + 4, lo);
}

/// Writing the number that two bytes spell gives those two bytes again.
pub proof fn lemma_be16_write(b: Seq<u8>, at: int)
    requires
        0 <= at,
        at + 2 <= b.len(),
    ensures
        be16(from_be16(b, at)) == b.subrange(at, at + 2),
{
    assert(be16(from_be16(b, at)) =~= b.subrange(at, at + 2));
}

/// Writing the number that four bytes spell gives those four bytes again.
pub proof fn lemma_be32_write(b: Seq<u8>, at: int)
    requires
        0 <= at,
        at + 4 <= b.len(),
    ensures
        be32(from_be32(b, at)) == b.subrange(at, at + 4),
{
    lemma_be16_write(b, at);
    lemma_be16_write(b, at + 2);
    let x = from_be32(b, at);
    assert((x / 65536) as u16 == from_be16(b, at));
    assert((x % 65536) as u16 == from_be16(b, at + 2));
    assert(b.subrange(at, at + 2) + b.subrange(at + 2, at + 4) =~= b.subrange(at, at + 4));
}

/// Writing the number that eight bytes spell gives those eight bytes again.
pub proof fn lemma_be64_write(b: Seq<u8>, at: int)
    requires
        0 <= at,
        at + 8 <= b.len(),
    ensures
        be64(from_be64(b, at)) == b.subrange(at, at + 8),
{
    lemma_be32_write(b, at);
    lemma_be32_write(b, at + 4);
    let x = from_be64(b, at);
    assert((x / 4294967296) as u32 == from_be32(b, at));
    assert((x % 4294967296) as u32 == from_be32(b, at + 4));
    assert(b.subrange(at, at + 4) + b.subrange(at + 4, at + 8) =~= b.subrange(at, at + 8));
}

/// Appends the two bytes of `x` to `out`.
pub fn put_be16(out: &mut Vec<u8>, x: u16)
    ensures
        final(out)@ == old(out)@ + be16(x),
{
    out.push((x / 256) as u8);
    out.push((x % 256) as u8);
    assert(out@ =~= old(out)@ + be16(x));
}

/// Appends the four bytes of `x` to `out`.
pub fn put_be32(out: &mut Vec<u8>, x: u32)
    ensures
        final(out)@ == old(out)@ + be32(x),
{
    put_be16(out, (x / 65536) as u16);
    put_be16(out, (x % 65536) as u16);
    assert(out@ =~= old(out)@ + be32(x));
}

/// Appends the eight bytes of `x` to `out`.
pub fn put_be64(out: &mut Vec<u8>, x: u64)
    ensures
        final(out)@ == old(out)@ + be64(x),
{
    put_be32(out, (x / 4294967296) as u32);
    put_be32(out, (x % 4294967296) as u32);
    assert(out@ =~= old(out)@ + be64(x));
}

/// Reads the two bytes at `at`.
pub fn get_be16(b: &[u8], at: usize) -> (x: u16)
    requires
        at + 2 <= b.len(),
    ensures
        x == from_be16(b@, at as int),
{
    let hi: u16 = b[at] as u16;
    let lo: u16 = b[at + 1] as u16;
    hi * 256 + lo
}

/// Reads the four bytes at `at`.
pub fn get_be32(b: &[u8], at: usize) -> (x: u32)
    requires
        at + 4 <= b.len(),
    ensures
        x == from_be32(b@, at as int),
{
    let hi: u32 = get_be16(b, at) as u32;
    let lo: u32 = get_be16(b, at + 2) as u32;
    hi * 65536 + lo
}

/// Reads the eight bytes at `at`.
pub fn get_be64(b: &[u8], at: usize) -> (x: u64)
    requires
        at + 8 <= b.len(),
    ensures
        x == from_be64(b@, at as int),
{
    let hi: u64 = get_be32(b, at) as u64;
    let lo: u64 = get_be32(b, at + 4) as u64;
    hi * 4294967296 + lo
}

/// Appends every byte of `src` to `out`.
pub fn append_bytes(out: &mut Vec<u8>, src: &[u8])
    ensures
        final(out)@ == old(out)@ + src@,
{
    let mut i: usize = 0;
    while i < src.len()
        invariant
            i <= src@.len(),
            out@ == old(out)@ + src@.subrange(0, i as int),
        decreases src@.len() - i,
    {
        out.push(src[i]);
        i = i + 1;
        assert(out@ =~= old(out)@ + src@.subrange(0, i as int));
    }
    assert(src@.subrange(0, i as int) =~= src@);
}

/// A copy of the bytes of `src` from `from` up to `to`.
pub fn copy_range(src: &[u8], from: usize, to: usize) -> (out: Vec<u8>)
    requires
        from <= to,
        to <= src.len(),
    ensures
        out@ == src@.subrange(from as int, to as int),
{
    let mut out: Vec<u8> = Vec::new();
    let mut i: usize = from;
    while i < to
        invariant
            from <= i <= to,
            to <= src@.len(),
            out@ == src@.subrange(from as int, i as int),
        decreases to - i,
    {
        out.push(src[i]);
        i = i + 1;
        assert(out@ =~= src@.subrange(from as int, i as int));
    }
    out
}

/// Whether two byte strings hold the same bytes.
pub fn bytes_eq(a: &[u8], b: &[u8]) -> (same: bool)
    ensures
        same == (a@ == b@),
{
    if a.len() != b.len() {
        return false;
    }
    let mut i: usize = 0;
    while i < a.len()
        invariant
            i <= a@.len(),
            a@.len() == b@.len(),
            a@.subrange(0, i as int) == b@.subrange(0, i as int),
        decreases a@.len() - i,
    {
        if a[i] != b[i] {
            return false;
        }
        i = i + 1;
        assert(a@.subrange(0, i as int) =~= a@.subrange(0, i - 1).push(a@[i - 1]));
        assert(b@.subrange(0, i as int) =~= b@.subrange(0, i - 1).push(b@[i - 1]));
    }
    assert(a@.subrange(0, i as int) =~= a@);
    assert(b@.subrange(0, i as int) =~= b@);
    true
}

} // verus!
