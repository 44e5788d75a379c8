//! Little-endian fixed-width integers on byte sequences.
use vstd::prelude::*;
use vstd::slice::{slice_subrange, slice_to_vec};

verus! {

/// The two bytes of `x`, least significant first.
pub open spec fn u16_le(x: u16) -> Seq<u8> {
    seq![(x & 0xff) as u8, ((x >> 8u16) & 0xff) as u8]
}

/// The four bytes of `x`, least significant first.
pub open spec fn u32_le(x: u32) -> Seq<u8> {
    seq![
        (x & 0xff) as u8,
        ((x >> 8u32) & 0xff) as u8,
        ((x >> 16u32) & 0xff) as u8,
        ((x >> 24u32) & 0xff) as u8,
    ]
}

/// The eight bytes of `x`, least significant first.
pub open spec fn u64_le(x: u64) -> Seq<u8> {
    u32_le((x & 0xffff_ffff) as u32) + u32_le((x >> 32u64) as u32)
}

/// The `u16` stored little-endian at `b[i..i + 2]`.
pub open spec fn u16_at(b: Seq<u8>, i: int) -> u16 {
    (b[i] as u16) | ((b[i + 1] as u16) << 8u16)
}

/// The `u32` stored little-endian at `b[i..i + 4]`.
pub open spec fn u32_at(b: Seq<u8>, i: int) -> u32 {
    (b[i] as u32) | ((b[i + 1] as u32) << 8u32) | ((b[i + 2] as u32) << 16u32) | ((b[i + 3] as u32)
        << 24u32)
}

/// The `u64` stored little-endian at `b[i..i + 8]`.
pub open spec fn u64_at(b: Seq<u8>, i: int) -> u64 {
    (u32_at(b, i) as u64) | ((u32_at(b, i + 4) as u64) << 32u64)
}

proof fn lemma_u16_bits(x: u16)
    ensures
        ((x & 0xff) as u8 as u16) | ((((x >> 8u16) & 0xff) as u8 as u16) << 8u16) == x,
{
    assert(((x & 0xff) as u8 as u16) | ((((x >> 8u16) & 0xff) as u8 as u16) << 8u16) == x)
        by (bit_vector);
}

proof fn lemma_u32_bits(x: u32)
    ensures
        ((x & 0xff) as u8 as u32) | ((((x >> 8u32) & 0xff) as u8 as u32) << 8u32) | ((((x
            >> 16u32) & 0xff) as u8 as u32) << 16u32) | ((((x >> 24u32) & 0xff) as u8 as u32)
            << 24u32) == x,
{
    assert(((x & 0xff) as u8 as u32) | ((((x >> 8u32) & 0xff) as u8 as u32) << 8u32) | ((((x
        >> 16u32) & 0xff) as u8 as u32) << 16u32) | ((((x >> 24u32) & 0xff) as u8 as u32)
        << 24u32) == x) by (bit_vector);
}

proof fn lemma_u64_bits(x: u64)
    ensures
        (((x & 0xffff_ffff) as u32) as u64) | ((((x >> 32u64) as u32) as u64) << 32u64) == x,
{
    assert((((x & 0xffff_ffff) as u32) as u64) | ((((x >> 32u64) as u32) as u64) << 32u64) == x)
        by (bit_vector);
}

/// Reading back the bytes of a `u16` wherever they stand gives the value.
pub proof fn lemma_u16_round_trip(b: Seq<u8>, i: int, x: u16)
    requires
        0 <= i,
        i + 2 <= b.len(),
        b.subrange(i, i + 2) == u16_le(x),
    ensures
        u16_at(b, i) == x,
{
    assert(b[i] == b.subrange(i, i + 2)[0]);
    assert(b[i + 1] == b.subrange(i, i + 2)[1]);
    lemma_u16_bits(x);
}

/// Reading back the bytes of a `u32` wherever they stand gives the value.
pub proof fn lemma_u32_round_trip(b: Seq<u8>, i: int, x: u32)
    requires
        0 <= i,
        i + 4 <= b.len(),
        b.subrange(i, i + 4) == u32_le(x),
    ensures
        u32_at(b, i) == x,
{
    assert(b[i] == b.subrange(i, i + 4)[0]);
    assert(b[i + 1] == b.subrange(i, i + 4)[1]);
    assert(b[i + 2] == b.subrange(i, i + 4)[2]);
    assert(b[i + 3] == b.subrange(i, i + 4)[3]);
    lemma_u32_bits(x);
}

/// Reading back the bytes of a `u64` wherever they stand gives the value.
pub proof fn lemma_u64_round_trip(b: Seq<u8>, i: int, x: u64)
    requires
        0 <= i,
        i + 8 <= b.len(),
        b.subrange(i, i + 8) == u64_le(x),
    ensures
        u64_at(b, i) == x,
{
    let lo = (x & 0xffff_ffff) as u32;
    let hi = (x >> 32u64) as u32;
    assert(b.subrange(i, i + 4) =~= b.subrange(i, i + 8).subrange(0, 4));
    assert(b.subrange(i + 4, i + 8) =~= b.subrange(i, i + 8).subrange(4, 8));
    assert(u64_le(x).subrange(0, 4) =~= u32_le(lo));
    assert(u64_le(x).subrange(4, 8) =~= u32_le(hi));
    lemma_u32_round_trip(b, i, lo);
    lemma_u32_round_trip(b, i + 4, hi);
    lemma_u64_bits(x);
}

/// Appends `x` as two little-endian bytes.
pub fn put_u16(out: &mut Vec<u8>, x: u16)
    ensures
        final(out)@ == old(out)@ + u16_le(x),
{
    out.push((x & 0xff) as u8);
    out.push(((x >> 8u16) & 0xff) as u8);
    assert(final(out)@ =~= old(out)@ + u16_le(x));
}

/// Appends `x` as four little-endian bytes.
pub fn put_u32(out: &mut Vec<u8>, x: u32)
    ensures
        final(out)@ == old(out)@ + u32_le(x),
{
    out.push((x & 0xff) as u8);
    out.push(((x >> 8u32) & 0xff) as u8);
    out.push(((x >> 16u32) & 0xff) as u8);
    out.push(((x >> 24u32) & 0xff) as u8);
    assert(final(out)@ =~= old(out)@ + u32_le(x));
}

/// Appends `x` as eight little-endian bytes.
pub fn put_u64(out: &mut Vec<u8>, x: u64)
    ensures
        final(out)@ == old(out)@ + u64_le(x),
{
    let ghost start = out@;
    put_u32(out, (x & 0xffff_ffff) as u32);
    put_u32(out, (x >> 32u64) as u32);
    assert(out@ =~= start + u64_le(x));
}

/// Appends every byte of `data`.
pub fn put_bytes(out: &mut Vec<u8>, data: &[u8])
    ensures
        final(out)@ == old(out)@ + data@,
{
    let ghost start = out@;
    let mut i: usize = 0;
    while i < data.len()
        invariant
            i <= data@.len(),
            out@ == start + data@.subrange(0, i as int),
        decreases data@.len() - i,
    {
        out.push(data[i]);
        i = i + 1;
        assert(out@ =~= start + data@.subrange(0, i as int));
    }
    assert(data@.subrange(0, data@.len() as int) =~= data@);
}

/// The `u16` stored little-endian at `b[pos..pos + 2]`.
pub fn get_u16(b: &[u8], pos: usize) -> (r: u16)
    requires
        pos + 2 <= b@.len(),
    ensures
        r == u16_at(b@, pos as int),
{
    (b[pos] as u16) | ((b[pos + 1] as u16) << 8u16)
}

/// The `u32` stored little-endian at `b[pos..pos + 4]`.
pub fn get_u32(b: &[u8], pos: usize) -> (r: u32)
    requires
        pos + 4 <= b@.len(),
    ensures
        r == u32_at(b@, pos as int),
{
    (b[pos] as u32) | ((b[pos + 1] as u32) << 8u32) | ((b[pos + 2] as u32) << 16u32) | ((b[pos
        + 3] as u32) << 24u32)
}

/// The `u64` stored little-endian at `b[pos..pos + 8]`.
pub fn get_u64(b: &[u8], pos: usize) -> (r: u64)
    requires
        pos + 8 <= b@.len(),
    ensures
        r == u64_at(b@, pos as int),
{
    let _n = b.len();
    (get_u32(b, pos) as u64) | ((get_u32(b, pos + 4) as u64) << 32u64)
}

/// A copy of `b[start..end]`.
pub fn get_bytes(b: &[u8], start: usize, end: usize) -> (r: Vec<u8>)
    requires
        start <= end <= b@.len(),
    ensures
        r@ == b@.subrange(start as int, end as int),
{
    slice_to_vec(slice_subrange(b, start, end))
}

} // verus!
