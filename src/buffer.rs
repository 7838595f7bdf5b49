//! Byte buffers of the `bytes` crate: an append-only `BytesMut` for output and a
//! cursor-based `Bytes` for input, with their contents modelled as `Seq<u8>`.
use bytes::{Buf, BufMut, Bytes, BytesMut};
use vstd::prelude::*;

verus! {

#[verifier::external_type_specification]
#[verifier::external_body]
pub struct ExBytes(Bytes);

#[verifier::external_type_specification]
#[verifier::external_body]
pub struct ExBytesMut(BytesMut);

/// The bytes written so far into an output buffer.
pub uninterp spec fn out_contents(b: BytesMut) -> Seq<u8>;

/// The bytes of an input buffer that are not yet read.
pub uninterp spec fn in_contents(b: Bytes) -> Seq<u8>;

/// The largest size an output buffer can reach (an allocation is at most `isize::MAX`).
pub open spec fn max_len() -> nat {
    isize::MAX as nat
}

/// Big-endian encoding of a 16-bit integer.
pub open spec fn be16(v: u16) -> Seq<u8> {
    seq![(v >> 8u16) as u8, v as u8]
}

/// Big-endian encoding of a 32-bit integer.
pub open spec fn be32(v: u32) -> Seq<u8> {
    seq![(v >> 24u32) as u8, (v >> 16u32) as u8, (v >> 8u32) as u8, v as u8]
}

/// Big-endian encoding of a 64-bit integer.
pub open spec fn be64(v: u64) -> Seq<u8> {
    seq![
        (v >> 56u64) as u8, (v >> 48u64) as u8, (v >> 40u64) as u8, (v >> 32u64) as u8,
        (v >> 24u64) as u8, (v >> 16u64) as u8, (v >> 8u64) as u8, v as u8,
    ]
}

/// The 16-bit integer whose big-endian encoding starts `b`.
pub open spec fn from_be16(b: Seq<u8>) -> u16 {
    ((b[0] as u16) << 8u16) | (b[1] as u16)
}

/// The 32-bit integer whose big-endian encoding starts `b`.
pub open spec fn from_be32(b: Seq<u8>) -> u32 {
    ((b[0] as u32) << 24u32) | ((b[1] as u32) << 16u32) | ((b[2] as u32) << 8u32) | (b[3] as u32)
}

/// The 64-bit integer whose big-endian encoding starts `b`.
pub open spec fn from_be64(b: Seq<u8>) -> u64 {
    ((from_be32(b) as u64) << 32u64) | (from_be32(b.skip(4)) as u64)
}

/// Reading a big-endian 16-bit integer back from its encoding gives it.
pub proof fn lemma_be16_read(v: u16, rest: Seq<u8>)
    ensures
        from_be16(be16(v) + rest) == v,
{
    let b = be16(v) + rest;
    assert(b[0] == (v >> 8u16) as u8 && b[1] == v as u8);
    let b1 = b[0];
    let b0 = b[1];
    assert(((b1 as u16) << 8u16) | (b0 as u16) == v) by (bit_vector)
        requires
            b1 == (v >> 8u16) as u8,
            b0 == v as u8,
    ;
}

/// Reading a big-endian 32-bit integer back from its encoding gives it.
pub proof fn lemma_be32_read(v: u32, rest: Seq<u8>)
    ensures
        from_be32(be32(v) + rest) == v,
{
    let b = be32(v) + rest;
    assert(b[0] == (v >> 24u32) as u8 && b[1] == (v >> 16u32) as u8);
    assert(b[2] == (v >> 8u32) as u8 && b[3] == v as u8);
    let b3 = b[0];
    let b2 = b[1];
    let b1 = b[2];
    let b0 = b[3];
    assert(((b3 as u32) << 24u32) | ((b2 as u32) << 16u32) | ((b1 as u32) << 8u32) | (b0 as u32)
        == v) by (bit_vector)
        requires
            b3 == (v >> 24u32) as u8,
            b2 == (v >> 16u32) as u8,
            b1 == (v >> 8u32) as u8,
            b0 == v as u8,
    ;
}

/// Reading a big-endian 64-bit integer back from its encoding gives it.
pub proof fn lemma_be64_read(v: u64, rest: Seq<u8>)
    ensures
        from_be64(be64(v) + rest) == v,
{
    let hi = (v >> 32u64) as u32;
    let lo = v as u32;
    let b = be64(v) + rest;
    assert(b[0] == (v >> 56u64) as u8 && b[1] == (v >> 48u64) as u8);
    assert(b[2] == (v >> 40u64) as u8 && b[3] == (v >> 32u64) as u8);
    assert(b[4] == (v >> 24u64) as u8 && b[5] == (v >> 16u64) as u8);
    assert(b[6] == (v >> 8u64) as u8 && b[7] == v as u8);
    assert((v >> 56u64) as u8 == (hi >> 24u32) as u8 && (v >> 48u64) as u8 == (hi >> 16u32) as u8
        && (v >> 40u64) as u8 == (hi >> 8u32) as u8 && (v >> 32u64) as u8 == hi as u8)
        by (bit_vector)
        requires
            hi == (v >> 32u64) as u32,
    ;
    assert((v >> 24u64) as u8 == (lo >> 24u32) as u8 && (v >> 16u64) as u8 == (lo >> 16u32) as u8
        && (v >> 8u64) as u8 == (lo >> 8u32) as u8 && v as u8 == lo as u8) by (bit_vector)
        requires
            lo == v as u32,
    ;
    assert(b.subrange(0, 4) =~= be32(hi));
    assert(b.skip(4).subrange(0, 4) =~= be32(lo));
    lemma_be32_read(hi, Seq::empty());
    lemma_be32_read(lo, Seq::empty());
    assert(from_be32(b) == from_be32(b.subrange(0, 4) + Seq::empty()));
    assert(from_be32(b.skip(4)) == from_be32(b.skip(4).subrange(0, 4) + Seq::empty()));
    assert(((hi as u64) << 32u64) | (lo as u64) == v) by (bit_vector)
        requires
            hi == (v >> 32u64) as u32,
            lo == v as u32,
    ;
}

/// Relies on `BufMut::put_u8` of `BytesMut`: appends the byte.
#[verifier::external_body]
pub(crate) fn put_u8(buf: &mut BytesMut, n: u8)
    requires
        out_contents(*old(buf)).len() + 1 <= max_len(),
    ensures
        out_contents(*final(buf)) == out_contents(*old(buf)).push(n),
{
    buf.put_u8(n)
}

/// Relies on `BufMut::put_u16` of `BytesMut`: appends the two big-endian bytes.
#[verifier::external_body]
pub(crate) fn put_u16(buf: &mut BytesMut, n: u16)
    requires
        out_contents(*old(buf)).len() + 2 <= max_len(),
    ensures
        out_contents(*final(buf)) == out_contents(*old(buf)) + be16(n),
{
    buf.put_u16(n)
}

/// Relies on `BufMut::put_u32` of `BytesMut`: appends the four big-endian bytes.
#[verifier::external_body]
pub(crate) fn put_u32(buf: &mut BytesMut, n: u32)
    requires
        out_contents(*old(buf)).len() + 4 <= max_len(),
    ensures
        out_contents(*final(buf)) == out_contents(*old(buf)) + be32(n),
{
    buf.put_u32(n)
}

/// Relies on `BufMut::put_u64` of `BytesMut`: appends the eight big-endian bytes.
#[verifier::external_body]
pub(crate) fn put_u64(buf: &mut BytesMut, n: u64)
    requires
        out_contents(*old(buf)).len() + 8 <= max_len(),
    ensures
        out_contents(*final(buf)) == out_contents(*old(buf)) + be64(n),
{
    buf.put_u64(n)
}

/// Relies on `BufMut::put_slice` of `BytesMut`: appends the slice.
#[verifier::external_body]
pub(crate) fn put_slice(buf: &mut BytesMut, src: &[u8])
    requires
        out_contents(*old(buf)).len() + src@.len() <= max_len(),
    ensures
        out_contents(*final(buf)) == out_contents(*old(buf)) + src@,
{
    buf.put_slice(src)
}

/// Relies on `Buf::remaining` of `Bytes`: the number of unread bytes.
#[verifier::external_body]
pub(crate) fn remaining(buf: &Bytes) -> (r: usize)
    ensures
        r == in_contents(*buf).len(),
{
    buf.remaining()
}

/// Relies on `Buf::get_u8` of `Bytes`: reads one byte and moves past it.
#[verifier::external_body]
pub(crate) fn get_u8(buf: &mut Bytes) -> (r: u8)
    requires
        in_contents(*old(buf)).len() >= 1,
    ensures
        r == in_contents(*old(buf))[0],
        in_contents(*final(buf)) == in_contents(*old(buf)).skip(1),
{
    buf.get_u8()
}

/// Relies on `Buf::get_u16` of `Bytes`: reads two big-endian bytes and moves past them.
#[verifier::external_body]
pub(crate) fn get_u16(buf: &mut Bytes) -> (r: u16)
    requires
        in_contents(*old(buf)).len() >= 2,
    ensures
        r == from_be16(in_contents(*old(buf))),
        in_contents(*final(buf)) == in_contents(*old(buf)).skip(2),
{
    buf.get_u16()
}

/// Relies on `Buf::get_u32` of `Bytes`: reads four big-endian bytes and moves past them.
#[verifier::external_body]
pub(crate) fn get_u32(buf: &mut Bytes) -> (r: u32)
    requires
        in_contents(*old(buf)).len() >= 4,
    ensures
        r == from_be32(in_contents(*old(buf))),
        in_contents(*final(buf)) == in_contents(*old(buf)).skip(4),
{
    buf.get_u32()
}

/// Relies on `Buf::get_u64` of `Bytes`: reads eight big-endian bytes and moves past them.
#[verifier::external_body]
pub(crate) fn get_u64(buf: &mut Bytes) -> (r: u64)
    requires
        in_contents(*old(buf)).len() >= 8,
    ensures
        r == from_be64(in_contents(*old(buf))),
        in_contents(*final(buf)) == in_contents(*old(buf)).skip(8),
{
    buf.get_u64()
}

/// Relies on `Bytes::split_to`: hands out the first `at` bytes and keeps the rest.
#[verifier::external_body]
pub(crate) fn split_to(buf: &mut Bytes, at: usize) -> (r: Bytes)
    requires
        at <= in_contents(*old(buf)).len(),
    ensures
        in_contents(r) == in_contents(*old(buf)).take(at as int),
        in_contents(*final(buf)) == in_contents(*old(buf)).skip(at as int),
{
    buf.split_to(at)
}

/// Relies on `Bytes::as_ref`: a view of the unread bytes as a slice.
#[verifier::external_body]
pub(crate) fn as_slice(buf: &Bytes) -> (r: &[u8])
    ensures
        r@ == in_contents(*buf),
{
    buf.as_ref()
}

} // verus!
