//! Byte buffers.
//!
//! The codec reads and writes `bytes::BytesMut` and hands out `bytes::Bytes`.
//! Their contents are named here as sequences of bytes, and every method of
//! the `bytes` crate that the codec calls goes through a wrapper whose contract
//! says what the method does to those contents.

use vstd::prelude::*;
use bytes::{Buf, BufMut, Bytes, BytesMut};

verus! {

#[verifier::external_type_specification]
#[verifier::external_body]
pub struct ExBytesMut(BytesMut);

#[verifier::external_type_specification]
#[verifier::external_body]
pub struct ExBytes(Bytes);

/// The bytes a `BytesMut` holds, first to last.
pub uninterp spec fn bytes_mut_contents(b: BytesMut) -> Seq<u8>;

/// The bytes a `Bytes` holds, first to last.
pub uninterp spec fn bytes_contents(b: Bytes) -> Seq<u8>;

/// The most bytes a buffer may grow to without its allocation failing.
pub open spec fn buffer_limit() -> int {
    isize::MAX as int
}

/// Big-endian encoding of a 16-bit value.
pub open spec fn be16(v: u16) -> Seq<u8> {
    seq![(v / 256) as u8, (v % 256) as u8]
}

/// The 16-bit value of two big-endian bytes.
pub open spec fn be16_value(hi: u8, lo: u8) -> u16 {
    (hi * 256 + lo) as u16
}

/// Big-endian encoding of a 32-bit value.
pub open spec fn be32(v: u32) -> Seq<u8> {
    seq![
        (v / 0x100_0000) as u8,
        (v / 0x1_0000 % 256) as u8,
        (v / 256 % 256) as u8,
        (v % 256) as u8,
    ]
}

/// The 32-bit value of four big-endian bytes.
pub open spec fn be32_value(b0: u8, b1: u8, b2: u8, b3: u8) -> u32 {
    (b0 * 0x100_0000 + b1 * 0x1_0000 + b2 * 256 + b3) as u32
}

/// Reading back a big-endian 16-bit encoding gives the value.
pub proof fn lemma_be16_roundtrip(v: u16)
    ensures
        be16(v).len() == 2,
        be16_value(be16(v)[0], be16(v)[1]) == v,
{
}

/// Reading back a big-endian 32-bit encoding gives the value.
pub proof fn lemma_be32_roundtrip(v: u32)
    ensures
        be32(v).len() == 4,
        be32_value(be32(v)[0], be32(v)[1], be32(v)[2], be32(v)[3]) == v,
{
    let b0 = v / 0x100_0000;
    let r0 = v % 0x100_0000;
    let b1 = r0 / 0x1_0000;
    let r1 = r0 % 0x1_0000;
    let b2 = r1 / 256;
    let b3 = r1 % 256;
    assert(v / 0x1_0000 % 256 == b1) by (nonlinear_arith)
        requires b0 == v / 0x100_0000, r0 == v % 0x100_0000, b1 == r0 / 0x1_0000, v < 0x1_0000_0000;
    assert(v / 256 % 256 == b2) by (nonlinear_arith)
        requires r0 == v % 0x100_0000, r1 == r0 % 0x1_0000, b2 == r1 / 256, v < 0x1_0000_0000;
    assert(v % 256 == b3) by (nonlinear_arith)
        requires r0 == v % 0x100_0000, r1 == r0 % 0x1_0000, b3 == r1 % 256, v < 0x1_0000_0000;
    assert(b0 * 0x100_0000 + b1 * 0x1_0000 + b2 * 256 + b3 == v) by (nonlinear_arith)
        requires b0 == v / 0x100_0000, r0 == v % 0x100_0000, b1 == r0 / 0x1_0000,
            r1 == r0 % 0x1_0000, b2 == r1 / 256, b3 == r1 % 256, v < 0x1_0000_0000;
}

/// `BytesMut::new`: an empty buffer.
#[verifier::external_body]
pub(crate) fn bm_new() -> (r: BytesMut)
    ensures
        bytes_mut_contents(r) == Seq::<u8>::empty(),
{
    BytesMut::new()
}

/// `BytesMut::len`: the number of bytes held.
#[verifier::external_body]
pub(crate) fn bm_len(b: &BytesMut) -> (r: usize)
    ensures
        r == bytes_mut_contents(*b).len(),
{
    b.len()
}

/// `BufMut::put_u8` on `BytesMut`: appends one byte.
#[verifier::external_body]
pub(crate) fn bm_put_u8(b: &mut BytesMut, v: u8)
    requires
        bytes_mut_contents(*old(b)).len() + 1 <= buffer_limit(),
    ensures
        bytes_mut_contents(*final(b)) == bytes_mut_contents(*old(b)).push(v),
{
    b.put_u8(v)
}

/// `BufMut::put_u16` on `BytesMut`: appends the value big-endian.
#[verifier::external_body]
pub(crate) fn bm_put_u16(b: &mut BytesMut, v: u16)
    requires
        bytes_mut_contents(*old(b)).len() + 2 <= buffer_limit(),
    ensures
        bytes_mut_contents(*final(b)) == bytes_mut_contents(*old(b)) + be16(v),
{
    b.put_u16(v)
}

/// `BufMut::put_u32` on `BytesMut`: appends the value big-endian.
#[verifier::external_body]
pub(crate) fn bm_put_u32(b: &mut BytesMut, v: u32)
    requires
        bytes_mut_contents(*old(b)).len() + 4 <= buffer_limit(),
    ensures
        bytes_mut_contents(*final(b)) == bytes_mut_contents(*old(b)) + be32(v),
{
    b.put_u32(v)
}

/// `BufMut::put_slice` on `BytesMut`: appends the bytes of `src`.
#[verifier::external_body]
pub(crate) fn bm_put_slice(b: &mut BytesMut, src: &[u8])
    requires
        bytes_mut_contents(*old(b)).len() + src@.len() <= buffer_limit(),
    ensures
        bytes_mut_contents(*final(b)) == bytes_mut_contents(*old(b)) + src@,
{
    b.put_slice(src)
}

/// `BytesMut::extend_from_slice`: appends the bytes of `src`.
#[verifier::external_body]
pub(crate) fn bm_extend_from_slice(b: &mut BytesMut, src: &[u8])
    requires
        bytes_mut_contents(*old(b)).len() + src@.len() <= buffer_limit(),
    ensures
        bytes_mut_contents(*final(b)) == bytes_mut_contents(*old(b)) + src@,
{
    b.extend_from_slice(src)
}

/// `Buf::get_u8` on `BytesMut`: removes and returns the first byte.
#[verifier::external_body]
pub(crate) fn bm_get_u8(b: &mut BytesMut) -> (r: u8)
    requires
        bytes_mut_contents(*old(b)).len() >= 1,
    ensures
        r == bytes_mut_contents(*old(b))[0],
        bytes_mut_contents(*final(b)) == bytes_mut_contents(*old(b)).skip(1),
{
    b.get_u8()
}

/// `Buf::get_u16` on `BytesMut`: removes the first two bytes and returns
/// them read big-endian.
#[verifier::external_body]
pub(crate) fn bm_get_u16(b: &mut BytesMut) -> (r: u16)
    requires
        bytes_mut_contents(*old(b)).len() >= 2,
    ensures
        r == be16_value(bytes_mut_contents(*old(b))[0], bytes_mut_contents(*old(b))[1]),
        bytes_mut_contents(*final(b)) == bytes_mut_contents(*old(b)).skip(2),
{
    b.get_u16()
}

/// `Buf::get_u32` on `BytesMut`: removes the first four bytes and returns
/// them read big-endian.
#[verifier::external_body]
pub(crate) fn bm_get_u32(b: &mut BytesMut) -> (r: u32)
    requires
        bytes_mut_contents(*old(b)).len() >= 4,
    ensures
        r == be32_value(
            bytes_mut_contents(*old(b))[0],
            bytes_mut_contents(*old(b))[1],
            bytes_mut_contents(*old(b))[2],
            bytes_mut_contents(*old(b))[3],
        ),
        bytes_mut_contents(*final(b)) == bytes_mut_contents(*old(b)).skip(4),
{
    b.get_u32()
}

/// `Buf::advance` on `BytesMut`: drops the first `n` bytes.
#[verifier::external_body]
pub(crate) fn bm_advance(b: &mut BytesMut, n: usize)
    requires
        n <= bytes_mut_contents(*old(b)).len(),
    ensures
        bytes_mut_contents(*final(b)) == bytes_mut_contents(*old(b)).skip(n as int),
{
    b.advance(n)
}

/// `BytesMut::split_to`: the first `n` bytes move to the returned buffer.
#[verifier::external_body]
pub(crate) fn bm_split_to(b: &mut BytesMut, n: usize) -> (r: BytesMut)
    requires
        n <= bytes_mut_contents(*old(b)).len(),
    ensures
        bytes_mut_contents(r) == bytes_mut_contents(*old(b)).take(n as int),
        bytes_mut_contents(*final(b)) == bytes_mut_contents(*old(b)).skip(n as int),
{
    b.split_to(n)
}

/// `BytesMut::freeze`: the same bytes as an immutable `Bytes`.
#[verifier::external_body]
pub(crate) fn bm_freeze(b: BytesMut) -> (r: Bytes)
    ensures
        bytes_contents(r) == bytes_mut_contents(b),
{
    b.freeze()
}

/// Indexing a `BytesMut` (through its slice) at position `i`.
#[verifier::external_body]
pub(crate) fn bm_byte_at(b: &BytesMut, i: usize) -> (r: u8)
    requires
        i < bytes_mut_contents(*b).len(),
    ensures
        r == bytes_mut_contents(*b)[i as int],
{
    b[i]
}

/// Assigning through `IndexMut` of a `BytesMut` at position `i`.
#[verifier::external_body]
pub(crate) fn bm_set_byte(b: &mut BytesMut, i: usize, v: u8)
    requires
        i < bytes_mut_contents(*old(b)).len(),
    ensures
        bytes_mut_contents(*final(b)) == bytes_mut_contents(*old(b)).update(i as int, v),
{
    b[i] = v
}

/// The contents of a `BytesMut` as a slice (`Deref`).
#[verifier::external_body]
pub(crate) fn bm_as_slice(b: &BytesMut) -> (r: &[u8])
    ensures
        r@ == bytes_mut_contents(*b),
{
    &b[..]
}

/// `to_vec` on the slice of a `BytesMut`: a copy of its bytes.
#[verifier::external_body]
pub(crate) fn bm_to_vec(b: &BytesMut) -> (r: Vec<u8>)
    ensures
        r@ == bytes_mut_contents(*b),
{
    b.to_vec()
}

/// `Bytes::new`: no bytes.
#[verifier::external_body]
pub(crate) fn bytes_new() -> (r: Bytes)
    ensures
        bytes_contents(r) == Seq::<u8>::empty(),
{
    Bytes::new()
}

/// `Bytes::len`.
#[verifier::external_body]
pub(crate) fn bytes_len(b: &Bytes) -> (r: usize)
    ensures
        r == bytes_contents(*b).len(),
{
    b.len()
}

/// The contents of a `Bytes` as a slice (`Deref`).
#[verifier::external_body]
pub(crate) fn bytes_as_slice(b: &Bytes) -> (r: &[u8])
    ensures
        r@ == bytes_contents(*b),
{
    &b[..]
}

/// `to_vec` on the slice of a `Bytes`: a copy of its bytes.
#[verifier::external_body]
pub(crate) fn bytes_to_vec(b: &Bytes) -> (r: Vec<u8>)
    ensures
        r@ == bytes_contents(*b),
{
    b.to_vec()
}

/// `Bytes::from(Vec<u8>)`: takes over the vector's bytes.
#[verifier::external_body]
pub(crate) fn bytes_from_vec(v: Vec<u8>) -> (r: Bytes)
    ensures
        bytes_contents(r) == v@,
{
    Bytes::from(v)
}

/// `Bytes::clone`: another handle to the same bytes.
pub assume_specification[ <Bytes as Clone>::clone ](b: &Bytes) -> (r: Bytes)
    ensures
        bytes_contents(r) == bytes_contents(*b),
;

} // verus!
