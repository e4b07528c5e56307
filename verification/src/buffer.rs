//! The growable byte buffer of the `bytes` crate, as the runners use it.
//!
//! Nothing in this file is proved: each contract restates what the `bytes`
//! crate documents for the method that the body calls.

use bytes::{Buf, BufMut, BytesMut};
use vstd::prelude::*;

verus! {

#[verifier::external_type_specification]
#[verifier::external_body]
pub struct ExBytesMut(bytes::BytesMut);

/// The bytes that a buffer currently holds, first to last.
pub uninterp spec fn buf_bytes(b: BytesMut) -> Seq<u8>;

/// The largest length a buffer is ever asked to reach.
pub open spec fn buf_limit() -> int {
    isize::MAX as int
}

/// `BytesMut::with_capacity`: a buffer that holds no bytes. The crate hands
/// the capacity to `Vec::with_capacity`, which panics above `isize::MAX`.
#[verifier::external_body]
pub(crate) fn buf_with_capacity(capacity: usize) -> (b: BytesMut)
    requires
        capacity <= buf_limit(),
    ensures
        buf_bytes(b) == Seq::<u8>::empty(),
{
    BytesMut::with_capacity(capacity)
}

/// `BytesMut::len`: the number of bytes held.
#[verifier::external_body]
pub(crate) fn buf_len(b: &BytesMut) -> (n: usize)
    ensures
        n == buf_bytes(*b).len(),
{
    b.len()
}

/// `BufMut::put_slice` on a `BytesMut`: the bytes of `src` are appended; the
/// buffer grows as needed.
#[verifier::external_body]
pub(crate) fn buf_put_slice(b: &mut BytesMut, src: &[u8])
    requires
        buf_bytes(*old(b)).len() + src@.len() <= buf_limit(),
    ensures
        buf_bytes(*final(b)) == buf_bytes(*old(b)) + src@,
{
    b.put_slice(src)
}

/// `BufMut::put_u8` on a `BytesMut`: one byte is appended.
#[verifier::external_body]
pub(crate) fn buf_put_u8(b: &mut BytesMut, byte: u8)
    requires
        buf_bytes(*old(b)).len() + 1 <= buf_limit(),
    ensures
        buf_bytes(*final(b)) == buf_bytes(*old(b)).push(byte),
{
    b.put_u8(byte)
}

/// `Buf::advance` on a `BytesMut`: the first `count` bytes are dropped. The
/// crate panics when `count` exceeds the length.
#[verifier::external_body]
pub(crate) fn buf_advance(b: &mut BytesMut, count: usize)
    requires
        count <= buf_bytes(*old(b)).len(),
    ensures
        buf_bytes(*final(b)) == buf_bytes(*old(b)).subrange(
            count as int,
            buf_bytes(*old(b)).len() as int,
        ),
{
    b.advance(count)
}

/// The slice method `to_vec` through `BytesMut`'s `Deref`: a copy of the
/// bytes held.
#[verifier::external_body]
pub(crate) fn buf_to_vec(b: &BytesMut) -> (v: Vec<u8>)
    ensures
        v@ == buf_bytes(*b),
{
    b.to_vec()
}

} // verus!
