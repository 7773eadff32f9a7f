//! The growing buffer that holds a replay.

use bytes::{BufMut, BytesMut};
use vstd::bytes::spec_u32_to_le_bytes;
use vstd::prelude::*;

verus! {

/// `bytes::BytesMut`: a buffer, known by the bytes that it holds.
#[verifier::external_type_specification]
#[verifier::external_body]
pub struct ExBytesMut(BytesMut);

/// The bytes that a buffer holds.
pub uninterp spec fn buffer_bytes(b: BytesMut) -> Seq<u8>;

/// How many bytes a buffer can grow to hold. Growing doubles the room at most,
/// and no allocation is larger than `isize::MAX`.
pub open spec fn buffer_limit() -> int {
    isize::MAX as int / 2
}

/// `BytesMut::with_capacity`: a buffer starts out empty, whatever room is set aside.
#[verifier::external_body]
pub(crate) fn buffer_with_capacity(capacity: usize) -> (r: BytesMut)
    requires
        capacity <= isize::MAX,
    ensures
        buffer_bytes(r) == Seq::<u8>::empty(),
{
    BytesMut::with_capacity(capacity)
}

/// `BufMut::put_u32_le`: appends the four bytes of a number, the lowest first.
#[verifier::external_body]
pub(crate) fn buffer_put_u32_le(b: &mut BytesMut, n: u32)
    requires
        buffer_bytes(*old(b)).len() + 4 <= buffer_limit(),
    ensures
        buffer_bytes(*final(b)) == buffer_bytes(*old(b)) + spec_u32_to_le_bytes(n),
{
    b.put_u32_le(n)
}

/// `BufMut::put_slice`: appends bytes.
#[verifier::external_body]
pub(crate) fn buffer_put_slice(b: &mut BytesMut, bytes: &[u8])
    requires
        buffer_bytes(*old(b)).len() + bytes@.len() <= buffer_limit(),
    ensures
        buffer_bytes(*final(b)) == buffer_bytes(*old(b)) + bytes@,
{
    b.put_slice(bytes)
}

/// `BytesMut::as_ref`: the bytes in the buffer.
#[verifier::external_body]
pub(crate) fn buffer_as_slice(b: &BytesMut) -> (r: &[u8])
    ensures
        r@ == buffer_bytes(*b),
{
    b.as_ref()
}

} // verus!
