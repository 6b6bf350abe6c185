//! Byte buffers of the `bytes` crate, as the library sees them.
//!
//! Nothing here is proved: each contract restates what the `bytes` crate
//! documents for the call that the body makes.

use bytes::{BufMut, Bytes, BytesMut};
use vstd::prelude::*;

verus! {

/// `bytes::BytesMut`, a growable byte buffer, opaque to the verifier.
#[verifier::external_type_specification]
#[verifier::external_body]
pub struct ExBytesMut(bytes::BytesMut);

/// `bytes::Bytes`, an immutable byte buffer, opaque to the verifier.
#[verifier::external_type_specification]
#[verifier::external_body]
pub struct ExBytes(bytes::Bytes);

/// The bytes that a growable buffer holds, first to last.
pub uninterp spec fn buffer_contents(b: BytesMut) -> Seq<u8>;

/// The bytes that a frozen buffer holds, first to last.
pub uninterp spec fn bytes_contents(b: Bytes) -> Seq<u8>;

/// `BytesMut::with_capacity`: a buffer that holds no bytes yet. The capacity
/// is only a hint; one above `isize::MAX` makes the allocation panic and is
/// left out.
#[verifier::external_body]
pub(crate) fn buffer_with_capacity(capacity: usize) -> (b: BytesMut)
    requires
        capacity <= isize::MAX,
    ensures
        buffer_contents(b) == Seq::<u8>::empty(),
{
    BytesMut::with_capacity(capacity)
}

/// `BufMut::put_u8` on a `BytesMut`: appends one byte. The call panics when
/// the buffer already holds `isize::MAX` bytes.
#[verifier::external_body]
pub(crate) fn buffer_put_u8(b: &mut BytesMut, value: u8)
    requires
        buffer_contents(*old(b)).len() < isize::MAX,
    ensures
        buffer_contents(*final(b)) == buffer_contents(*old(b)).push(value),
{
    b.put_u8(value)
}

/// `BufMut::put_u16` on a `BytesMut`: appends the two bytes of the value,
/// high byte first. The call panics when fewer than two more bytes fit.
#[verifier::external_body]
pub(crate) fn buffer_put_u16(b: &mut BytesMut, value: u16)
    requires
        buffer_contents(*old(b)).len() + 2 <= isize::MAX,
    ensures
        buffer_contents(*final(b)) == buffer_contents(*old(b)).push((value / 256) as u8).push(
            (value % 256) as u8,
        ),
{
    b.put_u16(value)
}

/// `BufMut::put_slice` on a `BytesMut`: appends the bytes of the slice in
/// order. The buffer cannot grow beyond `isize::MAX` bytes.
#[verifier::external_body]
pub(crate) fn buffer_put_slice(b: &mut BytesMut, src: &[u8])
    requires
        buffer_contents(*old(b)).len() + src@.len() <= isize::MAX,
    ensures
        buffer_contents(*final(b)) == buffer_contents(*old(b)) + src@,
{
    b.put_slice(src)
}

/// `BytesMut::freeze`: the same bytes, now immutable.
#[verifier::external_body]
pub(crate) fn buffer_freeze(b: BytesMut) -> (frozen: Bytes)
    ensures
        bytes_contents(frozen) == buffer_contents(b),
{
    b.freeze()
}

/// The `Deref` of `Bytes` to a byte slice: the bytes it holds.
#[verifier::external_body]
pub(crate) fn bytes_as_slice(b: &Bytes) -> (s: &[u8])
    ensures
        s@ == bytes_contents(*b),
{
    &b[..]
}

} // verus!
