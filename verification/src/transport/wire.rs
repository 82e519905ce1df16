//! Growable byte buffers of the `bytes` crate, as verified code sees them.
//!
//! A [`BytesMut`] is modelled by the sequence of bytes it currently holds,
//! [`bytes_mut_contents`]. Each wrapper below performs one `bytes` operation and
//! states what that operation does to the contents; allocator capacity is
//! observed but never modelled, because the allocator decides it.

use bytes::{Buf, BytesMut};
use vstd::prelude::*;

verus! {

/// The growable byte buffer of the `bytes` crate.
#[verifier::external_type_specification]
#[verifier::external_body]
pub struct ExBytesMut(BytesMut);

/// The bytes a buffer currently holds, in order.
pub uninterp spec fn bytes_mut_contents(buffer: BytesMut) -> Seq<u8>;

/// `BytesMut::with_capacity` followed by `BytesMut::capacity`: an empty buffer
/// and the capacity it reports. The `bytes` documentation promises that the
/// buffer can hold at least `capacity` bytes without reallocating, and
/// `capacity()` is that number; the exact value is the allocator's.
#[verifier::external_body]
pub(crate) fn buffer_with_capacity(capacity: usize) -> (made: (BytesMut, usize))
    ensures
        bytes_mut_contents(made.0) == Seq::<u8>::empty(),
        made.1 >= capacity,
{
    let buffer = BytesMut::with_capacity(capacity);
    let observed = buffer.capacity();
    (buffer, observed)
}

/// `<BytesMut as Deref>::deref`: the held bytes as a slice.
#[verifier::external_body]
pub(crate) fn buffer_bytes(buffer: &BytesMut) -> (bytes: &[u8])
    ensures
        bytes@ == bytes_mut_contents(*buffer),
{
    &buffer[..]
}

/// `<BytesMut as Buf>::advance`: drops the first `count` held bytes.
///
/// The call panics when `count` exceeds the held length, so that is excluded.
#[verifier::external_body]
pub(crate) fn buffer_advance(buffer: &mut BytesMut, count: usize)
    requires
        count <= bytes_mut_contents(*old(buffer)).len(),
    ensures
        bytes_mut_contents(*final(buffer)) == bytes_mut_contents(*old(buffer)).skip(count as int),
{
    buffer.advance(count)
}

/// `BytesMut::extend_from_slice`: appends `bytes` after the held bytes.
///
/// Growth beyond `isize::MAX` bytes panics in the allocator, so it is excluded.
#[verifier::external_body]
pub(crate) fn buffer_extend(buffer: &mut BytesMut, bytes: &[u8])
    requires
        bytes_mut_contents(*old(buffer)).len() + bytes@.len() <= isize::MAX,
    ensures
        bytes_mut_contents(*final(buffer)) == bytes_mut_contents(*old(buffer)) + bytes@,
{
    buffer.extend_from_slice(bytes)
}

/// `BytesMut::clear`: drops every held byte and keeps the allocation.
#[verifier::external_body]
pub(crate) fn buffer_clear(buffer: &mut BytesMut)
    ensures
        bytes_mut_contents(*final(buffer)) == Seq::<u8>::empty(),
{
    buffer.clear()
}

/// `BytesMut::capacity`: bytes the buffer can hold without reallocating, which
/// is never less than the bytes it holds; the exact value is the allocator's.
#[verifier::external_body]
pub(crate) fn buffer_capacity(buffer: &BytesMut) -> (capacity: usize)
    ensures
        capacity >= bytes_mut_contents(*buffer).len(),
{
    buffer.capacity()
}

/// The number of bytes a buffer holds, so that callers can meet length
/// preconditions stated over [`bytes_mut_contents`].
pub fn held_len(buffer: &BytesMut) -> (len: usize)
    ensures
        len == bytes_mut_contents(*buffer).len(),
{
    buffer_bytes(buffer).len()
}

} // verus!
