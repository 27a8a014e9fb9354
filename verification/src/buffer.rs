//! The byte buffers of the `bytes` crate, seen as sequences of bytes.
//!
//! [`contents`] and [`frozen_contents`] name what a buffer holds. How much a buffer
//! has allocated is left open throughout. A call that asks a buffer for more room
//! is bounded by `isize::MAX` bytes, the largest allocation there is. Running out of
//! memory below that bound is not modelled, nor is an allocation that exceeds it
//! because bytes split off from the front of the buffer still belong to it.

use bytes::{BufMut, Bytes, BytesMut};
use vstd::prelude::*;

verus! {

/// The growable buffer of the `bytes` crate, as an opaque type.
#[verifier::external_type_specification]
#[verifier::external_body]
pub struct ExBytesMut(bytes::BytesMut);

/// The immutable buffer of the `bytes` crate, as an opaque type.
#[verifier::external_type_specification]
#[verifier::external_body]
pub struct ExBytes(bytes::Bytes);

/// The bytes that a `BytesMut` holds, from its start to its length.
pub uninterp spec fn contents(b: bytes::BytesMut) -> Seq<u8>;

/// The bytes that a `Bytes` holds.
pub uninterp spec fn frozen_contents(b: bytes::Bytes) -> Seq<u8>;

/// `n` zero bytes.
pub open spec fn zeros(n: nat) -> Seq<u8> {
    Seq::new(n, |i: int| 0u8)
}

/// `s` cut to its first `n` bytes; all of `s` where it is no longer than that.
pub open spec fn truncated(s: Seq<u8>, n: nat) -> Seq<u8> {
    if n <= s.len() {
        s.take(n as int)
    } else {
        s
    }
}

/// `s` brought to length `n`: cut at the end, or filled up with zeros.
pub open spec fn zero_resized(s: Seq<u8>, n: nat) -> Seq<u8> {
    if n <= s.len() {
        s.take(n as int)
    } else {
        s + zeros((n - s.len()) as nat)
    }
}

/// The contents of each buffer of a list.
pub open spec fn all_contents(bufs: Seq<BytesMut>) -> Seq<Seq<u8>> {
    Seq::new(bufs.len(), |i: int| contents(bufs[i]))
}

/// `BytesMut::new` makes an empty buffer.
pub assume_specification[ bytes::BytesMut::new ]() -> (b: bytes::BytesMut)
    ensures
        contents(b) == Seq::<u8>::empty(),
;

/// `BytesMut::with_capacity` makes an empty buffer; it panics where the capacity
/// is more than any allocation can have.
pub assume_specification[ bytes::BytesMut::with_capacity ](capacity: usize) -> (b: bytes::BytesMut)
    requires
        capacity <= isize::MAX,
    ensures
        contents(b) == Seq::<u8>::empty(),
;

/// `BytesMut::zeroed` makes a buffer of `len` zeros; it panics where `len` is more
/// than any allocation can have.
pub assume_specification[ bytes::BytesMut::zeroed ](len: usize) -> (b: bytes::BytesMut)
    requires
        len <= isize::MAX,
    ensures
        contents(b) == zeros(len as nat),
;

/// `BytesMut::len` is the number of bytes held, which no allocation lets exceed
/// `isize::MAX`.
pub assume_specification[ bytes::BytesMut::len ](b: &bytes::BytesMut) -> (r: usize)
    ensures
        r == contents(*b).len(),
        r <= isize::MAX,
;

/// `BytesMut::is_empty` tells whether no byte is held.
pub assume_specification[ bytes::BytesMut::is_empty ](b: &bytes::BytesMut) -> (r: bool)
    ensures
        r == (contents(*b).len() == 0),
;

/// `BytesMut::clear` drops every byte.
pub assume_specification[ bytes::BytesMut::clear ](b: &mut bytes::BytesMut)
    ensures
        contents(*final(b)) == Seq::<u8>::empty(),
;

/// `BytesMut::truncate` keeps the first `len` bytes and does nothing to a shorter
/// buffer.
pub assume_specification[ bytes::BytesMut::truncate ](b: &mut bytes::BytesMut, len: usize)
    ensures
        contents(*final(b)) == truncated(contents(*old(b)), len as nat),
;

/// `BytesMut::resize` cuts the buffer to `new_len` bytes, or appends copies of
/// `value` up to that length; growing past the largest allocation panics.
pub assume_specification[ bytes::BytesMut::resize ](
    b: &mut bytes::BytesMut,
    new_len: usize,
    value: u8,
)
    requires
        new_len <= isize::MAX,
    ensures
        new_len <= contents(*old(b)).len() ==> contents(*final(b)) == contents(*old(b)).take(
            new_len as int,
        ),
        new_len > contents(*old(b)).len() ==> contents(*final(b)) == contents(*old(b)) + Seq::new(
            (new_len - contents(*old(b)).len()) as nat,
            |i: int| value,
        ),
;

/// `BytesMut::reserve` makes room and leaves the bytes as they are; asking for more
/// than the largest allocation panics.
pub assume_specification[ bytes::BytesMut::reserve ](b: &mut bytes::BytesMut, additional: usize)
    requires
        contents(*old(b)).len() + additional <= isize::MAX,
    ensures
        contents(*final(b)) == contents(*old(b)),
;

/// `BytesMut::split_to` takes the first `at` bytes out of the buffer and returns
/// them; it panics where the buffer holds fewer.
pub assume_specification[ bytes::BytesMut::split_to ](
    b: &mut bytes::BytesMut,
    at: usize,
) -> (r: bytes::BytesMut)
    requires
        at <= contents(*old(b)).len(),
    ensures
        contents(r) == contents(*old(b)).take(at as int),
        contents(*final(b)) == contents(*old(b)).skip(at as int),
;

/// `BytesMut::extend_from_slice` appends the bytes of a slice; growing past the
/// largest allocation panics.
pub assume_specification[ bytes::BytesMut::extend_from_slice ](
    b: &mut bytes::BytesMut,
    extend: &[u8],
)
    requires
        contents(*old(b)).len() + extend@.len() <= isize::MAX,
    ensures
        contents(*final(b)) == contents(*old(b)) + extend@,
;

/// `Bytes::len` is the number of bytes held, which no allocation lets exceed
/// `isize::MAX`.
pub assume_specification[ bytes::Bytes::len ](b: &bytes::Bytes) -> (r: usize)
    ensures
        r == frozen_contents(*b).len(),
        r <= isize::MAX,
;

/// `BufMut::put` on a `BytesMut`, given a `Bytes`: appends all of its bytes; growing
/// past the largest allocation panics.
#[verifier::external_body]
pub(crate) fn put_bytes(buf: &mut BytesMut, data: Bytes)
    requires
        contents(*old(buf)).len() + frozen_contents(data).len() <= isize::MAX,
    ensures
        contents(*final(buf)) == contents(*old(buf)) + frozen_contents(data),
{
    buf.put(data)
}

/// `BufMut::put` on a `BytesMut`, given another `BytesMut`: appends all of its bytes;
/// growing past the largest allocation panics.
#[verifier::external_body]
pub(crate) fn put_bytes_mut(buf: &mut BytesMut, data: BytesMut)
    requires
        contents(*old(buf)).len() + contents(data).len() <= isize::MAX,
    ensures
        contents(*final(buf)) == contents(*old(buf)) + contents(data),
{
    buf.put(data)
}

/// `BufMut::chunk_mut` on a `BytesMut`: the length of the room behind the bytes
/// held. It is never empty, as a full buffer is given 64 more bytes first; how
/// large it is beyond that depends on the allocator and is not stated. The bytes
/// held stay as they are. A caller's contract can name this call as the origin of a
/// room that it reports.
#[verifier::external_body]
pub fn spare_room(buf: &mut BytesMut) -> (room: usize)
    requires
        contents(*old(buf)).len() + 64 <= isize::MAX,
    ensures
        contents(*final(buf)) == contents(*old(buf)),
        0 < room <= isize::MAX,
{
    buf.chunk_mut().len()
}

/// `DerefMut` of a `BytesMut`: the bytes held, as a slice. What is written to the slice is
/// what the buffer holds afterwards.
#[verifier::external_body]
pub(crate) fn bytes_mut(buf: &mut BytesMut) -> (bytes: &mut [u8])
    ensures
        bytes@ == contents(*old(buf)),
        contents(*final(buf)) == final(bytes)@,
{
    std::ops::DerefMut::deref_mut(buf)
}

} // verus!
