//! Codecs: how packets become frames and frames become packets.
//!
//! A codec is written by the user of the library. What it does to a buffer is its
//! own affair, so each trait carries a relation (`decodes`, `encodes`) in which the
//! codec says what a call may do, and the library's contracts speak of that
//! relation.

use bytes::{Bytes, BytesMut};
use vstd::prelude::*;

use crate::buffer::{contents, frozen_contents, put_bytes, put_bytes_mut};
use crate::error::{convert, converted, Fault, FrameError};

verus! {

/// Makes frames of the bytes of packets.
pub trait Decoder {
    /// The type of decoded frames.
    type Item;

    /// The type of unrecoverable frame decoding errors.
    type Error: From<std::io::Error>;

    /// What a call of `decode` may do: it finds the decoder as `self` and the buffer
    /// holding `src`, leaves the decoder as `post` and the buffer holding `rest`, and
    /// returns `r`. A decoder that says nothing here may do anything.
    open spec fn decodes(
        &self,
        src: Seq<u8>,
        post: &Self,
        rest: Seq<u8>,
        r: Result<Option<Self::Item>, Self::Error>,
    ) -> bool {
        true
    }

    /// What a call of `decode_eof` may do beyond what the provided method does. A
    /// decoder that overrides `decode_eof` says here what its own method does; where it says
    /// nothing, its method keeps to what the provided one does.
    open spec fn decodes_eof_otherwise(
        &self,
        src: Seq<u8>,
        post: &Self,
        rest: Seq<u8>,
        r: Result<Option<Self::Item>, Self::Error>,
    ) -> bool {
        false
    }

    /// Attempts to decode a frame from the provided buffer.
    ///
    /// Returns `Ok(Some(frame))` if a complete frame was decoded, `Ok(None)` if more
    /// data is needed, or `Err` on decoding errors.
    fn decode(&mut self, src: &mut BytesMut) -> (r: Result<Option<Self::Item>, Self::Error>)
        ensures
            old(self).decodes(contents(*old(src)), final(self), contents(*final(src)), r),
    ;

    /// Decodes a frame from the buffer when no more data will come.
    ///
    /// The provided method attempts a normal decode and returns an error if that
    /// gives no frame and leaves data in the buffer. Override it if the decoder needs
    /// special handling for the end of the data, such as flushing partial frames.
    ///
    /// - `Ok(Some(frame))`: a final frame was decoded.
    /// - `Ok(None)`: there is no more frame, and the buffer is empty.
    /// - `Err`: incomplete data remains, or decoding failed.
    fn decode_eof(&mut self, buf: &mut BytesMut) -> (r: Result<Option<Self::Item>, Self::Error>)
        ensures
            (exists|decoded: Result<Option<Self::Item>, Self::Error>|
                {
                    &&& #[trigger] old(self).decodes(
                        contents(*old(buf)),
                        final(self),
                        contents(*final(buf)),
                        decoded,
                    )
                    &&& is_eof_outcome(decoded, contents(*final(buf)).len() == 0, r)
                }) || old(self).decodes_eof_otherwise(
                contents(*old(buf)),
                final(self),
                contents(*final(buf)),
                r,
            ),
    {
        let decoded = self.decode(buf);
        eof_outcome(decoded, buf.is_empty())
    }
}

/// What the provided `decode_eof` returns where `decode` returned `decoded` and left
/// the buffer empty or not.
pub open spec fn is_eof_outcome<I, E: From<std::io::Error>>(
    decoded: Result<Option<I>, E>,
    empty: bool,
    r: Result<Option<I>, E>,
) -> bool {
    match decoded {
        Ok(None) if !empty => r matches Err(e) && converted(
            e,
            FrameError::Fault(Fault::BytesRemaining),
        ),
        _ => r == decoded,
    }
}

/// What the provided `decode_eof` makes of the result of `decode`: the same, unless
/// there is no frame and bytes remain, which is an error.
pub fn eof_outcome<I, E: From<std::io::Error>>(decoded: Result<Option<I>, E>, empty: bool) -> (r:
    Result<Option<I>, E>)
    ensures
        is_eof_outcome(decoded, empty, r),
{
    match decoded {
        Ok(Some(frame)) => Ok(Some(frame)),
        Ok(None) => {
            if empty {
                Ok(None)
            } else {
                Err(convert(FrameError::Fault(Fault::BytesRemaining)))
            }
        },
        Err(e) => Err(e),
    }
}

/// What the provided `decode_eof` does, in terms of `decode`.
pub open spec fn decodes_eof_by_decode<D: Decoder + ?Sized>(
    pre: &D,
    src: Seq<u8>,
    post: &D,
    rest: Seq<u8>,
    r: Result<Option<D::Item>, D::Error>,
) -> bool {
    exists|decoded: Result<Option<D::Item>, D::Error>| #[trigger]
        pre.decodes(src, post, rest, decoded) && is_eof_outcome(decoded, rest.len() == 0, r)
}

/// What a call of `decode_eof` may do: what the provided method does, or what the
/// decoder says of a method of its own.
pub open spec fn decodes_eof<D: Decoder + ?Sized>(
    pre: &D,
    src: Seq<u8>,
    post: &D,
    rest: Seq<u8>,
    r: Result<Option<D::Item>, D::Error>,
) -> bool {
    ||| decodes_eof_by_decode(pre, src, post, rest, r)
    ||| pre.decodes_eof_otherwise(src, post, rest, r)
}

/// A borrowed decoder decodes as the decoder behind it does. At the end of the data it
/// uses the provided method.
impl<T: Decoder> Decoder for &mut T {
    type Item = T::Item;

    type Error = T::Error;

    open spec fn decodes(
        &self,
        src: Seq<u8>,
        post: &Self,
        rest: Seq<u8>,
        r: Result<Option<Self::Item>, Self::Error>,
    ) -> bool {
        (**self).decodes(src, &**post, rest, r)
    }

    fn decode(&mut self, src: &mut BytesMut) -> (r: Result<Option<Self::Item>, Self::Error>) {
        T::decode(self, src)
    }
}

/// Makes bytes of packets of frames.
pub trait Encoder<Item> {
    /// The type of encoding errors.
    type Error: From<std::io::Error>;

    /// Which frames can be encoded into a buffer that holds `dst`; encoding any other
    /// would panic.
    open spec fn accepts(&self, item: Item, dst: Seq<u8>) -> bool {
        true
    }

    /// What a call of `encode` may do: it finds the encoder as `self` and the buffer
    /// holding `dst`, leaves the encoder as `post` and the buffer holding `out`, and
    /// returns `r`. An encoder that says nothing here may do anything.
    open spec fn encodes(
        &self,
        item: Item,
        dst: Seq<u8>,
        post: &Self,
        out: Seq<u8>,
        r: Result<(), Self::Error>,
    ) -> bool {
        true
    }

    /// Encodes a frame into the buffer provided.
    fn encode(&mut self, item: Item, dst: &mut BytesMut) -> (r: Result<(), Self::Error>)
        requires
            old(self).accepts(item, contents(*old(dst))),
        ensures
            old(self).encodes(item, contents(*old(dst)), final(self), contents(*final(dst)), r),
    ;
}

/// A borrowed encoder encodes as the encoder behind it does.
impl<T: Encoder<Item>, Item> Encoder<Item> for &mut T {
    type Error = T::Error;

    open spec fn accepts(&self, item: Item, dst: Seq<u8>) -> bool {
        (**self).accepts(item, dst)
    }

    open spec fn encodes(
        &self,
        item: Item,
        dst: Seq<u8>,
        post: &Self,
        out: Seq<u8>,
        r: Result<(), Self::Error>,
    ) -> bool {
        (**self).encodes(item, dst, &**post, out, r)
    }

    fn encode(&mut self, item: Item, dst: &mut BytesMut) -> (r: Result<(), Self::Error>) {
        T::encode(self, item, dst)
    }
}

/// The codec that ships raw bytes: a packet is a frame, and a frame is a packet.
#[derive(Copy, Clone, Debug, Eq, Ord, PartialOrd, Hash)]
pub struct BytesCodec(());

impl BytesCodec {
    /// Creates a new `BytesCodec` for shipping around raw bytes.
    pub fn new() -> (codec: BytesCodec)
        ensures
            codec == Self::spec_new(),
    {
        BytesCodec(())
    }

    /// The one value of the type.
    pub closed spec fn spec_new() -> BytesCodec {
        BytesCodec(())
    }
}

/// The default codec is the one that `new` gives.
impl Default for BytesCodec {
    fn default() -> (codec: BytesCodec)
        ensures
            codec == BytesCodec::spec_new(),
    {
        BytesCodec(())
    }
}

impl vstd::std_specs::cmp::PartialEqSpecImpl for BytesCodec {
    open spec fn obeys_eq_spec() -> bool {
        true
    }

    open spec fn eq_spec(&self, other: &BytesCodec) -> bool {
        true
    }
}

/// Any two codecs compare equal.
impl PartialEq for BytesCodec {
    fn eq(&self, other: &BytesCodec) -> (r: bool) {
        true
    }
}

/// The codec carries no state: any two are equal.
pub proof fn bytes_codecs_are_equal(a: BytesCodec, b: BytesCodec)
    ensures
        a == b,
        a == BytesCodec::spec_new(),
{
}

/// All bytes of the buffer become one frame; an empty buffer gives none.
impl Decoder for BytesCodec {
    type Item = BytesMut;

    type Error = std::io::Error;

    open spec fn decodes(
        &self,
        src: Seq<u8>,
        post: &Self,
        rest: Seq<u8>,
        r: Result<Option<BytesMut>, std::io::Error>,
    ) -> bool {
        &&& rest == Seq::<u8>::empty()
        &&& post == self
        &&& if src.len() == 0 {
            r == Ok::<Option<BytesMut>, std::io::Error>(None)
        } else {
            r matches Ok(Some(frame)) && contents(frame) == src
        }
    }

    fn decode(&mut self, buf: &mut BytesMut) -> (r: Result<Option<BytesMut>, std::io::Error>) {
        if !buf.is_empty() {
            let len: usize = buf.len();
            let frame = buf.split_to(len);
            proof {
                assert(contents(frame) =~= contents(*old(buf)));
                assert(contents(*buf) =~= Seq::<u8>::empty());
            }
            Ok(Some(frame))
        } else {
            proof {
                assert(contents(*buf) =~= Seq::<u8>::empty());
            }
            Ok(None)
        }
    }
}

/// The bytes of the frame are appended to the buffer.
impl Encoder<Bytes> for BytesCodec {
    type Error = std::io::Error;

    open spec fn accepts(&self, data: Bytes, dst: Seq<u8>) -> bool {
        dst.len() + frozen_contents(data).len() <= isize::MAX
    }

    open spec fn encodes(
        &self,
        data: Bytes,
        dst: Seq<u8>,
        post: &Self,
        out: Seq<u8>,
        r: Result<(), std::io::Error>,
    ) -> bool {
        &&& post == self
        &&& r == Ok::<(), std::io::Error>(())
        &&& out == dst + frozen_contents(data)
    }

    fn encode(&mut self, data: Bytes, buf: &mut BytesMut) -> (r: Result<(), std::io::Error>) {
        buf.reserve(data.len());
        put_bytes(buf, data);
        Ok(())
    }
}

/// The bytes of the frame are appended to the buffer.
impl Encoder<BytesMut> for BytesCodec {
    type Error = std::io::Error;

    open spec fn accepts(&self, data: BytesMut, dst: Seq<u8>) -> bool {
        dst.len() + contents(data).len() <= isize::MAX
    }

    open spec fn encodes(
        &self,
        data: BytesMut,
        dst: Seq<u8>,
        post: &Self,
        out: Seq<u8>,
        r: Result<(), std::io::Error>,
    ) -> bool {
        &&& post == self
        &&& r == Ok::<(), std::io::Error>(())
        &&& out == dst + contents(data)
    }

    fn encode(&mut self, data: BytesMut, buf: &mut BytesMut) -> (r: Result<(), std::io::Error>) {
        buf.reserve(data.len());
        put_bytes_mut(buf, data);
        Ok(())
    }
}

} // verus!
