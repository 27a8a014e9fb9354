//! What holds of the codecs.

use bytes::{Bytes, BytesMut};
use vstd::prelude::*;

use crate::buffer::{contents, frozen_contents};
use crate::codec::{decodes_eof, eof_outcome, is_eof_outcome, BytesCodec, Decoder, Encoder};
use crate::error::{io_error, FaultKind};

verus! {

/// Encoding never touches what the buffer already holds, and appends the bytes of the frame
/// and nothing else, whatever either is. It always succeeds.
pub proof fn encoding_appends(
    codec: BytesCodec,
    data: Bytes,
    dst: Seq<u8>,
    post: BytesCodec,
    out: Seq<u8>,
    r: Result<(), std::io::Error>,
)
    requires
        <BytesCodec as Encoder<Bytes>>::encodes(&codec, data, dst, &post, out, r),
    ensures
        r is Ok,
        post == codec,
        out.len() == dst.len() + frozen_contents(data).len(),
        out.take(dst.len() as int) == dst,
        out.skip(dst.len() as int) == frozen_contents(data),
{
    assert(out.take(dst.len() as int) =~= dst);
    assert(out.skip(dst.len() as int) =~= frozen_contents(data));
}

/// The same of frames that are given as `BytesMut`.
pub proof fn encoding_appends_mut(
    codec: BytesCodec,
    data: BytesMut,
    dst: Seq<u8>,
    post: BytesCodec,
    out: Seq<u8>,
    r: Result<(), std::io::Error>,
)
    requires
        <BytesCodec as Encoder<BytesMut>>::encodes(&codec, data, dst, &post, out, r),
    ensures
        r is Ok,
        post == codec,
        out.len() == dst.len() + contents(data).len(),
        out.take(dst.len() as int) == dst,
        out.skip(dst.len() as int) == contents(data),
{
    assert(out.take(dst.len() as int) =~= dst);
    assert(out.skip(dst.len() as int) =~= contents(data));
}

/// A call of `encode` leaves the buffer with what it held, followed by the bytes of the
/// frame, in either form of frame.
pub proof fn encode_keeps_the_front(
    codec: &mut BytesCodec,
    data: Bytes,
    buf: &mut BytesMut,
    r: Result<(), std::io::Error>,
)
    requires
        call_ensures(<BytesCodec as Encoder<Bytes>>::encode, (codec, data, buf), r),
    ensures
        r is Ok,
        contents(*final(buf)).len() == contents(*old(buf)).len() + frozen_contents(data).len(),
        forall|i: int|
            0 <= i < contents(*old(buf)).len() ==> #[trigger] contents(*final(buf))[i] == contents(
                *old(buf),
            )[i],
        forall|i: int|
            0 <= i < frozen_contents(data).len() ==> contents(*final(buf))[contents(
                *old(buf),
            ).len() + i] == #[trigger] frozen_contents(data)[i],
{
}

/// The same of frames that are given as `BytesMut`.
pub proof fn encode_keeps_the_front_mut(
    codec: &mut BytesCodec,
    data: BytesMut,
    buf: &mut BytesMut,
    r: Result<(), std::io::Error>,
)
    requires
        call_ensures(<BytesCodec as Encoder<BytesMut>>::encode, (codec, data, buf), r),
    ensures
        r is Ok,
        contents(*final(buf)).len() == contents(*old(buf)).len() + contents(data).len(),
        forall|i: int|
            0 <= i < contents(*old(buf)).len() ==> #[trigger] contents(*final(buf))[i] == contents(
                *old(buf),
            )[i],
        forall|i: int|
            0 <= i < contents(data).len() ==> contents(*final(buf))[contents(*old(buf)).len() + i]
                == #[trigger] contents(data)[i],
{
}

/// Two frames encoded one after the other stand in the buffer in that order, behind what
/// it held.
pub proof fn frames_are_encoded_in_order(
    first: Bytes,
    second: BytesMut,
    dst: Seq<u8>,
    mid: Seq<u8>,
    out: Seq<u8>,
    a: BytesCodec,
    b: BytesCodec,
    c: BytesCodec,
    r: Result<(), std::io::Error>,
    s: Result<(), std::io::Error>,
)
    requires
        <BytesCodec as Encoder<Bytes>>::encodes(&a, first, dst, &b, mid, r),
        <BytesCodec as Encoder<BytesMut>>::encodes(&b, second, mid, &c, out, s),
    ensures
        out == dst + frozen_contents(first) + contents(second),
{
}

/// Every frame is accepted whose bytes find room in an allocation behind what the buffer
/// holds.
pub proof fn every_frame_that_fits_is_accepted(
    codec: BytesCodec,
    data: Bytes,
    data_mut: BytesMut,
    dst: Seq<u8>,
)
    ensures
        dst.len() + frozen_contents(data).len() <= isize::MAX
            ==> <BytesCodec as Encoder<Bytes>>::accepts(&codec, data, dst),
        dst.len() + contents(data_mut).len() <= isize::MAX
            ==> <BytesCodec as Encoder<BytesMut>>::accepts(&codec, data_mut, dst),
{
}

/// Decoding takes all bytes that the buffer holds for one frame, byte for byte, and leaves
/// none behind; from an empty buffer there is no frame. It never fails.
pub proof fn decoding_takes_all(
    codec: BytesCodec,
    src: Seq<u8>,
    post: BytesCodec,
    rest: Seq<u8>,
    r: Result<Option<BytesMut>, std::io::Error>,
)
    requires
        codec.decodes(src, &post, rest, r),
    ensures
        r is Ok,
        post == codec,
        rest.len() == 0,
        r->Ok_0 is Some <==> src.len() > 0,
        r->Ok_0 matches Some(frame) ==> {
            &&& contents(frame).len() == src.len()
            &&& forall|i: int| 0 <= i < src.len() ==> #[trigger] contents(frame)[i] == src[i]
        },
{
}

/// The same of a call of `decode`, and of one of `decode_eof`.
pub proof fn decode_takes_all(
    codec: &mut BytesCodec,
    buf: &mut BytesMut,
    r: Result<Option<BytesMut>, std::io::Error>,
)
    requires
        call_ensures(<BytesCodec as Decoder>::decode, (codec, buf), r) || call_ensures(
            <BytesCodec as Decoder>::decode_eof,
            (codec, buf),
            r,
        ),
    ensures
        r is Ok,
        contents(*final(buf)).len() == 0,
        r->Ok_0 is Some <==> contents(*old(buf)).len() > 0,
        r->Ok_0 matches Some(frame) ==> contents(frame) == contents(*old(buf)),
{
}

/// What `BytesCodec` decodes of a buffer, encoded again behind anything, gives the bytes of
/// the buffer back: encoding undoes decoding.
pub proof fn encoding_undoes_decoding(
    codec: BytesCodec,
    src: Seq<u8>,
    mid: BytesCodec,
    rest: Seq<u8>,
    frame: BytesMut,
    dst: Seq<u8>,
    post: BytesCodec,
    out: Seq<u8>,
    r: Result<(), std::io::Error>,
)
    requires
        codec.decodes(src, &mid, rest, Ok(Some(frame))),
        <BytesCodec as Encoder<BytesMut>>::encodes(&mid, frame, dst, &post, out, r),
    ensures
        out == dst + src,
{
}

/// The end of the data changes nothing for a decoder that gives a frame, fails, or leaves
/// nothing behind.
pub proof fn end_of_data_keeps_the_result<I, E: From<std::io::Error>>(
    decoded: Result<Option<I>, E>,
    empty: bool,
    r: Result<Option<I>, E>,
)
    requires
        is_eof_outcome(decoded, empty, r) || call_ensures(eof_outcome::<I, E>, (decoded, empty), r),
        decoded is Err || decoded->Ok_0 is Some || empty,
    ensures
        r == decoded,
{
}

/// Where a decoder gives no frame and leaves bytes behind, the end of the data is an error,
/// which the codec's error type makes of an I/O error of kind `Other`.
pub proof fn remaining_bytes_are_an_error<I, E: From<std::io::Error>>(
    decoded: Result<Option<I>, E>,
    r: Result<Option<I>, E>,
)
    requires
        is_eof_outcome(decoded, false, r) || call_ensures(eof_outcome::<I, E>, (decoded, false), r),
        decoded == Ok::<Option<I>, E>(None),
    ensures
        r matches Err(e) && call_ensures(
            E::from,
            (io_error(FaultKind::Other, "bytes remaining on stream"@),),
            e,
        ),
{
}

/// At the end of the data a decoder is asked to decode once, and what it gives is kept
/// unless it gives no frame and leaves bytes behind, or the decoder has a method of its own
/// for the end.
pub proof fn end_of_data_decodes_once<D: Decoder>(
    pre: &D,
    src: Seq<u8>,
    post: &D,
    rest: Seq<u8>,
    r: Result<Option<D::Item>, D::Error>,
)
    requires
        decodes_eof(pre, src, post, rest, r),
        !pre.decodes_eof_otherwise(src, post, rest, r),
    ensures
        r matches Ok(Some(_)) ==> pre.decodes(src, post, rest, r),
        r == Ok::<Option<D::Item>, D::Error>(None) ==> rest.len() == 0 && pre.decodes(
            src,
            post,
            rest,
            r,
        ),
        r matches Err(e) ==> {
            ||| pre.decodes(src, post, rest, r)
            ||| {
                &&& rest.len() > 0
                &&& pre.decodes(src, post, rest, Ok(None))
                &&& call_ensures(
                    D::Error::from,
                    (io_error(FaultKind::Other, "bytes remaining on stream"@),),
                    e,
                )
            }
        },
{
}

/// A frame that a decoder gives at the end of the data is passed on, whatever it leaves behind, and
/// so are its error and, where it leaves nothing, the lack of a frame. Where it leaves bytes and
/// gives no frame, the error takes their place. A method of its own for the end does as it says.
pub proof fn end_of_data_passes_results_on<D: Decoder>(
    pre: &D,
    src: Seq<u8>,
    post: &D,
    rest: Seq<u8>,
    r: Result<Option<D::Item>, D::Error>,
    e: D::Error,
)
    ensures
        pre.decodes(src, post, rest, r) && (r is Err || r->Ok_0 is Some || rest.len() == 0)
            ==> decodes_eof(pre, src, post, rest, r),
        pre.decodes(src, post, rest, Ok(None)) && rest.len() > 0 && call_ensures(
            D::Error::from,
            (io_error(FaultKind::Other, "bytes remaining on stream"@),),
            e,
        ) ==> decodes_eof(pre, src, post, rest, Err(e)),
        pre.decodes_eof_otherwise(src, post, rest, r) ==> decodes_eof(pre, src, post, rest, r),
{
    if pre.decodes(src, post, rest, r) && (r is Err || r->Ok_0 is Some || rest.len() == 0) {
        assert(is_eof_outcome(r, rest.len() == 0, r));
    }
}

/// A call of a decoder does what the decoder says of it, and one at the end of the data what is said
/// of that.
pub proof fn decoders_do_as_they_say<D: Decoder>(
    decoder: &mut D,
    buf: &mut BytesMut,
    r: Result<Option<D::Item>, D::Error>,
)
    ensures
        call_ensures(D::decode, (decoder, buf), r) ==> D::decodes(
            &*old(decoder),
            contents(*old(buf)),
            &*final(decoder),
            contents(*final(buf)),
            r,
        ),
        call_ensures(D::decode_eof, (decoder, buf), r) ==> decodes_eof(
            &*old(decoder),
            contents(*old(buf)),
            &*final(decoder),
            contents(*final(buf)),
            r,
        ),
{
}

/// A call of an encoder does what the encoder says of it.
pub proof fn encoders_do_as_they_say<I, C: Encoder<I>>(
    encoder: &mut C,
    item: I,
    buf: &mut BytesMut,
    r: Result<(), C::Error>,
)
    requires
        call_ensures(C::encode, (encoder, item, buf), r),
    ensures
        C::encodes(
            &*old(encoder),
            item,
            contents(*old(buf)),
            &*final(encoder),
            contents(*final(buf)),
            r,
        ),
{
}

/// A borrowed decoder does what the decoder behind it does, no more and no less, and has no
/// method of its own for the end of the data.
pub proof fn borrowed_decoder_is_transparent<T: Decoder>(
    pre: &mut T,
    src: Seq<u8>,
    post: &mut T,
    rest: Seq<u8>,
    r: Result<Option<T::Item>, T::Error>,
)
    ensures
        <&mut T as Decoder>::decodes(&pre, src, &post, rest, r) == T::decodes(
            &*old(pre),
            src,
            &*old(post),
            rest,
            r,
        ),
        !<&mut T as Decoder>::decodes_eof_otherwise(&pre, src, &post, rest, r),
{
}

/// A borrowed encoder does what the encoder behind it does, no more and no less, and accepts
/// what that one accepts.
pub proof fn borrowed_encoder_is_transparent<T: Encoder<I>, I>(
    pre: &mut T,
    item: I,
    dst: Seq<u8>,
    post: &mut T,
    out: Seq<u8>,
    r: Result<(), T::Error>,
)
    ensures
        <&mut T as Encoder<I>>::encodes(&pre, item, dst, &post, out, r) == T::encodes(
            &*old(pre),
            item,
            dst,
            &*old(post),
            out,
            r,
        ),
        <&mut T as Encoder<I>>::accepts(&pre, item, dst) == T::accepts(&*old(pre), item, dst),
{
}

/// Every codec that is made is the same one, and any two compare equal.
pub proof fn all_bytes_codecs_are_the_same(
    a: BytesCodec,
    b: BytesCodec,
    x: BytesCodec,
    y: BytesCodec,
    equal: bool,
)
    requires
        call_ensures(BytesCodec::new, (), a),
        call_ensures(<BytesCodec as Default>::default, (), b),
        call_ensures(<BytesCodec as PartialEq>::eq, (&x, &y), equal),
    ensures
        a == b,
        equal,
{
}

} // verus!
