//! What holds of the reading side: what a read gives, and what it leaves behind.

use bytes::BytesMut;
use vstd::prelude::*;

use crate::buffer::{all_contents, contents};
use crate::codec::{decodes_eof, Decoder};
use crate::error::{decimal, io_error, FaultKind};
use crate::laws::faults::errors_are_converted_from_their_own;
use crate::read::{
    begins, offered_room, receives, splits, stream_item, ReadState, ReadStep, ReadView,
    ReceiveEvent, SplitEvent,
};
use crate::sizing::DeviceProps;

verus! {

/// The read is over with what the decoder gave: its frame, its error, or the end where it gave
/// neither.
pub open spec fn ends_with<I, E>(step: ReadStep<I, E>, decoded: Result<Option<I>, E>) -> bool {
    match decoded {
        Ok(Some(frame)) => step == ReadStep::Ready(Some(Ok::<I, E>(frame))),
        Ok(None) => step == ReadStep::<I, E>::Ready(None),
        Err(e) => step == ReadStep::Ready(Some(Err::<I, E>(e))),
    }
}

/// The read is over with the error that the codec's type makes of `err`.
pub open spec fn ends_with_error<I, E: From<std::io::Error>>(
    step: ReadStep<I, E>,
    err: std::io::Error,
) -> bool {
    step matches ReadStep::Ready(Some(Err(e))) && call_ensures(E::from, (err,), e)
}

/// What is asked of a reading side: its splitter, where it has one, is a sound one whose buffers
/// are as long as the read buffer.
pub proof fn splitter_follows_the_read_buffer(v: ReadView)
    ensures
        v.splitter is None ==> v.wf(),
        v.splitter matches Some(s) ==> (v.wf() <==> s.wf() && s.segment_len == v.recv_buffer_size),
{
}

/// A new reading side has a splitter exactly where the device does segmentation offload, whatever
/// the size of the buffer; the read buffer has that size and is empty, and so has the splitter,
/// in which nothing waits.
pub proof fn splitter_comes_with_offload(size: nat, tcp_gso: bool)
    ensures
        ReadView::fresh(size, tcp_gso).splitter is Some <==> tcp_gso,
        ReadView::fresh(size, tcp_gso).recv_buffer_size == size,
        ReadView::fresh(size, tcp_gso).rd.len() == 0,
        ReadView::fresh(size, tcp_gso).splitter matches Some(s) ==> {
            &&& s.segment_len == size
            &&& s.segments.len() == 128
            &&& s.sizes.len() == 128
            &&& s.index == 0
            &&& s.num == 0
            &&& forall|i: int|
                0 <= i < 128 ==> {
                    &&& (#[trigger] s.segments[i]).len() == size
                    &&& forall|k: int| 0 <= k < size ==> #[trigger] s.segments[i][k] == 0
                }
            &&& forall|i: int| 0 <= i < 128 ==> #[trigger] s.sizes[i] == 0
        },
{
}

/// The same of the reading side that is made for a device, and the size it tells is the one it
/// was given.
pub proof fn new_reading_side_is_as_asked(
    size: usize,
    props: DeviceProps,
    state: ReadState,
    told: usize,
)
    requires
        call_ensures(ReadState::new, (size, &props), state),
        call_ensures(ReadState::read_buffer_size, (&state,), told),
    ensures
        state@.splitter is Some <==> props.tcp_gso,
        told == size,
        state@.recv_buffer_size == size,
        state@.rd.len() == 0,
        state@.splitter matches Some(s) ==> s.segment_len == size && s.num == 0,
        state@.wf(),
{
}

/// The packets that wait are those of the splitter, and without offload none ever does.
pub proof fn only_the_splitter_makes_packets_wait(v: ReadView)
    requires
        v.wf(),
    ensures
        v.splitter is None ==> v.pending().len() == 0,
        v.splitter matches Some(s) ==> {
            &&& v.pending().len() == s.num - s.index
            &&& forall|i: int|
                0 <= i < s.num - s.index ==> #[trigger] v.pending()[i] == s.segments[s.index + i]
        },
{
}

/// The size that is set is the size that is told, and the length of the splitter's buffers. What
/// is in the read buffer and what waits stay, and so does whether there is a splitter.
pub proof fn read_buffer_takes_the_size_set(state: &mut ReadState, size: usize)
    requires
        call_ensures(ReadState::set_read_buffer_size, (state, size), ()),
    ensures
        final(state)@.recv_buffer_size == size,
        final(state)@.rd == old(state)@.rd,
        final(state)@.splitter is Some <==> old(state)@.splitter is Some,
        final(state)@.splitter matches Some(s) ==> {
            let before = old(state)@.splitter->0;
            &&& s.segment_len == size
            &&& s.segments == before.segments
            &&& s.sizes == before.sizes
            &&& s.index == before.index
            &&& s.num == before.num
        },
{
}

/// The size that is told is the one that was set, the buffer that is shown is the read buffer, and
/// what is done to it is done to nothing else.
pub proof fn read_buffer_is_shown(
    state: &mut ReadState,
    told: usize,
    shown: &BytesMut,
    buf: &mut BytesMut,
)
    requires
        call_ensures(ReadState::read_buffer_size, (&*old(state),), told),
        call_ensures(ReadState::buffer, (&*old(state),), shown),
        call_ensures(ReadState::buffer_mut, (state,), buf),
    ensures
        told == old(state)@.recv_buffer_size,
        contents(*shown) == old(state)@.rd,
        contents(*old(buf)) == old(state)@.rd,
        final(state)@.rd == contents(*final(buf)),
        final(state)@.recv_buffer_size == old(state)@.recv_buffer_size,
        final(state)@.splitter == old(state)@.splitter,
{
}

/// A receive is offered at least the size that was set and, with offload, at least the largest
/// packet of 65536 bytes and its header of ten; no byte of the state changes.
pub proof fn receive_has_room_for_a_packet(state: &mut ReadState, room: usize)
    requires
        call_ensures(ReadState::receive_room, (state,), room),
    ensures
        room >= old(state)@.recv_buffer_size,
        old(state)@.splitter is Some ==> room >= 65536 + 10,
        room > 0,
        final(state)@ == old(state)@,
{
}

/// The room needed is the size that was set, or with offload the largest packet and its header
/// where that is more.
pub proof fn needed_room_is_no_more_than_asked(v: ReadView)
    ensures
        v.room_needed() >= v.recv_buffer_size,
        v.splitter is Some ==> v.room_needed() >= 65546,
        v.room_needed() == v.recv_buffer_size || v.splitter is Some && v.room_needed() == 65546,
{
}

/// All that is to spare is offered, unless more is needed.
pub proof fn room_is_the_larger_of_two(spare: usize, needed: usize, room: usize)
    requires
        call_ensures(offered_room, (spare, needed), room),
    ensures
        room >= spare,
        room >= needed,
        room == spare || room == needed,
{
}

/// A frame is a frame, an error an error, and neither of them is the end.
pub proof fn frames_and_errors_are_items<I, E>(
    decoded: Result<Option<I>, E>,
    item: Option<Result<I, E>>,
)
    requires
        call_ensures(stream_item::<I, E>, (decoded,), item),
    ensures
        ends_with(ReadStep::Ready(item), decoded),
        item is None <==> decoded is Ok && decoded->Ok_0 is None,
{
}

/// Where the device has nothing yet, the read is pending and not over, with offload or without
/// and whatever the decoder, and the state and the codec stay as they are.
pub proof fn idle_device_keeps_the_read_pending<C: Decoder>(
    pre: ReadView,
    codec: &C,
    post: ReadView,
    codec_post: &C,
    step: ReadStep<C::Item, C::Error>,
)
    requires
        receives(pre, codec, ReceiveEvent::Pending, post, codec_post, step),
    ensures
        step is Pending,
        post == pre,
        codec_post == codec,
{
}

/// The same of a call, and a step that is pending comes of nothing else.
pub proof fn read_is_pending_while_the_device_is_idle<C: Decoder>(
    state: &mut ReadState,
    codec: &mut C,
    event: ReceiveEvent<'_>,
    step: ReadStep<C::Item, C::Error>,
)
    requires
        call_ensures(ReadState::on_receive::<C>, (state, codec, event), step),
    ensures
        step is Pending <==> event is Pending,
        event is Pending ==> final(state)@ == old(state)@ && *final(codec) == *old(codec),
{
}

/// After a read that is pending, the next one asks the device to receive again, with the codec as
/// it was.
pub proof fn pending_read_asks_again<C: Decoder>(
    pre: ReadView,
    codec: &C,
    mid: ReadView,
    codec_mid: &C,
    step: ReadStep<C::Item, C::Error>,
    post: ReadView,
    codec_post: &C,
    again: ReadStep<C::Item, C::Error>,
)
    requires
        pre.wf(),
        pre.pending().len() == 0,
        receives(pre, codec, ReceiveEvent::Pending, mid, codec_mid, step),
        begins(mid, codec_mid, post, codec_post, again),
    ensures
        again is Receive,
        codec_post == codec,
        post.rd.len() == 0,
        post.splitter == pre.splitter,
        post.recv_buffer_size == pre.recv_buffer_size,
{
}

/// A device's error ends the read with that error, and the state and the codec stay as they are.
pub proof fn device_error_ends_the_read<C: Decoder>(
    pre: ReadView,
    codec: &C,
    err: std::io::Error,
    post: ReadView,
    codec_post: &C,
    step: ReadStep<C::Item, C::Error>,
)
    requires
        receives(pre, codec, ReceiveEvent::Failed(err), post, codec_post, step) || splits(
            pre,
            codec,
            SplitEvent::Failed(err),
            post,
            codec_post,
            step,
        ),
    ensures
        ends_with_error(step, err),
        post == pre,
        codec_post == codec,
{
}

/// The same of a call.
pub proof fn device_error_is_returned<C: Decoder>(
    state: &mut ReadState,
    codec: &mut C,
    err: std::io::Error,
    step: ReadStep<C::Item, C::Error>,
)
    requires
        call_ensures(
            ReadState::on_receive::<C>,
            (state, codec, ReceiveEvent::Failed(err)),
            step,
        ) || call_ensures(ReadState::on_split::<C>, (state, codec, SplitEvent::Failed(err)), step),
    ensures
        ends_with_error(step, err),
        final(state)@ == old(state)@,
        *final(codec) == *old(codec),
{
}

/// A device that claims more bytes than it had room for ends the read with an error, and nothing
/// of what it wrote is taken, however much that is.
pub proof fn overrun_ends_the_read<C: Decoder>(
    pre: ReadView,
    codec: &C,
    buf: &[u8],
    len: usize,
    post: ReadView,
    codec_post: &C,
    step: ReadStep<C::Item, C::Error>,
)
    requires
        len > buf@.len(),
        receives(pre, codec, ReceiveEvent::Filled { buf, len }, post, codec_post, step),
    ensures
        ends_with_error(
            step,
            io_error(
                FaultKind::InvalidData,
                "device initialized more bytes than available buffer space"@,
            ),
        ),
        post == pre,
        codec_post == codec,
{
    if let ReadStep::Ready(Some(Err(e))) = step {
        errors_are_converted_from_their_own(e, arbitrary(), 0);
    }
}

/// Without offload, what the device wrote goes to the decoder whole, behind what the read buffer
/// held, and the read is over with what the decoder gives; the read buffer holds what the decoder
/// left.
pub proof fn packet_goes_to_the_decoder<C: Decoder>(
    pre: ReadView,
    codec: &C,
    buf: &[u8],
    len: usize,
    post: ReadView,
    codec_post: &C,
    step: ReadStep<C::Item, C::Error>,
)
    requires
        pre.splitter is None,
        len <= buf@.len(),
        receives(pre, codec, ReceiveEvent::Filled { buf, len }, post, codec_post, step),
    ensures
        exists|packet: Seq<u8>, rest: Seq<u8>, decoded: Result<Option<C::Item>, C::Error>|
            {
                &&& #[trigger] decodes_eof(codec, packet, codec_post, rest, decoded)
                &&& packet.len() == pre.rd.len() + len
                &&& packet.take(pre.rd.len() as int) == pre.rd
                &&& packet.skip(pre.rd.len() as int) == buf@.take(len as int)
                &&& post.rd == rest
                &&& ends_with(step, decoded)
            },
        post.splitter is None,
        post.recv_buffer_size == pre.recv_buffer_size,
{
    let packet = pre.rd + buf@.take(len as int);
    assert(packet.take(pre.rd.len() as int) =~= pre.rd);
    assert(packet.skip(pre.rd.len() as int) =~= buf@.take(len as int));
}

/// With offload, what the device wrote is kept for the device to split where it is longer than
/// its header of ten bytes, and every buffer has the length of the read buffer then, cut or filled
/// up with zeros. No packet starts or ceases to wait, and the decoder is not asked.
pub proof fn long_packet_is_to_be_split<C: Decoder>(
    pre: ReadView,
    codec: &C,
    buf: &[u8],
    len: usize,
    post: ReadView,
    codec_post: &C,
    step: ReadStep<C::Item, C::Error>,
)
    requires
        pre.wf(),
        pre.splitter is Some,
        len <= buf@.len(),
        pre.rd.len() + len > 10,
        receives(pre, codec, ReceiveEvent::Filled { buf, len }, post, codec_post, step),
    ensures
        step is Split,
        codec_post == codec,
        post.rd.len() == pre.rd.len() + len,
        post.rd.take(pre.rd.len() as int) == pre.rd,
        post.rd.skip(pre.rd.len() as int) == buf@.take(len as int),
        post.recv_buffer_size == pre.recv_buffer_size,
        post.splitter is Some,
        ({
            let (a, b) = (pre.splitter->0, post.splitter->0);
            &&& b.segments.len() == 128
            &&& forall|i: int|
                0 <= i < 128 ==> {
                    &&& (#[trigger] b.segments[i]).len() == pre.recv_buffer_size
                    &&& forall|k: int|
                        0 <= k < pre.recv_buffer_size ==> #[trigger] b.segments[i][k] == if k
                            < a.segments[i].len() {
                            a.segments[i][k]
                        } else {
                            0u8
                        }
                }
            &&& b.sizes == a.sizes
            &&& b.index == a.index
            &&& b.num == a.num
            &&& b.segment_len == a.segment_len
        }),
{
    assert(post.rd.take(pre.rd.len() as int) =~= pre.rd);
    assert(post.rd.skip(pre.rd.len() as int) =~= buf@.take(len as int));
}

/// With offload, a packet of ten bytes or fewer ends the read with an error that tells its length;
/// neither the splitter nor the decoder is asked.
pub proof fn short_packet_ends_the_read<C: Decoder>(
    pre: ReadView,
    codec: &C,
    buf: &[u8],
    len: usize,
    post: ReadView,
    codec_post: &C,
    step: ReadStep<C::Item, C::Error>,
)
    requires
        pre.splitter is Some,
        len <= buf@.len(),
        pre.rd.len() + len <= 10,
        receives(pre, codec, ReceiveEvent::Filled { buf, len }, post, codec_post, step),
    ensures
        ends_with_error(
            step,
            io_error(
                FaultKind::Other,
                "length of packet ("@ + decimal(pre.rd.len() + len as nat)
                    + ") <= VIRTIO_NET_HDR_LEN (10)"@,
            ),
        ),
        codec_post == codec,
        post.rd == pre.rd + buf@.take(len as int),
        post.recv_buffer_size == pre.recv_buffer_size,
        post.splitter == pre.splitter,
{
    if let ReadStep::Ready(Some(Err(e))) = step {
        errors_are_converted_from_their_own(
            e,
            arbitrary(),
            (pre.rd + buf@.take(len as int)).len() as usize,
        );
    }
}

/// A call that takes a packet gives a frame, an error or the end without offload, and with it asks
/// for a split exactly where the packet is longer than its header.
pub proof fn received_packet_is_handled<C: Decoder>(
    state: &mut ReadState,
    codec: &mut C,
    buf: &[u8],
    len: usize,
    step: ReadStep<C::Item, C::Error>,
)
    requires
        old(state)@.wf(),
        len <= buf@.len(),
        call_ensures(
            ReadState::on_receive::<C>,
            (state, codec, ReceiveEvent::Filled { buf, len }),
            step,
        ),
    ensures
        old(state)@.splitter is None ==> exists|
            rest: Seq<u8>,
            decoded: Result<Option<C::Item>, C::Error>,
        |
            {
                &&& #[trigger] decodes_eof(
                    &*old(codec),
                    old(state)@.rd + buf@.take(len as int),
                    &*final(codec),
                    rest,
                    decoded,
                )
                &&& final(state)@.rd == rest
                &&& ends_with(step, decoded)
            },
        old(state)@.splitter is Some ==> {
            &&& step is Split <==> old(state)@.rd.len() + len > 10
            &&& step !is Split ==> (step matches ReadStep::Ready(Some(Err(_))))
            &&& final(state)@.rd == old(state)@.rd + buf@.take(len as int)
            &&& *final(codec) == *old(codec)
        },
        final(state)@.splitter is Some <==> old(state)@.splitter is Some,
        final(state)@.recv_buffer_size == old(state)@.recv_buffer_size,
        final(state)@.wf(),
{
}

/// A read that starts with no packet waiting empties the read buffer and asks the device to
/// receive; nothing else changes.
pub proof fn read_without_waiting_packets_receives<C: Decoder>(
    pre: ReadView,
    codec: &C,
    post: ReadView,
    codec_post: &C,
    step: ReadStep<C::Item, C::Error>,
)
    requires
        pre.pending().len() == 0,
        begins(pre, codec, post, codec_post, step),
    ensures
        step is Receive,
        codec_post == codec,
        post.rd.len() == 0,
        post.recv_buffer_size == pre.recv_buffer_size,
        post.splitter == pre.splitter,
{
}

/// A read that starts while packets wait gives the first of them to the decoder. A frame or an
/// error of the decoder's ends the read, and the read buffer stays as it is; where it gives
/// neither, the read buffer is emptied and the device is asked to receive. The other packets
/// wait on, unchanged.
pub proof fn read_starts_with_the_first_waiting<C: Decoder>(
    pre: ReadView,
    codec: &C,
    post: ReadView,
    codec_post: &C,
    step: ReadStep<C::Item, C::Error>,
)
    requires
        pre.wf(),
        pre.splitter matches Some(s) && s.index < s.num,
        begins(pre, codec, post, codec_post, step),
    ensures
        ({
            let (a, b) = (pre.splitter->0, post.splitter->0);
            &&& exists|rest: Seq<u8>, decoded: Result<Option<C::Item>, C::Error>|
                {
                    &&& #[trigger] decodes_eof(
                        codec,
                        a.segments[a.index as int],
                        codec_post,
                        rest,
                        decoded,
                    )
                    &&& b.segments[a.index as int] == rest
                    &&& decoded is Ok && decoded->Ok_0 is None ==> step is Receive
                        && post.rd.len() == 0
                    &&& !(decoded is Ok && decoded->Ok_0 is None) ==> ends_with(step, decoded)
                        && post.rd == pre.rd
                }
            &&& post.splitter is Some
            &&& b.index == a.index + 1
            &&& b.num == a.num
            &&& b.segments.len() == a.segments.len()
            &&& forall|i: int|
                0 <= i < a.segments.len() && i != a.index ==> #[trigger] b.segments[i]
                    == a.segments[i]
            &&& b.sizes == a.sizes
            &&& b.segment_len == a.segment_len
            &&& post.recv_buffer_size == pre.recv_buffer_size
        }),
{
    assert(pre.pending().len() > 0);
    assert(pre.pending()[0] == pre.splitter->0.segments[pre.splitter->0.index as int]);
}

/// A call that starts a read does one or the other: the device is asked to receive into an empty
/// read buffer, or the read is over with a frame or an error of a packet that waited. It is never
/// pending and never the end.
pub proof fn starting_a_read_receives_or_delivers<C: Decoder>(
    state: &mut ReadState,
    codec: &mut C,
    step: ReadStep<C::Item, C::Error>,
)
    requires
        old(state)@.wf(),
        call_ensures(ReadState::begin::<C>, (state, codec), step),
    ensures
        step is Receive || step matches ReadStep::Ready(Some(_)),
        step is Receive ==> final(state)@.rd.len() == 0,
        old(state)@.pending().len() == 0 ==> {
            &&& step is Receive
            &&& *final(codec) == *old(codec)
            &&& final(state)@.splitter == old(state)@.splitter
        },
        old(state)@.pending().len() > 0 ==> {
            let (a, b) = (old(state)@.splitter->0, final(state)@.splitter->0);
            &&& b.index == a.index + 1
            &&& b.num == a.num
            &&& forall|i: int| a.index < i < a.num ==> #[trigger] b.segments[i] == a.segments[i]
        },
        final(state)@.recv_buffer_size == old(state)@.recv_buffer_size,
        final(state)@.wf(),
{
}

/// The device splits the very bytes that it delivered: the first ten are the header, the others
/// follow, and it fills the splitter's buffers and sizes and nothing else.
pub proof fn device_splits_what_was_received(
    state: &mut ReadState,
    header: &[u8],
    input: &mut [u8],
    bufs: &mut [BytesMut],
    sizes: &mut [usize],
)
    requires
        old(state)@.splitter is Some,
        old(state)@.rd.len() >= 10,
        call_ensures(ReadState::split_parts, (state,), (header, input, bufs, sizes)),
    ensures
        header@.len() == 10,
        header@ + old(input)@ == old(state)@.rd,
        old(bufs)@.len() == old(state)@.splitter->0.segments.len(),
        forall|i: int|
            0 <= i < old(bufs)@.len() ==> contents(#[trigger] old(bufs)@[i]) == old(state)@.splitter->0.segments[i],
        old(sizes)@ == old(state)@.splitter->0.sizes,
        final(state)@.splitter is Some,
        ({
            let (a, b) = (old(state)@.splitter->0, final(state)@.splitter->0);
            &&& b.segments.len() == final(bufs)@.len()
            &&& forall|i: int|
                0 <= i < final(bufs)@.len() ==> contents(#[trigger] final(bufs)@[i])
                    == b.segments[i]
            &&& b.sizes == final(sizes)@
            &&& b.index == a.index
            &&& b.num == a.num
            &&& b.segment_len == a.segment_len
        }),
        final(state)@.recv_buffer_size == old(state)@.recv_buffer_size,
        final(state)@.rd == header@ + final(input)@,
{
    assert(header@ + old(input)@ =~= old(state)@.rd);
    assert forall|i: int| 0 <= i < old(bufs)@.len() implies contents(#[trigger] old(bufs)@[i])
        == old(state)@.splitter->0.segments[i] by {
        assert(all_contents(old(bufs)@)[i] == contents(old(bufs)@[i]));
    }
    assert forall|i: int| 0 <= i < final(bufs)@.len() implies contents(#[trigger] final(bufs)@[i])
        == final(state)@.splitter->0.segments[i] by {
        assert(all_contents(final(bufs)@)[i] == contents(final(bufs)@[i]));
    }
}

/// A split into packets gives the first of them to the decoder, cut to its size, and the read is
/// over with what the decoder gives; the others wait, each cut to its own size.
pub proof fn split_gives_the_first_and_keeps_the_others<C: Decoder>(
    pre: ReadView,
    codec: &C,
    num: usize,
    post: ReadView,
    codec_post: &C,
    step: ReadStep<C::Item, C::Error>,
)
    requires
        pre.wf(),
        pre.splitter is Some,
        0 < num <= 128,
        splits(pre, codec, SplitEvent::Done(num), post, codec_post, step),
    ensures
        ({
            let (a, b) = (pre.splitter->0, post.splitter->0);
            &&& exists|
                first: Seq<u8>,
                rest: Seq<u8>,
                decoded: Result<Option<C::Item>, C::Error>,
            |
                {
                    &&& #[trigger] decodes_eof(codec, first, codec_post, rest, decoded)
                    &&& a.sizes[0] < a.segments[0].len() ==> first == a.segments[0].take(
                        a.sizes[0] as int,
                    )
                    &&& a.sizes[0] >= a.segments[0].len() ==> first == a.segments[0]
                    &&& b.segments[0] == rest
                    &&& ends_with(step, decoded)
                }
            &&& post.splitter is Some
            &&& b.index == 1
            &&& b.num == num
            &&& b.segments.len() == 128
            &&& forall|i: int|
                1 <= i < num ==> {
                    &&& a.sizes[i] < a.segments[i].len() ==> #[trigger] b.segments[i]
                        == a.segments[i].take(a.sizes[i] as int)
                    &&& a.sizes[i] >= a.segments[i].len() ==> b.segments[i] == a.segments[i]
                }
            &&& forall|i: int| num <= i < 128 ==> #[trigger] b.segments[i] == a.segments[i]
            &&& b.sizes == a.sizes
            &&& b.segment_len == a.segment_len
            &&& post.rd == pre.rd
            &&& post.recv_buffer_size == pre.recv_buffer_size
        }),
{
    let filled = pre.splitter->0.filled(num as nat);
    assert(filled.pending()[0] == filled.segments[0]);
}

/// A split into no packets ends the read without a frame, and no packet waits.
pub proof fn split_into_none_ends_the_read<C: Decoder>(
    pre: ReadView,
    codec: &C,
    post: ReadView,
    codec_post: &C,
    step: ReadStep<C::Item, C::Error>,
)
    requires
        pre.wf(),
        pre.splitter is Some,
        splits(pre, codec, SplitEvent::Done(0), post, codec_post, step),
    ensures
        step == ReadStep::<C::Item, C::Error>::Ready(None),
        codec_post == codec,
        post.splitter matches Some(s) && s.index == s.num,
        post.rd == pre.rd,
        post.recv_buffer_size == pre.recv_buffer_size,
{
}

/// A call after a split ends the read, and of as many packets as the device reported all but the
/// first wait.
pub proof fn split_packets_wait_for_the_next_reads<C: Decoder>(
    state: &mut ReadState,
    codec: &mut C,
    num: usize,
    step: ReadStep<C::Item, C::Error>,
)
    requires
        old(state)@.wf(),
        old(state)@.splitter is Some,
        num <= 128,
        call_ensures(ReadState::on_split::<C>, (state, codec, SplitEvent::Done(num)), step),
    ensures
        step is Ready,
        num == 0 ==> step == ReadStep::<C::Item, C::Error>::Ready(None) && *final(codec) == *old(codec),
        final(state)@.splitter is Some,
        final(state)@.pending().len() == if num == 0 {
            0
        } else {
            num - 1
        },
        forall|i: int|
            0 <= i < num - 1 ==> {
                let (size, segment) = (
                    old(state)@.splitter->0.sizes[i + 1],
                    old(state)@.splitter->0.segments[i + 1],
                );
                #[trigger] final(state)@.pending()[i] == if size < segment.len() {
                    segment.take(size as int)
                } else {
                    segment
                }
            },
        final(state)@.rd == old(state)@.rd,
        final(state)@.recv_buffer_size == old(state)@.recv_buffer_size,
        final(state)@.wf(),
{
    if num > 0 {
        split_gives_the_first_and_keeps_the_others(
            old(state)@,
            &*old(codec),
            num,
            final(state)@,
            &*final(codec),
            step,
        );
    }
}

} // verus!
