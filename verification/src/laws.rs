//! What holds of the library as a whole.
//!
//! Each law is a proof function over the relations and views that the contracts of the
//! executable functions speak of, or over calls of those functions. The modules hold what each
//! operation does, in terms of its arguments and results; here stands what holds of several
//! operations together.

pub mod bytes_codec;
pub mod faults;
pub mod framing;
pub mod queueing;
pub mod reading;
pub mod sizes;
pub mod splitting;
pub mod writing;

use bytes::{Bytes, BytesMut};
use vstd::prelude::*;

use crate::buffer::{contents, frozen_contents, truncated, zeros};
use crate::codec::{decodes_eof, decodes_eof_by_decode, BytesCodec, Decoder, Encoder};
use crate::error::{converted, io_error, Fault, FrameError};
use crate::read::{
    begins, receives, receives_packet, spec_stream_item, splits, ReadStep,
    ReadView, ReceiveEvent, SplitEvent,
};
use crate::sizing::{
    buffer_size, mtu_or_default, DeviceProps, FRAME_OVERHEAD, IDEAL_BATCH_SIZE, OFFLOAD_PACKET_LEN,
    VIRTIO_NET_HDR_LEN,
};
use crate::splitter::SplitterView;
use crate::write::{begins_flush, sends, FlushStep, SendEvent, WriteView};

verus! {

/// What `BytesCodec` encodes into an empty buffer it decodes to the same bytes, and
/// nothing is left behind; nothing encoded is no frame.
pub proof fn bytes_codec_round_trip(
    codec: BytesCodec,
    data: Bytes,
    encoded_by: BytesCodec,
    buf: Seq<u8>,
    encoded: Result<(), std::io::Error>,
    decoded_by: BytesCodec,
    rest: Seq<u8>,
    decoded: Result<Option<BytesMut>, std::io::Error>,
)
    requires
        <BytesCodec as Encoder<Bytes>>::encodes(
            &codec,
            data,
            Seq::empty(),
            &encoded_by,
            buf,
            encoded,
        ),
        encoded_by.decodes(buf, &decoded_by, rest, decoded),
    ensures
        encoded is Ok,
        buf == frozen_contents(data),
        rest == Seq::<u8>::empty(),
        frozen_contents(data).len() > 0 ==> {
            decoded matches Ok(Some(frame)) && contents(frame) == frozen_contents(data)
        },
        frozen_contents(data).len() == 0 ==> decoded == Ok::<Option<BytesMut>, std::io::Error>(
            None,
        ),
{
    assert(Seq::<u8>::empty() + frozen_contents(data) =~= frozen_contents(data));
}

/// The same of frames that are given as `BytesMut`.
pub proof fn bytes_codec_round_trip_mut(
    codec: BytesCodec,
    data: BytesMut,
    encoded_by: BytesCodec,
    buf: Seq<u8>,
    encoded: Result<(), std::io::Error>,
    decoded_by: BytesCodec,
    rest: Seq<u8>,
    decoded: Result<Option<BytesMut>, std::io::Error>,
)
    requires
        <BytesCodec as Encoder<BytesMut>>::encodes(
            &codec,
            data,
            Seq::empty(),
            &encoded_by,
            buf,
            encoded,
        ),
        encoded_by.decodes(buf, &decoded_by, rest, decoded),
    ensures
        encoded is Ok,
        buf == contents(data),
        rest == Seq::<u8>::empty(),
        contents(data).len() > 0 ==> {
            decoded matches Ok(Some(frame)) && contents(frame) == contents(data)
        },
        contents(data).len() == 0 ==> decoded == Ok::<Option<BytesMut>, std::io::Error>(None),
{
    assert(Seq::<u8>::empty() + contents(data) =~= contents(data));
}

/// The provided `decode_eof` never passes over data: where it returns no frame and no
/// error, the buffer is empty.
pub proof fn provided_eof_leaves_nothing<D: Decoder>(
    pre: &D,
    src: Seq<u8>,
    post: &D,
    rest: Seq<u8>,
    r: Result<Option<D::Item>, D::Error>,
)
    requires
        decodes_eof_by_decode(pre, src, post, rest, r),
        r == Ok::<Option<D::Item>, D::Error>(None),
    ensures
        rest.len() == 0,
{
}

/// At the end of the data, `BytesCodec` does what it does before: all bytes are one
/// frame, no bytes are none, and it never fails.
pub proof fn bytes_codec_eof(
    pre: BytesCodec,
    src: Seq<u8>,
    post: BytesCodec,
    rest: Seq<u8>,
    r: Result<Option<BytesMut>, std::io::Error>,
)
    requires
        decodes_eof(&pre, src, &post, rest, r),
    ensures
        rest == Seq::<u8>::empty(),
        src.len() > 0 ==> (r matches Ok(Some(frame)) && contents(frame) == src),
        src.len() == 0 ==> r == Ok::<Option<BytesMut>, std::io::Error>(None),
{
}

/// Without offload and with `BytesCodec`, a received packet is a frame of the same bytes,
/// and an empty packet ends the read without one.
pub proof fn received_packet_is_frame(
    pre: ReadView,
    codec: BytesCodec,
    buf: &[u8],
    len: usize,
    post: ReadView,
    codec_post: BytesCodec,
    step: ReadStep<BytesMut, std::io::Error>,
)
    requires
        pre.splitter is None,
        pre.rd == Seq::<u8>::empty(),
        len <= buf@.len(),
        receives(pre, &codec, ReceiveEvent::Filled { buf, len }, post, &codec_post, step),
    ensures
        len > 0 ==> {
            &&& step matches ReadStep::Ready(Some(Ok(frame)))
            &&& contents(frame) == buf@.take(len as int)
        },
        len == 0 ==> step == ReadStep::<BytesMut, std::io::Error>::Ready(None),
        post == pre,
{
    assert(pre.rd + buf@.take(len as int) =~= buf@.take(len as int));
}

/// After a split into `num` packets, exactly these are waiting, in the order of the
/// buffers, each cut to the length that the device reported.
pub proof fn split_gives_reported_packets(s: SplitterView, num: nat)
    requires
        s.wf(),
        num <= IDEAL_BATCH_SIZE,
    ensures
        s.filled(num).wf(),
        s.filled(num).pending() == Seq::new(
            num,
            |i: int| truncated(s.segments[i], s.sizes[i] as nat),
        ),
{
    assert(s.filled(num).pending() =~= Seq::new(
        num,
        |i: int| truncated(s.segments[i], s.sizes[i] as nat),
    ));
}

/// Handing out a packet takes the first of those waiting and leaves the others as they
/// are, whatever becomes of its buffer.
pub proof fn taking_leaves_the_others(s: SplitterView, rest: Seq<u8>)
    requires
        s.wf(),
        s.pending().len() > 0,
    ensures
        s.taken(rest).wf(),
        s.taken(rest).pending() == s.pending().skip(1),
{
    assert(s.taken(rest).pending() =~= s.pending().skip(1));
}

/// A read that starts while packets are waiting hands the first of them to the decoder,
/// whichever it is, and leaves the others waiting.
pub proof fn read_takes_first_waiting<C: Decoder>(
    pre: ReadView,
    codec: &C,
    post: ReadView,
    codec_post: &C,
    step: ReadStep<C::Item, C::Error>,
)
    requires
        pre.wf(),
        pre.pending().len() > 0,
        begins(pre, codec, post, codec_post, step),
    ensures
        post.wf(),
        post.pending() == pre.pending().skip(1),
        exists|rest: Seq<u8>, decoded: Result<Option<C::Item>, C::Error>|
            {
                &&& #[trigger] decodes_eof(codec, pre.pending()[0], codec_post, rest, decoded)
                &&& decoded == Ok::<Option<C::Item>, C::Error>(None) ==> step == ReadStep::<C::Item, C::Error>::Receive
                &&& decoded != Ok::<Option<C::Item>, C::Error>(None) ==> step == ReadStep::Ready(
                    spec_stream_item(decoded),
                )
            },
{
    let (rest, decoded) = choose|rest: Seq<u8>, decoded: Result<Option<C::Item>, C::Error>|
        {
            &&& #[trigger] decodes_eof(codec, pre.pending()[0], codec_post, rest, decoded)
            &&& {
                let handed_out = pre.with_splitter(pre.splitter->0.taken(rest));
                if decoded == Ok::<Option<C::Item>, C::Error>(None) {
                    post == handed_out.with_rd(Seq::empty()) && step == ReadStep::<C::Item, C::Error>::Receive
                } else {
                    post == handed_out && step == ReadStep::Ready(spec_stream_item(decoded))
                }
            }
        };
    taking_leaves_the_others(pre.splitter->0, rest);
}

/// With offload and `BytesCodec`, a read starts by delivering the first packet that is
/// waiting, as a frame of the same bytes, and the others keep waiting. An empty packet
/// gives no frame, and the device is asked to receive.
pub proof fn waiting_packet_is_frame(
    pre: ReadView,
    codec: BytesCodec,
    post: ReadView,
    codec_post: BytesCodec,
    step: ReadStep<BytesMut, std::io::Error>,
)
    requires
        pre.wf(),
        pre.pending().len() > 0,
        begins(pre, &codec, post, &codec_post, step),
    ensures
        post.wf(),
        post.pending() == pre.pending().skip(1),
        pre.pending()[0].len() > 0 ==> {
            &&& step matches ReadStep::Ready(Some(Ok(frame)))
            &&& contents(frame) == pre.pending()[0]
        },
        pre.pending()[0].len() == 0 ==> step == ReadStep::<BytesMut, std::io::Error>::Receive,
{
    read_takes_first_waiting(pre, &codec, post, &codec_post, step);
}

/// With offload and `BytesCodec`, the packets that wait after a split come out of
/// successive reads as frames, in order, each once and with its bytes unchanged.
pub proof fn waiting_packets_come_out_in_order(
    states: Seq<ReadView>,
    codecs: Seq<BytesCodec>,
    steps: Seq<ReadStep<BytesMut, std::io::Error>>,
)
    requires
        states.len() == steps.len() + 1,
        codecs.len() == states.len(),
        states[0].wf(),
        steps.len() <= states[0].pending().len(),
        forall|i: int|
            0 <= i < states[0].pending().len() ==> (#[trigger] states[0].pending()[i]).len() > 0,
        forall|i: int|
            0 <= i < steps.len() ==> begins(
                states[i],
                &codecs[i],
                states[i + 1],
                &codecs[i + 1],
                #[trigger] steps[i],
            ),
    ensures
        forall|i: int|
            0 <= i < steps.len() ==> {
                &&& #[trigger] steps[i] matches ReadStep::Ready(Some(Ok(frame)))
                &&& contents(frame) == states[0].pending()[i]
            },
        states.last().wf(),
        states.last().pending() == states[0].pending().skip(steps.len() as int),
    decreases steps.len(),
{
    if steps.len() == 0 {
        assert(states[0].pending().skip(0) =~= states[0].pending());
    } else {
        let n = steps.len() - 1;
        let (states_n, codecs_n, steps_n) = (
            states.drop_last(),
            codecs.drop_last(),
            steps.drop_last(),
        );
        assert forall|i: int| 0 <= i < steps_n.len() implies begins(
            states_n[i],
            &codecs_n[i],
            states_n[i + 1],
            &codecs_n[i + 1],
            #[trigger] steps_n[i],
        ) by {
            assert(steps_n[i] == steps[i]);
        }
        waiting_packets_come_out_in_order(states_n, codecs_n, steps_n);
        assert(states_n.last() == states[n]);
        assert(begins(states[n], &codecs[n], states[n + 1], &codecs[n + 1], steps[n]));
        assert(states[n].pending()[0] == states[0].pending()[n]);
        waiting_packet_is_frame(states[n], codecs[n], states[n + 1], codecs[n + 1], steps[n]);
        assert(states[n + 1].pending() =~= states[0].pending().skip(n + 1));
        assert forall|i: int| 0 <= i < steps.len() implies {
            &&& #[trigger] steps[i] matches ReadStep::Ready(Some(Ok(frame)))
            &&& contents(frame) == states[0].pending()[i]
        } by {
            if i < n {
                assert(steps_n[i] == steps[i]);
            }
        }
    }
}

/// With offload and `BytesCodec`, a split packet gives its first part as a frame at once;
/// the other parts wait.
pub proof fn split_delivers_first_packet(
    pre: ReadView,
    codec: BytesCodec,
    num: usize,
    post: ReadView,
    codec_post: BytesCodec,
    step: ReadStep<BytesMut, std::io::Error>,
)
    requires
        pre.wf(),
        pre.splitter is Some,
        0 < num <= IDEAL_BATCH_SIZE,
        splits(pre, &codec, SplitEvent::Done(num), post, &codec_post, step),
    ensures
        ({
            let s = pre.splitter->0;
            let first = truncated(s.segments[0], s.sizes[0] as nat);
            &&& first.len() > 0 ==> {
                &&& step matches ReadStep::Ready(Some(Ok(frame)))
                &&& contents(frame) == first
            }
            &&& first.len() == 0 ==> step == ReadStep::<BytesMut, std::io::Error>::Ready(None)
            &&& post.wf()
            &&& post.pending() == Seq::new(
                (num - 1) as nat,
                |i: int| truncated(s.segments[i + 1], s.sizes[i + 1] as nat),
            )
        }),
{
    let s = pre.splitter->0;
    let filled = s.filled(num as nat);
    split_gives_reported_packets(s, num as nat);
    let (rest, decoded) = choose|
        rest: Seq<u8>,
        decoded: Result<Option<BytesMut>, std::io::Error>,
    |
        {
            &&& #[trigger] decodes_eof(&codec, filled.pending()[0], &codec_post, rest, decoded)
            &&& post == pre.with_splitter(filled.taken(rest))
            &&& step == ReadStep::Ready(spec_stream_item(decoded))
        };
    taking_leaves_the_others(filled, rest);
    assert(post.pending() =~= Seq::new(
        (num - 1) as nat,
        |i: int| truncated(s.segments[i + 1], s.sizes[i + 1] as nat),
    ));
}

/// The buffers of a new framed device take every frame that the device can deliver: an
/// Ethernet header with a VLAN tag and a payload of any of the device's MTUs. Without
/// offload and with it, that much room is offered.
pub proof fn new_buffers_fit_tagged_frames(props: DeviceProps)
    ensures
        buffer_size(props) >= mtu_or_default(props.mtu) + FRAME_OVERHEAD,
        props.mtu_v6 matches Some(v6) ==> buffer_size(props) >= mtu_or_default(v6)
            + FRAME_OVERHEAD,
        ReadView::fresh(buffer_size(props), props.tcp_gso).room_needed() >= buffer_size(props),
{
}

/// Setting the size of the read buffer takes effect as it is, for the splitter's buffers
/// too, the last setting counts, and no data is touched.
pub proof fn read_buffer_size_is_as_set(v: ReadView, m: nat, n: nat)
    requires
        v.wf(),
    ensures
        v.with_buffer_size(n).recv_buffer_size == n,
        v.with_buffer_size(n).splitter matches Some(s) ==> s.segment_len == n,
        v.with_buffer_size(m).with_buffer_size(n) == v.with_buffer_size(n),
        v.with_buffer_size(n).rd == v.rd,
        v.with_buffer_size(n).pending() == v.pending(),
        v.with_buffer_size(n).wf(),
{
}

/// The size of the write buffer only ever grows, to the largest size asked for, in
/// whatever order; with offload it never changes.
pub proof fn write_buffer_size_only_grows(v: WriteView, m: nat, n: nat)
    ensures
        v.arena is None ==> v.with_buffer_size(n).buffer_size() == if n > v.buffer_size() {
            n
        } else {
            v.buffer_size()
        },
        v.arena is Some ==> v.with_buffer_size(n) == v,
        v.with_buffer_size(m).with_buffer_size(n) == v.with_buffer_size(n).with_buffer_size(m),
        v.with_buffer_size(n).unsent() == v.unsent(),
{
}

/// With offload, the write buffer of a new framed device holds the largest packet and its
/// header, and never less than what the MTU asks for; so it is larger than that wherever
/// the MTU leaves it below the largest packet.
pub proof fn offload_write_buffer_is_larger(props: DeviceProps)
    requires
        props.tcp_gso,
    ensures
        ({
            let size = WriteView::fresh(buffer_size(props), true).buffer_size();
            &&& size >= VIRTIO_NET_HDR_LEN + OFFLOAD_PACKET_LEN
            &&& size >= buffer_size(props)
            &&& buffer_size(props) < VIRTIO_NET_HDR_LEN + OFFLOAD_PACKET_LEN ==> size
                > buffer_size(props)
        }),
{
}

/// A waiting packet never ends the stream: a read that starts with one gives a frame or an
/// error, or goes on to receive.
pub proof fn waiting_packet_never_ends_the_stream<C: Decoder>(
    pre: ReadView,
    codec: &C,
    post: ReadView,
    codec_post: &C,
    step: ReadStep<C::Item, C::Error>,
)
    requires
        begins(pre, codec, post, codec_post, step),
    ensures
        step != ReadStep::<C::Item, C::Error>::Ready(None),
        step matches ReadStep::Ready(Some(_)) || step is Receive,
{
}

/// Starting a read keeps the size of the read buffer.
pub proof fn beginning_keeps_buffer_size<C: Decoder>(
    pre: ReadView,
    codec: &C,
    post: ReadView,
    codec_post: &C,
    step: ReadStep<C::Item, C::Error>,
)
    requires
        begins(pre, codec, post, codec_post, step),
    ensures
        post.recv_buffer_size == pre.recv_buffer_size,
        post.splitter is Some == pre.splitter is Some,
{
}

/// Receiving keeps the size of the read buffer.
pub proof fn receiving_keeps_buffer_size<C: Decoder>(
    pre: ReadView,
    codec: &C,
    event: ReceiveEvent<'_>,
    post: ReadView,
    codec_post: &C,
    step: ReadStep<C::Item, C::Error>,
)
    requires
        receives(pre, codec, event, post, codec_post, step),
    ensures
        post.recv_buffer_size == pre.recv_buffer_size,
        post.splitter is Some == pre.splitter is Some,
{
}

/// Splitting keeps the size of the read buffer.
pub proof fn splitting_keeps_buffer_size<C: Decoder>(
    pre: ReadView,
    codec: &C,
    event: SplitEvent,
    post: ReadView,
    codec_post: &C,
    step: ReadStep<C::Item, C::Error>,
)
    requires
        pre.splitter is Some,
        splits(pre, codec, event, post, codec_post, step),
    ensures
        post.recv_buffer_size == pre.recv_buffer_size,
        post.splitter is Some,
{
}

/// With offload, a writing side that is ready takes one more packet behind those queued,
/// which stay as they are; nothing is being sent meanwhile, and the batch never exceeds
/// its size.
pub proof fn ready_queue_takes_one_more(v: WriteView, packet: Seq<u8>)
    requires
        v.wf(),
        v.ready(),
    ensures
        v.with_packet(packet).wf(),
        v.with_packet(packet).arena->0.queued() == v.arena->0.queued().push(packet),
        v.with_packet(packet).unsent() == Seq::<Seq<u8>>::empty(),
        v.with_packet(packet).arena->0.offset <= IDEAL_BATCH_SIZE,
        v.with_packet(packet).needs_coalescing(),
{
    let a = v.arena->0;
    assert(a.with_queued(packet).queued() =~= a.queued().push(packet));
    assert(v.with_packet(packet).unsent() =~= Seq::<Seq<u8>>::empty());
}

/// Without offload, the last packet is the one to be sent, and an empty one is not.
pub proof fn written_packet_is_to_be_sent(v: WriteView, packet: Seq<u8>)
    requires
        v.arena is None,
    ensures
        packet.len() > 0 ==> v.with_packet(packet).unsent() == seq![packet],
        packet.len() == 0 ==> v.with_packet(packet).unsent() == Seq::<Seq<u8>>::empty(),
{
}

/// With `BytesCodec`, the packet made of a frame is the frame, behind a header of zeros
/// where the device does offload.
pub proof fn packet_of_a_frame(
    v: WriteView,
    codec: BytesCodec,
    data: Bytes,
    codec_post: BytesCodec,
    packet: Seq<u8>,
    r: Result<(), std::io::Error>,
)
    requires
        <BytesCodec as Encoder<Bytes>>::encodes(
            &codec,
            data,
            v.encode_start(),
            &codec_post,
            packet,
            r,
        ),
    ensures
        r is Ok,
        v.arena is None ==> packet == frozen_contents(data),
        v.arena is Some ==> packet == zeros(VIRTIO_NET_HDR_LEN as nat) + frozen_contents(data),
{
    assert(Seq::<u8>::empty() + frozen_contents(data) =~= frozen_contents(data));
}

/// The same of frames that are given as `BytesMut`.
pub proof fn packet_of_a_frame_mut(
    v: WriteView,
    codec: BytesCodec,
    data: BytesMut,
    codec_post: BytesCodec,
    packet: Seq<u8>,
    r: Result<(), std::io::Error>,
)
    requires
        <BytesCodec as Encoder<BytesMut>>::encodes(
            &codec,
            data,
            v.encode_start(),
            &codec_post,
            packet,
            r,
        ),
    ensures
        r is Ok,
        v.arena is None ==> packet == contents(data),
        v.arena is Some ==> packet == zeros(VIRTIO_NET_HDR_LEN as nat) + contents(data),
{
    assert(Seq::<u8>::empty() + contents(data) =~= contents(data));
}

/// A packet that the device took or refused is done with: the others are still to be sent,
/// in the same order. After the last one the writing side is as if nothing had been queued,
/// and with offload it is ready.
pub proof fn sending_leaves_the_others<E: From<std::io::Error>>(
    pre: WriteView,
    event: SendEvent,
    post: WriteView,
    step: FlushStep<E>,
)
    requires
        pre.wf(),
        pre.unsent().len() > 0,
        event !is Pending,
        sends(pre, event, post, step),
    ensures
        post.wf(),
        post.unsent() == pre.unsent().skip(1),
        event is Sent ==> step == if pre.unsent().len() > 1 {
            FlushStep::<E>::Send
        } else {
            FlushStep::<E>::Ready(Ok(()))
        },
        event is Failed ==> (step matches FlushStep::Ready(Err(_))),
        pre.arena matches Some(a) ==> if pre.unsent().len() > 1 {
            post.arena == Some(a.advanced())
        } else {
            &&& post.arena == Some(a.reset())
            &&& post.ready()
        },
{
    match pre.arena {
        Some(a) => {
            assert(a.to_write[a.send_index as int] < a.offset);
            assert(a.unsent().len() == a.to_write.len() - a.send_index);
            assert(a.advanced().reset() =~= a.reset());
            assert(post.unsent() =~= pre.unsent().skip(1));
        },
        None => {
            assert(post.unsent() =~= pre.unsent().skip(1));
        },
    }
}

/// A flush offers every packet to be sent exactly once, in order, whether the device takes
/// it or refuses it; when all are through, nothing is left to be sent.
pub proof fn flush_sends_each_packet_once<E: From<std::io::Error>>(
    states: Seq<WriteView>,
    events: Seq<SendEvent>,
    steps: Seq<FlushStep<E>>,
)
    requires
        states.len() == events.len() + 1,
        steps.len() == events.len(),
        states[0].wf(),
        events.len() <= states[0].unsent().len(),
        forall|i: int| 0 <= i < events.len() ==> #[trigger] events[i] !is Pending,
        forall|i: int|
            0 <= i < events.len() ==> sends(
                states[i],
                #[trigger] events[i],
                states[i + 1],
                steps[i],
            ),
    ensures
        forall|i: int|
            0 <= i < events.len() ==> {
                &&& (#[trigger] states[i]).unsent().len() > 0
                &&& states[i].unsent()[0] == states[0].unsent()[i]
            },
        states.last().wf(),
        states.last().unsent() == states[0].unsent().skip(events.len() as int),
    decreases events.len(),
{
    if events.len() == 0 {
        assert(states[0].unsent().skip(0) =~= states[0].unsent());
    } else {
        let n = events.len() - 1;
        let (states_n, events_n, steps_n) = (
            states.drop_last(),
            events.drop_last(),
            steps.drop_last(),
        );
        assert forall|i: int| 0 <= i < events_n.len() implies #[trigger] events_n[i]
            !is Pending && sends(states_n[i], events_n[i], states_n[i + 1], steps_n[i]) by {
            assert(events_n[i] == events[i]);
        }
        flush_sends_each_packet_once(states_n, events_n, steps_n);
        assert(states_n.last() == states[n]);
        assert(events[n] !is Pending);
        assert(states[n].unsent()[0] == states[0].unsent()[n]);
        sending_leaves_the_others(states[n], events[n], states[n + 1], steps[n]);
        assert(states[n + 1].unsent() =~= states[0].unsent().skip(n + 1));
        assert forall|i: int| 0 <= i < events.len() implies {
            &&& (#[trigger] states[i]).unsent().len() > 0
            &&& states[i].unsent()[0] == states[0].unsent()[i]
        } by {
            if i < n {
                assert(states_n[i] == states[i]);
            }
        }
    }
}

/// A packet that the device could not take yet stays the one to be sent: the next flush
/// offers it again.
pub proof fn pending_packet_is_offered_again<E: From<std::io::Error>>(
    pre: WriteView,
    post: WriteView,
    step: FlushStep<E>,
    again: WriteView,
    again_step: FlushStep<E>,
)
    requires
        pre.wf(),
        pre.unsent().len() > 0,
        sends(pre, SendEvent::Pending, post, step),
        begins_flush(post, again, again_step),
    ensures
        step == FlushStep::<E>::Pending,
        again == pre,
        again_step == FlushStep::<E>::Send,
{
    match pre.arena {
        Some(a) => {
            assert(a.to_write[a.send_index as int] < a.offset);
        },
        None => {},
    }
}

/// A flush with nothing queued or written is over at once and changes nothing.
pub proof fn empty_flush_does_nothing<E>(pre: WriteView, post: WriteView, step: FlushStep<E>)
    requires
        pre.wf(),
        pre.unsent().len() == 0,
        pre.arena matches Some(a) ==> a.offset == 0,
        begins_flush(pre, post, step),
    ensures
        post == pre,
        step == FlushStep::<E>::Ready(Ok(())),
{
}

/// Without offload, a frame that `BytesCodec` writes comes out of the reading side of the
/// other end as it went in: the packet that is sent, once received, gives the same bytes.
pub proof fn loopback(
    w: WriteView,
    encoder: BytesCodec,
    data: Bytes,
    encoder_post: BytesCodec,
    packet: Seq<u8>,
    encoded: Result<(), std::io::Error>,
    r: ReadView,
    decoder: BytesCodec,
    r_post: ReadView,
    decoder_post: BytesCodec,
    step: ReadStep<BytesMut, std::io::Error>,
)
    requires
        w.arena is None,
        r.splitter is None,
        frozen_contents(data).len() > 0,
        <BytesCodec as Encoder<Bytes>>::encodes(
            &encoder,
            data,
            w.encode_start(),
            &encoder_post,
            packet,
            encoded,
        ),
        receives_packet(
            r,
            &decoder,
            w.with_packet(packet).unsent()[0],
            r_post,
            &decoder_post,
            step,
        ),
    ensures
        w.with_packet(packet).unsent().len() == 1,
        step matches ReadStep::Ready(Some(Ok(frame))) && contents(frame) == frozen_contents(data),
{
    packet_of_a_frame(w, encoder, data, encoder_post, packet, encoded);
    written_packet_is_to_be_sent(w, packet);
}

/// The same of frames that are given as `BytesMut`.
pub proof fn loopback_mut(
    w: WriteView,
    encoder: BytesCodec,
    data: BytesMut,
    encoder_post: BytesCodec,
    packet: Seq<u8>,
    encoded: Result<(), std::io::Error>,
    r: ReadView,
    decoder: BytesCodec,
    r_post: ReadView,
    decoder_post: BytesCodec,
    step: ReadStep<BytesMut, std::io::Error>,
)
    requires
        w.arena is None,
        r.splitter is None,
        contents(data).len() > 0,
        <BytesCodec as Encoder<BytesMut>>::encodes(
            &encoder,
            data,
            w.encode_start(),
            &encoder_post,
            packet,
            encoded,
        ),
        receives_packet(
            r,
            &decoder,
            w.with_packet(packet).unsent()[0],
            r_post,
            &decoder_post,
            step,
        ),
    ensures
        w.with_packet(packet).unsent().len() == 1,
        step matches ReadStep::Ready(Some(Ok(frame))) && contents(frame) == contents(data),
{
    packet_of_a_frame_mut(w, encoder, data, encoder_post, packet, encoded);
    written_packet_is_to_be_sent(w, packet);
}

/// With offload, a frame that `BytesCodec` writes comes back as it went in, where the device
/// sends its packet as it is and splits it into the one part that follows the header: the
/// receiving side asks for the split and hands the device the header of zeros and the frame,
/// and the part that the device puts into the first buffer gives the same bytes.
pub proof fn offload_loopback(
    w: WriteView,
    encoder: BytesCodec,
    data: Bytes,
    encoder_post: BytesCodec,
    packet: Seq<u8>,
    encoded: Result<(), std::io::Error>,
    r: ReadView,
    decoder: BytesCodec,
    received: ReadView,
    decoder_mid: BytesCodec,
    asked: ReadStep<BytesMut, std::io::Error>,
    split: ReadView,
    r_post: ReadView,
    decoder_post: BytesCodec,
    step: ReadStep<BytesMut, std::io::Error>,
)
    requires
        w.arena is Some,
        r.splitter is Some,
        frozen_contents(data).len() > 0,
        <BytesCodec as Encoder<Bytes>>::encodes(
            &encoder,
            data,
            w.encode_start(),
            &encoder_post,
            packet,
            encoded,
        ),
        receives_packet(r, &decoder, packet, received, &decoder_mid, asked),
        split.wf(),
        split.splitter is Some,
        truncated(split.splitter->0.segments[0], split.splitter->0.sizes[0] as nat)
            == received.rd.skip(VIRTIO_NET_HDR_LEN as int),
        splits(split, &decoder_mid, SplitEvent::Done(1), r_post, &decoder_post, step),
    ensures
        asked == ReadStep::<BytesMut, std::io::Error>::Split,
        received.rd.take(VIRTIO_NET_HDR_LEN as int) == zeros(VIRTIO_NET_HDR_LEN as nat),
        received.rd.skip(VIRTIO_NET_HDR_LEN as int) == frozen_contents(data),
        step matches ReadStep::Ready(Some(Ok(frame))) && contents(frame) == frozen_contents(data),
{
    packet_of_a_frame(w, encoder, data, encoder_post, packet, encoded);
    assert(packet.take(VIRTIO_NET_HDR_LEN as int) =~= zeros(VIRTIO_NET_HDR_LEN as nat));
    assert(packet.skip(VIRTIO_NET_HDR_LEN as int) =~= frozen_contents(data));
    split_delivers_first_packet(split, decoder_mid, 1, r_post, decoder_post, step);
}

/// A new framed device waits for nothing: no packet is waiting or to be sent, and with
/// offload it is ready for a frame.
pub proof fn new_framed_device_is_idle(size: nat, tcp_gso: bool)
    ensures
        ReadView::fresh(size, tcp_gso).wf(),
        ReadView::fresh(size, tcp_gso).pending() == Seq::<Seq<u8>>::empty(),
        WriteView::fresh(size, tcp_gso).wf(),
        WriteView::fresh(size, tcp_gso).unsent() == Seq::<Seq<u8>>::empty(),
        WriteView::fresh(size, tcp_gso).ready() == tcp_gso,
{
    assert(ReadView::fresh(size, tcp_gso).pending() =~= Seq::<Seq<u8>>::empty());
    assert(WriteView::fresh(size, tcp_gso).unsent() =~= Seq::<Seq<u8>>::empty());
}

/// Where coalescing leaves every queued packet as it is and lists them all, exactly the
/// queued packets are to be sent, in the order in which they were queued.
pub proof fn uncoalesced_queue_is_sent_as_it_is(v: WriteView, to_write: Seq<usize>)
    requires
        v.wf(),
        v.needs_coalescing(),
        to_write.len() == v.arena->0.offset,
        forall|i: int| 0 <= i < to_write.len() ==> #[trigger] to_write[i] == i,
    ensures
        v.arena->0.coalesced(to_write).wf(),
        v.arena->0.coalesced(to_write).unsent() == v.arena->0.queued(),
{
    assert(v.arena->0.coalesced(to_write).unsent() =~= v.arena->0.queued());
}

/// A codec whose errors are I/O errors sees a device's error as it is, and a fault as an
/// error of the fault's kind and text.
pub proof fn io_errors_are_passed_on(e: std::io::Error, device: std::io::Error, fault: Fault)
    ensures
        converted(e, FrameError::Device(device)) ==> e == device,
        converted(e, FrameError::Fault(fault)) ==> e == io_error(
            fault.spec_kind(),
            fault.spec_message(),
        ),
{
}

} // verus!
