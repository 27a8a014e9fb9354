//! What holds of the writing side: which packets frames become, and how they are sent.

use bytes::BytesMut;
use vstd::prelude::*;

use crate::arena::indices_below;
use crate::buffer::{all_contents, contents};
use crate::codec::Encoder;
use crate::laws::flush_sends_each_packet_once;
use crate::laws::queueing::starts_over;
use crate::sizing::DeviceProps;
use crate::write::{
    begins_flush, coalesces, sends, FlushStep, SendEvent, WriteState, WriteView,
};

verus! {

/// The flush is over with the error that the codec's type makes of `err`.
pub open spec fn flush_ends_with_error<E: From<std::io::Error>>(
    step: FlushStep<E>,
    err: std::io::Error,
) -> bool {
    step matches FlushStep::Ready(Err(e)) && call_ensures(E::from, (err,), e)
}

/// A packet is to be sent, or the flush is over with success where none is.
pub open spec fn goes_on<E>(step: FlushStep<E>, left: int) -> bool {
    if left > 0 {
        step is Send
    } else {
        step == FlushStep::<E>::Ready(Ok(()))
    }
}

/// What is asked of a writing side: that its arena, where it has one, is a sound one.
pub proof fn writing_side_is_as_sound_as_its_arena(v: WriteView)
    ensures
        v.arena is None ==> v.wf(),
        v.arena matches Some(a) ==> (v.wf() <==> a.wf()),
{
}

/// A new writing side has an arena exactly where the device does segmentation offload, whatever
/// the size of the buffer; the write buffer has that size and is empty, and nothing is queued.
pub proof fn arena_comes_with_offload(size: nat, tcp_gso: bool)
    ensures
        WriteView::fresh(size, tcp_gso).arena is Some <==> tcp_gso,
        WriteView::fresh(size, tcp_gso).send_buffer_size == size,
        WriteView::fresh(size, tcp_gso).wr.len() == 0,
        WriteView::fresh(size, tcp_gso).arena matches Some(a) ==> {
            &&& a.packets.len() == 0
            &&& a.offset == 0
            &&& a.to_write.len() == 0
            &&& a.send_index == 0
        },
{
}

/// The same of the writing side that is made for a device. The size it tells is the one it was
/// given, but with offload at least the largest packet of 65536 bytes and its header of ten.
pub proof fn new_writing_side_is_as_asked(
    size: usize,
    props: DeviceProps,
    state: WriteState,
    told: usize,
    drained: bool,
)
    requires
        call_ensures(WriteState::new, (size, &props), state),
        call_ensures(WriteState::write_buffer_size, (&state,), told),
        call_ensures(WriteState::is_drained, (&state,), drained),
    ensures
        state@.arena is Some <==> props.tcp_gso,
        state@.wr.len() == 0,
        drained,
        told >= size,
        props.tcp_gso ==> told >= 65536 + 10,
        told == size || props.tcp_gso && told == 65536 + 10,
        state@.arena matches Some(a) ==> a.packets.len() == 0 && a.to_write.len() == 0,
        state@.wf(),
{
}

/// Without offload the size that is told afterwards is the larger of the one set and the one told
/// before; with offload setting it changes nothing. What is queued or written stays.
pub proof fn write_buffer_takes_the_larger_size(
    state: &mut WriteState,
    size: usize,
    before: usize,
    after: usize,
)
    requires
        call_ensures(WriteState::write_buffer_size, (&*old(state),), before),
        call_ensures(WriteState::set_write_buffer_size, (state, size), ()),
        call_ensures(WriteState::write_buffer_size, (&*final(state),), after),
    ensures
        old(state)@.arena is Some ==> final(state)@ == old(state)@ && after == before,
        old(state)@.arena is None ==> {
            &&& after >= before
            &&& after >= size
            &&& after == before || after == size
            &&& final(state)@.send_buffer_size == after
        },
        final(state)@.arena == old(state)@.arena,
        final(state)@.wr == old(state)@.wr,
{
}

/// The size that is told is the one that was asked for, or with offload the largest packet and
/// its header where that is more.
pub proof fn told_size_covers_the_largest_packet(v: WriteView)
    ensures
        v.buffer_size() >= v.send_buffer_size,
        v.arena is Some ==> v.buffer_size() >= 65546,
        v.buffer_size() == v.send_buffer_size || v.arena is Some && v.buffer_size() == 65546,
{
}

/// Without offload the one packet to be sent is what the write buffer holds, if anything. With
/// offload the packets to be sent are those listed that are not through, in the order of the
/// list.
pub proof fn packets_to_be_sent(v: WriteView)
    requires
        v.wf(),
    ensures
        v.arena is None && v.wr.len() == 0 ==> v.unsent().len() == 0,
        v.arena is None && v.wr.len() > 0 ==> v.unsent().len() == 1 && v.unsent()[0] == v.wr,
        v.arena matches Some(a) ==> {
            &&& v.unsent().len() == a.to_write.len() - a.send_index
            &&& forall|i: int|
                0 <= i < a.to_write.len() - a.send_index ==> #[trigger] v.unsent()[i]
                    == a.packets[a.to_write[a.send_index + i] as int]
        },
{
}

/// The device is to send the first of the packets to be sent: the write buffer, or the queued
/// packet that the list names next.
pub proof fn packet_is_the_next_one(state: WriteState, r: Option<&BytesMut>)
    requires
        state@.wf(),
        call_ensures(WriteState::packet, (&state,), r),
    ensures
        state@.arena is None ==> {
            &&& r is Some <==> state@.wr.len() > 0
            &&& r matches Some(buf) ==> contents(*buf) == state@.wr
        },
        state@.arena matches Some(a) ==> {
            &&& r is Some <==> a.send_index < a.to_write.len()
            &&& r matches Some(buf) ==> contents(*buf)
                == a.packets[a.to_write[a.send_index as int] as int]
        },
{
}

/// An encoder starts behind the room for a header, ten zeros, where the device does offload, and
/// with an empty buffer otherwise, whatever was written before.
pub proof fn encoder_starts_behind_the_header(v: WriteView)
    ensures
        v.arena is None ==> v.encode_start().len() == 0,
        v.arena is Some ==> {
            &&& v.encode_start().len() == 10
            &&& forall|i: int| 0 <= i < 10 ==> #[trigger] v.encode_start()[i] == 0
        },
{
}

/// Without offload a packet takes the place of what the write buffer held. With offload it joins
/// the queue behind all that are queued, which stay as they are, and what is to be sent stays.
pub proof fn packet_is_kept_for_the_flush(v: WriteView, packet: Seq<u8>)
    requires
        v.wf(),
    ensures
        v.with_packet(packet).send_buffer_size == v.send_buffer_size,
        v.arena is None ==> {
            &&& v.with_packet(packet).wr == packet
            &&& v.with_packet(packet).arena is None
        },
        v.arena is Some ==> {
            let (a, b) = (v.arena->0, v.with_packet(packet).arena->0);
            &&& v.with_packet(packet).arena is Some
            &&& v.with_packet(packet).wr == v.wr
            &&& b.offset == a.offset + 1
            &&& b.packets[a.offset as int] == packet
            &&& forall|i: int|
                0 <= i < a.packets.len() && i != a.offset ==> #[trigger] b.packets[i]
                    == a.packets[i]
            &&& b.to_write == a.to_write
            &&& b.send_index == a.send_index
            &&& v.with_packet(packet).unsent() == v.unsent()
        },
{
    if v.arena is Some {
        let (a, b) = (v.arena->0, v.with_packet(packet).arena->0);
        assert forall|i: int| 0 <= i < a.unsent().len() implies #[trigger] b.unsent()[i]
            == a.unsent()[i] by {
            assert(a.to_write[a.send_index + i] < a.offset);
        }
        assert(b.unsent() =~= a.unsent());
    }
}

/// A call that sends a frame hands the encoder an empty buffer, or with offload one of ten zeros,
/// and keeps what the encoder makes of it: in the write buffer, or at the end of the queue. The
/// encoder's result is returned.
pub proof fn frame_is_encoded_and_kept<I, C: Encoder<I>>(
    state: &mut WriteState,
    codec: &mut C,
    item: I,
    r: Result<(), C::Error>,
)
    requires
        old(state)@.wf(),
        call_ensures(WriteState::start_send::<I, C>, (state, codec, item), r),
    ensures
        exists|start: Seq<u8>, packet: Seq<u8>|
            {
                &&& #[trigger] C::encodes(&*old(codec), item, start, &*final(codec), packet, r)
                &&& forall|i: int| 0 <= i < start.len() ==> #[trigger] start[i] == 0
                &&& old(state)@.arena is None ==> {
                    &&& start.len() == 0
                    &&& final(state)@.wr == packet
                    &&& final(state)@.arena is None
                }
                &&& old(state)@.arena is Some ==> {
                    let (a, b) = (old(state)@.arena->0, final(state)@.arena->0);
                    &&& start.len() == 10
                    &&& final(state)@.arena is Some
                    &&& final(state)@.wr == old(state)@.wr
                    &&& b.offset == a.offset + 1
                    &&& b.packets[a.offset as int] == packet
                    &&& forall|i: int| 0 <= i < a.offset ==> #[trigger] b.packets[i] == a.packets[i]
                    &&& b.to_write == a.to_write
                    &&& b.send_index == a.send_index
                }
            },
        final(state)@.send_buffer_size == old(state)@.send_buffer_size,
        final(state)@.wf(),
{
}

/// With offload there is room for a frame while fewer than a hundred and twenty-eight are queued and
/// none is listed to be sent; without it, a flush always comes first.
pub proof fn room_until_the_batch_is_full(v: WriteView)
    ensures
        v.ready() <==> (v.arena matches Some(a) && a.offset < 128 && a.to_write.len() == 0),
{
}

/// A call that makes room for a frame is over at once and changes nothing where there is room,
/// and does what a flush does where there is none.
pub proof fn making_room_flushes_only_a_full_batch<E>(state: &mut WriteState, step: FlushStep<E>)
    requires
        old(state)@.wf(),
        call_ensures(WriteState::begin_ready::<E>, (state,), step),
    ensures
        (old(state)@.arena matches Some(a) && a.offset < 128 && a.to_write.len() == 0) ==> {
            &&& step == FlushStep::<E>::Ready(Ok(()))
            &&& final(state)@ == old(state)@
        },
        old(state)@.arena is None ==> {
            &&& goes_on(step, old(state)@.wr.len() as int)
            &&& final(state)@ == old(state)@
        },
        (old(state)@.arena matches Some(a) && a.offset >= 128 && a.to_write.len() == 0) ==> {
            &&& step is Coalesce
            &&& final(state)@ == old(state)@
        },
        (old(state)@.arena matches Some(a) && a.to_write.len() > 0) ==> {
            let a = old(state)@.arena->0;
            goes_on(step, a.to_write.len() - a.send_index)
        },
        final(state)@.wf(),
{
    if let Some(a) = old(state)@.arena {
        if a.to_write.len() > 0 {
            assert(a.to_write[0] < a.offset);
        }
    }
}

/// A flush starts with the first packet to be sent where there is one, and changes nothing then.
/// With packets queued and none listed it starts by coalescing them; with nothing queued or
/// written it is over; and an arena whose packets are all through starts over.
pub proof fn flush_starts_with_what_is_there<E>(pre: WriteView, post: WriteView, step: FlushStep<E>)
    requires
        pre.wf(),
        begins_flush(pre, post, step),
    ensures
        pre.arena is None ==> goes_on(step, pre.wr.len() as int) && post == pre,
        pre.arena matches Some(a) ==> {
            &&& a.offset == 0 ==> step == FlushStep::<E>::Ready(Ok(())) && post == pre
            &&& a.offset > 0 && a.to_write.len() == 0 ==> step is Coalesce && post == pre
            &&& a.send_index < a.to_write.len() ==> step is Send && post == pre
            &&& a.to_write.len() > 0 && a.send_index == a.to_write.len() ==> {
                &&& step == FlushStep::<E>::Ready(Ok(()))
                &&& post.arena matches Some(b) && starts_over(a, b)
            }
        },
        post.wr == pre.wr,
        post.send_buffer_size == pre.send_buffer_size,
{
    if let Some(a) = pre.arena {
        if a.to_write.len() > 0 {
            assert(a.to_write[0] < a.offset);
        }
    }
}

/// The same of a call that starts a flush.
pub proof fn starting_a_flush<E>(state: &mut WriteState, step: FlushStep<E>)
    requires
        old(state)@.wf(),
        call_ensures(WriteState::begin_flush::<E>, (state,), step),
    ensures
        old(state)@.arena is None ==> {
            &&& goes_on(step, old(state)@.wr.len() as int)
            &&& final(state)@ == old(state)@
        },
        old(state)@.arena matches Some(a) ==> {
            &&& step is Coalesce <==> a.offset > 0 && a.to_write.len() == 0
            &&& step is Send <==> a.send_index < a.to_write.len()
            &&& step is Coalesce || step is Send ==> final(state)@ == old(state)@
            &&& !(step is Coalesce || step is Send) ==> {
                &&& step == FlushStep::<E>::Ready(Ok(()))
                &&& final(state)@.arena matches Some(b) && b.offset == 0
            }
        },
        final(state)@.wf(),
{
    flush_starts_with_what_is_there(old(state)@, final(state)@, step);
    if let Some(a) = old(state)@.arena {
        if a.to_write.len() > 0 {
            assert(a.to_write[0] < a.offset);
        }
    }
}

/// The device coalesces the queued packets, all of them and no other, in order, and what it makes
/// of them is what is queued afterwards; nothing else changes.
pub proof fn device_coalesces_the_queue(state: &mut WriteState, bufs: &mut [BytesMut])
    requires
        old(state)@.wf(),
        old(state)@.arena is Some,
        call_ensures(WriteState::queued_mut, (state,), bufs),
    ensures
        old(bufs)@.len() == old(state)@.arena->0.offset,
        forall|i: int|
            0 <= i < old(bufs)@.len() ==> contents(#[trigger] old(bufs)@[i])
                == old(state)@.arena->0.packets[i],
        final(state)@.arena is Some,
        ({
            let (a, b) = (old(state)@.arena->0, final(state)@.arena->0);
            &&& final(bufs)@.len() == old(bufs)@.len() ==> {
                &&& b.packets.len() == a.packets.len()
                &&& forall|i: int|
                    0 <= i < a.offset ==> #[trigger] b.packets[i] == contents(final(bufs)@[i])
                &&& forall|i: int|
                    a.offset <= i < a.packets.len() ==> #[trigger] b.packets[i] == a.packets[i]
            }
            &&& b.offset == a.offset
            &&& b.to_write == a.to_write
            &&& b.send_index == a.send_index
        }),
        final(state)@.wr == old(state)@.wr,
        final(state)@.send_buffer_size == old(state)@.send_buffer_size,
{
    let a = old(state)@.arena->0;
    assert(a.queued().len() == all_contents(old(bufs)@).len());
    assert forall|i: int| 0 <= i < old(bufs)@.len() implies contents(#[trigger] old(bufs)@[i])
        == a.packets[i] by {
        assert(a.queued()[i] == all_contents(old(bufs)@)[i]);
    }
}

/// After coalescing has succeeded, the packets to be sent are exactly the queued ones at the
/// places that the list names, in the order of the list. Where it names none, the flush is over
/// and the arena starts over.
pub proof fn listed_packets_are_to_be_sent<E: From<std::io::Error>>(
    pre: WriteView,
    to_write: Seq<usize>,
    post: WriteView,
    step: FlushStep<E>,
)
    requires
        pre.wf(),
        pre.needs_coalescing(),
        indices_below(to_write, pre.arena->0.offset),
        coalesces(pre, Ok(()), to_write, post, step),
    ensures
        goes_on(step, to_write.len() as int),
        post.unsent().len() == to_write.len(),
        forall|i: int|
            0 <= i < to_write.len() ==> #[trigger] post.unsent()[i]
                == pre.arena->0.queued()[to_write[i] as int],
        forall|i: int|
            0 <= i < to_write.len() ==> #[trigger] post.unsent()[i]
                == pre.arena->0.packets[to_write[i] as int],
        post.arena is Some,
        to_write.len() == 0 ==> starts_over(pre.arena->0, post.arena->0),
        to_write.len() > 0 ==> {
            let (a, b) = (pre.arena->0, post.arena->0);
            &&& b.to_write == to_write
            &&& b.send_index == 0
            &&& b.packets == a.packets
            &&& b.offset == a.offset
        },
        post.wr == pre.wr,
        post.send_buffer_size == pre.send_buffer_size,
        post.wf(),
{
}

/// Where coalescing fails, the flush is over with the device's error. What was listed all the same
/// stays to be sent, and the queue stays as it is.
pub proof fn failed_coalescing_keeps_the_queue<E: From<std::io::Error>>(
    pre: WriteView,
    err: std::io::Error,
    to_write: Seq<usize>,
    post: WriteView,
    step: FlushStep<E>,
)
    requires
        pre.wf(),
        pre.needs_coalescing(),
        coalesces(pre, Err(err), to_write, post, step),
    ensures
        flush_ends_with_error(step, err),
        post.arena is Some,
        ({
            let (a, b) = (pre.arena->0, post.arena->0);
            &&& b.to_write == to_write
            &&& b.send_index == 0
            &&& b.packets == a.packets
            &&& b.offset == a.offset
        }),
        post.unsent().len() == to_write.len(),
        forall|i: int|
            0 <= i < to_write.len() ==> #[trigger] post.unsent()[i]
                == pre.arena->0.packets[to_write[i] as int],
        post.wr == pre.wr,
        post.send_buffer_size == pre.send_buffer_size,
{
}

/// The next flush after coalescing failed goes on from there: it sends what was listed, or
/// coalesces again where nothing was.
pub proof fn failed_coalescing_is_tried_again<E: From<std::io::Error>>(
    pre: WriteView,
    err: std::io::Error,
    to_write: Seq<usize>,
    mid: WriteView,
    step: FlushStep<E>,
    post: WriteView,
    again: FlushStep<E>,
)
    requires
        pre.wf(),
        pre.needs_coalescing(),
        coalesces(pre, Err(err), to_write, mid, step),
        begins_flush(mid, post, again),
    ensures
        post == mid,
        to_write.len() == 0 ==> again is Coalesce,
        to_write.len() > 0 ==> again is Send,
{
}

/// A call after coalescing: the packets to be sent are those that the list names, in its order,
/// whether it succeeded or not; a failure is returned.
pub proof fn coalesced_packets_are_to_be_sent<E: From<std::io::Error>>(
    state: &mut WriteState,
    result: Result<(), std::io::Error>,
    to_write: Vec<usize>,
    step: FlushStep<E>,
)
    requires
        old(state)@.wf(),
        old(state)@.needs_coalescing(),
        indices_below(to_write@, old(state)@.arena->0.offset),
        call_ensures(WriteState::on_coalesce::<E>, (state, result, to_write), step),
    ensures
        result is Ok ==> goes_on(step, to_write@.len() as int),
        result matches Err(err) ==> flush_ends_with_error(step, err),
        final(state)@.unsent().len() == to_write@.len(),
        forall|i: int|
            0 <= i < to_write@.len() ==> #[trigger] final(state)@.unsent()[i]
                == old(state)@.arena->0.packets[to_write@[i] as int],
        final(state)@.wf(),
{
}

/// The queue has to be coalesced exactly where packets are queued and none is listed.
pub proof fn queued_packets_are_coalesced_once(v: WriteView)
    ensures
        v.needs_coalescing() <==> (v.arena matches Some(a) && a.offset > 0 && a.to_write.len()
            == 0),
{
}

/// A device that cannot take the packet yet leaves everything as it is.
pub proof fn busy_device_keeps_the_flush_pending<E: From<std::io::Error>>(
    pre: WriteView,
    post: WriteView,
    step: FlushStep<E>,
)
    requires
        sends(pre, SendEvent::Pending, post, step),
    ensures
        step is Pending,
        post == pre,
{
}

/// Without offload, the packet is done with once the device took or refused it: the write buffer is
/// empty, and the flush is over, with the device's error where it refused.
pub proof fn written_packet_is_done_with<E: From<std::io::Error>>(
    pre: WriteView,
    event: SendEvent,
    post: WriteView,
    step: FlushStep<E>,
)
    requires
        pre.arena is None,
        event !is Pending,
        sends(pre, event, post, step),
    ensures
        post.wr.len() == 0,
        post.arena is None,
        post.send_buffer_size == pre.send_buffer_size,
        event is Sent ==> step == FlushStep::<E>::Ready(Ok(())),
        event matches SendEvent::Failed(err) ==> flush_ends_with_error(step, err),
{
}

/// With offload, a packet that the device took or refused is through. While others are listed the
/// batch stays as it is and the next one follows, at once where the device took this one and with
/// the next flush where it refused; after the last one the arena starts over.
pub proof fn listed_packet_is_done_with<E: From<std::io::Error>>(
    pre: WriteView,
    event: SendEvent,
    post: WriteView,
    step: FlushStep<E>,
)
    requires
        pre.wf(),
        pre.arena matches Some(a) && a.send_index < a.to_write.len(),
        event !is Pending,
        sends(pre, event, post, step),
    ensures
        post.arena is Some,
        ({
            let (a, b) = (pre.arena->0, post.arena->0);
            let left = a.to_write.len() - a.send_index - 1;
            &&& left > 0 ==> {
                &&& b.send_index == a.send_index + 1
                &&& b.to_write == a.to_write
                &&& b.packets == a.packets
                &&& b.offset == a.offset
            }
            &&& left == 0 ==> starts_over(a, b)
            &&& event is Sent ==> goes_on(step, left)
            &&& event matches SendEvent::Failed(err) ==> flush_ends_with_error(step, err)
        }),
        post.wr == pre.wr,
        post.send_buffer_size == pre.send_buffer_size,
{
    let a = pre.arena->0;
    assert(a.to_write[a.send_index as int] < a.offset);
}

/// A call after a send: one packet fewer is to be sent, unless the device could not take it yet,
/// and the others follow in the same order.
pub proof fn sent_packet_is_done_with<E: From<std::io::Error>>(
    state: &mut WriteState,
    event: SendEvent,
    step: FlushStep<E>,
)
    requires
        old(state)@.wf(),
        old(state)@.unsent().len() > 0,
        call_ensures(WriteState::on_send::<E>, (state, event), step),
    ensures
        event is Pending ==> step is Pending && final(state)@ == old(state)@,
        event is Sent ==> goes_on(step, old(state)@.unsent().len() - 1),
        event matches SendEvent::Failed(err) ==> flush_ends_with_error(step, err),
        event !is Pending ==> {
            &&& final(state)@.unsent().len() == old(state)@.unsent().len() - 1
            &&& forall|i: int|
                0 <= i < final(state)@.unsent().len() ==> #[trigger] final(state)@.unsent()[i]
                    == old(state)@.unsent()[i + 1]
        },
        final(state)@.wf(),
{
    if event !is Pending {
        if old(state)@.arena is Some {
            listed_packet_is_done_with(old(state)@, event, final(state)@, step);
        } else {
            written_packet_is_done_with(old(state)@, event, final(state)@, step);
        }
    }
}

/// A flush of a coalesced batch offers the device every listed packet once, in the order of the
/// list. Where the device takes them all, every step but the last asks for the next one, the last
/// one ends the flush with success, and nothing is queued or to be sent any more.
pub proof fn flush_sends_the_list<E: From<std::io::Error>>(
    pre: WriteView,
    to_write: Seq<usize>,
    step: FlushStep<E>,
    states: Seq<WriteView>,
    events: Seq<SendEvent>,
    steps: Seq<FlushStep<E>>,
)
    requires
        pre.wf(),
        pre.needs_coalescing(),
        indices_below(to_write, pre.arena->0.offset),
        coalesces(pre, Ok(()), to_write, states[0], step),
        events.len() == to_write.len(),
        steps.len() == events.len(),
        states.len() == events.len() + 1,
        forall|i: int| 0 <= i < events.len() ==> #[trigger] events[i] is Sent,
        forall|i: int|
            0 <= i < events.len() ==> sends(
                states[i],
                #[trigger] events[i],
                states[i + 1],
                steps[i],
            ),
    ensures
        forall|i: int|
            0 <= i < to_write.len() ==> {
                &&& (#[trigger] states[i]).unsent().len() > 0
                &&& states[i].unsent()[0] == pre.arena->0.packets[to_write[i] as int]
                &&& goes_on(steps[i], to_write.len() - i - 1)
            },
        states.last().unsent().len() == 0,
        states.last().arena matches Some(a) && a.offset == 0 && a.to_write.len() == 0,
{
    listed_packets_are_to_be_sent(pre, to_write, states[0], step);
    flush_sends_each_packet_once(states, events, steps);
    if to_write.len() > 0 {
        assert forall|i: int| 0 <= i < to_write.len() implies {
            &&& (#[trigger] states[i]).unsent().len() > 0
            &&& states[i].unsent()[0] == pre.arena->0.packets[to_write[i] as int]
            &&& goes_on(steps[i], to_write.len() - i - 1)
        } by {
            listed_batch_shrinks(states, events, steps, i);
            assert(events[i] is Sent);
            listed_packet_is_done_with(states[i], events[i], states[i + 1], steps[i]);
        }
        let n = to_write.len() - 1;
        listed_batch_shrinks(states, events, steps, n);
        assert(events[n] is Sent);
        listed_packet_is_done_with(states[n], events[n], states[n + 1], steps[n]);
    }
}

/// While listed packets are being sent, the list stays as it is and one more is through after each.
proof fn listed_batch_shrinks<E: From<std::io::Error>>(
    states: Seq<WriteView>,
    events: Seq<SendEvent>,
    steps: Seq<FlushStep<E>>,
    i: int,
)
    requires
        states.len() == events.len() + 1,
        steps.len() == events.len(),
        states[0].wf(),
        states[0].arena matches Some(a) && a.send_index == 0 && a.to_write.len() == events.len(),
        forall|k: int| 0 <= k < events.len() ==> #[trigger] events[k] !is Pending,
        forall|k: int|
            0 <= k < events.len() ==> sends(
                states[k],
                #[trigger] events[k],
                states[k + 1],
                steps[k],
            ),
        0 <= i < events.len(),
    ensures
        states[i].wf(),
        states[i].arena is Some,
        states[i].arena->0.send_index == i,
        states[i].arena->0.to_write == states[0].arena->0.to_write,
    decreases i,
{
    if i > 0 {
        listed_batch_shrinks(states, events, steps, i - 1);
        assert(events[i - 1] !is Pending);
        let a = states[i - 1].arena->0;
        assert(sends(states[i - 1], events[i - 1], states[i - 1 + 1], steps[i - 1]));
        listed_packet_is_done_with(states[i - 1], events[i - 1], states[i], steps[i - 1]);
        assert(states[i].arena->0.offset == a.offset);
    }
}

/// The writing side is drained exactly where nothing is queued or written.
pub proof fn drained_means_nothing_queued(state: WriteState, r: bool)
    requires
        state@.wf(),
        call_ensures(WriteState::is_drained, (&state,), r),
    ensures
        state@.arena is None ==> (r <==> state@.wr.len() == 0),
        state@.arena matches Some(a) ==> (r <==> a.offset == 0),
        r ==> state@.unsent().len() == 0,
{
    if let Some(a) = state@.arena {
        if a.to_write.len() > 0 {
            assert(a.to_write[0] < a.offset);
        }
    }
}

} // verus!
