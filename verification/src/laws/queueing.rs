//! What holds of the arena: which packets are queued, which are sent, and in what order.

use bytes::BytesMut;
use vstd::prelude::*;

use crate::arena::{indices_below, ArenaView, PacketArena};
use crate::buffer::{all_contents, contents};

verus! {

/// The arena starts over from `pre` to `post`: nothing is queued or to be sent, the buffers
/// that were queued are empty, and the others are as they were.
pub open spec fn starts_over(pre: ArenaView, post: ArenaView) -> bool {
    &&& post.offset == 0
    &&& post.to_write.len() == 0
    &&& post.send_index == 0
    &&& post.packets.len() == pre.packets.len()
    &&& forall|i: int|
        0 <= i < pre.packets.len() ==> #[trigger] post.packets[i] == if i < pre.offset {
            Seq::<u8>::empty()
        } else {
            pre.packets[i]
        }
}

/// What is asked of an arena: the queued buffers exist, no more packets are through than were
/// listed, and only queued ones are listed.
pub proof fn arena_lists_queued_packets(a: ArenaView)
    ensures
        a.wf() <==> {
            &&& a.offset <= a.packets.len()
            &&& a.send_index <= a.to_write.len()
            &&& forall|i: int| 0 <= i < a.to_write.len() ==> #[trigger] a.to_write[i] < a.offset
        },
        indices_below(a.to_write, a.offset) <==> forall|i: int|
            0 <= i < a.to_write.len() ==> #[trigger] a.to_write[i] < a.offset,
{
}

/// The packets to be sent are those listed that are not through, each the content of the buffer
/// that its place in the list names, in the order of the list.
pub proof fn unsent_packets_are_those_listed(a: ArenaView)
    requires
        a.wf(),
    ensures
        a.unsent().len() == a.to_write.len() - a.send_index,
        forall|i: int|
            0 <= i < a.to_write.len() - a.send_index ==> #[trigger] a.unsent()[i]
                == a.packets[a.to_write[a.send_index + i] as int],
        a.has_unsent() <==> a.send_index < a.to_write.len(),
        a.queued().len() == a.offset,
        forall|i: int| 0 <= i < a.offset ==> #[trigger] a.queued()[i] == a.packets[i],
{
}

/// A new arena has nothing queued, listed or through.
pub proof fn new_arena_is_empty(arena: PacketArena)
    requires
        call_ensures(PacketArena::new, (), arena),
    ensures
        arena@.packets.len() == 0,
        arena@.offset == 0,
        arena@.to_write.len() == 0,
        arena@.send_index == 0,
{
}

/// Another packet joins the queue behind all that are queued, whatever stands in the buffer that
/// it gets; no other buffer changes, nor what is to be sent.
pub proof fn packet_joins_the_queue(arena: &mut PacketArena, buf: &mut BytesMut)
    requires
        old(arena)@.wf(),
        call_ensures(PacketArena::get, (arena,), buf),
    ensures
        contents(*old(buf)).len() == 0,
        ({
            let (a, b) = (old(arena)@, final(arena)@);
            &&& b.offset == a.offset + 1
            &&& b.packets[a.offset as int] == contents(*final(buf))
            &&& forall|i: int|
                0 <= i < a.packets.len() && i != a.offset ==> #[trigger] b.packets[i]
                    == a.packets[i]
            &&& a.offset < a.packets.len() ==> b.packets.len() == a.packets.len()
            &&& a.offset == a.packets.len() ==> b.packets.len() == a.packets.len() + 1
            &&& b.to_write == a.to_write
            &&& b.send_index == a.send_index
            &&& b.unsent() == a.unsent()
        }),
{
    let (a, b) = (old(arena)@, final(arena)@);
    assert forall|i: int| 0 <= i < a.unsent().len() implies #[trigger] b.unsent()[i]
        == a.unsent()[i] by {
        assert(a.to_write[a.send_index + i] < a.offset);
    }
    assert(b.unsent() =~= a.unsent());
}

/// What an arena says of itself: how many packets are queued, whether they have to be coalesced,
/// which they have where some are queued and none is listed, and whether one more can be
/// queued, which it can while there are fewer than a hundred and twenty-eight and none is
/// listed.
pub proof fn arena_tells_its_state(arena: PacketArena, n: usize, needs: bool, idle: bool)
    requires
        call_ensures(PacketArena::queue_len, (&arena,), n),
        call_ensures(PacketArena::needs_coalescing, (&arena,), needs),
        call_ensures(PacketArena::is_idle, (&arena,), idle),
    ensures
        n == arena@.offset,
        needs <==> n > 0 && arena@.to_write.len() == 0,
        idle <==> n < 128 && arena@.to_write.len() == 0,
{
}

/// The device is given the queued packets, all of them and no other, in order; what it makes of
/// them is what the arena holds afterwards, and nothing else changes.
pub proof fn device_sees_the_queued_packets(arena: &mut PacketArena, bufs: &mut [BytesMut])
    requires
        old(arena)@.wf(),
        call_ensures(PacketArena::queued_mut, (arena,), bufs),
    ensures
        old(bufs)@.len() == old(arena)@.offset,
        forall|i: int|
            0 <= i < old(bufs)@.len() ==> contents(#[trigger] old(bufs)@[i]) == old(arena)@.packets[i],
        final(bufs)@.len() == old(bufs)@.len() ==> {
            let (a, b) = (old(arena)@, final(arena)@);
            &&& b.packets.len() == a.packets.len()
            &&& forall|i: int|
                0 <= i < a.offset ==> #[trigger] b.packets[i] == contents(final(bufs)@[i])
            &&& forall|i: int|
                a.offset <= i < a.packets.len() ==> #[trigger] b.packets[i] == a.packets[i]
        },
        final(arena)@.offset == old(arena)@.offset,
        final(arena)@.to_write == old(arena)@.to_write,
        final(arena)@.send_index == old(arena)@.send_index,
{
    assert(old(arena)@.queued().len() == all_contents(old(bufs)@).len());
    assert forall|i: int| 0 <= i < old(bufs)@.len() implies contents(#[trigger] old(bufs)@[i])
        == old(arena)@.packets[i] by {
        assert(old(arena)@.queued()[i] == all_contents(old(bufs)@)[i]);
    }
}

/// The list that coalescing gave is taken over as it is: the packets to be sent are the queued
/// ones at these places, in this order.
pub proof fn list_is_taken_over(arena: &mut PacketArena, to_write: Vec<usize>)
    requires
        old(arena)@.wf(),
        old(arena)@.to_write.len() == 0,
        indices_below(to_write@, old(arena)@.offset),
        call_ensures(PacketArena::set_to_write, (arena, to_write), ()),
    ensures
        final(arena)@.to_write == to_write@,
        final(arena)@.packets == old(arena)@.packets,
        final(arena)@.offset == old(arena)@.offset,
        final(arena)@.send_index == 0,
        final(arena)@.unsent().len() == to_write@.len(),
        forall|i: int|
            0 <= i < to_write@.len() ==> #[trigger] final(arena)@.unsent()[i] == old(arena)@.packets[to_write@[i] as int],
{
}

/// The packet to send is the one at the place that the list names next.
pub proof fn current_packet_is_the_next_listed(arena: PacketArena, r: Option<&BytesMut>)
    requires
        arena@.wf(),
        call_ensures(PacketArena::current, (&arena,), r),
    ensures
        r is Some <==> arena@.send_index < arena@.to_write.len(),
        r matches Some(buf) ==> contents(*buf)
            == arena@.packets[arena@.to_write[arena@.send_index as int] as int],
{
}

/// While a packet is to be sent, settling changes nothing and says so; once all are through, the
/// arena starts over, and an arena with nothing queued stays as it is.
pub proof fn settling_starts_over_at_the_end(arena: &mut PacketArena, send: bool)
    requires
        old(arena)@.wf(),
        call_ensures(PacketArena::settle, (arena,), send),
    ensures
        send <==> old(arena)@.send_index < old(arena)@.to_write.len(),
        send || old(arena)@.offset == 0 ==> final(arena)@ == old(arena)@,
        !send && old(arena)@.offset > 0 ==> starts_over(old(arena)@, final(arena)@),
{
    let a = old(arena)@;
    if a.to_write.len() > 0 {
        assert(a.to_write[0] < a.offset);
    }
}

/// A packet that the device took is through, and the next one follows; after the last one the
/// arena starts over.
pub proof fn taken_packet_is_through(arena: &mut PacketArena, send: bool)
    requires
        old(arena)@.wf(),
        old(arena)@.send_index < old(arena)@.to_write.len(),
        call_ensures(PacketArena::on_sent, (arena,), send),
    ensures
        send <==> old(arena)@.send_index + 1 < old(arena)@.to_write.len(),
        send ==> {
            &&& final(arena)@.send_index == old(arena)@.send_index + 1
            &&& final(arena)@.to_write == old(arena)@.to_write
            &&& final(arena)@.packets == old(arena)@.packets
            &&& final(arena)@.offset == old(arena)@.offset
        },
        !send ==> starts_over(old(arena)@, final(arena)@),
{
    let a = old(arena)@;
    assert(a.to_write[a.send_index as int] < a.offset);
}

/// So is one that the device refused.
pub proof fn refused_packet_is_through(arena: &mut PacketArena)
    requires
        old(arena)@.wf(),
        old(arena)@.send_index < old(arena)@.to_write.len(),
        call_ensures(PacketArena::on_failed, (arena,), ()),
    ensures
        old(arena)@.send_index + 1 < old(arena)@.to_write.len() ==> {
            &&& final(arena)@.send_index == old(arena)@.send_index + 1
            &&& final(arena)@.to_write == old(arena)@.to_write
            &&& final(arena)@.packets == old(arena)@.packets
            &&& final(arena)@.offset == old(arena)@.offset
        },
        old(arena)@.send_index + 1 == old(arena)@.to_write.len() ==> starts_over(
            old(arena)@,
            final(arena)@,
        ),
{
    let a = old(arena)@;
    assert(a.to_write[a.send_index as int] < a.offset);
}

/// A reset starts over.
pub proof fn reset_starts_over(arena: &mut PacketArena)
    requires
        call_ensures(PacketArena::reset, (arena,), ()),
    ensures
        starts_over(old(arena)@, final(arena)@),
{
}

} // verus!
