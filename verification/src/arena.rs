//! Gathering outgoing packets so that the device can coalesce them.
//!
//! Packets are queued up to a batch. The device then coalesces the batch in place
//! and says which of the queued buffers are to be written, and in which order. They
//! are written one after the other; when the last one is through, with success or
//! without, the arena starts over with its buffers emptied.

use bytes::BytesMut;
use vstd::prelude::*;

use crate::buffer::{all_contents, contents};
use crate::sizing::{IDEAL_BATCH_SIZE, OFFLOAD_PACKET_LEN, VIRTIO_NET_HDR_LEN};

verus! {

/// The state of a [`PacketArena`].
#[verifier::ext_equal]
pub struct ArenaView {
    /// What each buffer holds, those queued first.
    pub packets: Seq<Seq<u8>>,
    /// How many buffers are queued.
    pub offset: nat,
    /// The queued buffers that are to be written, in this order; empty until the batch
    /// has been coalesced.
    pub to_write: Seq<usize>,
    /// How many of them have been through.
    pub send_index: nat,
}

impl ArenaView {
    /// What holds of every arena.
    pub open spec fn wf(self) -> bool {
        &&& self.offset <= self.packets.len()
        &&& self.send_index <= self.to_write.len()
        &&& indices_below(self.to_write, self.offset)
    }

    /// The queued packets, in order.
    pub open spec fn queued(self) -> Seq<Seq<u8>> {
        self.packets.take(self.offset as int)
    }

    /// The packets that are still to be written, in order.
    pub open spec fn unsent(self) -> Seq<Seq<u8>> {
        Seq::new(
            (self.to_write.len() - self.send_index) as nat,
            |i: int| self.packets[self.to_write[self.send_index + i] as int],
        )
    }

    /// Whether another packet can be queued right away.
    pub open spec fn idle(self) -> bool {
        IDEAL_BATCH_SIZE > self.offset && self.to_write.len() == 0
    }

    /// An arena without buffers.
    pub open spec fn empty() -> ArenaView {
        ArenaView { packets: Seq::empty(), offset: 0, to_write: Seq::empty(), send_index: 0 }
    }

    /// One more buffer queued, which holds `packet`: the next one that is not in use, or
    /// a new one.
    pub open spec fn with_queued(self, packet: Seq<u8>) -> ArenaView {
        ArenaView {
            packets: if self.offset < self.packets.len() {
                self.packets.update(self.offset as int, packet)
            } else {
                self.packets.push(packet)
            },
            offset: self.offset + 1,
            ..self
        }
    }

    /// Other contents of the queued buffers.
    pub open spec fn with_contents(self, queued: Seq<Seq<u8>>) -> ArenaView {
        ArenaView { packets: queued + self.packets.skip(self.offset as int), ..self }
    }

    /// The batch coalesced, with these buffers to be written.
    pub open spec fn coalesced(self, to_write: Seq<usize>) -> ArenaView {
        ArenaView { to_write, ..self }
    }

    /// One more packet through.
    pub open spec fn advanced(self) -> ArenaView {
        ArenaView { send_index: self.send_index + 1, ..self }
    }

    /// Whether a packet is left to be written.
    pub open spec fn has_unsent(self) -> bool {
        self.send_index < self.to_write.len()
    }

    /// Where writing stands before the next packet: an arena whose packets are all
    /// through starts over.
    pub open spec fn settled(self) -> ArenaView {
        if self.offset == 0 || self.has_unsent() {
            self
        } else {
            self.reset()
        }
    }

    /// The arena after a packet that the device took.
    pub open spec fn after_sent(self) -> ArenaView {
        self.advanced().settled()
    }

    /// The arena after a packet that the device refused: it is not offered again, and
    /// after the last one the arena starts over.
    pub open spec fn after_failed(self) -> ArenaView {
        if self.advanced().has_unsent() {
            self.advanced()
        } else {
            self.advanced().reset()
        }
    }

    /// Every queued buffer emptied, and nothing queued or to be written.
    pub open spec fn reset(self) -> ArenaView {
        ArenaView {
            packets: Seq::new(
                self.packets.len(),
                |i: int|
                    if i < self.offset {
                        Seq::<u8>::empty()
                    } else {
                        self.packets[i]
                    },
            ),
            offset: 0,
            to_write: Seq::empty(),
            send_index: 0,
        }
    }
}

/// Every index of the list is below `n`.
pub open spec fn indices_below(s: Seq<usize>, n: nat) -> bool {
    forall|i: int| 0 <= i < s.len() ==> #[trigger] s[i] < n
}

/// The buffers in which outgoing packets are gathered.
pub struct PacketArena {
    to_write: Vec<usize>,
    offset: usize,
    bufs: Vec<BytesMut>,
    send_index: usize,
}

impl View for PacketArena {
    type V = ArenaView;

    closed spec fn view(&self) -> ArenaView {
        ArenaView {
            packets: all_contents(self.bufs@),
            offset: self.offset as nat,
            to_write: self.to_write@,
            send_index: self.send_index as nat,
        }
    }
}

impl PacketArena {
    /// The list of buffers.
    pub closed spec fn spec_bufs(&self) -> Vec<BytesMut> {
        self.bufs
    }

    /// An arena without buffers.
    pub fn new() -> (arena: PacketArena)
        ensures
            arena@ == ArenaView::empty(),
            arena@.wf(),
            call_ensures(
                Vec::<BytesMut>::with_capacity,
                (IDEAL_BATCH_SIZE,),
                arena.spec_bufs(),
            ),
    {
        PacketArena {
            to_write: Vec::new(),
            offset: 0,
            bufs: Vec::with_capacity(IDEAL_BATCH_SIZE),
            send_index: 0,
        }
    }

    /// Queues one more buffer, emptied, for the caller to fill.
    pub fn get(&mut self) -> (buf: &mut BytesMut)
        requires
            old(self)@.wf(),
        ensures
            contents(*buf) == Seq::<u8>::empty(),
            final(self)@ == old(self)@.with_queued(contents(*final(buf))),
            // Room for the largest packet and its header is reserved in the buffer.
            old(self)@.offset < old(self)@.packets.len() ==> exists|b: &mut BytesMut, n: usize|
                {
                    &&& n == VIRTIO_NET_HDR_LEN + OFFLOAD_PACKET_LEN
                    &&& contents(*b) == Seq::<u8>::empty()
                    &&& #[trigger] call_ensures(BytesMut::reserve, (b, n), ())
                    &&& *final(b) == *buf
                },
            old(self)@.offset == old(self)@.packets.len() ==> call_ensures(
                BytesMut::with_capacity,
                ((VIRTIO_NET_HDR_LEN + OFFLOAD_PACKET_LEN) as usize,),
                *buf,
            ),
            final(self)@.wf(),
    {
        let idx: usize = self.offset;
        if idx < self.bufs.len() {
            self.offset = idx + 1;
            let buf = &mut self.bufs[idx];
            buf.clear();
            buf.reserve(VIRTIO_NET_HDR_LEN + OFFLOAD_PACKET_LEN);
            return buf;
        }
        self.bufs.push(BytesMut::with_capacity(VIRTIO_NET_HDR_LEN + OFFLOAD_PACKET_LEN));
        assert(self.bufs.len() == idx + 1);
        self.offset = idx + 1;
        &mut self.bufs[idx]
    }

    /// The number of queued packets.
    pub fn queue_len(&self) -> (n: usize)
        ensures
            n == self@.offset,
    {
        self.offset
    }

    /// Whether the queued packets have still to be coalesced before they are written.
    pub fn needs_coalescing(&self) -> (r: bool)
        ensures
            r == (self@.offset > 0 && self@.to_write.len() == 0),
    {
        self.offset > 0 && self.to_write.is_empty()
    }

    /// The queued packets, for the device to coalesce in place.
    pub fn queued_mut(&mut self) -> (bufs: &mut [BytesMut])
        requires
            old(self)@.wf(),
        ensures
            all_contents(bufs@) == old(self)@.queued(),
            final(self)@ == old(self)@.with_contents(all_contents(final(bufs)@)),
    {
        let n: usize = self.offset;
        let ghost before = self@;
        let (queued, others) = self.bufs.as_mut_slice().split_at_mut(n);
        proof {
            assert(all_contents(queued@) =~= before.queued());
            assert(all_contents(final(queued)@ + others@) =~= all_contents(final(queued)@)
                + before.packets.skip(n as int));
        }
        queued
    }

    /// Takes over the list of buffers to be written that coalescing gave.
    pub fn set_to_write(&mut self, to_write: Vec<usize>)
        requires
            old(self)@.wf(),
            old(self)@.to_write.len() == 0,
            indices_below(to_write@, old(self)@.offset),
        ensures
            final(self)@ == old(self)@.coalesced(to_write@),
            final(self)@.wf(),
    {
        self.to_write = to_write;
    }

    /// The packet to write next, if one is left.
    pub fn current(&self) -> (r: Option<&BytesMut>)
        requires
            self@.wf(),
        ensures
            r is Some <==> self@.has_unsent(),
            r matches Some(buf) ==> contents(*buf) == self@.unsent()[0],
    {
        if self.send_index < self.to_write.len() {
            Some(&self.bufs[self.to_write[self.send_index]])
        } else {
            None
        }
    }

    /// Whether a packet is to be written next. If packets were queued and all are
    /// through, the arena starts over.
    pub fn settle(&mut self) -> (send: bool)
        requires
            old(self)@.wf(),
        ensures
            send == old(self)@.has_unsent(),
            final(self)@ == old(self)@.settled(),
            final(self)@.wf(),
    {
        if self.offset == 0 {
            proof {
                if self.to_write@.len() > 0 {
                    assert(self.to_write@[0] < self@.offset);
                }
            }
            return false;
        }
        if self.send_index < self.to_write.len() {
            true
        } else {
            self.reset();
            false
        }
    }

    /// Counts the current packet as taken by the device, and says whether another one is
    /// to be written.
    pub fn on_sent(&mut self) -> (send: bool)
        requires
            old(self)@.wf(),
            old(self)@.has_unsent(),
        ensures
            send == old(self)@.advanced().has_unsent(),
            final(self)@ == old(self)@.after_sent(),
            final(self)@.wf(),
    {
        assert(self.send_index < self.to_write.len());
        self.send_index = self.send_index + 1;
        self.settle()
    }

    /// Counts the current packet as refused by the device.
    pub fn on_failed(&mut self)
        requires
            old(self)@.wf(),
            old(self)@.has_unsent(),
        ensures
            final(self)@ == old(self)@.after_failed(),
            final(self)@.wf(),
    {
        assert(self.send_index < self.to_write.len());
        self.send_index = self.send_index + 1;
        if self.send_index >= self.to_write.len() {
            self.reset();
        }
    }

    /// Empties the queued buffers and starts over.
    pub fn reset(&mut self)
        requires
            old(self)@.wf(),
        ensures
            final(self)@ == old(self)@.reset(),
            final(self)@.wf(),
    {
        let ghost before = self@;
        self.to_write.clear();
        let mut i: usize = 0;
        while i < self.offset
            invariant
                before.wf(),
                i <= self.offset,
                self.offset == before.offset,
                self.bufs@.len() == before.packets.len(),
                self.to_write@ == Seq::<usize>::empty(),
                forall|k: int|
                    0 <= k < i ==> contents(#[trigger] self.bufs@[k]) == Seq::<u8>::empty(),
                forall|k: int|
                    i <= k < self.bufs@.len() ==> contents(#[trigger] self.bufs@[k])
                        == before.packets[k],
            decreases self.offset - i,
        {
            self.bufs[i].clear();
            i = i + 1;
        }
        self.offset = 0;
        self.send_index = 0;
        proof {
            assert(self@ =~= before.reset());
        }
    }

    /// Whether another packet can be queued right away.
    pub fn is_idle(&self) -> (r: bool)
        ensures
            r == self@.idle(),
    {
        IDEAL_BATCH_SIZE > self.offset && self.to_write.is_empty()
    }
}

} // verus!
