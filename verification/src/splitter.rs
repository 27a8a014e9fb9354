//! Splitting one offloaded read into the packets it stands for.
//!
//! The device does the splitting: it writes the packets into the splitter's buffers
//! and their lengths into its size table. The splitter prepares the buffers, cuts
//! each to its packet, and hands the packets out in order.

use bytes::BytesMut;
use vstd::prelude::*;

use crate::buffer::{all_contents, contents, truncated, zero_resized, zeros};
use crate::error::Fault;
use crate::sizing::{IDEAL_BATCH_SIZE, VIRTIO_NET_HDR_LEN};

verus! {

/// The state of a [`PacketSplitter`].
#[verifier::ext_equal]
pub struct SplitterView {
    /// What each buffer holds.
    pub segments: Seq<Seq<u8>>,
    /// The lengths that the device reported, one for each buffer.
    pub sizes: Seq<usize>,
    /// The buffer to hand out next.
    pub index: nat,
    /// How many buffers hold packets of the last read.
    pub num: nat,
    /// The length that the buffers are given before a read is split.
    pub segment_len: nat,
}

impl SplitterView {
    /// What holds of every splitter.
    pub open spec fn wf(self) -> bool {
        &&& self.segments.len() == IDEAL_BATCH_SIZE
        &&& self.sizes.len() == IDEAL_BATCH_SIZE
        &&& self.index <= self.num <= IDEAL_BATCH_SIZE
    }

    /// The packets that are still to be handed out, in order.
    pub open spec fn pending(self) -> Seq<Seq<u8>> {
        self.segments.subrange(self.index as int, self.num as int)
    }

    /// A new splitter.
    pub open spec fn fresh(segment_len: nat) -> SplitterView {
        SplitterView {
            segments: Seq::new(IDEAL_BATCH_SIZE as nat, |i: int| zeros(segment_len)),
            sizes: Seq::new(IDEAL_BATCH_SIZE as nat, |i: int| 0usize),
            index: 0,
            num: 0,
            segment_len,
        }
    }

    /// Every buffer brought to the length that a split starts from.
    pub open spec fn prepared(self) -> SplitterView {
        SplitterView {
            segments: self.segments.map_values(|s: Seq<u8>| zero_resized(s, self.segment_len)),
            ..self
        }
    }

    /// The first `num` buffers cut to the lengths that the device reported, and all of
    /// them waiting to be handed out.
    pub open spec fn filled(self, num: nat) -> SplitterView {
        SplitterView {
            segments: Seq::new(
                self.segments.len(),
                |i: int|
                    if i < num {
                        truncated(self.segments[i], self.sizes[i] as nat)
                    } else {
                        self.segments[i]
                    },
            ),
            index: 0,
            num,
            ..self
        }
    }

    /// The next packet handed out, and its buffer left holding `rest`.
    pub open spec fn taken(self, rest: Seq<u8>) -> SplitterView {
        SplitterView {
            segments: self.segments.update(self.index as int, rest),
            index: self.index + 1,
            ..self
        }
    }
}

/// The buffers into which a device splits an offloaded read.
pub struct PacketSplitter {
    bufs: Vec<BytesMut>,
    sizes: Vec<usize>,
    recv_index: usize,
    recv_num: usize,
    recv_buffer_size: usize,
}

impl View for PacketSplitter {
    type V = SplitterView;

    closed spec fn view(&self) -> SplitterView {
        SplitterView {
            segments: all_contents(self.bufs@),
            sizes: self.sizes@,
            index: self.recv_index as nat,
            num: self.recv_num as nat,
            segment_len: self.recv_buffer_size as nat,
        }
    }
}

impl PacketSplitter {
    /// A splitter whose buffers have the given length.
    pub fn new(recv_buffer_size: usize) -> (splitter: PacketSplitter)
        requires
            recv_buffer_size <= isize::MAX,
        ensures
            splitter@ == SplitterView::fresh(recv_buffer_size as nat),
            splitter@.wf(),
    {
        let mut bufs: Vec<BytesMut> = Vec::new();
        let mut sizes: Vec<usize> = Vec::new();
        let mut i: usize = 0;
        while i < IDEAL_BATCH_SIZE
            invariant
                i <= IDEAL_BATCH_SIZE,
                recv_buffer_size <= isize::MAX,
                bufs@.len() == i,
                sizes@.len() == i,
                forall|k: int| 0 <= k < i ==> contents(#[trigger] bufs@[k]) == zeros(
                    recv_buffer_size as nat,
                ),
                forall|k: int| 0 <= k < i ==> #[trigger] sizes@[k] == 0,
            decreases IDEAL_BATCH_SIZE - i,
        {
            bufs.push(BytesMut::zeroed(recv_buffer_size));
            sizes.push(0);
            i = i + 1;
        }
        PacketSplitter { bufs, sizes, recv_index: 0, recv_num: 0, recv_buffer_size }
    }

    /// Checks that a read of `input_len` bytes holds more than a header, and brings the
    /// buffers to the length that the device may fill.
    pub fn begin_handle(&mut self, input_len: usize) -> (r: Result<(), Fault>)
        requires
            old(self)@.wf(),
            old(self)@.segment_len <= isize::MAX,
        ensures
            final(self)@.wf(),
            input_len <= VIRTIO_NET_HDR_LEN ==> {
                &&& r == Err::<(), Fault>(Fault::PacketTooShort { len: input_len })
                &&& final(self)@ == old(self)@
            },
            input_len > VIRTIO_NET_HDR_LEN ==> {
                &&& r == Ok::<(), Fault>(())
                &&& final(self)@ == old(self)@.prepared()
            },
    {
        if input_len <= VIRTIO_NET_HDR_LEN {
            return Err(Fault::PacketTooShort { len: input_len });
        }
        let ghost before = self@;
        let mut i: usize = 0;
        while i < self.bufs.len()
            invariant
                before.wf(),
                before.segment_len <= isize::MAX,
                i <= self.bufs@.len(),
                self.bufs@.len() == IDEAL_BATCH_SIZE,
                self.sizes@ == before.sizes,
                self.recv_index == before.index,
                self.recv_num == before.num,
                self.recv_buffer_size == before.segment_len,
                forall|k: int|
                    0 <= k < i ==> contents(#[trigger] self.bufs@[k]) == zero_resized(
                        before.segments[k],
                        before.segment_len,
                    ),
                forall|k: int|
                    i <= k < self.bufs@.len() ==> contents(#[trigger] self.bufs@[k])
                        == before.segments[k],
            decreases self.bufs@.len() - i,
        {
            let len: usize = self.recv_buffer_size;
            self.bufs[i].resize(len, 0);
            i = i + 1;
        }
        proof {
            assert(self@ =~= before.prepared());
        }
        Ok(())
    }

    /// The buffers and the size table, for the device to fill.
    pub fn targets(&mut self) -> (r: (&mut [BytesMut], &mut [usize]))
        ensures
            all_contents(r.0@) == old(self)@.segments,
            r.1@ == old(self)@.sizes,
            final(self)@ == (SplitterView {
                segments: all_contents(final(r.0)@),
                sizes: final(r.1)@,
                ..old(self)@
            }),
    {
        (self.bufs.as_mut_slice(), self.sizes.as_mut_slice())
    }

    /// Takes over the `num` packets that the device has put into the buffers.
    pub fn finish_handle(&mut self, num: usize)
        requires
            old(self)@.wf(),
            num <= IDEAL_BATCH_SIZE,
        ensures
            final(self)@.wf(),
            final(self)@ == old(self)@.filled(num as nat),
    {
        let ghost before = self@;
        let mut i: usize = 0;
        while i < num
            invariant
                before.wf(),
                i <= num <= IDEAL_BATCH_SIZE,
                self.bufs@.len() == IDEAL_BATCH_SIZE,
                self.sizes@ == before.sizes,
                self.recv_buffer_size == before.segment_len,
                forall|k: int|
                    0 <= k < i ==> contents(#[trigger] self.bufs@[k]) == truncated(
                        before.segments[k],
                        before.sizes[k] as nat,
                    ),
                forall|k: int|
                    i <= k < self.bufs@.len() ==> contents(#[trigger] self.bufs@[k])
                        == before.segments[k],
            decreases num - i,
        {
            let size: usize = self.sizes[i];
            self.bufs[i].truncate(size);
            i = i + 1;
        }
        self.recv_num = num;
        self.recv_index = 0;
        proof {
            assert(self@ =~= before.filled(num as nat));
        }
    }

    /// Hands out the next packet of the last read, if one is left.
    pub fn next(&mut self) -> (r: Option<&mut BytesMut>)
        requires
            old(self)@.wf(),
        ensures
            r is Some <==> old(self)@.index < old(self)@.num,
            match r {
                Some(buf) => {
                    &&& contents(*buf) == old(self)@.pending()[0]
                    &&& final(self)@ == old(self)@.taken(contents(*final(buf)))
                },
                None => final(self)@ == old(self)@,
            },
    {
        if self.recv_index >= self.recv_num {
            None
        } else {
            let i: usize = self.recv_index;
            self.recv_index = i + 1;
            Some(&mut self.bufs[i])
        }
    }

    /// Sets the length that the buffers are given before the next read is split.
    pub fn set_recv_buffer_size(&mut self, recv_buffer_size: usize)
        ensures
            final(self)@ == (SplitterView {
                segment_len: recv_buffer_size as nat,
                ..old(self)@
            }),
    {
        self.recv_buffer_size = recv_buffer_size;
    }
}

} // verus!
