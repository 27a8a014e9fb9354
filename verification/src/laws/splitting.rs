//! What holds of the splitter: which packets an offloaded read gives, and in what order.

use bytes::BytesMut;
use vstd::prelude::*;

use crate::buffer::{all_contents, contents};
use crate::error::Fault;
use crate::splitter::{PacketSplitter, SplitterView};

verus! {

/// A splitter is one of a hundred and twenty-eight buffers with as many sizes, and never hands
/// out more packets than it was given; this is all that is asked of it.
pub proof fn splitter_has_128_buffers(s: SplitterView)
    ensures
        s.wf() <==> s.segments.len() == 128 && s.sizes.len() == 128 && s.index <= s.num
            && s.num <= 128,
{
}

/// The packets that wait are those in the buffers from the next one to the last of the read.
pub proof fn waiting_packets_are_those_left(s: SplitterView)
    requires
        s.wf(),
    ensures
        s.pending().len() == s.num - s.index,
        forall|i: int|
            0 <= i < s.num - s.index ==> #[trigger] s.pending()[i] == s.segments[s.index + i],
{
}

/// A new splitter has buffers of zeros of the length asked for, whatever that is, and no
/// packet is waiting in it.
pub proof fn new_splitter_waits_for_nothing(len: usize, splitter: PacketSplitter)
    requires
        call_ensures(PacketSplitter::new, (len,), splitter),
    ensures
        splitter@.segments.len() == 128,
        splitter@.sizes.len() == 128,
        forall|i: int|
            0 <= i < 128 ==> {
                &&& (#[trigger] splitter@.segments[i]).len() == len
                &&& forall|k: int| 0 <= k < len ==> #[trigger] splitter@.segments[i][k] == 0
            },
        forall|i: int| 0 <= i < 128 ==> #[trigger] splitter@.sizes[i] == 0,
        splitter@.segment_len == len,
        splitter@.index == 0,
        splitter@.num == 0,
{
}

/// Before a split every buffer has the length that was set: a longer one is cut, a shorter
/// one is filled up with zeros, and the front of each stays. Nothing else changes.
pub proof fn preparing_gives_every_buffer_its_length(s: SplitterView, i: int)
    requires
        0 <= i < s.segments.len(),
    ensures
        s.prepared().segments.len() == s.segments.len(),
        s.prepared().segments[i].len() == s.segment_len,
        forall|k: int|
            0 <= k < s.segment_len ==> #[trigger] s.prepared().segments[i][k] == if k
                < s.segments[i].len() {
                s.segments[i][k]
            } else {
                0u8
            },
        s.prepared().sizes == s.sizes,
        s.prepared().index == s.index,
        s.prepared().num == s.num,
        s.prepared().segment_len == s.segment_len,
{
}

/// A read of ten bytes or fewer is refused with its length and changes nothing. A longer one
/// is not refused, and every buffer gets the length that was set.
pub proof fn only_a_header_is_too_short(
    splitter: &mut PacketSplitter,
    input_len: usize,
    r: Result<(), Fault>,
)
    requires
        old(splitter)@.wf(),
        call_ensures(PacketSplitter::begin_handle, (splitter, input_len), r),
    ensures
        r is Err <==> input_len <= 10,
        r matches Err(fault) ==> {
            &&& fault == (Fault::PacketTooShort { len: input_len })
            &&& final(splitter)@ == old(splitter)@
        },
        r is Ok ==> {
            let (a, b) = (old(splitter)@, final(splitter)@);
            &&& b.segments.len() == 128
            &&& forall|i: int|
                0 <= i < 128 ==> {
                    &&& (#[trigger] b.segments[i]).len() == a.segment_len
                    &&& forall|k: int|
                        0 <= k < a.segment_len ==> #[trigger] b.segments[i][k] == if k
                            < a.segments[i].len() {
                            a.segments[i][k]
                        } else {
                            0u8
                        }
                }
            &&& b.sizes == a.sizes
            &&& b.index == a.index
            &&& b.num == a.num
            &&& b.segment_len == a.segment_len
        },
{
}

/// The device is given each buffer and each size as they are, and what it writes there is what
/// the splitter holds afterwards.
pub proof fn device_fills_the_buffers(
    splitter: &mut PacketSplitter,
    bufs: &mut [BytesMut],
    sizes: &mut [usize],
)
    requires
        call_ensures(PacketSplitter::targets, (splitter,), (bufs, sizes)),
    ensures
        old(bufs)@.len() == old(splitter)@.segments.len(),
        forall|i: int|
            0 <= i < old(bufs)@.len() ==> contents(#[trigger] old(bufs)@[i]) == old(splitter)@.segments[i],
        old(sizes)@ == old(splitter)@.sizes,
        final(splitter)@.segments.len() == final(bufs)@.len(),
        forall|i: int|
            0 <= i < final(bufs)@.len() ==> contents(#[trigger] final(bufs)@[i]) == final(splitter)@.segments[i],
        final(splitter)@.sizes == final(sizes)@,
        final(splitter)@.index == old(splitter)@.index,
        final(splitter)@.num == old(splitter)@.num,
        final(splitter)@.segment_len == old(splitter)@.segment_len,
{
    assert forall|i: int| 0 <= i < old(bufs)@.len() implies contents(#[trigger] old(bufs)@[i]) == old(splitter)@.segments[i] by {
        assert(old(splitter)@.segments[i] == all_contents(old(bufs)@)[i]);
    }
    assert forall|i: int| 0 <= i < final(bufs)@.len() implies contents(#[trigger] final(bufs)@[i])
        == final(splitter)@.segments[i] by {
        assert(final(splitter)@.segments[i] == all_contents(final(bufs)@)[i]);
    }
}

/// After a split into `num` packets exactly `num` wait, the first one next. Each is the front of
/// its buffer, as long as the device reported, or all of the buffer where that is shorter.
pub proof fn split_packets_are_cut_to_their_sizes(s: SplitterView, num: nat, i: int)
    requires
        s.wf(),
        0 <= i < num <= 128,
    ensures
        s.filled(num).pending().len() == num,
        s.filled(num).pending()[i].len() == if s.sizes[i] < s.segments[i].len() {
            s.sizes[i] as nat
        } else {
            s.segments[i].len()
        },
        forall|k: int|
            0 <= k < s.filled(num).pending()[i].len() ==> #[trigger] s.filled(num).pending()[i][k]
                == s.segments[i][k],
        s.filled(num).segments.len() == s.segments.len(),
        s.filled(num).sizes == s.sizes,
        s.filled(num).segment_len == s.segment_len,
{
}

/// A split into no packets leaves none waiting.
pub proof fn split_into_none_leaves_none(s: SplitterView)
    requires
        s.wf(),
    ensures
        s.filled(0).pending().len() == 0,
        s.filled(0).segments == s.segments,
        s.filled(0).sizes == s.sizes,
        s.filled(0).segment_len == s.segment_len,
{
    assert(s.filled(0).segments =~= s.segments);
}

/// The splitter takes over as many packets as the device reported, each cut to its size, and
/// leaves the other buffers as they are.
pub proof fn splitter_takes_over_the_packets(splitter: &mut PacketSplitter, num: usize)
    requires
        old(splitter)@.wf(),
        num <= 128,
        call_ensures(PacketSplitter::finish_handle, (splitter, num), ()),
    ensures
        final(splitter)@.index == 0,
        final(splitter)@.num == num,
        final(splitter)@.segments.len() == 128,
        forall|i: int|
            num <= i < 128 ==> #[trigger] final(splitter)@.segments[i] == old(splitter)@.segments[i],
        forall|i: int|
            0 <= i < num ==> {
                let (before, after) = (
                    old(splitter)@.segments[i],
                    #[trigger] final(splitter)@.segments[i],
                );
                &&& old(splitter)@.sizes[i] >= before.len() ==> after == before
                &&& old(splitter)@.sizes[i] < before.len() ==> after == before.take(
                    old(splitter)@.sizes[i] as int,
                )
            },
        final(splitter)@.sizes == old(splitter)@.sizes,
        final(splitter)@.segment_len == old(splitter)@.segment_len,
{
}

/// The splitter hands out the first packet that waits, and the others wait on unchanged.
pub proof fn splitter_hands_out_the_first(splitter: &mut PacketSplitter, buf: &mut BytesMut)
    requires
        old(splitter)@.wf(),
        call_ensures(PacketSplitter::next, (splitter,), Some(buf)),
    ensures
        ({
            let (a, b) = (old(splitter)@, final(splitter)@);
            &&& a.index < a.num
            &&& contents(*old(buf)) == a.segments[a.index as int]
            &&& b.index == a.index + 1
            &&& b.num == a.num
            &&& b.segments.len() == a.segments.len()
            &&& b.segments[a.index as int] == contents(*final(buf))
            &&& forall|i: int|
                0 <= i < a.segments.len() && i != a.index ==> #[trigger] b.segments[i]
                    == a.segments[i]
            &&& b.sizes == a.sizes
            &&& b.segment_len == a.segment_len
        }),
{
}

/// Only a splitter in which no packet waits hands out none, and it stays as it is.
pub proof fn splitter_hands_out_none_at_the_end(splitter: &mut PacketSplitter)
    requires
        old(splitter)@.wf(),
        call_ensures(PacketSplitter::next, (splitter,), None),
    ensures
        old(splitter)@.index == old(splitter)@.num,
        final(splitter)@ == old(splitter)@,
{
}

/// Setting the length of the buffers sets it and nothing else.
pub proof fn setting_the_length_keeps_the_packets(splitter: &mut PacketSplitter, len: usize)
    requires
        call_ensures(PacketSplitter::set_recv_buffer_size, (splitter, len), ()),
    ensures
        final(splitter)@.segment_len == len,
        final(splitter)@.segments == old(splitter)@.segments,
        final(splitter)@.sizes == old(splitter)@.sizes,
        final(splitter)@.index == old(splitter)@.index,
        final(splitter)@.num == old(splitter)@.num,
{
}

} // verus!
