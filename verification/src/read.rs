//! The reading side: from packets that a device delivers to frames.
//!
//! A read goes in up to three steps. [`ReadState::begin`] hands out a packet that is
//! left from the last offloaded read, or asks the device to receive;
//! [`ReadState::receive_room`] says how much. What the device received goes to [`ReadState::on_receive`], which makes a frame of it or, with
//! offload, asks the device to split it; [`ReadState::on_split`] takes the outcome of
//! that.

use bytes::BytesMut;
use vstd::prelude::*;
use vstd::slice::slice_subrange;

use crate::buffer::{all_contents, bytes_mut, contents, spare_room};
use crate::codec::{decodes_eof, Decoder};
use crate::error::{convert, converted, Fault, FrameError};
use crate::sizing::{DeviceProps, IDEAL_BATCH_SIZE, OFFLOAD_PACKET_LEN, VIRTIO_NET_HDR_LEN};
use crate::splitter::{PacketSplitter, SplitterView};

verus! {

/// What a read has come to.
pub enum ReadStep<I, E> {
    /// The device has nothing yet; read again later.
    Pending,
    /// The read is over: a frame, an error, or nothing.
    Ready(Option<Result<I, E>>),
    /// The device is to receive one packet.
    Receive,
    /// The device is to split the packet it has received.
    Split,
}

/// What came of asking the device to receive.
pub enum ReceiveEvent<'a> {
    /// The device has nothing yet.
    Pending,
    /// The device failed.
    Failed(std::io::Error),
    /// The device claims to have written `len` bytes to the start of `buf`.
    Filled { buf: &'a [u8], len: usize },
}

/// What came of asking the device to split a packet.
pub enum SplitEvent {
    /// The device failed.
    Failed(std::io::Error),
    /// The device has filled this many buffers.
    Done(usize),
}

/// The state of a [`ReadState`].
#[verifier::ext_equal]
pub struct ReadView {
    /// The size asked of the read buffer.
    pub recv_buffer_size: nat,
    /// What the read buffer holds.
    pub rd: Seq<u8>,
    /// The splitter, with offload.
    pub splitter: Option<SplitterView>,
}

impl ReadView {
    /// What holds of every reading side.
    pub open spec fn wf(self) -> bool {
        self.splitter matches Some(s) ==> s.wf() && s.segment_len == self.recv_buffer_size
    }

    /// A new reading side for a device.
    pub open spec fn fresh(recv_buffer_size: nat, tcp_gso: bool) -> ReadView {
        ReadView {
            recv_buffer_size,
            rd: Seq::empty(),
            splitter: if tcp_gso {
                Some(SplitterView::fresh(recv_buffer_size))
            } else {
                None
            },
        }
    }

    /// The read buffer sized anew, and the splitter's buffers with it.
    pub open spec fn with_buffer_size(self, size: nat) -> ReadView {
        ReadView {
            recv_buffer_size: size,
            splitter: match self.splitter {
                Some(s) => Some(SplitterView { segment_len: size, ..s }),
                None => None,
            },
            ..self
        }
    }

    /// Another content of the read buffer.
    pub open spec fn with_rd(self, rd: Seq<u8>) -> ReadView {
        ReadView { rd, ..self }
    }

    /// Another state of the splitter.
    pub open spec fn with_splitter(self, s: SplitterView) -> ReadView {
        ReadView { splitter: Some(s), ..self }
    }

    /// The packets of the last offloaded read that are still to be handed out.
    pub open spec fn pending(self) -> Seq<Seq<u8>> {
        match self.splitter {
            Some(s) => s.pending(),
            None => Seq::empty(),
        }
    }

    /// The room that a receive needs at least.
    pub open spec fn room_needed(self) -> nat {
        let offload = (VIRTIO_NET_HDR_LEN + OFFLOAD_PACKET_LEN) as nat;
        if self.splitter is Some && offload > self.recv_buffer_size {
            offload
        } else {
            self.recv_buffer_size
        }
    }
}

/// The room offered to the device where the buffer has `spare` bytes to spare and `needed`
/// are needed: all that there is to spare. Were that too little, it would be what is needed,
/// and the buffer would grow.
pub open spec fn spec_offered_room(spare: nat, needed: nat) -> nat {
    if spare < needed {
        needed
    } else {
        spare
    }
}

/// The room offered to the device where the buffer has `spare` bytes to spare and `needed`
/// are needed.
pub fn offered_room(spare: usize, needed: usize) -> (room: usize)
    ensures
        room == spec_offered_room(spare as nat, needed as nat),
{
    if spare < needed {
        needed
    } else {
        spare
    }
}

/// What a read ends with where `decode_eof` returned `decoded`.
pub open spec fn spec_stream_item<I, E>(decoded: Result<Option<I>, E>) -> Option<Result<I, E>> {
    match decoded {
        Ok(Some(frame)) => Some(Ok(frame)),
        Ok(None) => None,
        Err(e) => Some(Err(e)),
    }
}

/// What a read ends with where `decode_eof` returned `decoded`.
pub fn stream_item<I, E>(decoded: Result<Option<I>, E>) -> (item: Option<Result<I, E>>)
    ensures
        item == spec_stream_item(decoded),
{
    match decoded {
        Ok(Some(frame)) => Some(Ok(frame)),
        Ok(None) => None,
        Err(e) => Some(Err(e)),
    }
}

/// The read is over with what the codec's error type makes of `err`.
pub open spec fn fails_with<I, E: From<std::io::Error>>(
    step: ReadStep<I, E>,
    err: FrameError,
) -> bool {
    step matches ReadStep::Ready(Some(Err(e))) && converted(e, err)
}

/// Ends a read with an error.
fn failed<I, E: From<std::io::Error>>(err: FrameError) -> (step: ReadStep<I, E>)
    ensures
        fails_with(step, err),
{
    ReadStep::Ready(Some(Err(convert(err))))
}

/// What the start of a read does. A packet left from the last offloaded read goes to
/// the decoder; if that gives a frame or an error, the read is over. Otherwise the read
/// buffer is emptied and the device is asked to receive.
pub open spec fn begins<C: Decoder>(
    pre: ReadView,
    codec: &C,
    post: ReadView,
    codec_post: &C,
    step: ReadStep<C::Item, C::Error>,
) -> bool {
    if pre.pending().len() > 0 {
        exists|rest: Seq<u8>, decoded: Result<Option<C::Item>, C::Error>|
            {
                &&& #[trigger] decodes_eof(codec, pre.pending()[0], codec_post, rest, decoded)
                &&& {
                    let handed_out = pre.with_splitter(pre.splitter->0.taken(rest));
                    if decoded == Ok::<Option<C::Item>, C::Error>(None) {
                        post == handed_out.with_rd(Seq::empty()) && step == ReadStep::<
                            C::Item,
                            C::Error,
                        >::Receive
                    } else {
                        post == handed_out && step == ReadStep::Ready(spec_stream_item(decoded))
                    }
                }
            }
    } else {
        &&& codec_post == codec
        &&& post == pre.with_rd(Seq::empty())
        &&& step == ReadStep::<C::Item, C::Error>::Receive
    }
}

/// What a read does with the outcome of a receive.
pub open spec fn receives<C: Decoder>(
    pre: ReadView,
    codec: &C,
    event: ReceiveEvent<'_>,
    post: ReadView,
    codec_post: &C,
    step: ReadStep<C::Item, C::Error>,
) -> bool {
    match event {
        ReceiveEvent::Pending => {
            &&& post == pre
            &&& codec_post == codec
            &&& step == ReadStep::<C::Item, C::Error>::Pending
        },
        ReceiveEvent::Failed(err) => {
            &&& post == pre
            &&& codec_post == codec
            &&& fails_with(step, FrameError::Device(err))
        },
        ReceiveEvent::Filled { buf, len } => if len > buf@.len() {
            &&& post == pre
            &&& codec_post == codec
            &&& fails_with(step, FrameError::Fault(Fault::DeviceOverrun))
        } else {
            receives_packet(pre, codec, pre.rd + buf@.take(len as int), post, codec_post, step)
        },
    }
}

/// What a read does with a packet. Without offload, the packet goes to the decoder and
/// the read is over. With offload, a packet that is no longer than its header is an
/// error, and any other is to be split.
pub open spec fn receives_packet<C: Decoder>(
    pre: ReadView,
    codec: &C,
    packet: Seq<u8>,
    post: ReadView,
    codec_post: &C,
    step: ReadStep<C::Item, C::Error>,
) -> bool {
    match pre.splitter {
        Some(s) => {
            &&& codec_post == codec
            &&& if packet.len() <= VIRTIO_NET_HDR_LEN {
                &&& post == pre.with_rd(packet)
                &&& fails_with(
                    step,
                    FrameError::Fault(Fault::PacketTooShort { len: packet.len() as usize }),
                )
            } else {
                &&& post == pre.with_rd(packet).with_splitter(s.prepared())
                &&& step == ReadStep::<C::Item, C::Error>::Split
            }
        },
        None => exists|rest: Seq<u8>, decoded: Result<Option<C::Item>, C::Error>|
            {
                &&& #[trigger] decodes_eof(codec, packet, codec_post, rest, decoded)
                &&& post == pre.with_rd(rest)
                &&& step == ReadStep::Ready(spec_stream_item(decoded))
            },
    }
}

/// What a read does with the outcome of a split: the first packet, if there is one,
/// goes to the decoder, the others wait, and the read is over.
pub open spec fn splits<C: Decoder>(
    pre: ReadView,
    codec: &C,
    event: SplitEvent,
    post: ReadView,
    codec_post: &C,
    step: ReadStep<C::Item, C::Error>,
) -> bool {
    match event {
        SplitEvent::Failed(err) => {
            &&& post == pre
            &&& codec_post == codec
            &&& fails_with(step, FrameError::Device(err))
        },
        SplitEvent::Done(num) => {
            let s = pre.splitter->0.filled(num as nat);
            if num == 0 {
                &&& post == pre.with_splitter(s)
                &&& codec_post == codec
                &&& step == ReadStep::<C::Item, C::Error>::Ready(None)
            } else {
                exists|rest: Seq<u8>, decoded: Result<Option<C::Item>, C::Error>|
                    {
                        &&& #[trigger] decodes_eof(codec, s.pending()[0], codec_post, rest, decoded)
                        &&& post == pre.with_splitter(s.taken(rest))
                        &&& step == ReadStep::Ready(spec_stream_item(decoded))
                    }
            }
        },
    }
}

/// The reading side of a framed device.
pub struct ReadState {
    recv_buffer_size: usize,
    rd: BytesMut,
    packet_splitter: Option<PacketSplitter>,
}

impl View for ReadState {
    type V = ReadView;

    closed spec fn view(&self) -> ReadView {
        ReadView {
            recv_buffer_size: self.recv_buffer_size as nat,
            rd: contents(self.rd),
            splitter: match self.packet_splitter {
                Some(s) => Some(s@),
                None => None,
            },
        }
    }
}

impl ReadState {
    /// The read buffer.
    pub closed spec fn spec_buffer(&self) -> BytesMut {
        self.rd
    }

    /// A reading side with the given size of the read buffer, and with a splitter if the
    /// device does segmentation offload.
    pub fn new(recv_buffer_size: usize, props: &DeviceProps) -> (state: ReadState)
        requires
            recv_buffer_size <= isize::MAX,
        ensures
            state@ == ReadView::fresh(recv_buffer_size as nat, props.tcp_gso),
            state@.wf(),
            call_ensures(BytesMut::with_capacity, (recv_buffer_size,), state.spec_buffer()),
    {
        let packet_splitter = if props.tcp_gso {
            Some(PacketSplitter::new(recv_buffer_size))
        } else {
            None
        };
        ReadState {
            recv_buffer_size,
            rd: BytesMut::with_capacity(recv_buffer_size),
            packet_splitter,
        }
    }

    /// The size of the read buffer in bytes.
    pub fn read_buffer_size(&self) -> (size: usize)
        ensures
            size == self@.recv_buffer_size,
    {
        self.recv_buffer_size
    }

    /// Sets the size of the read buffer in bytes, and that of the splitter's buffers.
    pub fn set_read_buffer_size(&mut self, read_buffer_size: usize)
        ensures
            final(self)@ == old(self)@.with_buffer_size(read_buffer_size as nat),
            old(self)@.wf() ==> final(self)@.wf(),
    {
        self.recv_buffer_size = read_buffer_size;
        match &mut self.packet_splitter {
            Some(packet_splitter) => {
                packet_splitter.set_recv_buffer_size(read_buffer_size);
            },
            None => {},
        }
    }

    /// The read buffer.
    pub fn buffer(&self) -> (buf: &BytesMut)
        ensures
            *buf == self.spec_buffer(),
            contents(*buf) == self@.rd,
    {
        &self.rd
    }

    /// The read buffer, for direct manipulation.
    pub fn buffer_mut(&mut self) -> (buf: &mut BytesMut)
        ensures
            contents(*buf) == old(self)@.rd,
            final(self)@ == old(self)@.with_rd(contents(*final(buf))),
    {
        &mut self.rd
    }

    /// Starts a read.
    pub fn begin<C: Decoder>(&mut self, codec: &mut C) -> (step: ReadStep<C::Item, C::Error>)
        requires
            old(self)@.wf(),
        ensures
            begins(old(self)@, old(codec), final(self)@, final(codec), step),
            // The decoder's own `decode_eof` is what the waiting packet goes to.
            old(self)@.pending().len() > 0 ==> exists|
                c: &mut C,
                b: &mut BytesMut,
                decoded: Result<Option<C::Item>, C::Error>,
            |
                {
                    &&& *c == *old(codec)
                    &&& *final(c) == *final(codec)
                    &&& contents(*b) == old(self)@.pending()[0]
                    &&& contents(*final(b)) == final(self)@.splitter->0.segments[old(
                        self,
                    )@.splitter->0.index as int]
                    &&& #[trigger] call_ensures(C::decode_eof, (c, b), decoded)
                    &&& if decoded == Ok::<Option<C::Item>, C::Error>(None) {
                        step == ReadStep::<C::Item, C::Error>::Receive
                    } else {
                        step == ReadStep::Ready(spec_stream_item(decoded))
                    }
                },
            final(self)@.wf(),
    {
        let ghost before = self@;
        let ghost mut rest: Seq<u8> = Seq::empty();
        let ghost mut result: Result<Option<C::Item>, C::Error> = Ok(None);
        match &mut self.packet_splitter {
            Some(packet_splitter) => {
                match packet_splitter.next() {
                    Some(buf) => {
                        let ghost packet = contents(*buf);
                        let decoded = codec.decode_eof(buf);
                        proof {
                            assert(packet == before.pending()[0]);
                            assert(decodes_eof(old(codec), packet, codec, contents(*buf), decoded));
                            rest = contents(*buf);
                            result = decoded;
                        }
                        match decoded {
                            Ok(None) => {},
                            _ => {
                                proof {
                                    assert(self@ == before.with_splitter(before.splitter->0.taken(rest)));
                                }
                                return ReadStep::Ready(stream_item(decoded));
                            },
                        }
                    },
                    None => {},
                }
            },
            None => {},
        }
        self.rd.clear();
        proof {
            if before.pending().len() > 0 {
                assert(decodes_eof(old(codec), before.pending()[0], codec, rest, result));
                assert(self@ == before.with_splitter(before.splitter->0.taken(rest)).with_rd(Seq::empty()));
            } else {
                assert(self@ == before.with_rd(Seq::empty()));
            }
        }
        ReadStep::Receive
    }

    /// Makes room for the device to receive into, and says how many bytes it may receive.
    pub fn receive_room(&mut self) -> (room: usize)
        requires
            old(self)@.rd.len() == 0,
            old(self)@.recv_buffer_size <= isize::MAX,
        ensures
            final(self)@ == old(self)@,
            old(self)@.room_needed() <= room,
            0 < room <= isize::MAX,
            // The size that was set is reserved, and the room is what the buffer then has to
            // spare, or what is needed where that is more.
            old(self)@.splitter is None ==> exists|
                b: &mut BytesMut,
                c: &mut BytesMut,
                size: usize,
                spare: usize,
            |
                {
                    &&& contents(*b) == old(self)@.rd
                    &&& size == old(self)@.recv_buffer_size
                    &&& #[trigger] call_ensures(BytesMut::reserve, (b, size), ())
                    &&& *final(b) == *c
                    &&& #[trigger] call_ensures(spare_room, (c,), spare)
                    &&& contents(*final(c)) == final(self)@.rd
                    &&& room == spec_offered_room(spare as nat, old(self)@.room_needed())
                },
            // With offload, so is room for the largest packet and its header.
            old(self)@.splitter is Some ==> exists|
                a: &mut BytesMut,
                b: &mut BytesMut,
                c: &mut BytesMut,
                offload: usize,
                size: usize,
                spare: usize,
            |
                {
                    &&& contents(*a) == old(self)@.rd
                    &&& offload == VIRTIO_NET_HDR_LEN + OFFLOAD_PACKET_LEN
                    &&& #[trigger] call_ensures(BytesMut::reserve, (a, offload), ())
                    &&& *final(a) == *b
                    &&& size == old(self)@.recv_buffer_size
                    &&& #[trigger] call_ensures(BytesMut::reserve, (b, size), ())
                    &&& *final(b) == *c
                    &&& #[trigger] call_ensures(spare_room, (c,), spare)
                    &&& contents(*final(c)) == final(self)@.rd
                    &&& room == spec_offered_room(spare as nat, old(self)@.room_needed())
                },
    {
        let mut needed: usize = self.recv_buffer_size;
        if self.packet_splitter.is_some() {
            self.rd.reserve(VIRTIO_NET_HDR_LEN + OFFLOAD_PACKET_LEN);
            if VIRTIO_NET_HDR_LEN + OFFLOAD_PACKET_LEN > needed {
                needed = VIRTIO_NET_HDR_LEN + OFFLOAD_PACKET_LEN;
            }
        }
        self.rd.reserve(self.recv_buffer_size);
        let spare: usize = spare_room(&mut self.rd);
        offered_room(spare, needed)
    }

    /// Goes on with a read after the device was asked to receive.
    pub fn on_receive<C: Decoder>(&mut self, codec: &mut C, event: ReceiveEvent<'_>) -> (step:
        ReadStep<C::Item, C::Error>)
        requires
            old(self)@.wf(),
            old(self)@.splitter is Some ==> old(self)@.recv_buffer_size <= isize::MAX,
            event matches ReceiveEvent::Filled { buf, len } ==> len > buf@.len() || old(
                self,
            )@.rd.len() + len <= isize::MAX,
        ensures
            receives(old(self)@, old(codec), event, final(self)@, final(codec), step),
            // Without offload, the decoder's own `decode_eof` is what the packet goes to.
            old(self)@.splitter is None ==> (event matches ReceiveEvent::Filled { buf, len }
                ==> len <= buf@.len() ==> exists|
                c: &mut C,
                b: &mut BytesMut,
                decoded: Result<Option<C::Item>, C::Error>,
            |
                {
                    &&& *c == *old(codec)
                    &&& *final(c) == *final(codec)
                    &&& contents(*b) == old(self)@.rd + buf@.take(len as int)
                    &&& contents(*final(b)) == final(self)@.rd
                    &&& #[trigger] call_ensures(C::decode_eof, (c, b), decoded)
                    &&& step == ReadStep::Ready(spec_stream_item(decoded))
                }),
            final(self)@.wf(),
    {
        let ghost before = self@;
        match event {
            ReceiveEvent::Pending => ReadStep::Pending,
            ReceiveEvent::Failed(err) => failed(FrameError::Device(err)),
            ReceiveEvent::Filled { buf, len } => {
                if len > buf.len() {
                    return failed(FrameError::Fault(Fault::DeviceOverrun));
                }
                self.rd.extend_from_slice(slice_subrange(buf, 0, len));
                let ghost packet = before.rd + buf@.take(len as int);
                proof {
                    assert(buf@.subrange(0, len as int) == buf@.take(len as int));
                    assert(contents(self.rd) == packet);
                }
                let packet_len: usize = self.rd.len();
                match &mut self.packet_splitter {
                    Some(packet_splitter) => {
                        match packet_splitter.begin_handle(packet_len) {
                            Ok(()) => {
                                proof {
                                    assert(self@ == before.with_rd(packet).with_splitter(
                                        before.splitter->0.prepared(),
                                    ));
                                }
                                ReadStep::Split
                            },
                            Err(fault) => {
                                proof {
                                    assert(self@ == before.with_rd(packet));
                                }
                                failed(FrameError::Fault(fault))
                            },
                        }
                    },
                    None => {
                        let decoded = codec.decode_eof(&mut self.rd);
                        proof {
                            assert(decodes_eof(old(codec), packet, codec, contents(self.rd), decoded));
                            assert(self@ == before.with_rd(contents(self.rd)));
                        }
                        ReadStep::Ready(stream_item(decoded))
                    },
                }
            },
        }
    }

    /// What the device needs to split the received packet: the packet's header, what
    /// follows it, the splitter's buffers and its size table.
    pub fn split_parts(&mut self) -> (r: (&[u8], &mut [u8], &mut [BytesMut], &mut [usize]))
        requires
            old(self)@.splitter is Some,
            old(self)@.rd.len() >= VIRTIO_NET_HDR_LEN,
        ensures
            r.0@ == old(self)@.rd.take(VIRTIO_NET_HDR_LEN as int),
            r.1@ == old(self)@.rd.skip(VIRTIO_NET_HDR_LEN as int),
            all_contents(r.2@) == old(self)@.splitter->0.segments,
            r.3@ == old(self)@.splitter->0.sizes,
            final(self)@ == (ReadView {
                rd: r.0@ + final(r.1)@,
                splitter: Some(
                    SplitterView {
                        segments: all_contents(final(r.2)@),
                        sizes: final(r.3)@,
                        ..old(self)@.splitter->0
                    },
                ),
                ..old(self)@
            }),
    {
        let packet_splitter = self.packet_splitter.as_mut().unwrap();
        let (bufs, sizes) = packet_splitter.targets();
        let (header, input) = bytes_mut(&mut self.rd).split_at_mut(VIRTIO_NET_HDR_LEN);
        (&*header, input, bufs, sizes)
    }

    /// Goes on with a read after the device was asked to split a packet.
    pub fn on_split<C: Decoder>(&mut self, codec: &mut C, event: SplitEvent) -> (step: ReadStep<
        C::Item,
        C::Error,
    >)
        requires
            old(self)@.wf(),
            old(self)@.splitter is Some,
            event matches SplitEvent::Done(num) ==> num <= IDEAL_BATCH_SIZE,
        ensures
            splits(old(self)@, old(codec), event, final(self)@, final(codec), step),
            // The decoder's own `decode_eof` is what the first packet goes to.
            event matches SplitEvent::Done(num) ==> num > 0 ==> exists|
                c: &mut C,
                b: &mut BytesMut,
                decoded: Result<Option<C::Item>, C::Error>,
            |
                {
                    &&& *c == *old(codec)
                    &&& *final(c) == *final(codec)
                    &&& contents(*b) == old(self)@.splitter->0.filled(num as nat).pending()[0]
                    &&& contents(*final(b)) == final(self)@.splitter->0.segments[0]
                    &&& #[trigger] call_ensures(C::decode_eof, (c, b), decoded)
                    &&& step == ReadStep::Ready(spec_stream_item(decoded))
                },
            final(self)@.wf(),
    {
        let ghost before = self@;
        match event {
            SplitEvent::Failed(err) => failed(FrameError::Device(err)),
            SplitEvent::Done(num) => {
                let packet_splitter = self.packet_splitter.as_mut().unwrap();
                packet_splitter.finish_handle(num);
                let ghost filled = before.splitter->0.filled(num as nat);
                match packet_splitter.next() {
                    Some(buf) => {
                        let ghost packet = contents(*buf);
                        let decoded = codec.decode_eof(buf);
                        let ghost rest = contents(*buf);
                        proof {
                            assert(packet == filled.pending()[0]);
                            assert(decodes_eof(old(codec), packet, codec, rest, decoded));
                            assert(self@ == before.with_splitter(filled.taken(rest)));
                        }
                        ReadStep::Ready(stream_item(decoded))
                    },
                    None => {
                        proof {
                            assert(self@ == before.with_splitter(filled));
                        }
                        ReadStep::Ready(None)
                    },
                }
            },
        }
    }
}

} // verus!
