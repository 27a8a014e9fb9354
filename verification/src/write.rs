//! The writing side: from frames to packets that a device takes.
//!
//! [`WriteState::start_send`] encodes a frame. Without offload it lies in the write
//! buffer until it is flushed; with offload it joins the queue of an arena. A flush
//! goes in steps: [`WriteState::begin_flush`] says what the device has to do first,
//! and [`WriteState::on_coalesce`] and [`WriteState::on_send`] take the outcomes.

use bytes::BytesMut;
use vstd::prelude::*;

use crate::arena::{indices_below, ArenaView, PacketArena};
use crate::buffer::{all_contents, contents, zeros};
use crate::codec::Encoder;
use crate::error::{convert, converted, FrameError};
use crate::sizing::{DeviceProps, OFFLOAD_PACKET_LEN, VIRTIO_NET_HDR_LEN};

verus! {

/// What a flush has come to.
pub enum FlushStep<E> {
    /// The device cannot take a packet yet; flush again later.
    Pending,
    /// The flush is over.
    Ready(Result<(), E>),
    /// The device is to coalesce the queued packets.
    Coalesce,
    /// The device is to send the current packet.
    Send,
}

/// What came of asking the device to send a packet.
pub enum SendEvent {
    /// The device cannot take it yet.
    Pending,
    /// The device failed.
    Failed(std::io::Error),
    /// The device took it.
    Sent,
}

/// The state of a [`WriteState`].
#[verifier::ext_equal]
pub struct WriteView {
    /// The size asked of the write buffer, which counts without offload.
    pub send_buffer_size: nat,
    /// What the write buffer holds.
    pub wr: Seq<u8>,
    /// The arena, with offload.
    pub arena: Option<ArenaView>,
}

impl WriteView {
    /// What holds of every writing side.
    pub open spec fn wf(self) -> bool {
        self.arena matches Some(a) ==> a.wf()
    }

    /// A new writing side for a device.
    pub open spec fn fresh(send_buffer_size: nat, tcp_gso: bool) -> WriteView {
        WriteView {
            send_buffer_size,
            wr: Seq::empty(),
            arena: if tcp_gso {
                Some(ArenaView::empty())
            } else {
                None
            },
        }
    }

    /// How much space there is for buffering an outbound packet: what was asked for, and
    /// with offload at least the largest packet and its header. That much is reserved for a
    /// packet with offload; where more was asked for, the buffer grows with its packet.
    pub open spec fn buffer_size(self) -> nat {
        let offload = (VIRTIO_NET_HDR_LEN + OFFLOAD_PACKET_LEN) as nat;
        if self.arena is Some && offload > self.send_buffer_size {
            offload
        } else {
            self.send_buffer_size
        }
    }

    /// The write buffer sized anew: it only ever grows, and with offload it stays.
    pub open spec fn with_buffer_size(self, size: nat) -> WriteView {
        if self.arena is Some || self.send_buffer_size >= size {
            self
        } else {
            WriteView { send_buffer_size: size, ..self }
        }
    }

    /// Another state of the arena.
    pub open spec fn with_arena(self, a: ArenaView) -> WriteView {
        WriteView { arena: Some(a), ..self }
    }

    /// What the buffer holds that an encoder is given: with offload, the room for a
    /// header, and nothing otherwise.
    pub open spec fn encode_start(self) -> Seq<u8> {
        match self.arena {
            Some(_) => zeros(VIRTIO_NET_HDR_LEN as nat),
            None => Seq::empty(),
        }
    }

    /// A packet put behind those queued, or into the write buffer in place of what it
    /// held.
    pub open spec fn with_packet(self, packet: Seq<u8>) -> WriteView {
        match self.arena {
            Some(a) => self.with_arena(a.with_queued(packet)),
            None => WriteView { wr: packet, ..self },
        }
    }

    /// Whether a frame can be sent without a flush before it.
    pub open spec fn ready(self) -> bool {
        self.arena matches Some(a) && a.idle()
    }

    /// The packets that are to be sent, in order. With offload, these are known once the
    /// queue has been coalesced.
    pub open spec fn unsent(self) -> Seq<Seq<u8>> {
        match self.arena {
            Some(a) => a.unsent(),
            None => if self.wr.len() == 0 {
                Seq::empty()
            } else {
                seq![self.wr]
            },
        }
    }

    /// Whether the queue has to be coalesced first.
    pub open spec fn needs_coalescing(self) -> bool {
        self.arena matches Some(a) && a.offset > 0 && a.to_write.len() == 0
    }

    /// Where a flush stands before the next packet.
    pub open spec fn settled(self) -> WriteView {
        match self.arena {
            Some(a) => self.with_arena(a.settled()),
            None => self,
        }
    }

    /// The writing side after a packet that the device took.
    pub open spec fn after_sent(self) -> WriteView {
        match self.arena {
            Some(a) => self.with_arena(a.after_sent()),
            None => WriteView { wr: Seq::empty(), ..self },
        }
    }

    /// The writing side after a packet that the device refused.
    pub open spec fn after_failed(self) -> WriteView {
        match self.arena {
            Some(a) => self.with_arena(a.after_failed()),
            None => WriteView { wr: Seq::empty(), ..self },
        }
    }
}

/// The step that a flush takes in the state `v`, once nothing has to be coalesced.
pub open spec fn send_step<E>(v: WriteView) -> FlushStep<E> {
    if v.unsent().len() > 0 {
        FlushStep::Send
    } else {
        FlushStep::Ready(Ok(()))
    }
}

/// The flush is over with what the codec's error type makes of `err`.
pub open spec fn flush_fails_with<E: From<std::io::Error>>(
    step: FlushStep<E>,
    err: FrameError,
) -> bool {
    step matches FlushStep::Ready(Err(e)) && converted(e, err)
}

/// What the start of a flush does.
pub open spec fn begins_flush<E>(pre: WriteView, post: WriteView, step: FlushStep<E>) -> bool {
    if pre.needs_coalescing() {
        post == pre && step == FlushStep::<E>::Coalesce
    } else {
        post == pre.settled() && step == send_step::<E>(pre)
    }
}

/// What a flush does with the outcome of coalescing: `to_write` lists the packets to be
/// sent, and sending starts unless the device failed.
pub open spec fn coalesces<E: From<std::io::Error>>(
    pre: WriteView,
    result: Result<(), std::io::Error>,
    to_write: Seq<usize>,
    post: WriteView,
    step: FlushStep<E>,
) -> bool {
    let listed = pre.with_arena(pre.arena->0.coalesced(to_write));
    match result {
        Ok(_) => post == listed.settled() && step == send_step::<E>(listed),
        Err(err) => post == listed && flush_fails_with(step, FrameError::Device(err)),
    }
}

/// What a flush does with the outcome of a send: a packet that the device took or
/// refused is done with; after one that it took, the next is sent.
pub open spec fn sends<E: From<std::io::Error>>(
    pre: WriteView,
    event: SendEvent,
    post: WriteView,
    step: FlushStep<E>,
) -> bool {
    match event {
        SendEvent::Pending => post == pre && step == FlushStep::<E>::Pending,
        SendEvent::Failed(err) => post == pre.after_failed() && flush_fails_with(
            step,
            FrameError::Device(err),
        ),
        SendEvent::Sent => post == pre.after_sent() && step == send_step::<E>(post),
    }
}

/// The writing side of a framed device.
pub struct WriteState {
    send_buffer_size: usize,
    wr: BytesMut,
    packet_arena: Option<PacketArena>,
}

impl View for WriteState {
    type V = WriteView;

    closed spec fn view(&self) -> WriteView {
        WriteView {
            send_buffer_size: self.send_buffer_size as nat,
            wr: contents(self.wr),
            arena: match self.packet_arena {
                Some(a) => Some(a@),
                None => None,
            },
        }
    }
}

/// Ends a flush with an error.
fn flush_failed<E: From<std::io::Error>>(err: std::io::Error) -> (step: FlushStep<E>)
    ensures
        flush_fails_with(step, FrameError::Device(err)),
{
    FlushStep::Ready(Err(convert(FrameError::Device(err))))
}

/// The step that sends a packet if there is one.
fn send_or_done<E>(send: bool) -> (step: FlushStep<E>)
    ensures
        send ==> step == FlushStep::<E>::Send,
        !send ==> step == FlushStep::<E>::Ready(Ok(())),
{
    if send {
        FlushStep::Send
    } else {
        FlushStep::Ready(Ok(()))
    }
}

impl WriteState {
    /// A writing side with the given size of the write buffer, and with an arena if the
    /// device does segmentation offload.
    pub fn new(send_buffer_size: usize, props: &DeviceProps) -> (state: WriteState)
        ensures
            state@ == WriteView::fresh(send_buffer_size as nat, props.tcp_gso),
            state@.wf(),
    {
        let packet_arena = if props.tcp_gso {
            Some(PacketArena::new())
        } else {
            None
        };
        WriteState { send_buffer_size, wr: BytesMut::new(), packet_arena }
    }

    /// The size of the write buffer in bytes. With offload it is fixed, and large enough for
    /// the largest packet and its header; an MTU that asks for more is counted, and the
    /// buffer then grows with its packet.
    pub fn write_buffer_size(&self) -> (size: usize)
        ensures
            size == self@.buffer_size(),
    {
        let offload: usize = VIRTIO_NET_HDR_LEN + OFFLOAD_PACKET_LEN;
        if self.packet_arena.is_some() && offload > self.send_buffer_size {
            offload
        } else {
            self.send_buffer_size
        }
    }

    /// Sets the size of the write buffer in bytes.
    ///
    /// With offload this is ignored, as the send buffers have a fixed, larger size. It
    /// has no effect where the current size is at least the requested one.
    pub fn set_write_buffer_size(&mut self, write_buffer_size: usize)
        ensures
            final(self)@ == old(self)@.with_buffer_size(write_buffer_size as nat),
            old(self)@.wf() ==> final(self)@.wf(),
    {
        if self.packet_arena.is_some() {
            return;
        }
        if self.send_buffer_size >= write_buffer_size {
            return;
        }
        self.send_buffer_size = write_buffer_size;
    }

    /// Encodes a frame into the next packet to be sent.
    ///
    /// Where the encoder fails, what it has put into the buffer stays there.
    pub fn start_send<I, C: Encoder<I>>(&mut self, codec: &mut C, item: I) -> (r: Result<
        (),
        C::Error,
    >)
        requires
            old(self)@.wf(),
            old(self)@.arena is None ==> old(self)@.send_buffer_size <= isize::MAX,
            C::accepts(old(codec), item, old(self)@.encode_start()),
        ensures
            exists|packet: Seq<u8>|
                {
                    &&& #[trigger] C::encodes(
                        old(codec),
                        item,
                        old(self)@.encode_start(),
                        final(codec),
                        packet,
                        r,
                    )
                    &&& final(self)@ == old(self)@.with_packet(packet)
                },
            // Without offload, the size that was set is reserved in the buffer that the
            // encoder is given.
            old(self)@.arena is None ==> exists|
                b: &mut BytesMut,
                size: usize,
                c: &mut C,
                d: &mut BytesMut,
            |
                {
                    &&& size == old(self)@.send_buffer_size
                    &&& contents(*b) == Seq::<u8>::empty()
                    &&& #[trigger] call_ensures(BytesMut::reserve, (b, size), ())
                    &&& *final(b) == *d
                    &&& *c == *old(codec)
                    &&& *final(c) == *final(codec)
                    &&& contents(*final(d)) == final(self)@.wr
                    &&& #[trigger] call_ensures(C::encode, (c, item, d), r)
                },
            final(self)@.wf(),
    {
        let ghost before = self@;
        match &mut self.packet_arena {
            Some(packet_arena) => {
                let buf = packet_arena.get();
                buf.resize(VIRTIO_NET_HDR_LEN, 0);
                proof {
                    assert(contents(*buf) =~= before.encode_start());
                }
                let r = codec.encode(item, buf);
                let ghost packet = contents(*buf);
                proof {
                    assert(C::encodes(old(codec), item, before.encode_start(), codec, packet, r));
                    assert(self@ == before.with_packet(packet));
                }
                return r;
            },
            None => {},
        }
        self.wr.clear();
        self.wr.reserve(self.send_buffer_size);
        let r = codec.encode(item, &mut self.wr);
        proof {
            let packet = contents(self.wr);
            assert(C::encodes(old(codec), item, before.encode_start(), codec, packet, r));
            assert(self@ == before.with_packet(packet));
        }
        r
    }

    /// Starts to make room for a frame: with offload there is room at once until the
    /// batch is full; otherwise what is there has to be flushed.
    pub fn begin_ready<E>(&mut self) -> (step: FlushStep<E>)
        requires
            old(self)@.wf(),
        ensures
            old(self)@.ready() ==> {
                &&& step == FlushStep::<E>::Ready(Ok(()))
                &&& final(self)@ == old(self)@
            },
            !old(self)@.ready() ==> begins_flush(old(self)@, final(self)@, step),
            final(self)@.wf(),
    {
        match &self.packet_arena {
            Some(packet_arena) => {
                if packet_arena.is_idle() {
                    return FlushStep::Ready(Ok(()));
                }
            },
            None => {},
        }
        self.begin_flush()
    }

    /// Starts a flush.
    pub fn begin_flush<E>(&mut self) -> (step: FlushStep<E>)
        requires
            old(self)@.wf(),
        ensures
            begins_flush(old(self)@, final(self)@, step),
            final(self)@.wf(),
    {
        let ghost before = self@;
        match &mut self.packet_arena {
            Some(packet_arena) => {
                if packet_arena.needs_coalescing() {
                    FlushStep::Coalesce
                } else {
                    let send: bool = packet_arena.settle();
                    proof {
                        assert(self@ == before.settled());
                    }
                    send_or_done(send)
                }
            },
            None => send_or_done(!self.wr.is_empty()),
        }
    }

    /// The queued packets, each behind the room for its header, for the device to coalesce
    /// in place.
    pub fn queued_mut(&mut self) -> (bufs: &mut [BytesMut])
        requires
            old(self)@.wf(),
            old(self)@.arena is Some,
        ensures
            all_contents(bufs@) == old(self)@.arena->0.queued(),
            final(self)@ == old(self)@.with_arena(
                old(self)@.arena->0.with_contents(all_contents(final(bufs)@)),
            ),
    {
        self.packet_arena.as_mut().unwrap().queued_mut()
    }

    /// Goes on with a flush after the device was asked to coalesce the queued packets.
    /// `to_write` lists the buffers that are to be sent.
    pub fn on_coalesce<E: From<std::io::Error>>(
        &mut self,
        result: Result<(), std::io::Error>,
        to_write: Vec<usize>,
    ) -> (step: FlushStep<E>)
        requires
            old(self)@.wf(),
            old(self)@.needs_coalescing(),
            indices_below(to_write@, old(self)@.arena->0.offset),
        ensures
            coalesces(old(self)@, result, to_write@, final(self)@, step),
            final(self)@.wf(),
    {
        let ghost before = self@;
        let packet_arena = self.packet_arena.as_mut().unwrap();
        packet_arena.set_to_write(to_write);
        match result {
            Ok(_) => {
                let send: bool = packet_arena.settle();
                proof {
                    assert(self@ == before.with_arena(before.arena->0.coalesced(to_write@)).settled());
                }
                send_or_done(send)
            },
            Err(err) => {
                proof {
                    assert(self@ == before.with_arena(before.arena->0.coalesced(to_write@)));
                }
                flush_failed(err)
            },
        }
    }

    /// The packet that the device is to send.
    pub fn packet(&self) -> (buf: Option<&BytesMut>)
        requires
            self@.wf(),
        ensures
            buf is Some <==> self@.unsent().len() > 0,
            buf matches Some(b) ==> contents(*b) == self@.unsent()[0],
    {
        match &self.packet_arena {
            Some(packet_arena) => packet_arena.current(),
            None => {
                if self.wr.is_empty() {
                    None
                } else {
                    Some(&self.wr)
                }
            },
        }
    }

    /// Goes on with a flush after the device was asked to send a packet.
    pub fn on_send<E: From<std::io::Error>>(&mut self, event: SendEvent) -> (step: FlushStep<E>)
        requires
            old(self)@.wf(),
            old(self)@.unsent().len() > 0,
        ensures
            sends(old(self)@, event, final(self)@, step),
            final(self)@.wf(),
    {
        let ghost before = self@;
        match event {
            SendEvent::Pending => FlushStep::Pending,
            SendEvent::Failed(err) => {
                match &mut self.packet_arena {
                    Some(packet_arena) => packet_arena.on_failed(),
                    None => self.wr.clear(),
                }
                proof {
                    assert(self@ == before.after_failed());
                }
                flush_failed(err)
            },
            SendEvent::Sent => {
                let send: bool = match &mut self.packet_arena {
                    Some(packet_arena) => packet_arena.on_sent(),
                    None => {
                        self.wr.clear();
                        false
                    },
                };
                proof {
                    assert(self@ == before.after_sent());
                }
                send_or_done(send)
            },
        }
    }

    /// Whether nothing is queued: no packet has been gathered since the arena was new or
    /// last started over.
    pub fn is_drained(&self) -> (r: bool)
        ensures
            r == match self@.arena {
                Some(a) => a.offset == 0,
                None => self@.wr.len() == 0,
            },
    {
        match &self.packet_arena {
            Some(packet_arena) => packet_arena.queue_len() == 0,
            None => self.wr.is_empty(),
        }
    }
}

} // verus!
