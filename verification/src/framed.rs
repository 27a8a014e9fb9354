//! A device handle, a codec, and the reading and writing sides, put together.
//!
//! The device handle is of any type: the library carries it and never uses it.

use bytes::BytesMut;
use vstd::prelude::*;

use crate::buffer::contents;
use crate::read::{ReadState, ReadView};
use crate::sizing::{buffer_size, compute_buffer_size, DeviceProps};
use crate::write::{WriteState, WriteView};

verus! {

/// A device with a codec, for reading and writing frames.
///
/// [`DeviceFramed::split`] takes it apart into a [`DeviceFramedRead`] and a
/// [`DeviceFramedWrite`], where the device handle and the codec can be cloned.
pub struct DeviceFramed<C, T> {
    dev: T,
    codec: C,
    r_state: ReadState,
    w_state: WriteState,
}

impl<C, T> DeviceFramed<C, T> {
    /// The device handle.
    pub closed spec fn dev(&self) -> T {
        self.dev
    }

    /// The codec.
    pub closed spec fn codec(&self) -> C {
        self.codec
    }

    /// The state of the reading side.
    pub closed spec fn reading(&self) -> ReadView {
        self.r_state@
    }

    /// The read buffer.
    pub closed spec fn spec_read_buffer(&self) -> BytesMut {
        self.r_state.spec_buffer()
    }

    /// The state of the writing side.
    pub closed spec fn writing(&self) -> WriteView {
        self.w_state@
    }

    /// What holds of every framed device.
    pub open spec fn wf(&self) -> bool {
        self.reading().wf() && self.writing().wf()
    }

    /// Puts a device handle and a codec together. The buffers are sized after what the
    /// device tells of itself.
    pub fn new(dev: T, codec: C, props: &DeviceProps) -> (framed: DeviceFramed<C, T>)
        ensures
            framed.dev() == dev,
            framed.codec() == codec,
            framed.reading() == ReadView::fresh(buffer_size(*props), props.tcp_gso),
            call_ensures(
                BytesMut::with_capacity,
                (buffer_size(*props) as usize,),
                framed.spec_read_buffer(),
            ),
            framed.writing() == WriteView::fresh(buffer_size(*props), props.tcp_gso),
            framed.wf(),
    {
        let size: usize = compute_buffer_size(props);
        DeviceFramed {
            r_state: ReadState::new(size, props),
            w_state: WriteState::new(size, props),
            dev,
            codec,
        }
    }

    /// The size of the read buffer in bytes: how much space is available for receiving
    /// packet data.
    pub fn read_buffer_size(&self) -> (size: usize)
        ensures
            size == self.reading().recv_buffer_size,
    {
        self.r_state.read_buffer_size()
    }

    /// The size of the write buffer in bytes: how much space is available for buffering
    /// outbound packets. With offload it is fixed, and large enough for the largest packet
    /// and its header; an MTU that asks for more is counted, and the buffer then grows with
    /// its packet.
    pub fn write_buffer_size(&self) -> (size: usize)
        ensures
            size == self.writing().buffer_size(),
    {
        self.w_state.write_buffer_size()
    }

    /// Sets the size of the read buffer in bytes.
    ///
    /// It must be at least as large as the MTU to ensure complete packet reception.
    pub fn set_read_buffer_size(&mut self, read_buffer_size: usize)
        ensures
            final(self).dev() == old(self).dev(),
            final(self).codec() == old(self).codec(),
            final(self).reading() == old(self).reading().with_buffer_size(
                read_buffer_size as nat,
            ),
            final(self).writing() == old(self).writing(),
            old(self).wf() ==> final(self).wf(),
    {
        self.r_state.set_read_buffer_size(read_buffer_size);
    }

    /// Sets the size of the write buffer in bytes.
    ///
    /// With offload this is ignored, as the send buffers have a fixed, larger size. It
    /// has no effect where the current size is at least the requested one.
    pub fn set_write_buffer_size(&mut self, write_buffer_size: usize)
        ensures
            final(self).dev() == old(self).dev(),
            final(self).codec() == old(self).codec(),
            final(self).reading() == old(self).reading(),
            final(self).writing() == old(self).writing().with_buffer_size(
                write_buffer_size as nat,
            ),
            old(self).wf() ==> final(self).wf(),
    {
        self.w_state.set_write_buffer_size(write_buffer_size);
    }

    /// The read buffer.
    pub fn read_buffer(&self) -> (buf: &BytesMut)
        ensures
            *buf == self.spec_read_buffer(),
            contents(*buf) == self.reading().rd,
    {
        self.r_state.buffer()
    }

    /// The read buffer, for direct manipulation of what it holds.
    pub fn read_buffer_mut(&mut self) -> (buf: &mut BytesMut)
        ensures
            contents(*buf) == old(self).reading().rd,
            final(self).dev() == old(self).dev(),
            final(self).codec() == old(self).codec(),
            final(self).reading() == old(self).reading().with_rd(contents(*final(buf))),
            final(self).writing() == old(self).writing(),
            old(self).wf() ==> final(self).wf(),
    {
        self.r_state.buffer_mut()
    }

    /// The device handle, the codec and the reading side, to read with.
    pub fn read_parts(&mut self) -> (r: (&T, &mut C, &mut ReadState))
        ensures
            *r.0 == old(self).dev(),
            *r.1 == old(self).codec(),
            r.2@ == old(self).reading(),
            final(self).dev() == old(self).dev(),
            final(self).codec() == *final(r.1),
            final(self).reading() == final(r.2)@,
            final(self).writing() == old(self).writing(),
    {
        (&self.dev, &mut self.codec, &mut self.r_state)
    }

    /// The device handle, the codec and the writing side, to write with.
    pub fn write_parts(&mut self) -> (r: (&T, &mut C, &mut WriteState))
        ensures
            *r.0 == old(self).dev(),
            *r.1 == old(self).codec(),
            r.2@ == old(self).writing(),
            final(self).dev() == old(self).dev(),
            final(self).codec() == *final(r.1),
            final(self).reading() == old(self).reading(),
            final(self).writing() == final(r.2)@,
    {
        (&self.dev, &mut self.codec, &mut self.w_state)
    }

    /// Gives the device handle back.
    pub fn into_inner(self) -> (dev: T)
        ensures
            dev == self.dev(),
    {
        self.dev
    }
}

impl<C: Clone, T: Clone> DeviceFramed<C, T> {
    /// Takes the framed device apart into a half that reads and a half that writes. Both
    /// start afresh, with buffers sized after what the device tells of itself now.
    pub fn split(self, props: &DeviceProps) -> (r: (DeviceFramedRead<C, T>, DeviceFramedWrite<C, T>))
        ensures
            cloned(self.dev(), r.0.dev()),
            cloned(self.codec(), r.0.codec()),
            r.0.reading() == ReadView::fresh(buffer_size(*props), props.tcp_gso),
            call_ensures(
                BytesMut::with_capacity,
                (buffer_size(*props) as usize,),
                r.0.spec_read_buffer(),
            ),
            r.0.wf(),
            r.1.dev() == self.dev(),
            r.1.codec() == self.codec(),
            r.1.writing() == WriteView::fresh(buffer_size(*props), props.tcp_gso),
            r.1.wf(),
    {
        let dev = self.dev;
        let codec = self.codec;
        (
            DeviceFramedRead::new(dev.clone(), codec.clone(), props),
            DeviceFramedWrite::new(dev, codec, props),
        )
    }
}

/// A device with a codec, for reading frames.
pub struct DeviceFramedRead<C, T> {
    dev: T,
    codec: C,
    state: ReadState,
}

impl<C, T> DeviceFramedRead<C, T> {
    /// The device handle.
    pub closed spec fn dev(&self) -> T {
        self.dev
    }

    /// The codec.
    pub closed spec fn codec(&self) -> C {
        self.codec
    }

    /// The state of the reading side.
    pub closed spec fn reading(&self) -> ReadView {
        self.state@
    }

    /// The read buffer.
    pub closed spec fn spec_read_buffer(&self) -> BytesMut {
        self.state.spec_buffer()
    }

    /// What holds of every reading half.
    pub open spec fn wf(&self) -> bool {
        self.reading().wf()
    }

    /// Puts a device handle and a codec together. The read buffer is sized after what
    /// the device tells of itself.
    pub fn new(dev: T, codec: C, props: &DeviceProps) -> (framed: DeviceFramedRead<C, T>)
        ensures
            framed.dev() == dev,
            framed.codec() == codec,
            framed.reading() == ReadView::fresh(buffer_size(*props), props.tcp_gso),
            call_ensures(
                BytesMut::with_capacity,
                (buffer_size(*props) as usize,),
                framed.spec_read_buffer(),
            ),
            framed.wf(),
    {
        let size: usize = compute_buffer_size(props);
        DeviceFramedRead { state: ReadState::new(size, props), dev, codec }
    }

    /// The size of the read buffer in bytes: how much space is available for receiving
    /// packet data.
    pub fn read_buffer_size(&self) -> (size: usize)
        ensures
            size == self.reading().recv_buffer_size,
    {
        self.state.read_buffer_size()
    }

    /// Sets the size of the read buffer in bytes.
    ///
    /// It must be at least as large as the MTU to ensure complete packet reception.
    pub fn set_read_buffer_size(&mut self, read_buffer_size: usize)
        ensures
            final(self).dev() == old(self).dev(),
            final(self).codec() == old(self).codec(),
            final(self).reading() == old(self).reading().with_buffer_size(
                read_buffer_size as nat,
            ),
            old(self).wf() ==> final(self).wf(),
    {
        self.state.set_read_buffer_size(read_buffer_size);
    }

    /// The device handle, the codec and the reading side, to read with.
    pub fn read_parts(&mut self) -> (r: (&T, &mut C, &mut ReadState))
        ensures
            *r.0 == old(self).dev(),
            *r.1 == old(self).codec(),
            r.2@ == old(self).reading(),
            final(self).dev() == old(self).dev(),
            final(self).codec() == *final(r.1),
            final(self).reading() == final(r.2)@,
    {
        (&self.dev, &mut self.codec, &mut self.state)
    }

    /// Gives the device handle back.
    pub fn into_inner(self) -> (dev: T)
        ensures
            dev == self.dev(),
    {
        self.dev
    }
}

/// A device with a codec, for writing frames.
pub struct DeviceFramedWrite<C, T> {
    dev: T,
    codec: C,
    state: WriteState,
}

impl<C, T> DeviceFramedWrite<C, T> {
    /// The device handle.
    pub closed spec fn dev(&self) -> T {
        self.dev
    }

    /// The codec.
    pub closed spec fn codec(&self) -> C {
        self.codec
    }

    /// The state of the writing side.
    pub closed spec fn writing(&self) -> WriteView {
        self.state@
    }

    /// What holds of every writing half.
    pub open spec fn wf(&self) -> bool {
        self.writing().wf()
    }

    /// Puts a device handle and a codec together. The write buffer is sized after what
    /// the device tells of itself.
    pub fn new(dev: T, codec: C, props: &DeviceProps) -> (framed: DeviceFramedWrite<C, T>)
        ensures
            framed.dev() == dev,
            framed.codec() == codec,
            framed.writing() == WriteView::fresh(buffer_size(*props), props.tcp_gso),
            framed.wf(),
    {
        let size: usize = compute_buffer_size(props);
        DeviceFramedWrite { state: WriteState::new(size, props), dev, codec }
    }

    /// The size of the write buffer in bytes: how much space is available for buffering
    /// outbound packets. With offload it is fixed, and large enough for the largest packet
    /// and its header; an MTU that asks for more is counted, and the buffer then grows with
    /// its packet.
    pub fn write_buffer_size(&self) -> (size: usize)
        ensures
            size == self.writing().buffer_size(),
    {
        self.state.write_buffer_size()
    }

    /// Sets the size of the write buffer in bytes.
    ///
    /// With offload this is ignored, as the send buffers have a fixed, larger size. It
    /// has no effect where the current size is at least the requested one.
    pub fn set_write_buffer_size(&mut self, write_buffer_size: usize)
        ensures
            final(self).dev() == old(self).dev(),
            final(self).codec() == old(self).codec(),
            final(self).writing() == old(self).writing().with_buffer_size(
                write_buffer_size as nat,
            ),
            old(self).wf() ==> final(self).wf(),
    {
        self.state.set_write_buffer_size(write_buffer_size);
    }

    /// The device handle, the codec and the writing side, to write with.
    pub fn write_parts(&mut self) -> (r: (&T, &mut C, &mut WriteState))
        ensures
            *r.0 == old(self).dev(),
            *r.1 == old(self).codec(),
            r.2@ == old(self).writing(),
            final(self).dev() == old(self).dev(),
            final(self).codec() == *final(r.1),
            final(self).writing() == final(r.2)@,
    {
        (&self.dev, &mut self.codec, &mut self.state)
    }

    /// Gives the device handle back.
    pub fn into_inner(self) -> (dev: T)
        ensures
            dev == self.dev(),
    {
        self.dev
    }
}

} // verus!
