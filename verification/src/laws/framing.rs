//! What holds of framed devices: how they start, what they give back, and what they leave alone.

use bytes::BytesMut;
use vstd::prelude::*;

use crate::buffer::contents;
use crate::framed::{DeviceFramed, DeviceFramedRead, DeviceFramedWrite};
use crate::read::{ReadState, ReadView};
use crate::sizing::DeviceProps;
use crate::write::{WriteState, WriteView};

verus! {

/// The size that the buffers of a device have: its largest MTU, an unknown one counted as 4096,
/// and eighteen bytes more.
pub open spec fn sized_after(props: DeviceProps, size: nat) -> bool {
    let v4 = match props.mtu {
        Some(m) => m as int,
        None => 4096,
    };
    let v6 = match props.mtu_v6 {
        Some(Some(m)) => m as int,
        Some(None) => 4096,
        None => 0,
    };
    &&& size >= v4 + 18
    &&& size >= v6 + 18
    &&& size == v4 + 18 || size == v6 + 18
}

/// A reading side that has read nothing yet, with offload or without.
pub open spec fn reads_afresh(v: ReadView, props: DeviceProps) -> bool {
    &&& sized_after(props, v.recv_buffer_size)
    &&& v.rd.len() == 0
    &&& v.splitter is Some <==> props.tcp_gso
    &&& v.splitter matches Some(s) ==> s.segment_len == v.recv_buffer_size && s.index == s.num
}

/// A writing side that has written nothing yet, with offload or without.
pub open spec fn writes_afresh(v: WriteView, props: DeviceProps) -> bool {
    &&& sized_after(props, v.send_buffer_size)
    &&& v.wr.len() == 0
    &&& v.arena is Some <==> props.tcp_gso
    &&& v.arena matches Some(a) ==> a.offset == 0 && a.to_write.len() == 0
}

/// A framed device is made of the device handle and the codec that it is given, has a read and a
/// write buffer sized after the device's MTU, and a splitter and an arena exactly where the device
/// does offload. It gives the same device handle back.
pub proof fn framed_device_is_made_for_its_device<C, T>(
    dev: T,
    codec: C,
    props: DeviceProps,
    framed: DeviceFramed<C, T>,
    read_size: usize,
    write_size: usize,
    back: T,
)
    requires
        call_ensures(DeviceFramed::<C, T>::new, (dev, codec, &props), framed),
        call_ensures(DeviceFramed::<C, T>::read_buffer_size, (&framed,), read_size),
        call_ensures(DeviceFramed::<C, T>::write_buffer_size, (&framed,), write_size),
        call_ensures(DeviceFramed::<C, T>::into_inner, (framed,), back),
    ensures
        framed.dev() == dev,
        framed.codec() == codec,
        reads_afresh(framed.reading(), props),
        writes_afresh(framed.writing(), props),
        sized_after(props, read_size as nat),
        props.mtu_v6 is None ==> (props.mtu matches Some(m) ==> read_size == m + 18),
        props.mtu_v6 is None && props.mtu is None ==> read_size == 4096 + 18,
        !props.tcp_gso ==> write_size == read_size,
        props.tcp_gso ==> {
            &&& write_size >= read_size
            &&& write_size >= 65546
            &&& write_size == read_size || write_size == 65546
        },
        back == dev,
{
}

/// The same of the half that reads.
pub proof fn reading_half_is_made_for_its_device<C, T>(
    dev: T,
    codec: C,
    props: DeviceProps,
    framed: DeviceFramedRead<C, T>,
    read_size: usize,
    back: T,
)
    requires
        call_ensures(DeviceFramedRead::<C, T>::new, (dev, codec, &props), framed),
        call_ensures(DeviceFramedRead::<C, T>::read_buffer_size, (&framed,), read_size),
        call_ensures(DeviceFramedRead::<C, T>::into_inner, (framed,), back),
    ensures
        framed.dev() == dev,
        framed.codec() == codec,
        reads_afresh(framed.reading(), props),
        sized_after(props, read_size as nat),
        back == dev,
{
}

/// The same of the half that writes.
pub proof fn writing_half_is_made_for_its_device<C, T>(
    dev: T,
    codec: C,
    props: DeviceProps,
    framed: DeviceFramedWrite<C, T>,
    write_size: usize,
    back: T,
)
    requires
        call_ensures(DeviceFramedWrite::<C, T>::new, (dev, codec, &props), framed),
        call_ensures(DeviceFramedWrite::<C, T>::write_buffer_size, (&framed,), write_size),
        call_ensures(DeviceFramedWrite::<C, T>::into_inner, (framed,), back),
    ensures
        framed.dev() == dev,
        framed.codec() == codec,
        writes_afresh(framed.writing(), props),
        !props.tcp_gso ==> sized_after(props, write_size as nat),
        props.tcp_gso ==> {
            &&& write_size >= 65546
            &&& write_size == 65546 || sized_after(props, write_size as nat)
        },
        back == dev,
{
}

/// Both halves of a framed device start afresh, whatever had been read or written, with its device
/// handle and codec or clones of them.
pub proof fn halves_start_afresh<C: Clone, T: Clone>(
    framed: DeviceFramed<C, T>,
    props: DeviceProps,
    r: DeviceFramedRead<C, T>,
    w: DeviceFramedWrite<C, T>,
)
    requires
        call_ensures(DeviceFramed::<C, T>::split, (framed, &props), (r, w)),
    ensures
        reads_afresh(r.reading(), props),
        writes_afresh(w.writing(), props),
        w.dev() == framed.dev(),
        w.codec() == framed.codec(),
        cloned(framed.dev(), r.dev()),
        cloned(framed.codec(), r.codec()),
{
}

/// The size of the read buffer is the one set last, and setting it leaves the device, the codec, the
/// writing side and what was read alone.
pub proof fn framed_read_buffer_takes_the_size_set<C, T>(
    framed: &mut DeviceFramed<C, T>,
    size: usize,
    told: usize,
)
    requires
        call_ensures(DeviceFramed::<C, T>::set_read_buffer_size, (framed, size), ()),
        call_ensures(DeviceFramed::<C, T>::read_buffer_size, (&*final(framed),), told),
    ensures
        told == size,
        final(framed).dev() == old(framed).dev(),
        final(framed).codec() == old(framed).codec(),
        final(framed).writing() == old(framed).writing(),
        final(framed).reading().rd == old(framed).reading().rd,
        old(framed).wf() ==> final(framed).reading().pending() == old(framed).reading().pending(),
        final(framed).reading().splitter matches Some(s) ==> s.segment_len == size,
{
}

/// The same of the half that reads.
pub proof fn half_read_buffer_takes_the_size_set<C, T>(
    framed: &mut DeviceFramedRead<C, T>,
    size: usize,
    told: usize,
)
    requires
        call_ensures(DeviceFramedRead::<C, T>::set_read_buffer_size, (framed, size), ()),
        call_ensures(DeviceFramedRead::<C, T>::read_buffer_size, (&*final(framed),), told),
    ensures
        told == size,
        final(framed).dev() == old(framed).dev(),
        final(framed).codec() == old(framed).codec(),
        final(framed).reading().rd == old(framed).reading().rd,
        old(framed).wf() ==> final(framed).reading().pending() == old(framed).reading().pending(),
        final(framed).reading().splitter matches Some(s) ==> s.segment_len == size,
{
}

/// Setting the size of the write buffer makes it at least as large as asked without offload, never
/// smaller than it was, and is ignored with offload; the device, the codec, the reading side and
/// what was written are left alone.
pub proof fn framed_write_buffer_only_grows<C, T>(
    framed: &mut DeviceFramed<C, T>,
    size: usize,
    before: usize,
    after: usize,
)
    requires
        call_ensures(DeviceFramed::<C, T>::write_buffer_size, (&*old(framed),), before),
        call_ensures(DeviceFramed::<C, T>::set_write_buffer_size, (framed, size), ()),
        call_ensures(DeviceFramed::<C, T>::write_buffer_size, (&*final(framed),), after),
    ensures
        old(framed).writing().arena is Some ==> after == before,
        old(framed).writing().arena is None ==> {
            &&& after >= before
            &&& after >= size
            &&& after == before || after == size
        },
        final(framed).dev() == old(framed).dev(),
        final(framed).codec() == old(framed).codec(),
        final(framed).reading() == old(framed).reading(),
        final(framed).writing().wr == old(framed).writing().wr,
        final(framed).writing().arena == old(framed).writing().arena,
{
}

/// The same of the half that writes.
pub proof fn half_write_buffer_only_grows<C, T>(
    framed: &mut DeviceFramedWrite<C, T>,
    size: usize,
    before: usize,
    after: usize,
)
    requires
        call_ensures(DeviceFramedWrite::<C, T>::write_buffer_size, (&*old(framed),), before),
        call_ensures(DeviceFramedWrite::<C, T>::set_write_buffer_size, (framed, size), ()),
        call_ensures(DeviceFramedWrite::<C, T>::write_buffer_size, (&*final(framed),), after),
    ensures
        old(framed).writing().arena is Some ==> after == before,
        old(framed).writing().arena is None ==> {
            &&& after >= before
            &&& after >= size
            &&& after == before || after == size
        },
        final(framed).dev() == old(framed).dev(),
        final(framed).codec() == old(framed).codec(),
        final(framed).writing().wr == old(framed).writing().wr,
        final(framed).writing().arena == old(framed).writing().arena,
{
}

/// The read buffer is shown as it is, and what is done to it is done to nothing else.
pub proof fn framed_read_buffer_is_shown<C, T>(
    framed: &mut DeviceFramed<C, T>,
    shown: &BytesMut,
    buf: &mut BytesMut,
)
    requires
        call_ensures(DeviceFramed::<C, T>::read_buffer, (&*old(framed),), shown),
        call_ensures(DeviceFramed::<C, T>::read_buffer_mut, (framed,), buf),
    ensures
        contents(*shown) == old(framed).reading().rd,
        contents(*old(buf)) == old(framed).reading().rd,
        final(framed).reading().rd == contents(*final(buf)),
        final(framed).reading().splitter == old(framed).reading().splitter,
        final(framed).reading().recv_buffer_size == old(framed).reading().recv_buffer_size,
        final(framed).dev() == old(framed).dev(),
        final(framed).codec() == old(framed).codec(),
        final(framed).writing() == old(framed).writing(),
{
}

/// Reading works on the framed device's own codec and reading side, and leaves its device handle and
/// its writing side alone.
pub proof fn reading_leaves_writing_alone<C, T>(
    framed: &mut DeviceFramed<C, T>,
    dev: &T,
    codec: &mut C,
    state: &mut ReadState,
)
    requires
        call_ensures(DeviceFramed::<C, T>::read_parts, (framed,), (dev, codec, state)),
    ensures
        *dev == old(framed).dev(),
        *old(codec) == old(framed).codec(),
        old(state)@ == old(framed).reading(),
        final(framed).dev() == old(framed).dev(),
        final(framed).codec() == *final(codec),
        final(framed).reading() == final(state)@,
        final(framed).writing() == old(framed).writing(),
{
}

/// Writing works on the framed device's own codec and writing side, and leaves its device handle and
/// its reading side alone.
pub proof fn writing_leaves_reading_alone<C, T>(
    framed: &mut DeviceFramed<C, T>,
    dev: &T,
    codec: &mut C,
    state: &mut WriteState,
)
    requires
        call_ensures(DeviceFramed::<C, T>::write_parts, (framed,), (dev, codec, state)),
    ensures
        *dev == old(framed).dev(),
        *old(codec) == old(framed).codec(),
        old(state)@ == old(framed).writing(),
        final(framed).dev() == old(framed).dev(),
        final(framed).codec() == *final(codec),
        final(framed).reading() == old(framed).reading(),
        final(framed).writing() == final(state)@,
{
}

/// Each half works on its own codec and state, and leaves its device handle alone.
pub proof fn halves_work_on_their_own<C, T>(
    r: &mut DeviceFramedRead<C, T>,
    r_dev: &T,
    r_codec: &mut C,
    r_state: &mut ReadState,
    w: &mut DeviceFramedWrite<C, T>,
    w_dev: &T,
    w_codec: &mut C,
    w_state: &mut WriteState,
)
    requires
        call_ensures(DeviceFramedRead::<C, T>::read_parts, (r,), (r_dev, r_codec, r_state)),
        call_ensures(DeviceFramedWrite::<C, T>::write_parts, (w,), (w_dev, w_codec, w_state)),
    ensures
        *r_dev == old(r).dev(),
        *old(r_codec) == old(r).codec(),
        old(r_state)@ == old(r).reading(),
        final(r).dev() == old(r).dev(),
        final(r).codec() == *final(r_codec),
        final(r).reading() == final(r_state)@,
        *w_dev == old(w).dev(),
        *old(w_codec) == old(w).codec(),
        old(w_state)@ == old(w).writing(),
        final(w).dev() == old(w).dev(),
        final(w).codec() == *final(w_codec),
        final(w).writing() == final(w_state)@,
{
}

} // verus!
