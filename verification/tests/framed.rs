use bytes::{Bytes, BytesMut};
use tun_framed::codec::BytesCodec;
use tun_framed::framed::{DeviceFramed, DeviceFramedRead, DeviceFramedWrite};
use tun_framed::read::{ReadStep, ReceiveEvent, SplitEvent};
use tun_framed::sizing::DeviceProps;
use tun_framed::write::{FlushStep, SendEvent};

const TUN: DeviceProps = DeviceProps {
    mtu: Some(1500),
    mtu_v6: None,
    tcp_gso: false,
};

const OFFLOAD: DeviceProps = DeviceProps {
    mtu: Some(1400),
    mtu_v6: None,
    tcp_gso: true,
};

#[test]
fn buffers_are_sized_after_the_device() {
    let framed = DeviceFramed::new("tun0", BytesCodec::new(), &TUN);
    assert_eq!(framed.read_buffer_size(), 1518);
    assert_eq!(framed.write_buffer_size(), 1518);
    assert!(framed.read_buffer().is_empty());
    assert_eq!(framed.into_inner(), "tun0");

    let read = DeviceFramedRead::new("tun1", BytesCodec::new(), &OFFLOAD);
    assert_eq!(read.read_buffer_size(), 1418);
    assert_eq!(read.into_inner(), "tun1");

    let write = DeviceFramedWrite::new("tun2", BytesCodec::new(), &OFFLOAD);
    assert_eq!(write.write_buffer_size(), 65546);
    assert_eq!(write.into_inner(), "tun2");
}

#[test]
fn buffer_sizes_can_be_set() {
    let mut framed = DeviceFramed::new((), BytesCodec::new(), &TUN);
    framed.set_read_buffer_size(100);
    framed.set_write_buffer_size(100);
    assert_eq!(framed.read_buffer_size(), 100);
    assert_eq!(framed.write_buffer_size(), 1518);
    framed.set_write_buffer_size(3000);
    assert_eq!(framed.write_buffer_size(), 3000);

    let mut read = DeviceFramedRead::new((), BytesCodec::new(), &OFFLOAD);
    read.set_read_buffer_size(9000);
    assert_eq!(read.read_buffer_size(), 9000);

    let mut write = DeviceFramedWrite::new((), BytesCodec::new(), &OFFLOAD);
    write.set_write_buffer_size(9000);
    assert_eq!(write.write_buffer_size(), 65546);
}

#[test]
fn offload_write_buffer_is_larger() {
    let mut framed = DeviceFramed::new((), BytesCodec::new(), &OFFLOAD);
    assert_eq!(framed.read_buffer_size(), 1418);
    assert_eq!(framed.write_buffer_size(), 65546);
    framed.set_write_buffer_size(100000);
    assert_eq!(framed.write_buffer_size(), 65546);

    let props = DeviceProps {
        mtu: Some(u16::MAX),
        mtu_v6: None,
        tcp_gso: true,
    };
    let write = DeviceFramedWrite::new((), BytesCodec::new(), &props);
    assert_eq!(write.write_buffer_size(), 65553);
}

#[test]
fn reading_leaves_the_writing_side() {
    let mut framed = DeviceFramed::new((), BytesCodec::new(), &TUN);
    let (_, codec, state) = framed.write_parts();
    state.start_send(codec, Bytes::from_static(b"out")).unwrap();
    let (_, codec, state) = framed.read_parts();
    state.begin(codec);
    state.on_receive(codec, ReceiveEvent::Filled { buf: b"in", len: 2 });
    assert_eq!(framed.read_buffer_size(), 1518);
    assert_eq!(framed.write_buffer_size(), 1518);
    let (_, _, state) = framed.write_parts();
    assert_eq!(&state.packet().unwrap()[..], b"out");
}

#[test]
fn read_buffer_can_be_changed() {
    let mut framed = DeviceFramed::new((), BytesCodec::new(), &TUN);
    framed.read_buffer_mut().extend_from_slice(b"abc");
    assert_eq!(&framed.read_buffer()[..], b"abc");
}

#[test]
fn halves_start_afresh() {
    let mut framed = DeviceFramed::new("tun0", BytesCodec::new(), &TUN);
    framed.set_read_buffer_size(7);
    framed.set_write_buffer_size(9000);
    let (read, write) = framed.split(&OFFLOAD);
    assert_eq!(read.read_buffer_size(), 1418);
    assert_eq!(write.write_buffer_size(), 65546);
    assert_eq!(read.into_inner(), "tun0");
    assert_eq!(write.into_inner(), "tun0");
}

#[test]
fn frame_comes_back_as_it_went_out() {
    let (mut read, mut write) = DeviceFramed::new((), BytesCodec::new(), &TUN).split(&TUN);
    let (_, codec, state) = write.write_parts();
    state
        .start_send(codec, Bytes::from_static(b"[IP packet] Hello, TUN!"))
        .unwrap();
    let step: FlushStep<std::io::Error> = state.begin_flush();
    assert!(matches!(step, FlushStep::Send));
    let packet = state.packet().unwrap().to_vec();
    let step: FlushStep<std::io::Error> = state.on_send(SendEvent::Sent);
    assert!(matches!(step, FlushStep::Ready(Ok(()))));

    let (_, codec, state) = read.read_parts();
    assert!(matches!(state.begin(codec), ReadStep::Receive));
    assert!(state.receive_room() >= 1518);
    let event = ReceiveEvent::Filled {
        buf: &packet,
        len: packet.len(),
    };
    match state.on_receive(codec, event) {
        ReadStep::Ready(Some(Ok(frame))) => assert_eq!(&frame[..], b"[IP packet] Hello, TUN!"),
        _ => panic!("no frame"),
    }
}

#[test]
fn growable_frame_comes_back_as_it_went_out() {
    let mut framed = DeviceFramed::new((), BytesCodec::new(), &TUN);
    let (_, codec, state) = framed.write_parts();
    state
        .start_send(codec, BytesMut::from(&b"ping"[..]))
        .unwrap();
    let packet = state.packet().unwrap().to_vec();
    let (_, codec, state) = framed.read_parts();
    state.begin(codec);
    let event = ReceiveEvent::Filled {
        buf: &packet,
        len: packet.len(),
    };
    match state.on_receive(codec, event) {
        ReadStep::Ready(Some(Ok(frame))) => assert_eq!(&frame[..], b"ping"),
        _ => panic!("no frame"),
    }
}

#[test]
fn offloaded_frame_comes_back_as_it_went_out() {
    let mut framed = DeviceFramed::new((), BytesCodec::new(), &OFFLOAD);
    let (_, codec, state) = framed.write_parts();
    state
        .start_send(codec, Bytes::from_static(b"segment"))
        .unwrap();
    let step: FlushStep<std::io::Error> = state.begin_flush();
    assert!(matches!(step, FlushStep::Coalesce));
    let step: FlushStep<std::io::Error> = state.on_coalesce(Ok(()), vec![0]);
    assert!(matches!(step, FlushStep::Send));
    let packet = state.packet().unwrap().to_vec();

    let (_, codec, state) = framed.read_parts();
    state.begin(codec);
    let event = ReceiveEvent::Filled {
        buf: &packet,
        len: packet.len(),
    };
    assert!(matches!(state.on_receive(codec, event), ReadStep::Split));
    {
        let (header, input, bufs, sizes) = state.split_parts();
        assert_eq!(header, [0; 10]);
        bufs[0][..input.len()].copy_from_slice(input);
        sizes[0] = input.len();
    }
    match state.on_split(codec, SplitEvent::Done(1)) {
        ReadStep::Ready(Some(Ok(frame))) => assert_eq!(&frame[..], b"segment"),
        _ => panic!("no frame"),
    }
}
