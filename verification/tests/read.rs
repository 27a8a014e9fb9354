use bytes::BytesMut;
use tun_framed::codec::{BytesCodec, Decoder};
use tun_framed::read::{offered_room, stream_item, ReadState, ReadStep, ReceiveEvent, SplitEvent};
use tun_framed::sizing::DeviceProps;

type Step = ReadStep<BytesMut, std::io::Error>;

fn state(size: usize, tcp_gso: bool) -> ReadState {
    ReadState::new(
        size,
        &DeviceProps {
            mtu: None,
            mtu_v6: None,
            tcp_gso,
        },
    )
}

fn frame(step: Step) -> Vec<u8> {
    match step {
        ReadStep::Ready(Some(Ok(frame))) => frame.to_vec(),
        _ => panic!("no frame"),
    }
}

fn error(step: Step) -> std::io::Error {
    match step {
        ReadStep::Ready(Some(Err(e))) => e,
        _ => panic!("no error"),
    }
}

/// Starts a read that has to receive, and returns the room for it.
fn room(state: &mut ReadState, codec: &mut BytesCodec) -> usize {
    assert!(matches!(state.begin(codec), ReadStep::Receive));
    state.receive_room()
}

/// Puts packets where a device would, and reports them.
fn split_into(state: &mut ReadState, codec: &mut BytesCodec, packets: &[&[u8]]) -> Step {
    let (_, _, bufs, sizes) = state.split_parts();
    for (i, packet) in packets.iter().enumerate() {
        bufs[i][..packet.len()].copy_from_slice(packet);
        sizes[i] = packet.len();
    }
    state.on_split(codec, SplitEvent::Done(packets.len()))
}

#[test]
fn received_packet_is_a_frame() {
    let mut state = state(64, false);
    let mut codec = BytesCodec::new();
    assert!(room(&mut state, &mut codec) >= 64);
    let buf = *b"packet....";
    let step = state.on_receive(&mut codec, ReceiveEvent::Filled { buf: &buf, len: 6 });
    assert_eq!(frame(step), b"packet");
    assert!(state.buffer().is_empty());
}

#[test]
fn empty_packet_ends_the_stream() {
    let mut state = state(64, false);
    let mut codec = BytesCodec::new();
    state.begin(&mut codec);
    let step = state.on_receive(&mut codec, ReceiveEvent::Filled { buf: &[1, 2], len: 0 });
    assert!(matches!(step, ReadStep::Ready(None)));
}

#[test]
fn device_without_data_is_asked_again() {
    let mut state = state(64, false);
    let mut codec = BytesCodec::new();
    state.begin(&mut codec);
    let step = state.on_receive(&mut codec, ReceiveEvent::Pending);
    assert!(matches!(step, ReadStep::Pending));
    assert!(room(&mut state, &mut codec) >= 64);
}

#[test]
fn device_errors_end_a_read() {
    let mut state = state(64, false);
    let mut codec = BytesCodec::new();
    state.begin(&mut codec);
    let failure = std::io::Error::new(std::io::ErrorKind::NotConnected, "down");
    let step = state.on_receive(&mut codec, ReceiveEvent::Failed(failure));
    assert_eq!(error(step).to_string(), "down");
}

#[test]
fn overrun_is_invalid_data() {
    let mut state = state(64, false);
    let mut codec = BytesCodec::new();
    state.begin(&mut codec);
    let step = state.on_receive(&mut codec, ReceiveEvent::Filled { buf: &[0; 4], len: 5 });
    let e = error(step);
    assert_eq!(e.kind(), std::io::ErrorKind::InvalidData);
    assert_eq!(
        e.to_string(),
        "device initialized more bytes than available buffer space"
    );
    assert!(state.buffer().is_empty());
}

#[test]
fn full_buffer_is_accepted() {
    let mut state = state(4, false);
    let mut codec = BytesCodec::new();
    state.begin(&mut codec);
    let step = state.on_receive(&mut codec, ReceiveEvent::Filled { buf: &[9; 4], len: 4 });
    assert_eq!(frame(step), [9; 4]);
}

#[test]
fn there_is_always_room() {
    let mut state = state(0, false);
    let mut codec = BytesCodec::new();
    assert!(room(&mut state, &mut codec) > 0);
}

#[test]
fn room_grows_with_the_buffer_size() {
    let mut state = state(16, false);
    let mut codec = BytesCodec::new();
    state.set_read_buffer_size(9000);
    assert_eq!(state.read_buffer_size(), 9000);
    assert!(room(&mut state, &mut codec) >= 9000);
    state.set_read_buffer_size(70000);
    assert!(room(&mut state, &mut codec) >= 70000);
}

#[test]
fn offload_has_room_for_a_large_packet() {
    let mut state = state(16, true);
    let mut codec = BytesCodec::new();
    assert!(room(&mut state, &mut codec) >= 65546);
}

#[test]
fn offloaded_packet_needs_more_than_a_header() {
    let mut state = state(16, true);
    let mut codec = BytesCodec::new();
    state.begin(&mut codec);
    let step = state.on_receive(&mut codec, ReceiveEvent::Filled { buf: &[0; 10], len: 10 });
    let e = error(step);
    assert_eq!(e.kind(), std::io::ErrorKind::Other);
    assert_eq!(
        e.to_string(),
        "length of packet (10) <= VIRTIO_NET_HDR_LEN (10)"
    );
    state.begin(&mut codec);
    let step = state.on_receive(&mut codec, ReceiveEvent::Filled { buf: &[0; 11], len: 11 });
    assert!(matches!(step, ReadStep::Split));
}

#[test]
fn offloaded_packets_come_out_in_order() {
    let mut state = state(8, true);
    let mut codec = BytesCodec::new();
    state.begin(&mut codec);
    let read: Vec<u8> = (0..20).collect();
    let step = state.on_receive(&mut codec, ReceiveEvent::Filled { buf: &read, len: 20 });
    assert!(matches!(step, ReadStep::Split));
    {
        let (header, input, bufs, sizes) = state.split_parts();
        assert_eq!(header, &read[..10]);
        assert_eq!(input, &read[10..]);
        input[0] = 99;
        assert_eq!(bufs.len(), 128);
        assert_eq!(sizes.len(), 128);
        assert!(bufs.iter().all(|buf| buf[..] == [0; 8]));
    }
    assert_eq!(state.buffer()[10], 99);
    let step = split_into(&mut state, &mut codec, &[b"one", b"two", b"three"]);
    assert_eq!(frame(step), b"one");
    assert_eq!(frame(state.begin(&mut codec)), b"two");
    assert_eq!(frame(state.begin(&mut codec)), b"three");
    assert!(room(&mut state, &mut codec) >= 65546);
}

#[test]
fn buffers_are_prepared_for_every_split() {
    let mut state = state(4, true);
    let mut codec = BytesCodec::new();
    state.begin(&mut codec);
    state.on_receive(&mut codec, ReceiveEvent::Filled { buf: &[1; 20], len: 20 });
    split_into(&mut state, &mut codec, &[b"ab"]);
    state.set_read_buffer_size(6);
    state.begin(&mut codec);
    state.on_receive(&mut codec, ReceiveEvent::Filled { buf: &[1; 20], len: 20 });
    let (_, _, bufs, _) = state.split_parts();
    assert!(bufs.iter().all(|buf| buf[..] == [0; 6]));
}

#[test]
fn packet_no_longer_than_its_buffer_is_kept() {
    let mut state = state(4, true);
    let mut codec = BytesCodec::new();
    state.begin(&mut codec);
    state.on_receive(&mut codec, ReceiveEvent::Filled { buf: &[1; 20], len: 20 });
    {
        let (_, _, bufs, sizes) = state.split_parts();
        bufs[0].copy_from_slice(b"abcd");
        sizes[0] = 100;
    }
    let step = state.on_split(&mut codec, SplitEvent::Done(1));
    assert_eq!(frame(step), b"abcd");
}

#[test]
fn split_into_nothing_ends_the_stream() {
    let mut state = state(4, true);
    let mut codec = BytesCodec::new();
    state.begin(&mut codec);
    state.on_receive(&mut codec, ReceiveEvent::Filled { buf: &[1; 20], len: 20 });
    let step = state.on_split(&mut codec, SplitEvent::Done(0));
    assert!(matches!(step, ReadStep::Ready(None)));
}

#[test]
fn failed_split_ends_a_read() {
    let mut state = state(4, true);
    let mut codec = BytesCodec::new();
    state.begin(&mut codec);
    state.on_receive(&mut codec, ReceiveEvent::Filled { buf: &[1; 20], len: 20 });
    let failure = std::io::Error::new(std::io::ErrorKind::InvalidInput, "bad header");
    let step = state.on_split(&mut codec, SplitEvent::Failed(failure));
    assert_eq!(error(step).to_string(), "bad header");
}

#[test]
fn empty_part_gives_way_to_a_receive() {
    let mut state = state(4, true);
    let mut codec = BytesCodec::new();
    state.begin(&mut codec);
    state.on_receive(&mut codec, ReceiveEvent::Filled { buf: &[1; 20], len: 20 });
    let step = split_into(&mut state, &mut codec, &[b"a", b"", b"c"]);
    assert_eq!(frame(step), b"a");
    assert!(room(&mut state, &mut codec) >= 65546);
    assert_eq!(frame(state.begin(&mut codec)), b"c");
}

/// Refuses everything.
struct Never;

impl Decoder for Never {
    type Item = ();
    type Error = std::io::Error;

    fn decode(&mut self, _src: &mut BytesMut) -> Result<Option<()>, std::io::Error> {
        Ok(None)
    }
}

#[test]
fn leftover_packet_is_an_error() {
    let mut state = state(64, false);
    state.begin(&mut Never);
    let step = state.on_receive(&mut Never, ReceiveEvent::Filled { buf: &[3; 3], len: 3 });
    match step {
        ReadStep::Ready(Some(Err(e))) => assert_eq!(e.to_string(), "bytes remaining on stream"),
        _ => panic!("no error"),
    }
    assert_eq!(&state.buffer()[..], &[3; 3]);
}

#[test]
fn read_buffer_can_be_changed_and_is_emptied_for_a_read() {
    let mut state = state(64, false);
    state.buffer_mut().extend_from_slice(b"junk");
    assert_eq!(&state.buffer()[..], b"junk");
    let mut codec = BytesCodec::new();
    state.begin(&mut codec);
    assert!(state.buffer().is_empty());
}

#[test]
fn waiting_packet_needs_no_room() {
    let mut state = state(8, true);
    let mut codec = BytesCodec::new();
    state.begin(&mut codec);
    state.on_receive(&mut codec, ReceiveEvent::Filled { buf: &[1; 20], len: 20 });
    split_into(&mut state, &mut codec, &[b"one", b"two"]);
    state.set_read_buffer_size(usize::MAX);
    assert_eq!(frame(state.begin(&mut codec)), b"two");
    assert_eq!(state.read_buffer_size(), usize::MAX);
}

/// Makes one frame of what is left at the end of the data, and none before.
struct AtEnd;

impl Decoder for AtEnd {
    type Item = usize;
    type Error = std::io::Error;

    fn decode(&mut self, _src: &mut BytesMut) -> Result<Option<usize>, std::io::Error> {
        Ok(None)
    }

    fn decode_eof(&mut self, buf: &mut BytesMut) -> Result<Option<usize>, std::io::Error> {
        if buf.starts_with(b"bad") {
            return Err(std::io::Error::new(std::io::ErrorKind::InvalidInput, "bad"));
        }
        if buf.starts_with(b"skip") {
            return Ok(None);
        }
        Ok(Some(buf.len()))
    }
}

#[test]
fn overridden_decode_eof_decides_without_offload() {
    let mut state = state(64, false);
    state.begin(&mut AtEnd);
    let step = state.on_receive(&mut AtEnd, ReceiveEvent::Filled { buf: b"abc", len: 3 });
    assert!(matches!(step, ReadStep::Ready(Some(Ok(3)))));
    state.begin(&mut AtEnd);
    let step = state.on_receive(&mut AtEnd, ReceiveEvent::Filled { buf: b"skip", len: 4 });
    assert!(matches!(step, ReadStep::Ready(None)));
    state.begin(&mut AtEnd);
    let step = state.on_receive(&mut AtEnd, ReceiveEvent::Filled { buf: b"bad", len: 3 });
    assert!(matches!(step, ReadStep::Ready(Some(Err(_)))));
}

#[test]
fn overridden_decode_eof_decides_with_offload() {
    let mut state = state(8, true);
    state.begin(&mut AtEnd);
    state.on_receive(&mut AtEnd, ReceiveEvent::Filled { buf: &[1; 20], len: 20 });
    {
        let (_, _, bufs, sizes) = state.split_parts();
        for (i, packet) in [&b"ab"[..], &b"bad"[..], &b"skip"[..], &b"abcd"[..]].iter().enumerate() {
            bufs[i][..packet.len()].copy_from_slice(packet);
            sizes[i] = packet.len();
        }
    }
    let step = state.on_split(&mut AtEnd, SplitEvent::Done(4));
    assert!(matches!(step, ReadStep::Ready(Some(Ok(2)))));
    assert!(matches!(state.begin(&mut AtEnd), ReadStep::Ready(Some(Err(_)))));
    assert!(matches!(state.begin(&mut AtEnd), ReadStep::Receive));
    assert!(matches!(state.begin(&mut AtEnd), ReadStep::Ready(Some(Ok(4)))));
}

#[test]
fn stream_items() {
    assert_eq!(stream_item::<u8, u8>(Ok(Some(1))), Some(Ok(1)));
    assert_eq!(stream_item::<u8, u8>(Ok(None)), None);
    assert_eq!(stream_item::<u8, u8>(Err(2)), Some(Err(2)));
}

#[test]
fn all_that_is_spare_is_offered() {
    assert_eq!(offered_room(5, 3), 5);
    assert_eq!(offered_room(65546, 1518), 65546);
    assert_eq!(offered_room(4, 4), 4);
}

#[test]
fn what_is_needed_is_offered_where_less_is_spare() {
    assert_eq!(offered_room(3, 5), 5);
    assert_eq!(offered_room(0, 1518), 1518);
}

#[test]
fn room_is_what_the_read_buffer_has_to_spare() {
    let mut state = state(1518, false);
    let room = state.receive_room();
    assert!(room >= 1518);
    assert_eq!(room, state.buffer().capacity() - state.buffer().len());
}

#[test]
fn read_buffer_starts_with_room_for_its_size() {
    let state = state(1518, false);
    assert_eq!(state.buffer().len(), 0);
    assert!(state.buffer().capacity() >= 1518);
}
