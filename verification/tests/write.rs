use bytes::{Bytes, BytesMut};
use tun_framed::codec::{BytesCodec, Encoder};
use tun_framed::sizing::DeviceProps;
use tun_framed::write::{FlushStep, SendEvent, WriteState};

type Step = FlushStep<std::io::Error>;

fn state(size: usize, tcp_gso: bool) -> WriteState {
    WriteState::new(
        size,
        &DeviceProps {
            mtu: None,
            mtu_v6: None,
            tcp_gso,
        },
    )
}

fn send(state: &mut WriteState, data: &'static [u8]) {
    state
        .start_send(&mut BytesCodec::new(), Bytes::from_static(data))
        .unwrap();
}

fn flush(state: &mut WriteState) -> Step {
    state.begin_flush()
}

fn done(step: Step) -> bool {
    matches!(step, FlushStep::Ready(Ok(())))
}

fn framed(data: &[u8]) -> Vec<u8> {
    let mut packet = vec![0; 10];
    packet.extend_from_slice(data);
    packet
}

#[test]
fn written_frame_is_sent() {
    let mut state = state(64, false);
    send(&mut state, b"hello");
    assert!(!state.is_drained());
    assert!(matches!(flush(&mut state), FlushStep::Send));
    assert_eq!(&state.packet().unwrap()[..], b"hello");
    assert!(done(state.on_send(SendEvent::Sent)));
    assert!(state.packet().is_none());
    assert!(done(flush(&mut state)));
    assert!(state.is_drained());
}

#[test]
fn growable_frame_is_sent() {
    let mut state = state(64, false);
    state
        .start_send(&mut BytesCodec::new(), BytesMut::from(&b"abc"[..]))
        .unwrap();
    assert!(matches!(flush(&mut state), FlushStep::Send));
    assert_eq!(&state.packet().unwrap()[..], b"abc");
}

#[test]
fn empty_frame_is_not_sent() {
    let mut state = state(64, false);
    send(&mut state, b"");
    assert!(done(flush(&mut state)));
}

#[test]
fn last_frame_counts() {
    let mut state = state(64, false);
    send(&mut state, b"first");
    send(&mut state, b"second");
    assert!(matches!(flush(&mut state), FlushStep::Send));
    assert_eq!(&state.packet().unwrap()[..], b"second");
}

#[test]
fn making_room_flushes_without_offload() {
    let mut state = state(64, false);
    assert!(done(state.begin_ready()));
    send(&mut state, b"x");
    let step: Step = state.begin_ready();
    assert!(matches!(step, FlushStep::Send));
}

#[test]
fn refused_frame_is_dropped() {
    let mut state = state(64, false);
    send(&mut state, b"x");
    flush(&mut state);
    let failure = std::io::Error::new(std::io::ErrorKind::BrokenPipe, "gone");
    match state.on_send::<std::io::Error>(SendEvent::Failed(failure)) {
        FlushStep::Ready(Err(e)) => assert_eq!(e.to_string(), "gone"),
        _ => panic!("no error"),
    }
    assert!(done(flush(&mut state)));
}

#[test]
fn pending_frame_is_offered_again() {
    let mut state = state(64, false);
    send(&mut state, b"later");
    flush(&mut state);
    let step: Step = state.on_send(SendEvent::Pending);
    assert!(matches!(step, FlushStep::Pending));
    assert!(matches!(flush(&mut state), FlushStep::Send));
    assert_eq!(&state.packet().unwrap()[..], b"later");
}

#[test]
fn queue_is_coalesced_and_sent_in_order() {
    let mut state = state(64, true);
    for data in [&b"a"[..], &b"b"[..], &b"c"[..]] {
        assert!(done(state.begin_ready()));
        state
            .start_send(&mut BytesCodec::new(), Bytes::from_static(data))
            .unwrap();
    }
    assert!(matches!(flush(&mut state), FlushStep::Coalesce));
    {
        let queued = state.queued_mut();
        assert_eq!(queued.len(), 3);
        assert_eq!(queued[0].to_vec(), framed(b"a"));
        assert_eq!(queued[2].to_vec(), framed(b"c"));
        queued[1].extend_from_slice(b"!");
    }
    let step: Step = state.on_coalesce(Ok(()), vec![1, 0]);
    assert!(matches!(step, FlushStep::Send));
    assert_eq!(state.packet().unwrap().to_vec(), framed(b"b!"));
    let step: Step = state.on_send(SendEvent::Sent);
    assert!(matches!(step, FlushStep::Send));
    assert_eq!(state.packet().unwrap().to_vec(), framed(b"a"));
    assert!(!state.is_drained());
    assert!(done(state.on_send(SendEvent::Sent)));
    assert!(state.is_drained());
    assert!(state.packet().is_none());
    assert!(done(flush(&mut state)));
}

#[test]
fn refused_packet_does_not_stop_the_others() {
    let mut state = state(64, true);
    send(&mut state, b"a");
    send(&mut state, b"b");
    flush(&mut state);
    let step: Step = state.on_coalesce(Ok(()), vec![0, 1]);
    assert!(matches!(step, FlushStep::Send));
    let failure = std::io::Error::new(std::io::ErrorKind::BrokenPipe, "gone");
    let step: Step = state.on_send(SendEvent::Failed(failure));
    assert!(matches!(step, FlushStep::Ready(Err(_))));
    assert!(!state.is_drained());
    let step: Step = state.begin_ready();
    assert!(matches!(step, FlushStep::Send));
    assert_eq!(state.packet().unwrap().to_vec(), framed(b"b"));
    let failure = std::io::Error::new(std::io::ErrorKind::BrokenPipe, "gone");
    let step: Step = state.on_send(SendEvent::Failed(failure));
    assert!(matches!(step, FlushStep::Ready(Err(_))));
    assert!(state.is_drained());
    assert!(done(state.begin_ready()));
}

#[test]
fn pending_packet_is_offered_again() {
    let mut state = state(64, true);
    send(&mut state, b"a");
    flush(&mut state);
    let _: Step = state.on_coalesce(Ok(()), vec![0]);
    let step: Step = state.on_send(SendEvent::Pending);
    assert!(matches!(step, FlushStep::Pending));
    assert!(matches!(flush(&mut state), FlushStep::Send));
    assert_eq!(state.packet().unwrap().to_vec(), framed(b"a"));
}

#[test]
fn failed_coalescing_keeps_what_it_listed() {
    let mut state = state(64, true);
    send(&mut state, b"a");
    send(&mut state, b"b");
    flush(&mut state);
    let failure = std::io::Error::new(std::io::ErrorKind::InvalidData, "bad");
    match state.on_coalesce::<std::io::Error>(Err(failure), vec![1]) {
        FlushStep::Ready(Err(e)) => assert_eq!(e.to_string(), "bad"),
        _ => panic!("no error"),
    }
    assert!(matches!(flush(&mut state), FlushStep::Send));
    assert_eq!(state.packet().unwrap().to_vec(), framed(b"b"));
}

#[test]
fn coalescing_into_nothing_starts_over() {
    let mut state = state(64, true);
    send(&mut state, b"a");
    flush(&mut state);
    assert!(done(state.on_coalesce(Ok(()), vec![])));
    assert!(state.is_drained());
}

#[test]
fn full_batch_has_to_be_flushed() {
    let mut state = state(64, true);
    for _ in 0..128 {
        assert!(done(state.begin_ready()));
        send(&mut state, b"x");
    }
    let step: Step = state.begin_ready();
    assert!(matches!(step, FlushStep::Coalesce));
    let mut step: Step = state.on_coalesce(Ok(()), (0..128).collect());
    let mut sent = 0;
    while let FlushStep::Send = step {
        assert_eq!(state.packet().unwrap().to_vec(), framed(b"x"));
        sent += 1;
        step = state.on_send(SendEvent::Sent);
    }
    assert!(done(step));
    assert_eq!(sent, 128);
    assert!(done(state.begin_ready()));
}

#[test]
fn buffers_are_used_again() {
    let mut state = state(64, true);
    for data in [&b"first"[..], &b"second"[..]] {
        state
            .start_send(&mut BytesCodec::new(), Bytes::from_static(data))
            .unwrap();
        flush(&mut state);
        let step: Step = state.on_coalesce(Ok(()), vec![0]);
        assert!(matches!(step, FlushStep::Send));
        assert_eq!(state.packet().unwrap().to_vec(), framed(data));
        assert!(done(state.on_send(SendEvent::Sent)));
    }
}

#[test]
fn write_buffer_only_grows() {
    let mut state = state(100, false);
    state.set_write_buffer_size(50);
    assert_eq!(state.write_buffer_size(), 100);
    state.set_write_buffer_size(100);
    assert_eq!(state.write_buffer_size(), 100);
    state.set_write_buffer_size(150);
    assert_eq!(state.write_buffer_size(), 150);
}

#[test]
fn write_buffer_is_fixed_with_offload() {
    let mut state = state(100, true);
    assert_eq!(state.write_buffer_size(), 65546);
    state.set_write_buffer_size(5000);
    assert_eq!(state.write_buffer_size(), 65546);
    state.set_write_buffer_size(100000);
    assert_eq!(state.write_buffer_size(), 65546);
}

/// Writes one byte and fails.
struct Broken;

impl Encoder<u8> for Broken {
    type Error = std::io::Error;

    fn encode(&mut self, item: u8, dst: &mut BytesMut) -> Result<(), std::io::Error> {
        dst.extend_from_slice(&[item]);
        Err(std::io::Error::new(std::io::ErrorKind::Other, "broken"))
    }
}

#[test]
fn failed_encoding_leaves_its_bytes() {
    let mut plain = state(64, false);
    let e = plain.start_send(&mut Broken, 7).unwrap_err();
    assert_eq!(e.to_string(), "broken");
    assert_eq!(&plain.packet().unwrap()[..], &[7]);

    let mut offload = state(64, true);
    assert!(offload.start_send(&mut Broken, 7).is_err());
    assert_eq!(offload.queued_mut()[0].to_vec(), framed(&[7]));
}

/// Notes how much room it is given, and writes one byte.
struct Measuring {
    room: usize,
}

impl Encoder<u8> for Measuring {
    type Error = std::io::Error;

    fn encode(&mut self, item: u8, dst: &mut BytesMut) -> Result<(), std::io::Error> {
        self.room = dst.capacity() - dst.len();
        dst.extend_from_slice(&[item]);
        Ok(())
    }
}

#[test]
fn encoder_is_given_the_size_that_was_set() {
    let mut codec = Measuring { room: 0 };
    let mut plain = state(64, false);
    plain.start_send(&mut codec, 1).unwrap();
    assert!(codec.room >= 64);
    plain.set_write_buffer_size(4000);
    plain.start_send(&mut codec, 2).unwrap();
    assert!(codec.room >= 4000);
    assert_eq!(&plain.packet().unwrap()[..], [2]);
}

#[test]
fn encoder_is_given_room_for_the_largest_packet_with_offload() {
    let mut codec = Measuring { room: 0 };
    let mut offload = state(64, true);
    offload.start_send(&mut codec, 1).unwrap();
    assert!(codec.room >= 65536);
}
