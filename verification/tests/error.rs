use tun_framed::error::{convert, Fault, FaultKind, FrameError};

#[test]
fn faults_have_their_kinds() {
    assert_eq!(Fault::BytesRemaining.kind(), FaultKind::Other);
    assert_eq!(Fault::PacketTooShort { len: 3 }.kind(), FaultKind::Other);
    assert_eq!(Fault::DeviceOverrun.kind(), FaultKind::InvalidData);
}

#[test]
fn faults_have_their_messages() {
    assert_eq!(Fault::BytesRemaining.message(), "bytes remaining on stream");
    assert_eq!(
        Fault::DeviceOverrun.message(),
        "device initialized more bytes than available buffer space"
    );
    assert_eq!(
        Fault::PacketTooShort { len: 0 }.message(),
        "length of packet (0) <= VIRTIO_NET_HDR_LEN (10)"
    );
    assert_eq!(
        Fault::PacketTooShort { len: 10 }.message(),
        "length of packet (10) <= VIRTIO_NET_HDR_LEN (10)"
    );
    assert_eq!(
        Fault::PacketTooShort { len: 1203456789 }.message(),
        "length of packet (1203456789) <= VIRTIO_NET_HDR_LEN (10)"
    );
}

#[test]
fn faults_become_io_errors() {
    let e = FrameError::Fault(Fault::DeviceOverrun).into_io_error();
    assert_eq!(e.kind(), std::io::ErrorKind::InvalidData);
    assert_eq!(
        e.to_string(),
        "device initialized more bytes than available buffer space"
    );
    let e = FrameError::Fault(Fault::PacketTooShort { len: 7 }).into_io_error();
    assert_eq!(e.kind(), std::io::ErrorKind::Other);
    assert_eq!(
        e.to_string(),
        "length of packet (7) <= VIRTIO_NET_HDR_LEN (10)"
    );
}

#[test]
fn device_errors_are_passed_on() {
    let device = std::io::Error::new(std::io::ErrorKind::BrokenPipe, "gone");
    let e: std::io::Error = convert(FrameError::Device(device));
    assert_eq!(e.kind(), std::io::ErrorKind::BrokenPipe);
    assert_eq!(e.to_string(), "gone");
}

struct Wrapped(std::io::Error);

impl From<std::io::Error> for Wrapped {
    fn from(e: std::io::Error) -> Wrapped {
        Wrapped(e)
    }
}

#[test]
fn errors_take_the_type_of_the_codec() {
    let e: Wrapped = convert(FrameError::Fault(Fault::BytesRemaining));
    assert_eq!(e.0.to_string(), "bytes remaining on stream");
}
