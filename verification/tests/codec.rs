use bytes::{Bytes, BytesMut};
use tun_framed::codec::{eof_outcome, BytesCodec, Decoder, Encoder};

/// Two bytes make a frame; a frame that starts with 255 is an error.
struct Pairs;

impl Decoder for Pairs {
    type Item = (u8, u8);
    type Error = std::io::Error;

    fn decode(&mut self, src: &mut BytesMut) -> Result<Option<(u8, u8)>, std::io::Error> {
        if src.len() < 2 {
            return Ok(None);
        }
        let pair = src.split_to(2);
        if pair[0] == 255 {
            return Err(std::io::Error::new(
                std::io::ErrorKind::InvalidInput,
                "bad pair",
            ));
        }
        Ok(Some((pair[0], pair[1])))
    }
}

/// Like `Pairs`, but a single byte at the end of the data is a frame too.
struct PaddedPairs;

impl Decoder for PaddedPairs {
    type Item = (u8, u8);
    type Error = std::io::Error;

    fn decode(&mut self, src: &mut BytesMut) -> Result<Option<(u8, u8)>, std::io::Error> {
        Pairs.decode(src)
    }

    fn decode_eof(&mut self, buf: &mut BytesMut) -> Result<Option<(u8, u8)>, std::io::Error> {
        if buf.len() == 1 {
            let last = buf.split_to(1);
            return Ok(Some((last[0], 0)));
        }
        self.decode(buf)
    }
}

/// Calls through the trait, whatever the decoder is.
fn eof<D: Decoder>(mut decoder: D, buf: &mut BytesMut) -> Result<Option<D::Item>, D::Error> {
    decoder.decode_eof(buf)
}

#[test]
fn provided_decode_eof_rejects_leftover_bytes() {
    let mut buf = BytesMut::from(&[7u8][..]);
    let e = Pairs.decode_eof(&mut buf).unwrap_err();
    assert_eq!(e.kind(), std::io::ErrorKind::Other);
    assert_eq!(e.to_string(), "bytes remaining on stream");
    assert_eq!(&buf[..], &[7]);
}

#[test]
fn provided_decode_eof_passes_frames_and_errors_on() {
    let mut buf = BytesMut::from(&[1u8, 2, 3][..]);
    assert_eq!(Pairs.decode_eof(&mut buf).unwrap(), Some((1, 2)));
    assert_eq!(&buf[..], &[3]);

    let mut buf = BytesMut::from(&[255u8, 2][..]);
    let e = Pairs.decode_eof(&mut buf).unwrap_err();
    assert_eq!(e.kind(), std::io::ErrorKind::InvalidInput);

    let mut buf = BytesMut::new();
    assert_eq!(Pairs.decode_eof(&mut buf).unwrap(), None);
}

#[test]
fn eof_outcome_depends_on_what_is_left() {
    let none: Result<Option<u8>, std::io::Error> = eof_outcome(Ok(None), true);
    assert!(matches!(none, Ok(None)));
    let frame: Result<Option<u8>, std::io::Error> = eof_outcome(Ok(Some(5)), false);
    assert!(matches!(frame, Ok(Some(5))));
    let left: Result<Option<u8>, std::io::Error> = eof_outcome(Ok(None), false);
    assert_eq!(left.unwrap_err().to_string(), "bytes remaining on stream");
}

#[test]
fn overridden_decode_eof_is_used_unless_borrowed() {
    let mut buf = BytesMut::from(&[9u8][..]);
    assert_eq!(eof(PaddedPairs, &mut buf).unwrap(), Some((9, 0)));

    let mut decoder = PaddedPairs;
    let mut buf = BytesMut::from(&[9u8][..]);
    assert!(eof(&mut decoder, &mut buf).is_err());

    let mut buf = BytesMut::from(&[4u8, 5][..]);
    assert_eq!(eof(&mut decoder, &mut buf).unwrap(), Some((4, 5)));
}

#[test]
fn bytes_codec_round_trip() {
    let mut codec = BytesCodec::new();
    let mut buf = BytesMut::new();
    codec
        .encode(Bytes::from_static(b"hello"), &mut buf)
        .unwrap();
    assert_eq!(&buf[..], b"hello");
    let frame = codec.decode(&mut buf).unwrap().unwrap();
    assert_eq!(&frame[..], b"hello");
    assert!(buf.is_empty());
    assert!(codec.decode(&mut buf).unwrap().is_none());
}

#[test]
fn bytes_codec_appends() {
    let mut codec = BytesCodec::new();
    let mut buf = BytesMut::from(&b"ab"[..]);
    codec.encode(Bytes::from_static(b"cd"), &mut buf).unwrap();
    codec
        .encode(BytesMut::from(&b"ef"[..]), &mut buf)
        .unwrap();
    codec.encode(Bytes::new(), &mut buf).unwrap();
    assert_eq!(&buf[..], b"abcdef");
}

#[test]
fn bytes_codec_round_trip_of_growable_buffers() {
    let mut codec = BytesCodec::default();
    let mut buf = BytesMut::new();
    codec
        .encode(BytesMut::from(&b"world"[..]), &mut buf)
        .unwrap();
    let frame = codec.decode_eof(&mut buf).unwrap().unwrap();
    assert_eq!(&frame[..], b"world");
}

#[test]
fn borrowed_encoder_encodes_alike() {
    let mut codec = BytesCodec::new();
    let mut buf = BytesMut::new();
    let mut borrowed = &mut codec;
    Encoder::encode(&mut borrowed, Bytes::from_static(b"xyz"), &mut buf).unwrap();
    assert_eq!(&buf[..], b"xyz");
}

#[test]
fn bytes_codecs_are_equal() {
    assert_eq!(BytesCodec::new(), BytesCodec::default());
}
