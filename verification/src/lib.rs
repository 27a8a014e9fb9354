//! Framed packet I/O over a TUN/TAP device.
//!
//! A raw device moves one packet per call. This library turns such a device into
//! a stream and a sink of frames: a [`codec::Decoder`] makes frames of the packets
//! that come in, a [`codec::Encoder`] makes packets of the frames that go out. With
//! segmentation offload, one large read is split into many packets and many small
//! packets are coalesced into a few large writes.
//!
//! Nothing here touches a device. The reading side ([`read`]) and the writing side
//! ([`write`]) are state machines: each step says what the device has to do next,
//! and the caller reports back what the device did. [`framed`] puts both sides
//! together with a device handle and a codec.

pub mod buffer;
pub mod error;
pub mod sizing;
pub mod codec;
pub mod splitter;
pub mod arena;
pub mod read;
pub mod write;
pub mod framed;
pub mod laws;
