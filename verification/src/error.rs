//! What can go wrong between a device and a codec.

use vstd::prelude::*;
use vstd::string::*;

use crate::sizing::VIRTIO_NET_HDR_LEN;

verus! {

/// The error type of the standard library's I/O functions, as an opaque type.
#[verifier::external_type_specification]
#[verifier::external_body]
pub struct ExIoError(std::io::Error);

/// The two kinds of I/O error that framing itself gives rise to.
#[derive(Clone, Copy, Debug, PartialEq, Eq, Structural)]
pub enum FaultKind {
    Other,
    InvalidData,
}

/// A fault found while framing, as opposed to one that the device reports.
#[derive(Clone, Copy, Debug, PartialEq, Eq, Structural)]
pub enum Fault {
    /// The decoder left bytes of a packet behind and made no frame of them.
    BytesRemaining,
    /// With offload, the device delivered no more than a header: `len` bytes.
    PacketTooShort { len: usize },
    /// The device claims to have written more bytes than it had room for.
    DeviceOverrun,
}

/// Why a frame could not be read or written.
#[derive(Debug)]
pub enum FrameError {
    /// Framing failed.
    Fault(Fault),
    /// The device failed, with this error.
    Device(std::io::Error),
}

/// The decimal digit `d` as a character.
pub open spec fn digit(d: nat) -> char {
    (('0' as nat) + d) as char
}

/// `n` in decimal, without leading zeros.
pub open spec fn decimal(n: nat) -> Seq<char>
    decreases n,
{
    if n < 10 {
        seq![digit(n)]
    } else {
        decimal(n / 10).push(digit(n % 10))
    }
}

/// One decimal digit as text.
fn digit_text(d: usize) -> (s: &'static str)
    requires
        d < 10,
    ensures
        s@ == seq![digit(d as nat)],
{
    proof {
        reveal_strlit("0");
        reveal_strlit("1");
        reveal_strlit("2");
        reveal_strlit("3");
        reveal_strlit("4");
        reveal_strlit("5");
        reveal_strlit("6");
        reveal_strlit("7");
        reveal_strlit("8");
        reveal_strlit("9");
    }
    match d {
        0 => "0",
        1 => "1",
        2 => "2",
        3 => "3",
        4 => "4",
        5 => "5",
        6 => "6",
        7 => "7",
        8 => "8",
        _ => "9",
    }
}

/// `n` in decimal.
fn decimal_text(n: usize) -> (s: String)
    ensures
        s@ == decimal(n as nat),
    decreases n,
{
    if n < 10 {
        digit_text(n).to_owned()
    } else {
        let mut s = decimal_text(n / 10);
        s.append(digit_text(n % 10));
        proof {
            assert(s@ =~= decimal(n as nat));
        }
        s
    }
}

impl Fault {
    /// The kind of I/O error that the fault is reported as.
    pub open spec fn spec_kind(self) -> FaultKind {
        match self {
            Fault::DeviceOverrun => FaultKind::InvalidData,
            _ => FaultKind::Other,
        }
    }

    /// The text that the fault is reported with.
    pub open spec fn spec_message(self) -> Seq<char> {
        match self {
            Fault::BytesRemaining => "bytes remaining on stream"@,
            Fault::PacketTooShort { len } => "length of packet ("@ + decimal(len as nat)
                + ") <= VIRTIO_NET_HDR_LEN ("@ + decimal(VIRTIO_NET_HDR_LEN as nat) + ")"@,
            Fault::DeviceOverrun => "device initialized more bytes than available buffer space"@,
        }
    }

    /// The kind of I/O error that the fault is reported as.
    pub fn kind(&self) -> (kind: FaultKind)
        ensures
            kind == self.spec_kind(),
    {
        match self {
            Fault::DeviceOverrun => FaultKind::InvalidData,
            _ => FaultKind::Other,
        }
    }

    /// The text that the fault is reported with.
    pub fn message(&self) -> (text: String)
        ensures
            text@ == self.spec_message(),
    {
        match self {
            Fault::BytesRemaining => "bytes remaining on stream".to_owned(),
            Fault::PacketTooShort { len } => {
                let mut text = "length of packet (".to_owned();
                text.append(decimal_text(*len).as_str());
                text.append(") <= VIRTIO_NET_HDR_LEN (");
                text.append(decimal_text(VIRTIO_NET_HDR_LEN).as_str());
                text.append(")");
                text
            },
            Fault::DeviceOverrun => "device initialized more bytes than available buffer space".to_owned(),
        }
    }
}

/// The I/O error that `std::io::Error::new` makes of a kind and a text.
pub uninterp spec fn io_error(kind: FaultKind, message: Seq<char>) -> std::io::Error;

/// `std::io::Error::new`: an error of the given kind that carries the given text. The
/// same kind and text give an error that is the same in every respect that an
/// `std::io::Error` shows.
#[verifier::external_body]
fn new_io_error(kind: FaultKind, message: String) -> (e: std::io::Error)
    ensures
        e == io_error(kind, message@),
{
    let kind = match kind {
        FaultKind::Other => std::io::ErrorKind::Other,
        FaultKind::InvalidData => std::io::ErrorKind::InvalidData,
    };
    std::io::Error::new(kind, message)
}

impl FrameError {
    /// The I/O error that stands for this one: a device's own, or for a fault one of its
    /// kind with its text.
    pub open spec fn spec_io_error(self) -> std::io::Error {
        match self {
            FrameError::Fault(fault) => io_error(fault.spec_kind(), fault.spec_message()),
            FrameError::Device(e) => e,
        }
    }

    /// The I/O error that stands for this one.
    pub fn into_io_error(self) -> (e: std::io::Error)
        ensures
            e == self.spec_io_error(),
    {
        match self {
            FrameError::Fault(fault) => new_io_error(fault.kind(), fault.message()),
            FrameError::Device(e) => e,
        }
    }
}

/// `From` of a type for itself returns its argument unchanged.
pub assume_specification<A>[ <A as std::convert::From<A>>::from ](t: A) -> (r: A)
    ensures
        r == t,
;

/// `e` is what the error type of a codec makes of `err`.
pub open spec fn converted<E: From<std::io::Error>>(e: E, err: FrameError) -> bool {
    call_ensures(E::from, (err.spec_io_error(),), e)
}

/// Makes an error of the codec's type.
pub fn convert<E: From<std::io::Error>>(err: FrameError) -> (e: E)
    ensures
        converted(e, err),
{
    err.into_io_error().into()
}

} // verus!
