//! What holds of faults and of the errors that they are reported as.

use vstd::prelude::*;

use crate::error::{convert, converted, decimal, digit, io_error, Fault, FaultKind, FrameError};

verus! {

/// The number that a text of decimal digits stands for.
pub open spec fn number(text: Seq<char>) -> nat
    decreases text.len(),
{
    if text.len() == 0 {
        0
    } else {
        (number(text.drop_last()) * 10 + (text.last() as nat - '0' as nat)) as nat
    }
}

/// A number in decimal is written with the digits from zero to nine alone, has no leading
/// zero unless it is zero, and reads as the number that was written.
pub proof fn decimal_reads_as_written(n: nat)
    ensures
        number(decimal(n)) == n,
        decimal(n).len() > 0,
        forall|i: int| 0 <= i < decimal(n).len() ==> '0' <= #[trigger] decimal(n)[i] <= '9',
        n > 0 ==> decimal(n)[0] != '0',
        n == 0 ==> decimal(n) == seq!['0'],
    decreases n,
{
    if n < 10 {
        assert(decimal(n).drop_last() =~= Seq::<char>::empty());
        assert(number(Seq::<char>::empty()) == 0);
        assert(digit(n) as nat == '0' as nat + n);
        assert(n == 0 ==> decimal(n) =~= seq!['0']);
    } else {
        decimal_reads_as_written(n / 10);
        assert(decimal(n).drop_last() =~= decimal(n / 10));
        assert(digit(n % 10) as nat == '0' as nat + n % 10);
        assert(decimal(n)[0] == decimal(n / 10)[0]);
        assert forall|i: int| 0 <= i < decimal(n).len() implies '0' <= #[trigger] decimal(
            n,
        )[i] <= '9' by {
            if i < decimal(n / 10).len() {
                assert(decimal(n)[i] == decimal(n / 10)[i]);
            }
        }
    }
}

/// Each fault is reported with its own kind and text; the text of a packet that is too short
/// tells its length.
pub proof fn faults_are_told_apart(len: usize)
    ensures
        Fault::BytesRemaining.spec_kind() == FaultKind::Other,
        (Fault::PacketTooShort { len }).spec_kind() == FaultKind::Other,
        Fault::DeviceOverrun.spec_kind() == FaultKind::InvalidData,
        Fault::BytesRemaining.spec_message() == "bytes remaining on stream"@,
        Fault::DeviceOverrun.spec_message()
            == "device initialized more bytes than available buffer space"@,
        (Fault::PacketTooShort { len }).spec_message() == "length of packet ("@ + decimal(
            len as nat,
        ) + ") <= VIRTIO_NET_HDR_LEN (10)"@,
{
    reveal_strlit(") <= VIRTIO_NET_HDR_LEN (10)");
    reveal_strlit(") <= VIRTIO_NET_HDR_LEN (");
    reveal_strlit(")");
    assert(decimal(10) =~= seq!['1', '0']) by {
        reveal_with_fuel(decimal, 2);
    }
    assert(Fault::PacketTooShort { len }.spec_message() =~= "length of packet ("@ + decimal(
        len as nat,
    ) + ") <= VIRTIO_NET_HDR_LEN (10)"@);
}

/// The kind and the text that a fault returns are those it is reported with.
pub proof fn fault_returns_its_kind_and_text(fault: Fault, kind: FaultKind, text: String)
    requires
        call_ensures(Fault::kind, (&fault,), kind),
        call_ensures(Fault::message, (&fault,), text),
    ensures
        kind == FaultKind::InvalidData <==> fault is DeviceOverrun,
        fault is BytesRemaining ==> text@ == "bytes remaining on stream"@,
        fault is DeviceOverrun ==> text@
            == "device initialized more bytes than available buffer space"@,
        fault matches Fault::PacketTooShort { len } ==> text@ == "length of packet ("@ + decimal(
            len as nat,
        ) + ") <= VIRTIO_NET_HDR_LEN (10)"@,
{
    if let Fault::PacketTooShort { len } = fault {
        faults_are_told_apart(len);
    }
}

/// Two packets that are too short give the same text only where they have the same length.
pub proof fn short_packets_are_told_apart(a: usize, b: usize)
    requires
        (Fault::PacketTooShort { len: a }).spec_message() == (Fault::PacketTooShort {
            len: b,
        }).spec_message(),
    ensures
        a == b,
{
    let (x, y) = (decimal(a as nat), decimal(b as nat));
    let head = "length of packet ("@;
    let tail = ") <= VIRTIO_NET_HDR_LEN (10)"@;
    faults_are_told_apart(a);
    faults_are_told_apart(b);
    decimal_reads_as_written(a as nat);
    decimal_reads_as_written(b as nat);
    assert((head + x + tail).len() == (head + y + tail).len());
    assert(x =~= (head + x + tail).subrange(head.len() as int, (head.len() + x.len()) as int));
    assert(y =~= (head + y + tail).subrange(head.len() as int, (head.len() + y.len()) as int));
}

/// Every error type sees a device's error as it is, and a fault as the I/O error of the
/// fault's kind and text: nothing else is converted.
pub proof fn errors_are_converted_from_their_own<E: From<std::io::Error>>(
    e: E,
    device: std::io::Error,
    len: usize,
)
    ensures
        converted(e, FrameError::Device(device)) <==> call_ensures(E::from, (device,), e),
        converted(e, FrameError::Fault(Fault::BytesRemaining)) <==> call_ensures(
            E::from,
            (io_error(FaultKind::Other, "bytes remaining on stream"@),),
            e,
        ),
        converted(e, FrameError::Fault(Fault::DeviceOverrun)) <==> call_ensures(
            E::from,
            (
                io_error(
                    FaultKind::InvalidData,
                    "device initialized more bytes than available buffer space"@,
                ),
            ),
            e,
        ),
        converted(e, FrameError::Fault(Fault::PacketTooShort { len })) <==> call_ensures(
            E::from,
            (
                io_error(
                    FaultKind::Other,
                    "length of packet ("@ + decimal(len as nat) + ") <= VIRTIO_NET_HDR_LEN (10)"@,
                ),
            ),
            e,
        ),
{
    faults_are_told_apart(len);
}

/// A device's error goes through unchanged, both as an I/O error and, where the codec's
/// error type is the I/O error, into that type.
pub proof fn device_errors_go_through(device: std::io::Error, e: std::io::Error)
    requires
        call_ensures(FrameError::into_io_error, (FrameError::Device(device),), e) || call_ensures(
            convert::<std::io::Error>,
            (FrameError::Device(device),),
            e,
        ),
    ensures
        e == device,
{
}

/// A fault becomes the I/O error of its kind and text in the same two ways.
pub proof fn faults_go_through(fault: Fault, e: std::io::Error)
    requires
        call_ensures(FrameError::into_io_error, (FrameError::Fault(fault),), e) || call_ensures(
            convert::<std::io::Error>,
            (FrameError::Fault(fault),),
            e,
        ),
    ensures
        fault is BytesRemaining ==> e == io_error(
            FaultKind::Other,
            "bytes remaining on stream"@,
        ),
        fault is DeviceOverrun ==> e == io_error(
            FaultKind::InvalidData,
            "device initialized more bytes than available buffer space"@,
        ),
        fault matches Fault::PacketTooShort { len } ==> e == io_error(
            FaultKind::Other,
            "length of packet ("@ + decimal(len as nat) + ") <= VIRTIO_NET_HDR_LEN (10)"@,
        ),
{
    if let Fault::PacketTooShort { len } = fault {
        faults_are_told_apart(len);
    }
}

} // verus!
