//! How large the buffers for a device have to be.

use vstd::prelude::*;

verus! {

/// Bytes of an Ethernet header.
pub const ETHERNET_HEADER_LEN: usize = 14;

/// Bytes that one IEEE 802.1Q VLAN tag adds to an Ethernet header.
pub const VLAN_TAG_LEN: usize = 4;

/// Bytes by which a tagged Ethernet frame exceeds the payload that the MTU counts.
pub const FRAME_OVERHEAD: usize = ETHERNET_HEADER_LEN + VLAN_TAG_LEN;

/// The MTU taken where a device does not tell its own.
pub const DEFAULT_MTU: usize = 4096;

/// Bytes of the virtio-net header in front of every packet of an offloading device.
pub const VIRTIO_NET_HDR_LEN: usize = 10;

/// Most packets that one offloaded read is split into, and most packets that are
/// gathered before they are coalesced and written.
pub const IDEAL_BATCH_SIZE: usize = 128;

/// Room for the largest packet that an offloading device reads or writes.
pub const OFFLOAD_PACKET_LEN: usize = 65536;

/// What a device tells about itself when a framed device is made of it.
#[derive(Clone, Copy, Debug, PartialEq, Eq, Structural)]
pub struct DeviceProps {
    /// The MTU; `None` where the device could not tell or the platform has no way
    /// to ask.
    pub mtu: Option<u16>,
    /// The separate IPv6 MTU; `None` on platforms that have none, `Some(None)` where
    /// the device could not tell.
    pub mtu_v6: Option<Option<u16>>,
    /// Whether TCP segmentation offload is on.
    pub tcp_gso: bool,
}

/// The MTU, or the default where it is not known.
pub open spec fn mtu_or_default(mtu: Option<u16>) -> nat {
    match mtu {
        Some(m) => m as nat,
        None => DEFAULT_MTU as nat,
    }
}

/// The size of the buffers for a device: the larger of its MTUs, and on top of it
/// the header and VLAN tag of an Ethernet frame, which the MTU does not count.
pub open spec fn buffer_size(props: DeviceProps) -> nat {
    let v4 = mtu_or_default(props.mtu);
    let mtu = match props.mtu_v6 {
        Some(v6) => if mtu_or_default(v6) > v4 {
            mtu_or_default(v6)
        } else {
            v4
        },
        None => v4,
    };
    mtu + FRAME_OVERHEAD as nat
}

fn frame_len(mtu: Option<u16>) -> (len: usize)
    ensures
        len == mtu_or_default(mtu) + FRAME_OVERHEAD,
{
    match mtu {
        Some(m) => m as usize + FRAME_OVERHEAD,
        None => DEFAULT_MTU + FRAME_OVERHEAD,
    }
}

/// The size of the read and write buffers for a device.
///
/// The MTU covers the network-layer payload only. A TAP device delivers whole
/// Ethernet frames, so the header and a VLAN tag are always added; for a TUN device
/// this costs a few bytes.
pub fn compute_buffer_size(props: &DeviceProps) -> (size: usize)
    ensures
        size == buffer_size(*props),
        FRAME_OVERHEAD <= size <= u16::MAX + FRAME_OVERHEAD,
{
    let mtu: usize = frame_len(props.mtu);
    let mtu_v6: usize = match props.mtu_v6 {
        Some(v6) => frame_len(v6),
        None => 0,
    };
    if mtu_v6 > mtu {
        mtu_v6
    } else {
        mtu
    }
}

} // verus!
