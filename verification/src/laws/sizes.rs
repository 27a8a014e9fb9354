//! What holds of the sizes of the buffers.

use vstd::prelude::*;

use crate::sizing::{buffer_size, compute_buffer_size, DeviceProps};

verus! {

/// A device that tells its MTU gets buffers that hold a payload of that many bytes behind
/// an Ethernet header of fourteen bytes and a VLAN tag of four; where it has no separate
/// IPv6 MTU, they hold exactly that.
pub proof fn buffers_fit_the_mtu(props: DeviceProps, m: u16)
    requires
        props.mtu == Some(m),
    ensures
        buffer_size(props) >= m + 14 + 4,
        props.mtu_v6 is None ==> buffer_size(props) == m + 14 + 4,
{
}

/// The same of the IPv6 MTU: the buffers hold a tagged frame of it, and exactly that where
/// it is at least the other MTU.
pub proof fn buffers_fit_the_ipv6_mtu(props: DeviceProps, m: u16, v6: u16)
    requires
        props.mtu == Some(m),
        props.mtu_v6 == Some(Some(v6)),
    ensures
        buffer_size(props) >= v6 + 14 + 4,
        v6 >= m ==> buffer_size(props) == v6 + 14 + 4,
        v6 <= m ==> buffer_size(props) == m + 14 + 4,
{
}

/// A device that cannot tell an MTU is taken to have one of 4096 bytes in its place: the
/// buffers are as those of a device that tells this number.
pub proof fn unknown_mtu_counts_as_4096(props: DeviceProps)
    ensures
        props.mtu is None && props.mtu_v6 is None ==> buffer_size(props) == 4114,
        props.mtu is None ==> buffer_size(props) == buffer_size(
            DeviceProps { mtu: Some(4096), ..props },
        ),
        props.mtu_v6 == Some(None::<u16>) ==> buffer_size(props) == buffer_size(
            DeviceProps { mtu_v6: Some(Some(4096)), ..props },
        ),
{
}

/// The buffers are no larger than some MTU of the device asks for: eighteen bytes more than
/// one that it tells, or than 4096 where it cannot tell.
pub proof fn buffers_are_sized_after_an_mtu(props: DeviceProps)
    ensures
        ({
            let size = buffer_size(props);
            ||| props.mtu matches Some(m) && size == m + 18
            ||| props.mtu is None && size == 4096 + 18
            ||| props.mtu_v6 matches Some(Some(v6)) && size == v6 + 18
            ||| props.mtu_v6 == Some(None::<u16>) && size == 4096 + 18
        }),
        18 <= buffer_size(props) <= 65535 + 18,
{
}

/// A larger MTU never gives smaller buffers, one byte more of the only MTU gives one byte
/// more, and offload has no part in it.
pub proof fn buffers_grow_with_the_mtu(a: DeviceProps, b: DeviceProps, m: u16, n: u16)
    requires
        a.mtu == Some(m),
        b.mtu == Some(n),
        a.mtu_v6 == b.mtu_v6,
        m <= n,
    ensures
        buffer_size(a) <= buffer_size(b),
        a.mtu_v6 is None ==> buffer_size(b) - buffer_size(a) == n - m,
        m == n ==> buffer_size(a) == buffer_size(b),
{
}

/// The size that is computed is that of the device's largest MTU, an unknown one counted as
/// 4096, and eighteen bytes more.
pub proof fn computed_size_is_largest_mtu_and_18(props: DeviceProps, size: usize)
    requires
        call_ensures(compute_buffer_size, (&props,), size),
    ensures
        ({
            let v4 = match props.mtu {
                Some(m) => m as int,
                None => 4096,
            };
            let v6 = match props.mtu_v6 {
                Some(Some(m)) => m as int,
                Some(None) => 4096,
                None => 0,
            };
            &&& size >= v4 + 18
            &&& size >= v6 + 18
            &&& size == v4 + 18 || size == v6 + 18
        }),
{
}

} // verus!
