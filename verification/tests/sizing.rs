use tun_framed::sizing::{compute_buffer_size, DeviceProps};

fn size(mtu: Option<u16>, mtu_v6: Option<Option<u16>>) -> usize {
    compute_buffer_size(&DeviceProps {
        mtu,
        mtu_v6,
        tcp_gso: false,
    })
}

#[test]
fn tagged_ethernet_frame_fits() {
    assert_eq!(size(Some(1500), None), 1518);
    assert_eq!(size(Some(0), None), 18);
    assert_eq!(size(Some(u16::MAX), None), 65553);
}

#[test]
fn unknown_mtu_has_a_default() {
    assert_eq!(size(None, None), 4114);
}

#[test]
fn larger_mtu_counts() {
    assert_eq!(size(Some(1500), Some(Some(9000))), 9018);
    assert_eq!(size(Some(9000), Some(Some(1500))), 9018);
    assert_eq!(size(Some(1500), Some(None)), 4114);
    assert_eq!(size(None, Some(Some(1280))), 4114);
    assert_eq!(size(Some(9000), Some(None)), 9018);
}
