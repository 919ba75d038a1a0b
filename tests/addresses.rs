use proxy_utils::addr::{V4Addr, V6Addr};

fn v6(first: [u8; 4], last: u8) -> V6Addr {
    let mut o = [0u8; 16];
    o[..4].copy_from_slice(&first);
    o[15] = last;
    V6Addr { octets: o }
}

#[test]
fn v4_usability() {
    assert!(!V4Addr { octets: [127, 0, 0, 1] }.is_usable_outbound());
    assert!(!V4Addr { octets: [169, 254, 1, 1] }.is_usable_outbound());
    assert!(!V4Addr { octets: [0, 0, 0, 0] }.is_usable_outbound());
    assert!(V4Addr { octets: [192, 168, 0, 1] }.is_usable_outbound());
}

#[test]
fn v6_classification() {
    assert!(v6([0x24, 0, 0xcb, 0], 1).is_unicast_global());
    assert!(!v6([0xfd, 0, 0, 0], 1).is_global());
    assert!(!v6([0xfe, 0x80, 0, 0], 1).is_global());
    assert!(!v6([0x20, 0x01, 0x0d, 0xb8], 1).is_global());
    assert!(!v6([0, 0, 0, 0], 1).is_global());
    assert!(v6([0, 0, 0, 0], 1).is_loopback());
    assert!(!v6([0, 0, 0, 0], 0).is_usable_outbound());
    assert!(v6([0xff, 0x0e, 0, 0], 1).is_global());
    assert!(!v6([0xff, 0x0e, 0, 0], 1).is_unicast_global());
    assert!(!v6([0xff, 0x02, 0, 0], 1).is_global());
}
