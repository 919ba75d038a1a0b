use proxy_utils::addr::{IpAddr, V4Addr, V6Addr};
use proxy_utils::select::{
    get_outbound_interface, get_outbound_ip_from_interface, interface_priority, outbound_rank,
    NetIface,
};
use proxy_utils::text::contains_str;

fn v4(a: u8, b: u8, c: u8, d: u8) -> IpAddr {
    IpAddr::V4(V4Addr { octets: [a, b, c, d] })
}

fn v6_global() -> IpAddr {
    // 2400:cb00::1
    let mut o = [0u8; 16];
    o[0] = 0x24;
    o[1] = 0x00;
    o[2] = 0xcb;
    o[15] = 1;
    IpAddr::V6(V6Addr { octets: o })
}

fn v6_link_local() -> IpAddr {
    let mut o = [0u8; 16];
    o[0] = 0xfe;
    o[1] = 0x80;
    o[15] = 1;
    IpAddr::V6(V6Addr { octets: o })
}

fn v6_global_multicast() -> IpAddr {
    let mut o = [0u8; 16];
    o[0] = 0xff;
    o[1] = 0x0e;
    o[15] = 1;
    IpAddr::V6(V6Addr { octets: o })
}

fn iface(name: &str, addrs: Vec<IpAddr>, index: u32) -> NetIface {
    NetIface { name: name.to_string(), addrs, index }
}

#[test]
fn scenario_tun_excluded_and_v6_preferred() {
    let ifaces = vec![
        iface("tun0", vec![v4(198, 18, 0, 1)], 1),
        iface("wlan0", vec![v4(192, 168, 1, 5), v6_global()], 2),
        iface("eth0", vec![v4(10, 0, 0, 2)], 3),
    ];
    let o = get_outbound_interface(&ifaces).unwrap();
    assert_eq!(o.name, "wlan0");
    assert_eq!(o.index, 2);
    assert_eq!(o.addr_v4, Some(V4Addr { octets: [192, 168, 1, 5] }));
    assert!(o.addr_v6.is_some());
}

#[test]
fn scenario_ethernet_beats_wireless_on_tie() {
    let ifaces = vec![
        iface("wlan0", vec![v4(192, 168, 1, 5)], 1),
        iface("eth0", vec![v4(10, 0, 0, 2)], 2),
    ];
    let o = get_outbound_interface(&ifaces).unwrap();
    assert_eq!(o.name, "eth0");
}

#[test]
fn tun_never_selected_even_with_best_address() {
    let ifaces = vec![
        iface("utun3", vec![v4(10, 1, 1, 1), v6_global()], 1),
        iface("pdp_ip0", vec![v4(100, 64, 0, 1)], 2),
    ];
    let o = get_outbound_interface(&ifaces).unwrap();
    assert_eq!(o.name, "pdp_ip0");
    let only_tun = vec![iface("tun0", vec![v4(10, 1, 1, 1), v6_global()], 1)];
    assert!(get_outbound_interface(&only_tun).is_none());
}

#[test]
fn loopback_or_link_local_only_never_selected() {
    let ifaces = vec![
        iface("lo", vec![v4(127, 0, 0, 1)], 1),
        iface("eth1", vec![v4(169, 254, 3, 4), v6_link_local()], 2),
    ];
    assert!(get_outbound_interface(&ifaces).is_none());
    let more = vec![
        iface("eth1", vec![v4(169, 254, 3, 4)], 2),
        iface("foo0", vec![v4(8, 8, 8, 8)], 3),
    ];
    assert_eq!(get_outbound_interface(&more).unwrap().name, "foo0");
}

#[test]
fn empty_interface_list_gives_nothing() {
    assert!(get_outbound_interface(&vec![]).is_none());
}

#[test]
fn global_unicast_beats_global_multicast() {
    let ifaces = vec![
        iface("eth0", vec![v6_global_multicast()], 1),
        iface("wlan0", vec![v6_global()], 2),
    ];
    assert_eq!(get_outbound_interface(&ifaces).unwrap().name, "wlan0");
}

#[test]
fn equal_rank_keeps_first_listed() {
    let ifaces = vec![
        iface("foo0", vec![v4(1, 2, 3, 4)], 1),
        iface("bar0", vec![v4(5, 6, 7, 8)], 2),
    ];
    assert_eq!(get_outbound_interface(&ifaces).unwrap().name, "foo0");
}

#[test]
fn scan_keeps_first_pair_once_both_filled() {
    let i = iface(
        "eth0",
        vec![v4(127, 0, 0, 1), v4(10, 0, 0, 1), v4(10, 0, 0, 2), v6_global(), v4(10, 0, 0, 3)],
        1,
    );
    let (a4, a6) = get_outbound_ip_from_interface(&i);
    assert_eq!(a4, Some(V4Addr { octets: [10, 0, 0, 2] }));
    assert!(a6.is_some());
    let none = iface("x", vec![v4(0, 0, 0, 0), v6_link_local()], 1);
    assert_eq!(get_outbound_ip_from_interface(&none), (None, None));
}

#[test]
fn priority_and_rank_values() {
    assert_eq!(interface_priority("eth0"), 0);
    assert_eq!(interface_priority("en0"), 1);
    assert_eq!(interface_priority("wlan0"), 2);
    assert_eq!(interface_priority("pdp_ip0"), 3);
    assert_eq!(interface_priority("lo"), 4);
    let g = match v6_global() {
        IpAddr::V6(a) => a,
        IpAddr::V4(_) => unreachable!(),
    };
    assert_eq!(outbound_rank(&Some(g), "wlan0"), 2);
    assert_eq!(outbound_rank(&None, "wlan0"), 12);
}

#[test]
fn substring_search() {
    assert!(contains_str("utun4", "tun"));
    assert!(contains_str("abc", ""));
    assert!(!contains_str("tu", "tun"));
    assert!(!contains_str("eth0", "wlan"));
}
