//! Network capabilities: address and port ranges.

use alarm_mux::network_capabilities::{
    AddrRange, IPAddr, IpVisCap, NetCapCreateCap, NetworkCapability, PortRange, UdpVisCap,
};

struct TestTokens;

impl NetCapCreateCap for TestTokens {}

impl IpVisCap for TestTokens {}

impl UdpVisCap for TestTokens {}

fn addr(first: u8, second: u8) -> IPAddr {
    let mut bytes = [0u8; 16];
    bytes[0] = first;
    bytes[1] = second;
    IPAddr(bytes)
}

#[test]
fn addr_range_any_and_none() {
    let a = addr(1, 2);
    assert!(AddrRange::Any.is_addr_valid(a));
    assert!(!AddrRange::NoAddrs.is_addr_valid(a));
}

#[test]
fn addr_range_single_address() {
    let range = AddrRange::Addr(addr(10, 20));
    assert!(range.is_addr_valid(addr(10, 20)));
    assert!(!range.is_addr_valid(addr(10, 21)));
}

#[test]
fn addr_range_set_membership() {
    let set = [
        addr(1, 0),
        addr(2, 0),
        addr(3, 0),
        addr(4, 0),
        addr(5, 0),
        addr(6, 0),
        addr(7, 0),
        addr(8, 0),
    ];
    let range = AddrRange::AddrSet(set);
    assert!(range.is_addr_valid(addr(1, 0)));
    assert!(range.is_addr_valid(addr(8, 0)));
    assert!(!range.is_addr_valid(addr(9, 0)));
}

#[test]
fn subnet_constrains_only_whole_prefix_bytes() {
    // Prefix length 12: one whole byte, four remainder bits. The check
    // of the partial byte compares the permitted byte against itself, so
    // only byte 0 constrains the match.
    let range = AddrRange::Subnet(addr(0xAB, 0xC0), 12);
    assert!(range.is_addr_valid(addr(0xAB, 0xC5)));
    // Even an address differing inside the prefix's partial byte passes.
    assert!(range.is_addr_valid(addr(0xAB, 0x00)));
    // A mismatch in a whole prefix byte is rejected.
    assert!(!range.is_addr_valid(addr(0xAC, 0xC0)));
}

#[test]
fn port_ranges() {
    assert!(PortRange::Any.is_port_valid(123));
    assert!(!PortRange::NoPorts.is_port_valid(123));
    let range = PortRange::Range(4000, 4010);
    assert!(range.is_port_valid(4000));
    assert!(range.is_port_valid(4010));
    assert!(!range.is_port_valid(3999));
    assert!(!range.is_port_valid(4011));
    let single = PortRange::Port(7);
    assert!(single.is_port_valid(7));
    assert!(!single.is_port_valid(8));
    let set = PortRange::PortSet([1, 2, 3, 4, 5, 6, 7, 8]);
    assert!(set.is_port_valid(5));
    assert!(!set.is_port_valid(9));
}

#[test]
fn capability_checks_its_three_ranges() {
    let tokens = TestTokens;
    let cap = NetworkCapability::new(
        AddrRange::Addr(addr(9, 9)),
        PortRange::Range(100, 200),
        PortRange::Port(4000),
        &tokens,
    );
    assert!(cap.remote_addr_valid(addr(9, 9), &tokens));
    assert!(!cap.remote_addr_valid(addr(9, 8), &tokens));
    assert!(cap.remote_port_valid(150, &tokens));
    assert!(!cap.remote_port_valid(201, &tokens));
    assert!(cap.local_port_valid(4000, &tokens));
    assert!(!cap.local_port_valid(4001, &tokens));
    assert_eq!(cap.get_range(&tokens), AddrRange::Addr(addr(9, 9)));
    assert_eq!(cap.get_remote_ports(&tokens), PortRange::Range(100, 200));
    assert_eq!(cap.get_local_ports(&tokens), PortRange::Port(4000));
}
