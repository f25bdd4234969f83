use agent_pull::addr::{IpAddress, IpNetwork};
use agent_pull::allowlist::{is_addr_allowed, AllowRule};

fn v4_text(bits: u32) -> String {
    let o = bits.to_be_bytes();
    format!("{}.{}.{}.{}", o[0], o[1], o[2], o[3])
}

fn v6_text(bits: u128) -> String {
    let o = bits.to_be_bytes();
    let groups: Vec<String> =
        (0..8).map(|i| format!("{:x}", u16::from_be_bytes([o[2 * i], o[2 * i + 1]]))).collect();
    groups.join(":")
}

/// Whether `ipnet` itself finds the host inside the network.
fn ipnet_contains(net: &str, host: &str) -> bool {
    let net = net.parse::<ipnet::IpNet>().unwrap();
    let host = host.parse::<ipnet::IpNet>().unwrap();
    net.contains(&host)
}

#[test]
fn contains_is_the_range_from_network_to_broadcast() {
    let net = IpNetwork::V4 { addr: 0xc0a8_010e, prefix_len: 24 };
    assert!(!net.contains(&IpAddress::V4(0xc0a8_00ff)));
    assert!(net.contains(&IpAddress::V4(0xc0a8_0100)));
    assert!(net.contains(&IpAddress::V4(0xc0a8_010e)));
    assert!(net.contains(&IpAddress::V4(0xc0a8_01ff)));
    assert!(!net.contains(&IpAddress::V4(0xc0a8_0200)));
}

#[test]
fn contains_with_the_shortest_and_longest_prefixes() {
    let all = IpNetwork::V4 { addr: 0x0a00_0001, prefix_len: 0 };
    assert!(all.contains(&IpAddress::V4(0)));
    assert!(all.contains(&IpAddress::V4(u32::MAX)));
    let host = IpNetwork::V4 { addr: 0x0a00_0001, prefix_len: 32 };
    assert!(host.contains(&IpAddress::V4(0x0a00_0001)));
    assert!(!host.contains(&IpAddress::V4(0x0a00_0000)));
    assert!(!host.contains(&IpAddress::V4(0x0a00_0002)));
    let all6 = IpNetwork::V6 { addr: 1, prefix_len: 0 };
    assert!(all6.contains(&IpAddress::V6(0)));
    assert!(all6.contains(&IpAddress::V6(u128::MAX)));
    let host6 = IpNetwork::V6 { addr: 1, prefix_len: 128 };
    assert!(host6.contains(&IpAddress::V6(1)));
    assert!(!host6.contains(&IpAddress::V6(0)));
    assert!(!host6.contains(&IpAddress::V6(2)));
}

#[test]
fn contains_in_an_ipv6_network() {
    let net = IpNetwork::V6 { addr: 0xfd00u128 << 112, prefix_len: 17 };
    assert!(net.contains(&IpAddress::V6((0xfd00u128 << 112) | 1)));
    assert!(net.contains(&IpAddress::V6((0xfd00u128 << 112) | (0x7fffu128 << 96))));
    assert!(!net.contains(&IpAddress::V6((0xfd00u128 << 112) | (0x8000u128 << 96))));
    assert!(!net.contains(&IpAddress::V6((0xfd01u128 << 112) | 1)));
    assert!(!net.contains(&IpAddress::V6((0xfcffu128 << 112) | 1)));
}

#[test]
fn contains_never_crosses_families() {
    let net4 = IpNetwork::V4 { addr: 0, prefix_len: 0 };
    let net6 = IpNetwork::V6 { addr: 0, prefix_len: 0 };
    assert!(!net4.contains(&IpAddress::V6(0)));
    assert!(!net6.contains(&IpAddress::V4(0)));
}

#[test]
fn contains_agrees_with_ipnet_on_ipv4() {
    let nets: [(u32, u8); 6] = [
        (0xc0a8_010e, 24),
        (0x0a01_0000, 20),
        (0xac10_7b7b, 16),
        (0x7f00_0001, 32),
        (0x0102_0304, 0),
        (0xffff_ffff, 1),
    ];
    let hosts: [u32; 9] = [
        0,
        0x7f00_0001,
        0x7f00_0002,
        0xc0a8_0100,
        0xc0a8_01ff,
        0xc0a8_0200,
        0x0a01_0fff,
        0x0a01_1000,
        u32::MAX,
    ];
    for (addr, prefix_len) in nets {
        let text = format!("{}/{}", v4_text(addr), prefix_len);
        let rules = vec![AllowRule { text: text.clone(), exact: None }];
        for host in hosts {
            let expected = ipnet_contains(&text, &format!("{}/32", v4_text(host)));
            let net = IpNetwork::V4 { addr, prefix_len };
            assert_eq!(net.contains(&IpAddress::V4(host)), expected);
            assert_eq!(is_addr_allowed(&IpAddress::V4(host), &rules), expected);
        }
    }
}

#[test]
fn contains_agrees_with_ipnet_on_ipv6() {
    let nets: [(u128, u8); 5] = [
        (0xfd00u128 << 112, 17),
        (0xfe80u128 << 112, 10),
        (1, 128),
        (0x2001_0db8u128 << 96, 0),
        ((0xfd00_1234_5678u128 << 80) | 0xff, 24),
    ];
    let hosts: [u128; 8] = [
        0,
        1,
        2,
        (0xfd00u128 << 112) | 1,
        (0xfd00u128 << 112) | (0x8000u128 << 96),
        (0xfe80u128 << 112) | 1,
        (0xfec0u128 << 112) | 1,
        u128::MAX,
    ];
    for (addr, prefix_len) in nets {
        let text = format!("{}/{}", v6_text(addr), prefix_len);
        let rules = vec![AllowRule { text: text.clone(), exact: None }];
        for host in hosts {
            let expected = ipnet_contains(&text, &format!("{}/128", v6_text(host)));
            let net = IpNetwork::V6 { addr, prefix_len };
            assert_eq!(net.contains(&IpAddress::V6(host)), expected);
            assert_eq!(is_addr_allowed(&IpAddress::V6(host), &rules), expected);
        }
    }
}

#[test]
fn a_prefix_longer_than_the_address_holds_nothing() {
    // Such a network is never read from a text, only built by hand.
    let odd = IpNetwork::V4 { addr: 7, prefix_len: 33 };
    assert!(!odd.contains(&IpAddress::V4(7)));
    assert!(!odd.contains(&IpAddress::V4(0)));
    let odd = IpNetwork::V6 { addr: 7, prefix_len: 129 };
    assert!(!odd.contains(&IpAddress::V6(7)));
    assert!(!odd.contains(&IpAddress::V6(u128::MAX)));
}
