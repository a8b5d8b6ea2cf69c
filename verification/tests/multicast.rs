use slados::config::IpVersion;
use slados::multicast::{ipv4_group, ipv6_group, multicast_group, MulticastGroup, PORT};

#[test]
fn test_ipv4_multicast() {
    assert!(ipv4_group().is_multicast());
}

#[test]
fn test_ipv6_multicast() {
    assert!(ipv6_group().is_multicast());
}

#[test]
fn group_addresses() {
    assert_eq!(ipv4_group(), MulticastGroup::V4([224, 0, 0, 69]));
    assert_eq!(ipv6_group(), MulticastGroup::V6([0xff02, 0, 0, 0, 0, 0, 0, 0x0123]));
    assert_eq!(multicast_group(IpVersion::V4), ipv4_group());
    assert_eq!(multicast_group(IpVersion::V6), ipv6_group());
    assert_eq!(PORT, 7645);
}

#[test]
fn group_families() {
    assert!(ipv4_group().is_ipv4());
    assert!(!ipv6_group().is_ipv4());
}

#[test]
fn multicast_ranges() {
    for (first, expected) in [(0u8, false), (127, false), (223, false), (224, true), (230, true), (239, true), (240, false), (255, false)] {
        assert_eq!(MulticastGroup::V4([first, 1, 2, 3]).is_multicast(), expected);
    }
    for (first, expected) in [(0u16, false), (0xfe80, false), (0xff00, true), (0xff02, true), (0xffff, true), (0x2001, false)] {
        assert_eq!(MulticastGroup::V6([first, 0, 0, 0, 0, 0, 0, 1]).is_multicast(), expected);
    }
}
