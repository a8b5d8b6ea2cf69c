//! The multicast group on which kiosks listen for their server.

use vstd::prelude::*;

use crate::config::IpVersion;

verus! {

/// The port of the multicast group.
pub const PORT: u16 = 7645;

/// A multicast group address: four octets for IPv4, eight segments for
/// IPv6.
#[derive(Clone, Copy, Debug, PartialEq, Eq)]
pub enum MulticastGroup {
    V4([u8; 4]),
    V6([u16; 8]),
}

/// The IPv4 group, 224.0.0.69.
pub open spec fn ipv4_octets() -> Seq<u8> {
    seq![224u8, 0u8, 0u8, 69u8]
}

/// The IPv6 group, ff02::123.
pub open spec fn ipv6_segments() -> Seq<u16> {
    seq![0xff02u16, 0u16, 0u16, 0u16, 0u16, 0u16, 0u16, 0x0123u16]
}

/// What the address of a group is, as octets or segments.
pub open spec fn is_group(g: MulticastGroup, version: IpVersion) -> bool {
    match version {
        IpVersion::V4 => g matches MulticastGroup::V4(o) && o@ == ipv4_octets(),
        IpVersion::V6 => g matches MulticastGroup::V6(s) && s@ == ipv6_segments(),
    }
}

/// An IPv4 address is multicast where its first octet lies in 224..=239; an
/// IPv6 address is where its first segment starts with the byte 0xff.
pub open spec fn multicast_address(g: MulticastGroup) -> bool {
    match g {
        MulticastGroup::V4(o) => 224 <= o@[0] <= 239,
        MulticastGroup::V6(s) => s@[0] & 0xff00u16 == 0xff00u16,
    }
}

/// The IPv4 multicast group.
pub fn ipv4_group() -> (g: MulticastGroup)
    ensures
        is_group(g, IpVersion::V4),
{
    let o: [u8; 4] = [224, 0, 0, 69];
    assert(o@ =~= ipv4_octets());
    MulticastGroup::V4(o)
}

/// The IPv6 multicast group.
pub fn ipv6_group() -> (g: MulticastGroup)
    ensures
        is_group(g, IpVersion::V6),
{
    let s: [u16; 8] = [0xff02, 0, 0, 0, 0, 0, 0, 0x0123];
    assert(s@ =~= ipv6_segments());
    MulticastGroup::V6(s)
}

/// The group the listener joins for an IP version.
pub fn multicast_group(version: IpVersion) -> (g: MulticastGroup)
    ensures
        is_group(g, version),
{
    match version {
        IpVersion::V4 => ipv4_group(),
        IpVersion::V6 => ipv6_group(),
    }
}

impl MulticastGroup {
    /// Whether the group's address is an IPv4 address; the listener opens an
    /// IPv4 socket for it, and an IPv6 socket otherwise.
    pub fn is_ipv4(&self) -> (b: bool)
        ensures
            b == (*self is V4),
    {
        match self {
            MulticastGroup::V4(_) => true,
            MulticastGroup::V6(_) => false,
        }
    }

    /// Whether the group's address is a multicast address.
    pub fn is_multicast(&self) -> (b: bool)
        ensures
            b == multicast_address(*self),
    {
        match self {
            MulticastGroup::V4(o) => 224 <= o[0] && o[0] <= 239,
            MulticastGroup::V6(s) => s[0] & 0xff00 == 0xff00,
        }
    }
}

/// Both groups that the listener may join are multicast groups.
pub proof fn lemma_groups_are_multicast(g: MulticastGroup, version: IpVersion)
    requires
        is_group(g, version),
    ensures
        multicast_address(g),
{
    match version {
        IpVersion::V4 => {},
        IpVersion::V6 => {
            assert(0xff02u16 & 0xff00u16 == 0xff00u16) by (bit_vector);
        },
    }
}

} // verus!
