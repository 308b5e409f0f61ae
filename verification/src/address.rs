//! Network addresses as plain values.
//!
//! The analysis pipeline works on addresses held as their numeric components:
//! an IPv4 address as four octets, an IPv6 address as eight 16-bit groups.
//! Interface addresses carry the optional netmask and broadcast address that
//! the sniffing device reports for them.

use vstd::prelude::*;

verus! {

/// An IPv4 address as four octets.
#[derive(Clone, Copy, Debug, Hash, PartialEq, Eq, Structural)]
pub struct Ipv4Address {
    pub o0: u8,
    pub o1: u8,
    pub o2: u8,
    pub o3: u8,
}

/// An IPv6 address as eight 16-bit groups.
#[derive(Clone, Copy, Debug, Hash, PartialEq, Eq, Structural)]
pub struct Ipv6Address {
    pub g0: u16,
    pub g1: u16,
    pub g2: u16,
    pub g3: u16,
    pub g4: u16,
    pub g5: u16,
    pub g6: u16,
    pub g7: u16,
}

/// An IPv4 or IPv6 address.
#[derive(Clone, Copy, Debug, Hash, PartialEq, Eq, Structural)]
pub enum IpAddress {
    V4(Ipv4Address),
    V6(Ipv6Address),
}

impl Ipv4Address {
    /// The four octets, most significant first.
    pub open spec fn octets(self) -> Seq<u8> {
        seq![self.o0, self.o1, self.o2, self.o3]
    }

    /// Builds an IPv4 address from its four octets, most significant first.
    pub fn from_octets(o: &[u8; 4]) -> (r: Ipv4Address)
        ensures
            r == spec_ipv4_from_octets(o@),
    {
        Ipv4Address { o0: o[0], o1: o[1], o2: o[2], o3: o[3] }
    }
}

impl Ipv6Address {
    /// The eight groups, most significant first.
    pub open spec fn groups(self) -> Seq<u16> {
        seq![self.g0, self.g1, self.g2, self.g3, self.g4, self.g5, self.g6, self.g7]
    }

    /// Builds an IPv6 address from its sixteen octets, most significant first.
    pub fn from_octets(o: &[u8; 16]) -> (r: Ipv6Address)
        ensures
            r == spec_ipv6_from_octets(o@),
    {
        Ipv6Address {
            g0: o[0] as u16 * 256 + o[1] as u16,
            g1: o[2] as u16 * 256 + o[3] as u16,
            g2: o[4] as u16 * 256 + o[5] as u16,
            g3: o[6] as u16 * 256 + o[7] as u16,
            g4: o[8] as u16 * 256 + o[9] as u16,
            g5: o[10] as u16 * 256 + o[11] as u16,
            g6: o[12] as u16 * 256 + o[13] as u16,
            g7: o[14] as u16 * 256 + o[15] as u16,
        }
    }
}

/// The IPv4 address denoted by four octets, most significant first.
pub open spec fn spec_ipv4_from_octets(o: Seq<u8>) -> Ipv4Address
    recommends
        o.len() == 4,
{
    Ipv4Address { o0: o[0], o1: o[1], o2: o[2], o3: o[3] }
}

/// The IPv6 address denoted by sixteen octets, most significant first.
pub open spec fn spec_ipv6_from_octets(o: Seq<u8>) -> Ipv6Address
    recommends
        o.len() == 16,
{
    Ipv6Address {
        g0: (o[0] * 256 + o[1]) as u16,
        g1: (o[2] * 256 + o[3]) as u16,
        g2: (o[4] * 256 + o[5]) as u16,
        g3: (o[6] * 256 + o[7]) as u16,
        g4: (o[8] * 256 + o[9]) as u16,
        g5: (o[10] * 256 + o[11]) as u16,
        g6: (o[12] * 256 + o[13]) as u16,
        g7: (o[14] * 256 + o[15]) as u16,
    }
}

impl IpAddress {
    /// Builds an IPv4 address value from its four octets.
    pub fn v4(o0: u8, o1: u8, o2: u8, o3: u8) -> (r: IpAddress)
        ensures
            r == IpAddress::V4(Ipv4Address { o0, o1, o2, o3 }),
    {
        IpAddress::V4(Ipv4Address { o0, o1, o2, o3 })
    }

    /// Builds an IPv6 address value from its eight groups.
    #[allow(clippy::too_many_arguments)]
    pub fn v6(g0: u16, g1: u16, g2: u16, g3: u16, g4: u16, g5: u16, g6: u16, g7: u16) -> (r:
        IpAddress)
        ensures
            r == IpAddress::V6(Ipv6Address { g0, g1, g2, g3, g4, g5, g6, g7 }),
    {
        IpAddress::V6(Ipv6Address { g0, g1, g2, g3, g4, g5, g6, g7 })
    }

}

/// The all-zero IPv4 address, reported as source while an interface has no
/// address assigned yet.
pub open spec fn spec_unspecified_v4() -> IpAddress {
    IpAddress::V4(Ipv4Address { o0: 0, o1: 0, o2: 0, o3: 0 })
}

/// The limited-broadcast IPv4 address.
pub open spec fn spec_broadcast_v4() -> IpAddress {
    IpAddress::V4(Ipv4Address { o0: 255, o1: 255, o2: 255, o3: 255 })
}

/// One address of the sniffing interface, with the netmask and the directed
/// broadcast address configured for it, where the device reports them.
#[derive(Clone, Copy, Debug, Hash, PartialEq, Eq, Structural)]
pub struct InterfaceAddress {
    pub addr: IpAddress,
    pub netmask: Option<IpAddress>,
    pub broadcast_addr: Option<IpAddress>,
}

impl InterfaceAddress {
    pub fn new(addr: IpAddress, netmask: Option<IpAddress>, broadcast_addr: Option<IpAddress>) -> (r:
        InterfaceAddress)
        ensures
            r == (InterfaceAddress { addr, netmask, broadcast_addr }),
    {
        InterfaceAddress { addr, netmask, broadcast_addr }
    }
}

/// Whether one of the interface's addresses is exactly `addr`.
pub open spec fn spec_is_my_address(addr: IpAddress, ifaces: Seq<InterfaceAddress>) -> bool {
    exists|i: int| 0 <= i < ifaces.len() && ifaces[i].addr == addr
}

/// Whether `addr` is among the interface's own addresses.
pub fn contains_address(ifaces: &Vec<InterfaceAddress>, addr: &IpAddress) -> (r: bool)
    ensures
        r == spec_is_my_address(*addr, ifaces@),
{
    let n = ifaces.len();
    for i in 0..n
        invariant
            n == ifaces.len(),
            forall|j: int| 0 <= j < i ==> ifaces[j].addr != *addr,
    {
        if ifaces[i].addr == *addr {
            return true;
        }
    }
    false
}

} // verus!
