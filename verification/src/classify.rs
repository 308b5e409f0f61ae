//! Traffic classification: direction of a connection, kind of the remote
//! address (unicast, multicast, broadcast), loopback and local-subnet tests.
//!
//! Every function is a pure decision over an address and a snapshot of the
//! sniffing interface's address list, and is specified exactly by a spec
//! function of the same shape.

use vstd::prelude::*;

use crate::address::{
    contains_address, spec_is_my_address, InterfaceAddress, IpAddress, Ipv4Address, Ipv6Address,
    spec_broadcast_v4, spec_unspecified_v4,
};
use crate::protocols::{TrafficDirection, TrafficType};

verus! {

/// Whether the address is a loopback address: `127.0.0.0/8` or `::1`.
pub open spec fn spec_is_loopback(a: IpAddress) -> bool {
    match a {
        IpAddress::V4(v) => v.o0 == 127,
        IpAddress::V6(v) => v.g0 == 0 && v.g1 == 0 && v.g2 == 0 && v.g3 == 0 && v.g4 == 0 && v.g5
            == 0 && v.g6 == 0 && v.g7 == 1,
    }
}

/// Tells whether an address is a loopback address.
pub fn is_loopback(address: &IpAddress) -> (r: bool)
    ensures
        r == spec_is_loopback(*address),
{
    match address {
        IpAddress::V4(v) => v.o0 == 127,
        IpAddress::V6(v) => v.g0 == 0 && v.g1 == 0 && v.g2 == 0 && v.g3 == 0 && v.g4 == 0 && v.g5
            == 0 && v.g6 == 0 && v.g7 == 1,
    }
}

/// Whether the address is a multicast address: IPv4 first octet in 224..=239;
/// IPv6 canonical text beginning with `ff`, that is a first group whose
/// hexadecimal form begins with two `f` digits.
pub open spec fn spec_is_multicast(a: IpAddress) -> bool {
    match a {
        IpAddress::V4(v) => 224 <= v.o0 <= 239,
        IpAddress::V6(v) => v.g0 == 0xff || (0xff0 <= v.g0 <= 0xfff) || v.g0 >= 0xff00,
    }
}

/// Tells whether an address is a multicast address.
pub fn is_multicast_address(address: &IpAddress) -> (r: bool)
    ensures
        r == spec_is_multicast(*address),
{
    match address {
        IpAddress::V4(v) => 224 <= v.o0 && v.o0 <= 239,
        IpAddress::V6(v) => v.g0 == 0xff || (0xff0 <= v.g0 && v.g0 <= 0xfff) || v.g0 >= 0xff00,
    }
}

/// The directed broadcast address configured for one interface address, with
/// the limited broadcast address as fallback where none is configured.
pub open spec fn spec_broadcast_of(ia: InterfaceAddress) -> IpAddress {
    match ia.broadcast_addr {
        Option::Some(b) => b,
        Option::None => spec_broadcast_v4(),
    }
}

/// Whether the address is a broadcast address: the limited broadcast address
/// `255.255.255.255`, or the directed broadcast address of one of the
/// interface's addresses (with the limited broadcast address standing in for
/// interface addresses that have none configured).
pub open spec fn spec_is_broadcast(a: IpAddress, ifaces: Seq<InterfaceAddress>) -> bool {
    a == spec_broadcast_v4() || exists|i: int|
        0 <= i < ifaces.len() && spec_broadcast_of(ifaces[i]) == a
}

/// Tells whether an address is a broadcast address for the interface.
pub fn is_broadcast_address(address: &IpAddress, my_interface_addresses: &Vec<InterfaceAddress>) -> (r:
    bool)
    ensures
        r == spec_is_broadcast(*address, my_interface_addresses@),
{
    if *address == IpAddress::v4(255, 255, 255, 255) {
        return true;
    }
    // check if directed broadcast
    let n = my_interface_addresses.len();
    for i in 0..n
        invariant
            n == my_interface_addresses.len(),
            *address != spec_broadcast_v4(),
            forall|j: int| 0 <= j < i ==> spec_broadcast_of(my_interface_addresses[j]) != *address,
    {
        let bcast = match my_interface_addresses[i].broadcast_addr {
            Some(b) => b,
            None => IpAddress::v4(255, 255, 255, 255),
        };
        if bcast == *address {
            return true;
        }
    }
    false
}

/// Whether two IPv4 addresses fall in the same subnet under a netmask:
/// masking both with the netmask, octet by octet, yields equal prefixes.
pub open spec fn spec_same_subnet_v4(mask: Ipv4Address, x: Ipv4Address, y: Ipv4Address) -> bool {
    (x.o0 & mask.o0) == (y.o0 & mask.o0) && (x.o1 & mask.o1) == (y.o1 & mask.o1) && (x.o2 & mask.o2)
        == (y.o2 & mask.o2) && (x.o3 & mask.o3) == (y.o3 & mask.o3)
}

/// Whether two IPv6 addresses fall in the same subnet under a netmask, by the
/// same masked comparison, group by group.
pub open spec fn spec_same_subnet_v6(mask: Ipv6Address, x: Ipv6Address, y: Ipv6Address) -> bool {
    (x.g0 & mask.g0) == (y.g0 & mask.g0) && (x.g1 & mask.g1) == (y.g1 & mask.g1) && (x.g2 & mask.g2)
        == (y.g2 & mask.g2) && (x.g3 & mask.g3) == (y.g3 & mask.g3) && (x.g4 & mask.g4) == (y.g4
        & mask.g4) && (x.g5 & mask.g5) == (y.g5 & mask.g5) && (x.g6 & mask.g6) == (y.g6 & mask.g6)
        && (x.g7 & mask.g7) == (y.g7 & mask.g7)
}

/// Whether the address is link local: IPv4 `169.254.0.0/16`; IPv6 canonical
/// text beginning with `fe80`, that is a first group of exactly `0xfe80`.
pub open spec fn spec_is_link_local(a: IpAddress) -> bool {
    match a {
        IpAddress::V4(v) => v.o0 == 169 && v.o1 == 254,
        IpAddress::V6(v) => v.g0 == 0xfe80,
    }
}

/// Whether one interface address, of the same IP version as the candidate,
/// makes the candidate local: the candidate is link local, or the interface
/// address has a netmask of its version and both lie in the same subnet.
pub open spec fn spec_local_via(a: IpAddress, ia: InterfaceAddress) -> bool {
    match (a, ia.addr) {
        (IpAddress::V4(remote), IpAddress::V4(local)) => spec_is_link_local(a) || (
        match ia.netmask {
            Option::Some(IpAddress::V4(mask)) => spec_same_subnet_v4(mask, local, remote),
            _ => false,
        }),
        (IpAddress::V6(remote), IpAddress::V6(local)) => spec_is_link_local(a) || (
        match ia.netmask {
            Option::Some(IpAddress::V6(mask)) => spec_same_subnet_v6(mask, local, remote),
            _ => false,
        }),
        _ => false,
    }
}

/// Whether the connection to the address is local: some interface address of
/// the matching IP version vouches for it.
pub open spec fn spec_is_local(a: IpAddress, ifaces: Seq<InterfaceAddress>) -> bool {
    exists|i: int| 0 <= i < ifaces.len() && spec_local_via(a, ifaces[i])
}

/// Tells whether the connection to the given address is local: for at least
/// one interface address of the matching IP version, the address is link
/// local, or the interface's netmask puts both in the same subnet.
pub fn is_local_connection(address_to_lookup: &IpAddress, my_interface_addresses: &Vec<
    InterfaceAddress,
>) -> (r: bool)
    ensures
        r == spec_is_local(*address_to_lookup, my_interface_addresses@),
{
    let mut ret_val = false;
    let n = my_interface_addresses.len();
    for i in 0..n
        invariant
            n == my_interface_addresses.len(),
            ret_val == exists|j: int|
                0 <= j < i && spec_local_via(*address_to_lookup, my_interface_addresses[j]),
    {
        let ia = my_interface_addresses[i];
        let step = match (address_to_lookup, ia.addr) {
            (IpAddress::V4(remote), IpAddress::V4(local)) => {
                if remote.o0 == 169 && remote.o1 == 254 {
                    // remote is link local
                    true
                } else if let Some(IpAddress::V4(mask)) = ia.netmask {
                    // is it the same subnet?
                    (remote.o0 & mask.o0) == (local.o0 & mask.o0) && (remote.o1 & mask.o1) == (
                    local.o1 & mask.o1) && (remote.o2 & mask.o2) == (local.o2 & mask.o2) && (
                    remote.o3 & mask.o3) == (local.o3 & mask.o3)
                } else {
                    false
                }
            },
            (IpAddress::V6(remote), IpAddress::V6(local)) => {
                if remote.g0 == 0xfe80 {
                    // remote is link local
                    true
                } else if let Some(IpAddress::V6(mask)) = ia.netmask {
                    // is it the same subnet?
                    (remote.g0 & mask.g0) == (local.g0 & mask.g0) && (remote.g1 & mask.g1) == (
                    local.g1 & mask.g1) && (remote.g2 & mask.g2) == (local.g2 & mask.g2) && (
                    remote.g3 & mask.g3) == (local.g3 & mask.g3) && (remote.g4 & mask.g4) == (
                    local.g4 & mask.g4) && (remote.g5 & mask.g5) == (local.g5 & mask.g5) && (
                    remote.g6 & mask.g6) == (local.g6 & mask.g6) && (remote.g7 & mask.g7) == (
                    local.g7 & mask.g7)
                } else {
                    false
                }
            },
            _ => false,
        };
        if step {
            ret_val = true;
        }
    }
    ret_val
}

/// Tells whether the address is one of the interface's own addresses or a
/// loopback address.
pub fn is_my_address(local_address: &IpAddress, my_interface_addresses: &Vec<InterfaceAddress>) -> (r:
    bool)
    ensures
        r == (spec_is_my_address(*local_address, my_interface_addresses@) || spec_is_loopback(
            *local_address,
        )),
{
    if contains_address(my_interface_addresses, local_address) {
        return true;
    }
    is_loopback(local_address)
}

/// The direction of a connection, decided at its first packet:
/// - both ends loopback and both ports present: outgoing exactly when the
///   source port is the greater (a tie favours incoming);
/// - else outgoing when the source is one of the interface's addresses;
/// - else incoming when the source is not the unspecified IPv4 address;
/// - else outgoing exactly when the destination is not one of the interface's
///   addresses.
pub open spec fn spec_traffic_direction(
    source_ip: IpAddress,
    destination_ip: IpAddress,
    source_port: Option<u16>,
    dest_port: Option<u16>,
    ifaces: Seq<InterfaceAddress>,
) -> TrafficDirection {
    if spec_is_loopback(source_ip) && spec_is_loopback(destination_ip) && source_port is Some
        && dest_port is Some {
        if source_port->0 > dest_port->0 {
            TrafficDirection::Outgoing
        } else {
            TrafficDirection::Incoming
        }
    } else if spec_is_my_address(source_ip, ifaces) {
        TrafficDirection::Outgoing
    } else if source_ip != spec_unspecified_v4() {
        TrafficDirection::Incoming
    } else if !spec_is_my_address(destination_ip, ifaces) {
        TrafficDirection::Outgoing
    } else {
        TrafficDirection::Incoming
    }
}

/// Computes the traffic direction observed for a connection's first packet.
pub fn get_traffic_direction(
    source_ip: &IpAddress,
    destination_ip: &IpAddress,
    source_port: Option<u16>,
    dest_port: Option<u16>,
    my_interface_addresses: &Vec<InterfaceAddress>,
) -> (r: TrafficDirection)
    ensures
        r == spec_traffic_direction(
            *source_ip,
            *destination_ip,
            source_port,
            dest_port,
            my_interface_addresses@,
        ),
{
    // first let's handle TCP and UDP loopback
    if is_loopback(source_ip) && is_loopback(destination_ip) {
        if let (Some(sport), Some(dport)) = (source_port, dest_port) {
            return if sport > dport {
                TrafficDirection::Outgoing
            } else {
                TrafficDirection::Incoming
            };
        }
    }
    if contains_address(my_interface_addresses, source_ip) {
        // source is local
        TrafficDirection::Outgoing
    } else if *source_ip != IpAddress::v4(0, 0, 0, 0) {
        // source not local and different from the unspecified address
        TrafficDirection::Incoming
    } else if !contains_address(my_interface_addresses, destination_ip) {
        // source is unspecified (local not yet assigned an IP) and destination is not local
        TrafficDirection::Outgoing
    } else {
        TrafficDirection::Incoming
    }
}

/// The traffic type of the remote endpoint: meaningful for outgoing traffic
/// only (multicast, then broadcast, then unicast); incoming traffic is always
/// unicast.
pub open spec fn spec_traffic_type(
    destination_ip: IpAddress,
    ifaces: Seq<InterfaceAddress>,
    traffic_direction: TrafficDirection,
) -> TrafficType {
    if traffic_direction == TrafficDirection::Outgoing {
        if spec_is_multicast(destination_ip) {
            TrafficType::Multicast
        } else if spec_is_broadcast(destination_ip, ifaces) {
            TrafficType::Broadcast
        } else {
            TrafficType::Unicast
        }
    } else {
        TrafficType::Unicast
    }
}

/// Computes the traffic type observed for the remote host.
pub fn get_traffic_type(
    destination_ip: &IpAddress,
    my_interface_addresses: &Vec<InterfaceAddress>,
    traffic_direction: TrafficDirection,
) -> (r: TrafficType)
    ensures
        r == spec_traffic_type(*destination_ip, my_interface_addresses@, traffic_direction),
{
    if traffic_direction == TrafficDirection::Outgoing {
        if is_multicast_address(destination_ip) {
            TrafficType::Multicast
        } else if is_broadcast_address(destination_ip, my_interface_addresses) {
            TrafficType::Broadcast
        } else {
            TrafficType::Unicast
        }
    } else {
        TrafficType::Unicast
    }
}

/// The limited broadcast address is broadcast for outgoing traffic and
/// unicast for incoming traffic, whatever the interface's address list.
pub proof fn lemma_limited_broadcast_traffic_type(ifaces: Seq<InterfaceAddress>)
    ensures
        spec_traffic_type(spec_broadcast_v4(), ifaces, TrafficDirection::Outgoing)
            == TrafficType::Broadcast,
        spec_traffic_type(spec_broadcast_v4(), ifaces, TrafficDirection::Incoming)
            == TrafficType::Unicast,
{
}

} // verus!
