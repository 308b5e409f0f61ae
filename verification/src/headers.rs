//! Analysis of one captured frame's decoded headers.
//!
//! The frame itself is decoded by the `etherparse` crate; the decoded headers
//! are opaque here, and small trusted extractors copy the fields the analysis
//! reads into plain records. Everything from those records on — the
//! connection key, the byte count, the ICMP kind, the filter-relevant fields
//! — is computed by verified functions with exact contracts.

use vstd::prelude::*;

use crate::address::{spec_ipv4_from_octets, spec_ipv6_from_octets, IpAddress, Ipv4Address,
    Ipv6Address};
use crate::protocols::{IcmpType, IcmpTypeV4, IcmpTypeV6, IpVersion, Protocol};
use crate::stats::{view_of_opt_string, AddressPortPair};
use crate::text::{mac_from_dec_to_hex, mac_text};

verus! {

#[verifier::external_type_specification]
#[verifier::external_body]
pub struct ExPacketHeaders<'a>(etherparse::PacketHeaders<'a>);

#[verifier::external_type_specification]
#[verifier::external_body]
pub struct ExIcmpv4Type(etherparse::Icmpv4Type);

#[verifier::external_type_specification]
#[verifier::external_body]
pub struct ExIcmpv6Type(etherparse::Icmpv6Type);

/// The link-layer fields the analysis reads: both MAC addresses.
#[derive(Clone, Copy, Debug, PartialEq, Eq)]
pub struct LinkHeaderFields {
    pub source: [u8; 6],
    pub destination: [u8; 6],
}

/// The network-layer fields the analysis reads: both addresses and the
/// declared payload length.
#[derive(Clone, Copy, Debug, PartialEq, Eq)]
pub enum NetworkHeaderFields {
    V4 { source: [u8; 4], destination: [u8; 4], payload_len: u16 },
    V6 { source: [u8; 16], destination: [u8; 16], payload_length: u16 },
}

/// The transport-layer fields as the extractor hands them out; the ICMP
/// message types are still the decoder's own values.
pub enum RawTransportHeader {
    Udp { source_port: u16, destination_port: u16 },
    Tcp { source_port: u16, destination_port: u16 },
    Icmpv4(etherparse::Icmpv4Type),
    Icmpv6(etherparse::Icmpv6Type),
}

/// The transport-layer fields the analysis reads: the ports, or the ICMP
/// message kind.
#[derive(Clone, Copy, Debug, PartialEq, Eq, Structural)]
pub enum TransportHeaderFields {
    Udp { source_port: u16, destination_port: u16 },
    Tcp { source_port: u16, destination_port: u16 },
    Icmpv4(IcmpTypeV4),
    Icmpv6(IcmpTypeV6),
}

/// Relies on `etherparse::PacketHeaders`: its `link` field holds the decoded
/// Ethernet II header with the frame's source and destination MAC addresses.
#[verifier::external_body]
fn link_fields<'a>(headers: &etherparse::PacketHeaders<'a>) -> (r: Option<LinkHeaderFields>) {
    match &headers.link {
        Some(h) => Some(LinkHeaderFields { source: h.source, destination: h.destination }),
        None => None,
    }
}

/// Relies on `etherparse::PacketHeaders`: its `ip` field holds the decoded
/// IPv4 or IPv6 header, with the source and destination address octets and
/// the declared payload length.
#[verifier::external_body]
fn ip_fields<'a>(headers: &etherparse::PacketHeaders<'a>) -> (r: Option<NetworkHeaderFields>) {
    match &headers.ip {
        Some(etherparse::IpHeader::Version4(h, _)) => Some(
            NetworkHeaderFields::V4 { source: h.source, destination: h.destination, payload_len: h.payload_len },
        ),
        Some(etherparse::IpHeader::Version6(h, _)) => Some(
            NetworkHeaderFields::V6 { source: h.source, destination: h.destination, payload_length: h.payload_length },
        ),
        None => None,
    }
}

/// Relies on `etherparse::PacketHeaders`: its `transport` field holds the
/// decoded UDP, TCP, ICMPv4 or ICMPv6 header; the ports are copied out, the
/// ICMP message type is handed through as it is.
#[verifier::external_body]
fn transport_fields<'a>(headers: &etherparse::PacketHeaders<'a>) -> (r: Option<RawTransportHeader>) {
    match &headers.transport {
        Some(etherparse::TransportHeader::Udp(h)) => Some(RawTransportHeader::Udp { source_port: h.source_port, destination_port: h.destination_port }),
        Some(etherparse::TransportHeader::Tcp(h)) => Some(RawTransportHeader::Tcp { source_port: h.source_port, destination_port: h.destination_port }),
        Some(etherparse::TransportHeader::Icmpv4(h)) => Some(RawTransportHeader::Icmpv4(h.icmp_type.clone())),
        Some(etherparse::TransportHeader::Icmpv6(h)) => Some(RawTransportHeader::Icmpv6(h.icmp_type.clone())),
        None => None,
    }
}

/// Relies on `etherparse::Icmpv4Type`: its variants name the ICMPv4 message
/// kinds; each is mapped to the kind of the same name.
#[verifier::external_body]
fn icmp_v4_kind(t: &etherparse::Icmpv4Type) -> (r: IcmpTypeV4) {
    match t {
        etherparse::Icmpv4Type::EchoReply(_) => IcmpTypeV4::EchoReply,
        etherparse::Icmpv4Type::DestinationUnreachable(_) => IcmpTypeV4::DestinationUnreachable,
        etherparse::Icmpv4Type::Redirect(_) => IcmpTypeV4::Redirect,
        etherparse::Icmpv4Type::EchoRequest(_) => IcmpTypeV4::EchoRequest,
        etherparse::Icmpv4Type::TimeExceeded(_) => IcmpTypeV4::TimeExceeded,
        etherparse::Icmpv4Type::ParameterProblem(_) => IcmpTypeV4::ParameterProblem,
        etherparse::Icmpv4Type::TimestampRequest(_) => IcmpTypeV4::TimestampRequest,
        etherparse::Icmpv4Type::TimestampReply(_) => IcmpTypeV4::TimestampReply,
        etherparse::Icmpv4Type::Unknown { .. } => IcmpTypeV4::Unknown,
    }
}

/// Relies on `etherparse::Icmpv6Type`: its variants name the ICMPv6 message
/// kinds; each is mapped to the kind of the same name.
#[verifier::external_body]
fn icmp_v6_kind(t: &etherparse::Icmpv6Type) -> (r: IcmpTypeV6) {
    match t {
        etherparse::Icmpv6Type::DestinationUnreachable(_) => IcmpTypeV6::DestinationUnreachable,
        etherparse::Icmpv6Type::PacketTooBig { .. } => IcmpTypeV6::PacketTooBig,
        etherparse::Icmpv6Type::TimeExceeded(_) => IcmpTypeV6::TimeExceeded,
        etherparse::Icmpv6Type::ParameterProblem(_) => IcmpTypeV6::ParameterProblem,
        etherparse::Icmpv6Type::EchoRequest(_) => IcmpTypeV6::EchoRequest,
        etherparse::Icmpv6Type::EchoReply(_) => IcmpTypeV6::EchoReply,
        etherparse::Icmpv6Type::Unknown { .. } => IcmpTypeV6::Unknown,
    }
}

/// The filter-relevant fields of one analyzed frame.
#[derive(Clone, Copy, Debug, PartialEq, Eq, Structural)]
pub struct PacketFiltersFields {
    pub ip_version: IpVersion,
    pub source: IpAddress,
    pub dest: IpAddress,
    pub sport: Option<u16>,
    pub dport: Option<u16>,
    pub protocol: Protocol,
}

impl core::default::Default for PacketFiltersFields {
    fn default() -> (r: Self)
        ensures
            r == (PacketFiltersFields {
                ip_version: IpVersion::IPv4,
                source: IpAddress::V4(Ipv4Address { o0: 0, o1: 0, o2: 0, o3: 0 }),
                dest: IpAddress::V4(Ipv4Address { o0: 0, o1: 0, o2: 0, o3: 0 }),
                sport: Option::None,
                dport: Option::None,
                protocol: Protocol::TCP,
            }),
    {
        PacketFiltersFields {
            ip_version: IpVersion::IPv4,
            source: IpAddress::V4(Ipv4Address { o0: 0, o1: 0, o2: 0, o3: 0 }),
            dest: IpAddress::V4(Ipv4Address { o0: 0, o1: 0, o2: 0, o3: 0 }),
            sport: None,
            dport: None,
            protocol: Protocol::TCP,
        }
    }
}

/// Fills both MAC address slots from the link-layer fields: the addresses'
/// hexadecimal texts where a link header is present, empty otherwise.
pub fn analyze_link_header(
    link_header: Option<LinkHeaderFields>,
    mac_address1: &mut Option<String>,
    mac_address2: &mut Option<String>,
)
    ensures
        view_of_opt_string(*final(mac_address1)) == match link_header {
            Option::Some(h) => Option::Some(mac_text(h.source@)),
            Option::None => Option::<Seq<char>>::None,
        },
        view_of_opt_string(*final(mac_address2)) == match link_header {
            Option::Some(h) => Option::Some(mac_text(h.destination@)),
            Option::None => Option::<Seq<char>>::None,
        },
{
    if let Some(header) = link_header {
        *mac_address1 = Some(mac_from_dec_to_hex(header.source));
        *mac_address2 = Some(mac_from_dec_to_hex(header.destination));
    } else {
        *mac_address1 = None;
        *mac_address2 = None;
    }
}

/// Fills the IP version, both addresses and the byte count from the
/// network-layer fields; the byte count is the header's declared payload
/// length. Returns false, leaving the outputs as they were, where the frame
/// has no IPv4 or IPv6 header and has to be skipped.
pub fn analyze_network_header(
    network_header: Option<NetworkHeaderFields>,
    exchanged_bytes: &mut u128,
    network_protocol: &mut IpVersion,
    address1: &mut IpAddress,
    address2: &mut IpAddress,
) -> (r: bool)
    ensures
        r == network_header is Some,
        match network_header {
            Option::Some(NetworkHeaderFields::V4 { source, destination, payload_len }) => {
                &&& *final(network_protocol) == IpVersion::IPv4
                &&& *final(address1) == IpAddress::V4(spec_ipv4_from_octets(source@))
                &&& *final(address2) == IpAddress::V4(spec_ipv4_from_octets(destination@))
                &&& *final(exchanged_bytes) == payload_len as u128
            },
            Option::Some(NetworkHeaderFields::V6 { source, destination, payload_length }) => {
                &&& *final(network_protocol) == IpVersion::IPv6
                &&& *final(address1) == IpAddress::V6(spec_ipv6_from_octets(source@))
                &&& *final(address2) == IpAddress::V6(spec_ipv6_from_octets(destination@))
                &&& *final(exchanged_bytes) == payload_length as u128
            },
            Option::None => {
                &&& *final(network_protocol) == *old(network_protocol)
                &&& *final(address1) == *old(address1)
                &&& *final(address2) == *old(address2)
                &&& *final(exchanged_bytes) == *old(exchanged_bytes)
            },
        },
{
    match network_header {
        Some(NetworkHeaderFields::V4 { source, destination, payload_len }) => {
            *network_protocol = IpVersion::IPv4;
            *address1 = IpAddress::V4(Ipv4Address::from_octets(&source));
            *address2 = IpAddress::V4(Ipv4Address::from_octets(&destination));
            *exchanged_bytes = payload_len as u128;
            true
        },
        Some(NetworkHeaderFields::V6 { source, destination, payload_length }) => {
            *network_protocol = IpVersion::IPv6;
            *address1 = IpAddress::V6(Ipv6Address::from_octets(&source));
            *address2 = IpAddress::V6(Ipv6Address::from_octets(&destination));
            *exchanged_bytes = payload_length as u128;
            true
        },
        None => false,
    }
}

/// Fills the ports, the transport protocol and the ICMP message kind from
/// the transport-layer fields. Returns false, leaving the outputs as they
/// were, where the transport is none of UDP, TCP, ICMPv4 and ICMPv6 and the
/// frame has to be skipped.
pub fn analyze_transport_header(
    transport_header: Option<TransportHeaderFields>,
    port1: &mut Option<u16>,
    port2: &mut Option<u16>,
    protocol: &mut Protocol,
    icmp_type: &mut IcmpType,
) -> (r: bool)
    ensures
        r == transport_header is Some,
        match transport_header {
            Option::Some(TransportHeaderFields::Udp { source_port, destination_port }) => {
                &&& *final(port1) == Option::Some(source_port)
                &&& *final(port2) == Option::Some(destination_port)
                &&& *final(protocol) == Protocol::UDP
                &&& *final(icmp_type) == *old(icmp_type)
            },
            Option::Some(TransportHeaderFields::Tcp { source_port, destination_port }) => {
                &&& *final(port1) == Option::Some(source_port)
                &&& *final(port2) == Option::Some(destination_port)
                &&& *final(protocol) == Protocol::TCP
                &&& *final(icmp_type) == *old(icmp_type)
            },
            Option::Some(TransportHeaderFields::Icmpv4(k)) => {
                &&& *final(port1) is None
                &&& *final(port2) is None
                &&& *final(protocol) == Protocol::ICMP
                &&& *final(icmp_type) == IcmpType::V4(k)
            },
            Option::Some(TransportHeaderFields::Icmpv6(k)) => {
                &&& *final(port1) is None
                &&& *final(port2) is None
                &&& *final(protocol) == Protocol::ICMP
                &&& *final(icmp_type) == IcmpType::V6(k)
            },
            Option::None => {
                &&& *final(port1) == *old(port1)
                &&& *final(port2) == *old(port2)
                &&& *final(protocol) == *old(protocol)
                &&& *final(icmp_type) == *old(icmp_type)
            },
        },
{
    match transport_header {
        Some(TransportHeaderFields::Udp { source_port, destination_port }) => {
            *port1 = Some(source_port);
            *port2 = Some(destination_port);
            *protocol = Protocol::UDP;
            true
        },
        Some(TransportHeaderFields::Tcp { source_port, destination_port }) => {
            *port1 = Some(source_port);
            *port2 = Some(destination_port);
            *protocol = Protocol::TCP;
            true
        },
        Some(TransportHeaderFields::Icmpv4(k)) => {
            *port1 = None;
            *port2 = None;
            *protocol = Protocol::ICMP;
            *icmp_type = IcmpType::V4(k);
            true
        },
        Some(TransportHeaderFields::Icmpv6(k)) => {
            *port1 = None;
            *port2 = None;
            *protocol = Protocol::ICMP;
            *icmp_type = IcmpType::V6(k);
            true
        },
        None => false,
    }
}

/// Analyzes one frame's decoded link, network and transport headers.
///
/// A missing link header is tolerated (the MAC slots are just left empty),
/// but a frame whose network layer is neither IPv4 nor IPv6, or whose
/// transport is none of UDP, TCP, ICMPv4 and ICMPv6, yields `None` and is
/// skipped. Otherwise the filter-relevant fields and the byte count are
/// filled in and the frame's connection key is returned, built from exactly
/// those fields.
pub fn analyze_headers<'a>(
    headers: &etherparse::PacketHeaders<'a>,
    mac_addresses: &mut (Option<String>, Option<String>),
    exchanged_bytes: &mut u128,
    icmp_type: &mut IcmpType,
    packet_filters_fields: &mut PacketFiltersFields,
) -> (r: Option<AddressPortPair>)
    ensures
        match r {
            Option::Some(pair) => {
                let f = *final(packet_filters_fields);
                &&& pair == (AddressPortPair {
                    address1: f.source,
                    port1: f.sport,
                    address2: f.dest,
                    port2: f.dport,
                    protocol: f.protocol,
                })
                &&& (f.ip_version == IpVersion::IPv4 <==> f.source is V4)
                &&& (f.source is V4 <==> f.dest is V4)
                &&& (f.protocol == Protocol::ICMP <==> f.sport is None)
                &&& (f.sport is None <==> f.dport is None)
                &&& (f.protocol == Protocol::ICMP ==> *final(icmp_type)
                    != IcmpType::NotApplicable)
                &&& (f.protocol != Protocol::ICMP ==> *final(icmp_type) == *old(icmp_type))
                &&& (view_of_opt_string(final(mac_addresses).0) is Some <==> view_of_opt_string(
                    final(mac_addresses).1,
                ) is Some)
            },
            Option::None => *final(icmp_type) == *old(icmp_type),
        },
{
    let link = link_fields(headers);
    analyze_link_header(link, &mut mac_addresses.0, &mut mac_addresses.1);
    let net = ip_fields(headers);
    if !analyze_network_header(
        net,
        exchanged_bytes,
        &mut packet_filters_fields.ip_version,
        &mut packet_filters_fields.source,
        &mut packet_filters_fields.dest,
    ) {
        return None;
    }
    let raw_transport = transport_fields(headers);
    let transport = match raw_transport {
        None => None,
        Some(RawTransportHeader::Udp { source_port, destination_port }) => Some(
            TransportHeaderFields::Udp { source_port, destination_port },
        ),
        Some(RawTransportHeader::Tcp { source_port, destination_port }) => Some(
            TransportHeaderFields::Tcp { source_port, destination_port },
        ),
        Some(RawTransportHeader::Icmpv4(t)) => Some(
            TransportHeaderFields::Icmpv4(icmp_v4_kind(&t)),
        ),
        Some(RawTransportHeader::Icmpv6(t)) => Some(
            TransportHeaderFields::Icmpv6(icmp_v6_kind(&t)),
        ),
    };
    if !analyze_transport_header(
        transport,
        &mut packet_filters_fields.sport,
        &mut packet_filters_fields.dport,
        &mut packet_filters_fields.protocol,
        icmp_type,
    ) {
        return None;
    }
    Some(
        AddressPortPair::new(
            packet_filters_fields.source,
            packet_filters_fields.sport,
            packet_filters_fields.dest,
            packet_filters_fields.dport,
            packet_filters_fields.protocol,
        ),
    )
}

} // verus!
