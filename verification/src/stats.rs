//! The data model of the aggregate state: connection keys, per-connection
//! statistics, host identities and per-host statistics.

use vstd::prelude::*;

use crate::address::IpAddress;
use crate::assoc::{keys_unique, map_of};
use crate::protocols::{AppProtocol, IcmpType, Protocol, TrafficDirection, TrafficType};

verus! {

/// A connection key: both endpoints as (address, port), plus the transport
/// protocol. Two packets belong to the same connection exactly when their
/// keys are equal; direction is not part of the key.
#[derive(Clone, Copy, Debug, Hash, PartialEq, Eq, Structural)]
pub struct AddressPortPair {
    pub address1: IpAddress,
    pub port1: Option<u16>,
    pub address2: IpAddress,
    pub port2: Option<u16>,
    pub protocol: Protocol,
}

impl AddressPortPair {
    pub fn new(
        address1: IpAddress,
        port1: Option<u16>,
        address2: IpAddress,
        port2: Option<u16>,
        protocol: Protocol,
    ) -> (r: AddressPortPair)
        ensures
            r == (AddressPortPair { address1, port1, address2, port2, protocol }),
    {
        AddressPortPair { address1, port1, address2, port2, protocol }
    }
}

/// Cumulative amount of traffic: bytes and packets.
#[derive(Clone, Copy, Debug, PartialEq, Eq, Structural)]
pub struct DataInfo {
    pub transmitted_bytes: u128,
    pub transmitted_packets: u128,
}

impl DataInfo {
    /// The zero amount.
    pub fn none() -> (r: DataInfo)
        ensures
            r == (DataInfo { transmitted_bytes: 0, transmitted_packets: 0 }),
    {
        DataInfo { transmitted_bytes: 0, transmitted_packets: 0 }
    }
}

/// The statistics of one connection, as the spec sees them: the view of
/// [`InfoAddressPortPair`], with the ICMP histogram read as a finite map.
pub ghost struct ConnStats {
    pub mac_address1: Option<Seq<char>>,
    pub mac_address2: Option<Seq<char>>,
    pub transmitted_bytes: u128,
    pub transmitted_packets: u128,
    pub initial_timestamp: i64,
    pub final_timestamp: i64,
    pub app_protocol: AppProtocol,
    pub traffic_direction: TrafficDirection,
    pub icmp_types: Map<IcmpType, u128>,
}

/// The mutable statistics aggregated for one connection key. MAC addresses,
/// application protocol and traffic direction are set at the first packet and
/// never change; counters and the final timestamp grow with every packet; the
/// ICMP histogram counts message kinds of ICMP connections.
#[derive(Clone, Debug, PartialEq, Eq)]
pub struct InfoAddressPortPair {
    pub mac_address1: Option<String>,
    pub mac_address2: Option<String>,
    pub transmitted_bytes: u128,
    pub transmitted_packets: u128,
    pub initial_timestamp: i64,
    pub final_timestamp: i64,
    pub app_protocol: AppProtocol,
    pub traffic_direction: TrafficDirection,
    pub icmp_types: Vec<(IcmpType, u128)>,
}

/// The view of an optional string.
pub open spec fn view_of_opt_string(s: Option<String>) -> Option<Seq<char>> {
    match s {
        Option::Some(x) => Option::Some(x@),
        Option::None => Option::None,
    }
}

impl View for InfoAddressPortPair {
    type V = ConnStats;

    open spec fn view(&self) -> ConnStats {
        ConnStats {
            mac_address1: view_of_opt_string(self.mac_address1),
            mac_address2: view_of_opt_string(self.mac_address2),
            transmitted_bytes: self.transmitted_bytes,
            transmitted_packets: self.transmitted_packets,
            initial_timestamp: self.initial_timestamp,
            final_timestamp: self.final_timestamp,
            app_protocol: self.app_protocol,
            traffic_direction: self.traffic_direction,
            icmp_types: map_of(self.icmp_types@),
        }
    }
}

impl InfoAddressPortPair {
    /// The entry's histogram list carries each ICMP kind at most once, and
    /// its timestamps are ordered.
    pub open spec fn wf(&self) -> bool {
        keys_unique(self.icmp_types@) && self.initial_timestamp <= self.final_timestamp
    }

    /// Returns a copy of the entry with the same view.
    pub fn snapshot(&self) -> (r: InfoAddressPortPair)
        ensures
            r@ == self@,
            r.wf() == self.wf(),
            r.icmp_types@ == self.icmp_types@,
    {
        let mut icmp_types: Vec<(IcmpType, u128)> = Vec::new();
        let n = self.icmp_types.len();
        for i in 0..n
            invariant
                n == self.icmp_types.len(),
                icmp_types@ =~= self.icmp_types@.subrange(0, i as int),
        {
            icmp_types.push(self.icmp_types[i]);
        }
        assert(icmp_types@ =~= self.icmp_types@);
        InfoAddressPortPair {
            mac_address1: clone_opt_string(&self.mac_address1),
            mac_address2: clone_opt_string(&self.mac_address2),
            transmitted_bytes: self.transmitted_bytes,
            transmitted_packets: self.transmitted_packets,
            initial_timestamp: self.initial_timestamp,
            final_timestamp: self.final_timestamp,
            app_protocol: self.app_protocol,
            traffic_direction: self.traffic_direction,
            icmp_types,
        }
    }
}

/// Copies an optional string.
pub fn clone_opt_string(s: &Option<String>) -> (r: Option<String>)
    ensures
        view_of_opt_string(r) == view_of_opt_string(*s),
{
    match s {
        Some(x) => Some(x.clone()),
        None => None,
    }
}

/// An autonomous system: its number and the organisation's name, both empty
/// where the lookup had no answer.
#[derive(Clone, Debug, Hash, PartialEq, Eq)]
pub struct Asn {
    pub number: String,
    pub name: String,
}

/// The view of an autonomous system value.
pub ghost struct AsnView {
    pub number: Seq<char>,
    pub name: Seq<char>,
}

impl View for Asn {
    type V = AsnView;

    open spec fn view(&self) -> AsnView {
        AsnView { number: self.number@, name: self.name@ }
    }
}

impl Asn {
    /// The value standing for an unanswered lookup.
    pub fn unknown() -> (r: Asn)
        ensures
            r@.number == Seq::<char>::empty(),
            r@.name == Seq::<char>::empty(),
    {
        Asn { number: String::new(), name: String::new() }
    }

    /// Whether two values denote the same autonomous system.
    pub fn same_as(&self, other: &Asn) -> (r: bool)
        ensures
            r == (self@ == other@),
    {
        let r = self.number == other.number && self.name == other.name;
        if r {
            assert(self@ == other@);
        } else {
            assert(self@ != other@);
        }
        r
    }

    /// Returns a copy of the value.
    pub fn duplicate(&self) -> (r: Asn)
        ensures
            r == *self,
    {
        Asn { number: self.number.clone(), name: self.name.clone() }
    }
}

/// A host's identity: the domain name derived from its reverse-DNS name, its
/// autonomous system, and its country code. Two addresses with equal triples
/// are the same host; the raw address is not part of the identity.
#[derive(Clone, Debug, Hash, PartialEq, Eq)]
pub struct Host {
    pub domain: String,
    pub asn: Asn,
    pub country: String,
}

/// The view of a host identity.
pub ghost struct HostView {
    pub domain: Seq<char>,
    pub asn: AsnView,
    pub country: Seq<char>,
}

impl View for Host {
    type V = HostView;

    open spec fn view(&self) -> HostView {
        HostView { domain: self.domain@, asn: self.asn@, country: self.country@ }
    }
}

impl Host {
    /// Whether two values denote the same host identity.
    pub fn same_as(&self, other: &Host) -> (r: bool)
        ensures
            r == (self@ == other@),
    {
        let r = self.domain == other.domain && self.asn.same_as(&other.asn) && self.country
            == other.country;
        if r {
            assert(self@ == other@);
        } else {
            assert(self@ != other@);
        }
        r
    }

    /// Returns a copy of the value.
    pub fn duplicate(&self) -> (r: Host)
        ensures
            r == *self,
            r@ == self@,
    {
        Host { domain: self.domain.clone(), asn: self.asn.duplicate(), country: self.country.clone() }
    }
}

/// The statistics aggregated for one host: cumulative traffic, the user's
/// favorite flag, and the loopback, locality and traffic-type classification
/// of the address(es) that resolved to it.
#[derive(Clone, Copy, Debug, PartialEq, Eq, Structural)]
pub struct DataInfoHost {
    pub data_info: DataInfo,
    pub is_favorite: bool,
    pub is_loopback: bool,
    pub is_local: bool,
    pub traffic_type: TrafficType,
}

} // verus!
