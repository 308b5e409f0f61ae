//! Core of a live network-traffic inspector: decoding of captured frame
//! headers, classification of traffic (direction, type, locality), and
//! aggregation of per-connection and per-host statistics.
//!
//! The capture loop hands every frame's decoded headers to the analysis
//! functions, which derive a connection key, classify the traffic, and update
//! the shared aggregate state. Addresses observed for the first time are
//! resolved (reverse DNS, country, autonomous system) off the hot path, and
//! the result is merged back into the same state.

pub mod address;
pub mod assoc;
pub mod classify;
pub mod headers;
pub mod protocols;
pub mod resolve;
pub mod stats;
pub mod text;
pub mod traffic;
pub mod ui;

pub use address::{InterfaceAddress, IpAddress, Ipv4Address, Ipv6Address};
pub use protocols::{AppProtocol, IcmpType, IcmpTypeV4, IcmpTypeV6, IpVersion, Protocol};
pub use protocols::{from_port_to_application_protocol, get_app_protocol};
pub use classify::{
    get_traffic_direction, get_traffic_type, is_broadcast_address, is_local_connection, is_loopback,
    is_multicast_address, is_my_address,
};
pub use headers::{
    analyze_headers, analyze_link_header, analyze_network_header, analyze_transport_header,
    LinkHeaderFields, NetworkHeaderFields, PacketFiltersFields, TransportHeaderFields,
};
pub use protocols::{TrafficDirection, TrafficType};
pub use resolve::{
    build_resolved_host, get_domain_from_r_dns, merge_resolution, reverse_dns_lookup, ResolvedHost,
};
pub use stats::{AddressPortPair, Asn, DataInfo, DataInfoHost, Host, InfoAddressPortPair};
pub use text::mac_from_dec_to_hex;
pub use traffic::{
    get_address_to_lookup, modify_or_insert_in_map, register_exchanged_data, InfoTraffic,
};
pub use ui::{CheckboxType, Icon, PicklistType};
