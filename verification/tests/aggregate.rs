use sniffnet::{
    analyze_headers, get_address_to_lookup, merge_resolution, modify_or_insert_in_map,
    register_exchanged_data, AddressPortPair, AppProtocol, Asn, DataInfo, Host, IcmpType,
    InfoTraffic, InterfaceAddress, IpAddress, PacketFiltersFields, Protocol, TrafficDirection,
    TrafficType,
};
use sniffnet::resolve::{build_resolved_host, get_domain_from_r_dns, ResolvedHost};

fn tcp_key(a1: IpAddress, p1: u16, a2: IpAddress, p2: u16) -> AddressPortPair {
    AddressPortPair::new(a1, Some(p1), a2, Some(p2), Protocol::TCP)
}

fn host(domain: &str, country: &str, asn_number: &str) -> Host {
    Host {
        domain: domain.to_string(),
        asn: Asn { number: asn_number.to_string(), name: String::new() },
        country: country.to_string(),
    }
}

fn resolution_for(h: &Host) -> ResolvedHost {
    ResolvedHost {
        r_dns: h.domain.clone(),
        host: h.clone(),
        is_loopback: false,
        is_local: false,
        traffic_type: TrafficType::Unicast,
    }
}

fn connection_entry(
    traffic: &InfoTraffic,
    key: &AddressPortPair,
) -> sniffnet::InfoAddressPortPair {
    traffic
        .connections
        .iter()
        .find(|(k, _)| k == key)
        .map(|(_, v)| v.clone())
        .expect("connection entry missing")
}

#[test]
fn repeated_packets_accumulate() {
    let mut traffic = InfoTraffic::new();
    let ifaces = vec![InterfaceAddress::new(IpAddress::v4(192, 168, 1, 2), None, None)];
    let key = tcp_key(IpAddress::v4(192, 168, 1, 2), 44000, IpAddress::v4(104, 18, 43, 158), 443);

    let first = modify_or_insert_in_map(
        &mut traffic,
        &key,
        &ifaces,
        (Some("aa:aa:aa:aa:aa:aa".to_string()), Some("bb:bb:bb:bb:bb:bb".to_string())),
        IcmpType::NotApplicable,
        1000,
        AppProtocol::HTTPS,
        10,
    );
    assert_eq!(first.transmitted_bytes, 1000);
    assert_eq!(first.transmitted_packets, 1);
    assert_eq!(first.initial_timestamp, 10);
    assert_eq!(first.final_timestamp, 10);
    assert_eq!(first.traffic_direction, TrafficDirection::Outgoing);
    assert_eq!(first.app_protocol, AppProtocol::HTTPS);

    let second = modify_or_insert_in_map(
        &mut traffic,
        &key,
        &ifaces,
        (None, None),
        IcmpType::NotApplicable,
        234,
        AppProtocol::Unknown,
        25,
    );
    // counters grow by exactly one packet and its bytes; the final timestamp
    // is the last packet's; everything fixed at first sight stays
    assert_eq!(second.transmitted_bytes, 1234);
    assert_eq!(second.transmitted_packets, 2);
    assert_eq!(second.initial_timestamp, 10);
    assert_eq!(second.final_timestamp, 25);
    assert_eq!(second.app_protocol, AppProtocol::HTTPS);
    assert_eq!(second.mac_address1, Some("aa:aa:aa:aa:aa:aa".to_string()));
    assert_eq!(traffic.connections.len(), 1);
}

#[test]
fn direction_fixed_at_first_packet() {
    let mut traffic = InfoTraffic::new();
    let local = IpAddress::v4(192, 168, 1, 2);
    let remote = IpAddress::v4(1, 2, 3, 4);
    let key = tcp_key(local, 44000, remote, 443);

    let ifaces = vec![InterfaceAddress::new(local, None, None)];
    let first = modify_or_insert_in_map(
        &mut traffic,
        &key,
        &ifaces,
        (None, None),
        IcmpType::NotApplicable,
        10,
        AppProtocol::HTTPS,
        1,
    );
    assert_eq!(first.traffic_direction, TrafficDirection::Outgoing);

    // the interface lost its address: a later packet of the same key keeps
    // the direction computed at first sight
    let changed: Vec<InterfaceAddress> = Vec::new();
    let second = modify_or_insert_in_map(
        &mut traffic,
        &key,
        &changed,
        (None, None),
        IcmpType::NotApplicable,
        10,
        AppProtocol::HTTPS,
        2,
    );
    assert_eq!(second.traffic_direction, TrafficDirection::Outgoing);

    // while a fresh key under the changed list is classified anew
    let other_key = tcp_key(local, 44001, remote, 443);
    let other = modify_or_insert_in_map(
        &mut traffic,
        &other_key,
        &changed,
        (None, None),
        IcmpType::NotApplicable,
        10,
        AppProtocol::HTTPS,
        3,
    );
    assert_eq!(other.traffic_direction, TrafficDirection::Incoming);
}

#[test]
fn icmp_histogram_counts_kinds() {
    let mut traffic = InfoTraffic::new();
    let ifaces: Vec<InterfaceAddress> = Vec::new();
    let key = AddressPortPair::new(
        IpAddress::v4(10, 0, 0, 1),
        None,
        IpAddress::v4(10, 0, 0, 2),
        None,
        Protocol::ICMP,
    );
    let echo = IcmpType::V4(sniffnet::IcmpTypeV4::EchoRequest);
    let reply = IcmpType::V4(sniffnet::IcmpTypeV4::EchoReply);
    modify_or_insert_in_map(&mut traffic, &key, &ifaces, (None, None), echo, 64, AppProtocol::NotApplicable, 1);
    modify_or_insert_in_map(&mut traffic, &key, &ifaces, (None, None), echo, 64, AppProtocol::NotApplicable, 2);
    let last = modify_or_insert_in_map(&mut traffic, &key, &ifaces, (None, None), reply, 64, AppProtocol::NotApplicable, 3);
    let mut hist = last.icmp_types.clone();
    hist.sort_by(|a, b| a.1.cmp(&b.1));
    assert_eq!(hist, vec![(reply, 1), (echo, 2)]);
}

#[test]
fn pending_data_accumulates_until_resolution() {
    let mut traffic = InfoTraffic::new();
    let addr = IpAddress::v4(104, 18, 43, 158);

    // first sighting opens the pending bucket and asks for a resolution
    assert!(register_exchanged_data(&mut traffic, &addr, 500));
    // later packets only grow the bucket
    assert!(!register_exchanged_data(&mut traffic, &addr, 250));
    assert_eq!(
        traffic.addresses_waiting_resolution,
        vec![(addr, DataInfo { transmitted_bytes: 750, transmitted_packets: 2 })]
    );

    // the resolution retires the bucket into the host's statistics
    let h = host("example.com", "US", "13335");
    merge_resolution(&mut traffic, 0, &addr, resolution_for(&h));
    assert!(traffic.addresses_waiting_resolution.is_empty());
    assert_eq!(traffic.hosts.len(), 1);
    assert_eq!(traffic.hosts[0].0, h);
    assert_eq!(traffic.hosts[0].1.data_info.transmitted_bytes, 750);
    assert_eq!(traffic.hosts[0].1.data_info.transmitted_packets, 2);
    assert!(!traffic.hosts[0].1.is_favorite);

    // data seen after the resolution goes straight to the host
    assert!(!register_exchanged_data(&mut traffic, &addr, 100));
    assert_eq!(traffic.hosts[0].1.data_info.transmitted_bytes, 850);
    assert_eq!(traffic.hosts[0].1.data_info.transmitted_packets, 3);
}

#[test]
fn two_addresses_one_host_merge() {
    let mut traffic = InfoTraffic::new();
    let addr1 = IpAddress::v4(104, 18, 43, 158);
    let addr2 = IpAddress::v4(104, 18, 43, 159);

    assert!(register_exchanged_data(&mut traffic, &addr1, 500));
    assert!(register_exchanged_data(&mut traffic, &addr2, 200));

    let h = host("example.com", "US", "13335");
    merge_resolution(&mut traffic, 0, &addr1, resolution_for(&h));
    // mark the host as favorite after its first sighting
    traffic.add_or_remove_favorite(&h, true);
    merge_resolution(&mut traffic, 0, &addr2, resolution_for(&h));

    // one host entry carries the sum of both addresses' pending data, and
    // the favorite mark survived the second merge
    assert_eq!(traffic.hosts.len(), 1);
    assert_eq!(traffic.hosts[0].1.data_info.transmitted_bytes, 700);
    assert_eq!(traffic.hosts[0].1.data_info.transmitted_packets, 2);
    assert!(traffic.hosts[0].1.is_favorite);
    assert_eq!(traffic.favorites_last_interval.len(), 1);
    assert_eq!(traffic.favorites_last_interval[0], h);
    assert_eq!(traffic.addresses_resolved.len(), 2);
}

#[test]
fn stale_session_resolution_is_discarded() {
    let mut traffic = InfoTraffic::new();
    let addr = IpAddress::v4(104, 18, 43, 158);
    assert!(register_exchanged_data(&mut traffic, &addr, 500));

    // the capture was stopped and restarted: the state is fresh and carries
    // the next session id
    traffic.restart();
    assert_eq!(traffic.session_id, 1);
    assert!(traffic.addresses_waiting_resolution.is_empty());

    // a resolution still in flight for the old session must not touch the
    // new session's state
    let h = host("example.com", "US", "13335");
    merge_resolution(&mut traffic, 0, &addr, resolution_for(&h));
    assert!(traffic.hosts.is_empty());
    assert!(traffic.addresses_resolved.is_empty());

    // the same result tagged with the current session merges normally
    merge_resolution(&mut traffic, 1, &addr, resolution_for(&h));
    assert_eq!(traffic.hosts.len(), 1);
}

#[test]
fn favorite_traffic_noted_in_interval() {
    let mut traffic = InfoTraffic::new();
    let ifaces = vec![InterfaceAddress::new(IpAddress::v4(192, 168, 1, 2), None, None)];
    let key = tcp_key(IpAddress::v4(192, 168, 1, 2), 44000, IpAddress::v4(104, 18, 43, 158), 443);
    let remote = get_address_to_lookup(&key, TrafficDirection::Outgoing);

    let h = host("example.com", "US", "13335");
    merge_resolution(&mut traffic, 0, &remote, resolution_for(&h));
    traffic.add_or_remove_favorite(&h, true);
    traffic.clear_favorites_last_interval();

    modify_or_insert_in_map(
        &mut traffic,
        &key,
        &ifaces,
        (None, None),
        IcmpType::NotApplicable,
        100,
        AppProtocol::HTTPS,
        7,
    );
    assert_eq!(traffic.favorites_last_interval, vec![h.clone()]);

    // taking the favorite mark away stops the noting
    traffic.add_or_remove_favorite(&h, false);
    traffic.clear_favorites_last_interval();
    modify_or_insert_in_map(
        &mut traffic,
        &key,
        &ifaces,
        (None, None),
        IcmpType::NotApplicable,
        100,
        AppProtocol::HTTPS,
        8,
    );
    assert!(traffic.favorites_last_interval.is_empty());
}

#[test]
fn totals_follow_direction() {
    let mut traffic = InfoTraffic::new();
    traffic.register_totals(TrafficDirection::Outgoing, 100);
    traffic.register_totals(TrafficDirection::Incoming, 40);
    traffic.register_totals(TrafficDirection::Outgoing, 10);
    assert_eq!(traffic.all_packets, 3);
    assert_eq!(traffic.all_bytes, 150);
    assert_eq!(traffic.tot_sent_bytes, 110);
    assert_eq!(traffic.tot_sent_packets, 2);
    assert_eq!(traffic.tot_received_bytes, 40);
    assert_eq!(traffic.tot_received_packets, 1);
}

#[test]
fn domain_keeps_last_two_labels() {
    let addr_text = "104.18.43.158".to_string();
    assert_eq!(
        get_domain_from_r_dns(&"server-104-18-43-158.fra1.cdn.example.org".to_string(), &addr_text),
        "example.org"
    );
    assert_eq!(get_domain_from_r_dns(&"example.org".to_string(), &addr_text), "example.org");
    assert_eq!(get_domain_from_r_dns(&"localhost".to_string(), &addr_text), "localhost");
    // a lookup that fell back to the address text keeps it whole
    assert_eq!(get_domain_from_r_dns(&addr_text.clone(), &addr_text), "104.18.43.158");
}

#[test]
fn resolution_falls_back_to_address_text() {
    let addr = IpAddress::v4(10, 0, 0, 7);
    let ifaces: Vec<InterfaceAddress> = Vec::new();
    let no_answer = build_resolved_host(
        &addr,
        None,
        "IT".to_string(),
        Asn { number: "64496".to_string(), name: "EXAMPLE".to_string() },
        &ifaces,
        TrafficDirection::Outgoing,
    );
    assert_eq!(no_answer.r_dns, "10.0.0.7");
    assert_eq!(no_answer.host.domain, "10.0.0.7");
    assert_eq!(no_answer.host.country, "IT");
    assert_eq!(no_answer.host.asn.number, "64496");

    let empty_answer = build_resolved_host(
        &addr,
        Some(String::new()),
        "IT".to_string(),
        Asn { number: String::new(), name: String::new() },
        &ifaces,
        TrafficDirection::Outgoing,
    );
    assert_eq!(empty_answer.r_dns, "10.0.0.7");

    let answer = build_resolved_host(
        &addr,
        Some("node7.lan.example.net".to_string()),
        String::new(),
        Asn { number: String::new(), name: String::new() },
        &ifaces,
        TrafficDirection::Outgoing,
    );
    assert_eq!(answer.r_dns, "node7.lan.example.net");
    assert_eq!(answer.host.domain, "example.net");
}

#[test]
fn analyze_udp_ipv4_frame() {
    let builder = etherparse::PacketBuilder::ethernet2(
        [1, 2, 3, 4, 5, 6],
        [7, 8, 9, 10, 11, 12],
    )
    .ipv4([192, 168, 1, 2], [8, 8, 8, 8], 64)
    .udp(50000, 53);
    let payload = [0xabu8; 24];
    let mut frame = Vec::with_capacity(builder.size(payload.len()));
    builder.write(&mut frame, &payload).unwrap();
    let headers = etherparse::PacketHeaders::from_ethernet_slice(&frame).unwrap();

    let mut mac_addresses: (Option<String>, Option<String>) = (None, None);
    let mut exchanged_bytes: u128 = 0;
    let mut icmp_type = IcmpType::NotApplicable;
    let mut fields = PacketFiltersFields::default();
    let key = analyze_headers(
        &headers,
        &mut mac_addresses,
        &mut exchanged_bytes,
        &mut icmp_type,
        &mut fields,
    )
    .expect("supported frame");

    assert_eq!(key.address1, IpAddress::v4(192, 168, 1, 2));
    assert_eq!(key.address2, IpAddress::v4(8, 8, 8, 8));
    assert_eq!(key.port1, Some(50000));
    assert_eq!(key.port2, Some(53));
    assert_eq!(key.protocol, Protocol::UDP);
    // declared IP payload: 8 bytes of UDP header plus the payload
    assert_eq!(exchanged_bytes, 8 + 24);
    assert_eq!(mac_addresses.0, Some("01:02:03:04:05:06".to_string()));
    assert_eq!(mac_addresses.1, Some("07:08:09:0a:0b:0c".to_string()));
    assert_eq!(icmp_type, IcmpType::NotApplicable);
}

#[test]
fn analyze_skips_unsupported_transport() {
    // an IPv4 packet whose protocol is not a supported transport (SCTP)
    let builder = etherparse::PacketBuilder::ethernet2(
        [1, 2, 3, 4, 5, 6],
        [7, 8, 9, 10, 11, 12],
    )
    .ipv4([192, 168, 1, 2], [8, 8, 8, 8], 64);
    let payload = [0u8; 4];
    let mut frame = Vec::with_capacity(builder.size(payload.len()));
    // 132 is SCTP's IP protocol number
    builder.write(&mut frame, 132, &payload).unwrap();
    let headers = etherparse::PacketHeaders::from_ethernet_slice(&frame).unwrap();

    let mut mac_addresses: (Option<String>, Option<String>) = (None, None);
    let mut exchanged_bytes: u128 = 0;
    let mut icmp_type = IcmpType::NotApplicable;
    let mut fields = PacketFiltersFields::default();
    let key = analyze_headers(
        &headers,
        &mut mac_addresses,
        &mut exchanged_bytes,
        &mut icmp_type,
        &mut fields,
    );
    assert!(key.is_none());
}

#[test]
fn analyze_icmp_echo_request_frame() {
    let builder = etherparse::PacketBuilder::ethernet2(
        [1, 2, 3, 4, 5, 6],
        [7, 8, 9, 10, 11, 12],
    )
    .ipv4([10, 0, 0, 1], [10, 0, 0, 2], 64)
    .icmpv4_echo_request(7, 1);
    let payload = [0u8; 16];
    let mut frame = Vec::with_capacity(builder.size(payload.len()));
    builder.write(&mut frame, &payload).unwrap();
    let headers = etherparse::PacketHeaders::from_ethernet_slice(&frame).unwrap();

    let mut mac_addresses: (Option<String>, Option<String>) = (None, None);
    let mut exchanged_bytes: u128 = 0;
    let mut icmp_type = IcmpType::NotApplicable;
    let mut fields = PacketFiltersFields::default();
    let key = analyze_headers(
        &headers,
        &mut mac_addresses,
        &mut exchanged_bytes,
        &mut icmp_type,
        &mut fields,
    )
    .expect("supported frame");

    assert_eq!(key.protocol, Protocol::ICMP);
    assert_eq!(key.port1, None);
    assert_eq!(key.port2, None);
    assert_eq!(icmp_type, IcmpType::V4(sniffnet::IcmpTypeV4::EchoRequest));
}

#[test]
fn connection_snapshot_is_a_copy() {
    let mut traffic = InfoTraffic::new();
    let ifaces: Vec<InterfaceAddress> = Vec::new();
    let key = tcp_key(IpAddress::v4(1, 1, 1, 1), 1, IpAddress::v4(2, 2, 2, 2), 2);
    let snapshot = modify_or_insert_in_map(
        &mut traffic,
        &key,
        &ifaces,
        (None, None),
        IcmpType::NotApplicable,
        10,
        AppProtocol::Unknown,
        0,
    );
    assert_eq!(snapshot, connection_entry(&traffic, &key));
}
