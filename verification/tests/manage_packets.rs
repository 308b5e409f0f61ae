use sniffnet::{
    get_traffic_direction, get_traffic_type, is_local_connection, is_loopback, is_my_address,
    mac_from_dec_to_hex, InterfaceAddress, IpAddress, Ipv6Address, TrafficDirection, TrafficType,
};

fn v6_text(octets: [u8; 16]) -> String {
    IpAddress::V6(Ipv6Address::from_octets(&octets)).to_text()
}

fn interface_v4_28() -> InterfaceAddress {
    InterfaceAddress::new(
        IpAddress::v4(172, 20, 10, 9),
        Some(IpAddress::v4(255, 255, 255, 240)),
        Some(IpAddress::v4(172, 20, 10, 15)),
    )
}

fn interface_v6_link_local() -> InterfaceAddress {
    InterfaceAddress::new(
        IpAddress::v6(0xfe80, 0, 0, 0, 0x08b1, 0x1234, 0x5678, 0xd065),
        Some(IpAddress::v6(0xffff, 0xffff, 0xffff, 0xffff, 0, 0, 0, 0)),
        None,
    )
}

#[test]
fn mac_simple_test() {
    let result = mac_from_dec_to_hex([255, 255, 10, 177, 9, 15]);
    assert_eq!(result, "ff:ff:0a:b1:09:0f".to_string());
}

#[test]
fn mac_all_zero_test() {
    let result = mac_from_dec_to_hex([0, 0, 0, 0, 0, 0]);
    assert_eq!(result, "00:00:00:00:00:00".to_string());
}

#[test]
fn ipv6_simple_test() {
    let result = v6_text([255, 10, 10, 255, 255, 10, 10, 255, 255, 10, 10, 255, 255, 10, 10, 255]);
    assert_eq!(result, "ff0a:aff:ff0a:aff:ff0a:aff:ff0a:aff".to_string());
}

#[test]
fn ipv6_zeros_in_the_middle() {
    let result = v6_text([255, 10, 10, 255, 0, 0, 0, 0, 28, 4, 4, 28, 255, 1, 0, 0]);
    assert_eq!(result, "ff0a:aff::1c04:41c:ff01:0".to_string());
}

#[test]
fn ipv6_leading_zeros() {
    let result = v6_text([0, 0, 0, 0, 0, 0, 0, 0, 28, 4, 4, 28, 255, 1, 0, 10]);
    assert_eq!(result, "::1c04:41c:ff01:a".to_string());
}

#[test]
fn ipv6_tail_one_after_zeros() {
    let result = v6_text([28, 4, 4, 28, 255, 1, 0, 10, 0, 0, 0, 0, 0, 0, 0, 1]);
    assert_eq!(result, "1c04:41c:ff01:a::1".to_string());
}

#[test]
fn ipv6_tail_zeros() {
    let result = v6_text([28, 4, 4, 28, 255, 1, 0, 10, 0, 0, 0, 0, 0, 0, 0, 0]);
    assert_eq!(result, "1c04:41c:ff01:a::".to_string());
}

#[test]
fn ipv6_multiple_zero_sequences_first_longer() {
    let result = v6_text([32, 0, 0, 0, 0, 0, 0, 0, 1, 1, 0, 0, 0, 0, 0, 1]);
    assert_eq!(result, "2000::101:0:0:1".to_string());
}

#[test]
fn ipv6_multiple_zero_sequences_first_longer_head() {
    let result = v6_text([0, 0, 0, 0, 0, 0, 0, 0, 1, 1, 0, 0, 0, 0, 0, 1]);
    assert_eq!(result, "::101:0:0:1".to_string());
}

#[test]
fn ipv6_multiple_zero_sequences_second_longer() {
    let result = v6_text([1, 0, 0, 0, 0, 0, 0, 1, 0, 0, 0, 0, 0, 0, 3, 118]);
    assert_eq!(result, "100:0:0:1::376".to_string());
}

#[test]
fn ipv6_multiple_zero_sequences_second_longer_tail() {
    let result = v6_text([32, 0, 0, 0, 0, 0, 0, 1, 1, 1, 0, 0, 0, 0, 0, 0]);
    assert_eq!(result, "2000:0:0:1:101::".to_string());
}

#[test]
fn ipv6_multiple_zero_sequences_equal_length() {
    let result = v6_text([118, 3, 0, 0, 0, 0, 0, 1, 1, 1, 0, 0, 0, 0, 0, 1]);
    assert_eq!(result, "7603::1:101:0:0:1".to_string());
}

#[test]
fn ipv6_all_zeros() {
    let result = v6_text([0, 0, 0, 0, 0, 0, 0, 0, 0, 0, 0, 0, 0, 0, 0, 0]);
    assert_eq!(result, "::".to_string());
}

#[test]
fn ipv6_x_all_zeros() {
    let result = v6_text([161, 0, 0, 0, 0, 0, 0, 0, 0, 0, 0, 0, 0, 0, 0, 0]);
    assert_eq!(result, "a100::".to_string());
}

#[test]
fn ipv6_all_zeros_x() {
    let result = v6_text([0, 0, 0, 0, 0, 0, 0, 0, 0, 0, 0, 0, 0, 0, 0, 176]);
    assert_eq!(result, "::b0".to_string());
}

#[test]
fn ipv6_many_zeros_but_no_compression() {
    let result = v6_text([0, 16, 16, 0, 0, 1, 7, 0, 0, 2, 216, 0, 1, 0, 0, 1]);
    assert_eq!(result, "10:1000:1:700:2:d800:100:1".to_string());
}

#[test]
fn ipv4_mapped_address_text() {
    let result = v6_text([0, 0, 0, 0, 0, 0, 0, 0, 0, 0, 255, 255, 192, 168, 1, 77]);
    assert_eq!(result, "::ffff:192.168.1.77".to_string());
}

#[test]
fn ipv4_address_text() {
    assert_eq!(IpAddress::v4(0, 0, 0, 0).to_text(), "0.0.0.0".to_string());
    assert_eq!(IpAddress::v4(255, 255, 255, 255).to_text(), "255.255.255.255".to_string());
    assert_eq!(IpAddress::v4(172, 20, 10, 9).to_text(), "172.20.10.9".to_string());
}

#[test]
fn traffic_direction_ipv4_test() {
    let address_vec: Vec<InterfaceAddress> = vec![interface_v4_28(), interface_v6_link_local()];

    let result1 = get_traffic_direction(
        &IpAddress::v4(172, 20, 10, 9),
        &IpAddress::v4(99, 88, 77, 0),
        Some(99),
        Some(99),
        &address_vec,
    );
    assert_eq!(result1, TrafficDirection::Outgoing);
    let result2 = get_traffic_direction(
        &IpAddress::v4(172, 20, 10, 10),
        &IpAddress::v4(172, 20, 10, 9),
        Some(99),
        Some(99),
        &address_vec,
    );
    assert_eq!(result2, TrafficDirection::Incoming);
    let result3 = get_traffic_direction(
        &IpAddress::v4(172, 20, 10, 9),
        &IpAddress::v4(0, 0, 0, 0),
        Some(99),
        Some(99),
        &address_vec,
    );
    assert_eq!(result3, TrafficDirection::Outgoing);
    let result4 = get_traffic_direction(
        &IpAddress::v4(0, 0, 0, 0),
        &IpAddress::v4(172, 20, 10, 9),
        Some(99),
        Some(99),
        &address_vec,
    );
    assert_eq!(result4, TrafficDirection::Incoming);
    let result4 = get_traffic_direction(
        &IpAddress::v4(0, 0, 0, 0),
        &IpAddress::v4(172, 20, 10, 10),
        Some(99),
        Some(99),
        &address_vec,
    );
    assert_eq!(result4, TrafficDirection::Outgoing);
}

#[test]
fn traffic_direction_loopback_tie_break() {
    let address_vec: Vec<InterfaceAddress> = Vec::new();
    let lo = IpAddress::v4(127, 0, 0, 1);
    let outgoing = get_traffic_direction(&lo, &lo, Some(5000), Some(4000), &address_vec);
    assert_eq!(outgoing, TrafficDirection::Outgoing);
    let incoming = get_traffic_direction(&lo, &lo, Some(4000), Some(5000), &address_vec);
    assert_eq!(incoming, TrafficDirection::Incoming);
    let tie = get_traffic_direction(&lo, &lo, Some(4000), Some(4000), &address_vec);
    assert_eq!(tie, TrafficDirection::Incoming);
}

#[test]
fn traffic_type_multicast_ipv4_test() {
    let empty: Vec<InterfaceAddress> = Vec::new();
    let result1 = get_traffic_type(&IpAddress::v4(227, 255, 255, 0), &empty, TrafficDirection::Outgoing);
    assert_eq!(result1, TrafficType::Multicast);
    let result2 = get_traffic_type(&IpAddress::v4(239, 255, 255, 255), &empty, TrafficDirection::Outgoing);
    assert_eq!(result2, TrafficType::Multicast);
    let result3 = get_traffic_type(&IpAddress::v4(224, 0, 0, 0), &empty, TrafficDirection::Outgoing);
    assert_eq!(result3, TrafficType::Multicast);
    let result4 = get_traffic_type(&IpAddress::v4(223, 255, 255, 255), &empty, TrafficDirection::Outgoing);
    assert_eq!(result4, TrafficType::Unicast);
    let result5 = get_traffic_type(&IpAddress::v4(240, 0, 0, 0), &empty, TrafficDirection::Outgoing);
    assert_eq!(result5, TrafficType::Unicast);

    let result6 = get_traffic_type(&IpAddress::v4(227, 255, 255, 0), &empty, TrafficDirection::Incoming);
    assert_eq!(result6, TrafficType::Unicast);
    let result7 = get_traffic_type(&IpAddress::v4(239, 255, 255, 255), &empty, TrafficDirection::Incoming);
    assert_eq!(result7, TrafficType::Unicast);
    let result8 = get_traffic_type(&IpAddress::v4(224, 0, 0, 0), &empty, TrafficDirection::Incoming);
    assert_eq!(result8, TrafficType::Unicast);
    let result9 = get_traffic_type(&IpAddress::v4(223, 255, 255, 255), &empty, TrafficDirection::Incoming);
    assert_eq!(result9, TrafficType::Unicast);
    let result10 = get_traffic_type(&IpAddress::v4(240, 0, 0, 0), &empty, TrafficDirection::Incoming);
    assert_eq!(result10, TrafficType::Unicast);
}

#[test]
fn traffic_type_multicast_ipv6_test() {
    let empty: Vec<InterfaceAddress> = Vec::new();
    let ff = IpAddress::v6(0xff, 0, 0, 0, 0, 0, 0, 0);
    let fe80 = IpAddress::v6(0xfe80, 0x1234, 0, 0, 0, 0, 0, 0);
    let ffff = IpAddress::v6(0xffff, 0xffff, 0xffff, 0, 0, 0, 0, 0);

    let result1 = get_traffic_type(&ff, &empty, TrafficDirection::Outgoing);
    assert_eq!(result1, TrafficType::Multicast);
    let result2 = get_traffic_type(&fe80, &empty, TrafficDirection::Outgoing);
    assert_eq!(result2, TrafficType::Unicast);
    let result3 = get_traffic_type(&ffff, &empty, TrafficDirection::Outgoing);
    assert_eq!(result3, TrafficType::Multicast);

    let result4 = get_traffic_type(&ff, &empty, TrafficDirection::Incoming);
    assert_eq!(result4, TrafficType::Unicast);
    let result5 = get_traffic_type(&fe80, &empty, TrafficDirection::Incoming);
    assert_eq!(result5, TrafficType::Unicast);
    let result6 = get_traffic_type(&ffff, &empty, TrafficDirection::Incoming);
    assert_eq!(result6, TrafficType::Unicast);
}

#[test]
fn traffic_type_host_local_broadcast_test() {
    let empty: Vec<InterfaceAddress> = Vec::new();
    let bcast = IpAddress::v4(255, 255, 255, 255);
    let result1 = get_traffic_type(&bcast, &empty, TrafficDirection::Outgoing);
    assert_eq!(result1, TrafficType::Broadcast);
    let result2 = get_traffic_type(&bcast, &empty, TrafficDirection::Incoming);
    assert_eq!(result2, TrafficType::Unicast);
    let result3 = get_traffic_type(&IpAddress::v4(255, 255, 255, 254), &empty, TrafficDirection::Outgoing);
    assert_eq!(result3, TrafficType::Unicast);

    let address_vec: Vec<InterfaceAddress> = vec![interface_v4_28()];
    let result1 = get_traffic_type(&bcast, &address_vec, TrafficDirection::Outgoing);
    assert_eq!(result1, TrafficType::Broadcast);
    let result2 = get_traffic_type(&bcast, &address_vec, TrafficDirection::Incoming);
    assert_eq!(result2, TrafficType::Unicast);
}

#[test]
fn traffic_type_host_directed_broadcast_test() {
    let empty: Vec<InterfaceAddress> = Vec::new();
    let directed = IpAddress::v4(172, 20, 10, 15);
    let result1 = get_traffic_type(&directed, &empty, TrafficDirection::Outgoing);
    assert_eq!(result1, TrafficType::Unicast);
    let result2 = get_traffic_type(&directed, &empty, TrafficDirection::Incoming);
    assert_eq!(result2, TrafficType::Unicast);

    let address_vec: Vec<InterfaceAddress> = vec![interface_v4_28()];
    let result1 = get_traffic_type(&directed, &address_vec, TrafficDirection::Outgoing);
    assert_eq!(result1, TrafficType::Broadcast);
    let result2 = get_traffic_type(&directed, &address_vec, TrafficDirection::Incoming);
    assert_eq!(result2, TrafficType::Unicast);
}

#[test]
fn is_local_connection_ipv4_test() {
    let address_vec: Vec<InterfaceAddress> = vec![interface_v4_28(), interface_v6_link_local()];

    let result1 = is_local_connection(&IpAddress::v4(104, 18, 43, 158), &address_vec);
    assert_eq!(result1, false);

    let result2 = is_local_connection(&IpAddress::v4(172, 20, 10, 15), &address_vec);
    assert_eq!(result2, true);

    let result3 = is_local_connection(&IpAddress::v4(172, 20, 10, 16), &address_vec);
    assert_eq!(result3, false);

    let result4 = is_local_connection(&IpAddress::v4(172, 20, 10, 0), &address_vec);
    assert_eq!(result4, true);

    let result5 = is_local_connection(&IpAddress::v4(172, 20, 10, 7), &address_vec);
    assert_eq!(result5, true);

    let result6 = is_local_connection(&IpAddress::v4(172, 20, 10, 99), &address_vec);
    assert_eq!(result6, false);
}

#[test]
fn is_local_connection_ipv6_test() {
    let address_vec: Vec<InterfaceAddress> = vec![
        interface_v4_28(),
        InterfaceAddress::new(
            IpAddress::v6(0xfe90, 0x08b1, 0x1234, 0x5678, 0xd065, 0, 0, 0x1234),
            Some(IpAddress::v6(0xffff, 0xffff, 0xffff, 0xff11, 0, 0, 0, 0)),
            None,
        ),
    ];

    let result1 = is_local_connection(
        &IpAddress::v6(0xfe90, 0x08b1, 0x1234, 0x5611, 0xd065, 0, 0, 0x1234),
        &address_vec,
    );
    assert_eq!(result1, false);

    let result2 = is_local_connection(
        &IpAddress::v6(0xfe90, 0x08b1, 0x1234, 0x5610, 0xd065, 0, 0, 0x1234),
        &address_vec,
    );
    assert_eq!(result2, true);

    let result3 = is_local_connection(
        &IpAddress::v6(0xff90, 0x08b1, 0x1234, 0x5610, 0xd065, 0, 0, 0x1234),
        &address_vec,
    );
    assert_eq!(result3, false);

    let result4 = is_local_connection(
        &IpAddress::v6(0xfe90, 0x08b1, 0x1234, 0x5610, 0xffff, 0xeeee, 0x9876, 0x1234),
        &address_vec,
    );
    assert_eq!(result4, true);
}

#[test]
fn is_local_connection_ipv4_2_test() {
    let address_vec: Vec<InterfaceAddress> = vec![
        InterfaceAddress::new(
            IpAddress::v4(172, 20, 10, 9),
            Some(IpAddress::v4(255, 255, 255, 0)),
            Some(IpAddress::v4(172, 20, 10, 15)),
        ),
        interface_v6_link_local(),
    ];

    let result1 = is_local_connection(&IpAddress::v4(255, 255, 255, 255), &address_vec);
    assert_eq!(result1, false);

    let result2 = is_local_connection(&IpAddress::v4(172, 20, 10, 9), &address_vec);
    assert_eq!(result2, true);

    let result3 = is_local_connection(&IpAddress::v4(172, 20, 10, 9), &address_vec);
    assert_eq!(result3, true);

    let result4 = is_local_connection(&IpAddress::v4(172, 20, 10, 9), &address_vec);
    assert_eq!(result4, true);

    let result5 = is_local_connection(&IpAddress::v4(172, 20, 10, 7), &address_vec);
    assert_eq!(result5, true);

    let result6 = is_local_connection(&IpAddress::v4(172, 20, 10, 99), &address_vec);
    assert_eq!(result6, true);

    let result7 = is_local_connection(&IpAddress::v4(172, 20, 11, 0), &address_vec);
    assert_eq!(result7, false);

    let result8 = is_local_connection(&IpAddress::v4(172, 20, 9, 255), &address_vec);
    assert_eq!(result8, false);
}

#[test]
fn is_local_connection_ipv4_multicast_test() {
    let address_vec: Vec<InterfaceAddress> = vec![interface_v4_28(), interface_v6_link_local()];
    let result1 = is_local_connection(&IpAddress::v4(224, 0, 0, 251), &address_vec);
    assert_eq!(result1, false);
}

#[test]
fn is_local_connection_ipv6_multicast_test() {
    let address_vec: Vec<InterfaceAddress> = vec![interface_v4_28(), interface_v6_link_local()];
    let result1 = is_local_connection(&IpAddress::v6(0xff, 0, 0, 0, 0, 0, 0, 0x1234), &address_vec);
    assert_eq!(result1, false);
}

#[test]
fn is_local_connection_ipv4_link_local_test() {
    let address_vec: Vec<InterfaceAddress> = vec![interface_v4_28(), interface_v6_link_local()];

    let result1 = is_local_connection(&IpAddress::v4(224, 0, 1, 2), &address_vec);
    assert_eq!(result1, false);

    let result2 = is_local_connection(&IpAddress::v4(169, 254, 17, 199), &address_vec);
    assert_eq!(result2, true);

    let result3 = is_local_connection(&IpAddress::v4(169, 255, 17, 199), &address_vec);
    assert_eq!(result3, false);
}

#[test]
fn is_local_connection_ipv6_link_local_test() {
    let address_vec: Vec<InterfaceAddress> = vec![
        interface_v4_28(),
        InterfaceAddress::new(
            IpAddress::v6(0xfe90, 0, 0, 0, 0x08b1, 0x1234, 0x5678, 0xd065),
            Some(IpAddress::v6(0xffff, 0xffff, 0xffff, 0xffff, 0, 0, 0, 0)),
            None,
        ),
    ];

    let result1 = is_local_connection(&IpAddress::v6(0xff88, 0, 0, 0, 0, 0, 0, 0), &address_vec);
    assert_eq!(result1, false);

    let result2 = is_local_connection(
        &IpAddress::v6(0xfe80, 0, 0, 0, 0x08b1, 0x1234, 0x5678, 0xd065),
        &address_vec,
    );
    assert_eq!(result2, true);

    let result3 = is_local_connection(
        &IpAddress::v6(0xfe70, 0, 0, 0, 0x08b1, 0x1234, 0x5678, 0xd065),
        &address_vec,
    );
    assert_eq!(result3, false);
}

#[test]
fn is_loopback_test() {
    assert!(is_loopback(&IpAddress::v4(127, 0, 0, 1)));
    assert!(is_loopback(&IpAddress::v4(127, 255, 255, 255)));
    assert!(!is_loopback(&IpAddress::v4(128, 0, 0, 1)));
    assert!(is_loopback(&IpAddress::v6(0, 0, 0, 0, 0, 0, 0, 1)));
    assert!(!is_loopback(&IpAddress::v6(0, 0, 0, 0, 0, 0, 0, 2)));
}

#[test]
fn is_my_address_test() {
    let address_vec: Vec<InterfaceAddress> = vec![interface_v4_28(), interface_v6_link_local()];
    assert!(is_my_address(&IpAddress::v4(172, 20, 10, 9), &address_vec));
    assert!(is_my_address(
        &IpAddress::v6(0xfe80, 0, 0, 0, 0x08b1, 0x1234, 0x5678, 0xd065),
        &address_vec
    ));
    assert!(is_my_address(&IpAddress::v4(127, 0, 0, 1), &address_vec));
    assert!(!is_my_address(&IpAddress::v4(172, 20, 10, 10), &address_vec));
}
