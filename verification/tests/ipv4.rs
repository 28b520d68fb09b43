use wifi_onboard::error::SetupError;
use wifi_onboard::ipv4::{Ipv4Address, Subnet};

#[test]
fn an_address_as_a_number() {
    assert_eq!(Ipv4Address::new(0, 0, 0, 0).bits(), 0);
    assert_eq!(Ipv4Address::new(0, 0, 0, 1).bits(), 1);
    assert_eq!(Ipv4Address::new(1, 0, 0, 0).bits(), 16_777_216);
    assert_eq!(Ipv4Address::new(192, 168, 6, 1).bits(), 0xC0A8_0601);
    assert_eq!(Ipv4Address::new(255, 255, 255, 255).bits(), u32::MAX);
}

#[test]
fn a_number_as_an_address() {
    assert_eq!(Ipv4Address::from_bits(0xC0A8_0601), Ipv4Address::new(192, 168, 6, 1));
    assert_eq!(Ipv4Address::from_bits(0), Ipv4Address::new(0, 0, 0, 0));
    assert_eq!(Ipv4Address::from_bits(u32::MAX), Ipv4Address::new(255, 255, 255, 255));
    assert_eq!(Ipv4Address::from_bits(0x0102_0304).octets, [1, 2, 3, 4]);
}

#[test]
fn bits_and_octets_agree_both_ways() {
    for bits in [0u32, 1, 255, 256, 65_535, 65_536, 0x7FFF_FFFF, 0x8000_0000, 0xDEAD_BEEF] {
        assert_eq!(Ipv4Address::from_bits(bits).bits(), bits);
    }
}

#[test]
fn a_subnet_needs_a_prefix_from_1_to_32() {
    let gateway = Ipv4Address::new(192, 168, 6, 1);
    assert_eq!(Subnet::new(gateway, 0), Err(SetupError::NetworkConfig));
    assert_eq!(Subnet::new(gateway, 33), Err(SetupError::NetworkConfig));
    assert_eq!(Subnet::new(gateway, 255), Err(SetupError::NetworkConfig));
    for prefix_len in 1..=32u8 {
        let subnet = Subnet::new(gateway, prefix_len).unwrap();
        assert_eq!(subnet.gateway(), gateway);
        assert_eq!(subnet.prefix_len(), prefix_len);
    }
}

#[test]
fn the_network_of_the_local_subnet() {
    let subnet = Subnet::new(Ipv4Address::new(192, 168, 6, 1), 24).unwrap();
    assert_eq!(subnet.network(), Ipv4Address::new(192, 168, 6, 0));
    assert_eq!(subnet.netmask(), Ipv4Address::new(255, 255, 255, 0));
    assert_eq!(subnet.gateway(), Ipv4Address::new(192, 168, 6, 1));
}

#[test]
fn networks_of_other_prefixes() {
    let gateway = Ipv4Address::new(10, 77, 201, 130);
    let expect = [
        (1u8, [0u8, 0, 0, 0], [128u8, 0, 0, 0]),
        (8, [10, 0, 0, 0], [255, 0, 0, 0]),
        (12, [10, 64, 0, 0], [255, 240, 0, 0]),
        (16, [10, 77, 0, 0], [255, 255, 0, 0]),
        (21, [10, 77, 200, 0], [255, 255, 248, 0]),
        (25, [10, 77, 201, 128], [255, 255, 255, 128]),
        (31, [10, 77, 201, 130], [255, 255, 255, 254]),
        (32, [10, 77, 201, 130], [255, 255, 255, 255]),
    ];
    for (prefix_len, network, netmask) in expect {
        let subnet = Subnet::new(gateway, prefix_len).unwrap();
        assert_eq!(subnet.network().octets, network);
        assert_eq!(subnet.netmask().octets, netmask);
    }
}

#[test]
fn which_addresses_lie_in_the_local_subnet() {
    let subnet = Subnet::new(Ipv4Address::new(192, 168, 6, 1), 24).unwrap();
    assert!(subnet.contains(Ipv4Address::new(192, 168, 6, 1)));
    assert!(subnet.contains(Ipv4Address::new(192, 168, 6, 0)));
    assert!(subnet.contains(Ipv4Address::new(192, 168, 6, 2)));
    assert!(subnet.contains(Ipv4Address::new(192, 168, 6, 255)));
    assert!(!subnet.contains(Ipv4Address::new(192, 168, 7, 1)));
    assert!(!subnet.contains(Ipv4Address::new(192, 168, 5, 255)));
    assert!(!subnet.contains(Ipv4Address::new(1, 1, 1, 1)));
}

#[test]
fn a_single_address_subnet_holds_only_its_gateway() {
    let gateway = Ipv4Address::new(10, 0, 0, 7);
    let subnet = Subnet::new(gateway, 32).unwrap();
    assert!(subnet.contains(gateway));
    assert!(!subnet.contains(Ipv4Address::new(10, 0, 0, 6)));
    assert!(!subnet.contains(Ipv4Address::new(10, 0, 0, 8)));
}
