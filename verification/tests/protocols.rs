use packet_views::network::InetProtocol;

#[test]
fn every_number_decodes_and_encodes_back() {
    for number in 0u8..=255 {
        assert_eq!(u8::from(InetProtocol::from(number)), number);
    }
}

#[test]
fn numbers_without_a_name_are_kept() {
    let mut unnamed: Vec<u8> = vec![99];
    unnamed.extend(143u8..=252);
    unnamed.push(255);
    for number in 0u8..=255 {
        let protocol = InetProtocol::from(number);
        if unnamed.contains(&number) {
            assert_eq!(protocol, InetProtocol::Other(number));
        } else {
            assert!(!matches!(protocol, InetProtocol::Other(_)));
            assert_eq!(InetProtocol::from(u8::from(protocol)), protocol);
        }
    }
}

#[test]
fn well_known_numbers() {
    assert_eq!(InetProtocol::from(0), InetProtocol::IPV6_HEADER_HOP_BY_HOP);
    assert_eq!(InetProtocol::from(1), InetProtocol::ICMP);
    assert_eq!(InetProtocol::from(2), InetProtocol::IGMP);
    assert_eq!(InetProtocol::from(4), InetProtocol::IPV4);
    assert_eq!(InetProtocol::from(6), InetProtocol::TCP);
    assert_eq!(InetProtocol::from(17), InetProtocol::UDP);
    assert_eq!(InetProtocol::from(41), InetProtocol::IPV6);
    assert_eq!(InetProtocol::from(47), InetProtocol::GRE);
    assert_eq!(InetProtocol::from(50), InetProtocol::ENCAPSULATING_SECURITY_PAYLOAD);
    assert_eq!(InetProtocol::from(58), InetProtocol::IPV6_ICMP);
    assert_eq!(InetProtocol::from(89), InetProtocol::OSPFIGP);
    assert_eq!(InetProtocol::from(98), InetProtocol::ENCAP);
    assert_eq!(InetProtocol::from(100), InetProtocol::GMTP);
    assert_eq!(InetProtocol::from(132), InetProtocol::SCTP);
    assert_eq!(InetProtocol::from(142), InetProtocol::ROHC);
    assert_eq!(InetProtocol::from(253), InetProtocol::EXPERIMENTAL_AND_TESTING_0);
    assert_eq!(InetProtocol::from(254), InetProtocol::EXPERIMENTAL_AND_TESTING_1);
    assert_eq!(u8::from(InetProtocol::TCP), 6);
    assert_eq!(u8::from(InetProtocol::UDP), 17);
    assert_eq!(u8::from(InetProtocol::ROHC), 142);
    assert_eq!(u8::from(InetProtocol::Other(200)), 200);
}

#[test]
fn other_around_a_named_number_decodes_to_the_name() {
    assert_eq!(u8::from(InetProtocol::Other(6)), 6);
    assert_eq!(InetProtocol::from(u8::from(InetProtocol::Other(6))), InetProtocol::TCP);
}

#[test]
fn protocols_are_ordered_by_number() {
    assert!(InetProtocol::ICMP < InetProtocol::TCP);
    assert!(InetProtocol::TCP < InetProtocol::UDP);
    assert!(InetProtocol::EXPERIMENTAL_AND_TESTING_1 < InetProtocol::Other(0));
    assert!(InetProtocol::Other(1) < InetProtocol::Other(2));
}
