use packet_views::checksum::{checksum, csum_diff, csum_fold_helper};
use packet_views::network::ipv4::{Error, IhlError};
use packet_views::network::{IPv4, IPv4Size, InetProtocol};

const HEADER: [u8; 20] = [
    0x45, 0x00, 0x00, 0x73, 0x00, 0x00, 0x40, 0x00, 0x40, 0x11, 0xb8, 0x61, 0xc0, 0xa8, 0x00,
    0x01, 0xc0, 0xa8, 0x00, 0xc7,
];

const HEADER_WITH_OPTIONS: [u8; 24] = [
    0x46, 0xc0, 0x00, 0x20, 0x00, 0x01, 0x40, 0x00, 0x01, 0x02, 0x00, 0x00, 0xc0, 0xa8, 0x00,
    0x01, 0xe0, 0x00, 0x00, 0x16, 0x94, 0x04, 0x00, 0x00,
];

#[test]
fn ipv4_header_of_20_bytes() {
    let mut packet = HEADER.to_vec();
    packet.extend_from_slice(&[1, 2, 3]);
    let (ip, rem) = IPv4::new(&packet).ok().unwrap();
    assert_eq!(ip.size(), IPv4Size::S20);
    assert_eq!(ip.slice(), &HEADER);
    assert_eq!(rem, &[1, 2, 3]);
    assert_eq!(ip.version(), 4);
    assert_eq!(ip.ihl_u8(), 5);
    assert_eq!(ip.dscp(), 0);
    assert_eq!(ip.ecn(), 0);
    assert_eq!(ip.total_length(), 0x73);
    assert_eq!(ip.total_length_u16(), 0x73);
    assert_eq!(ip.identification(), 0);
    assert!(ip.dont_fragment());
    assert!(!ip.more_fragments());
    assert_eq!(ip.fragment_offset(), [0, 0]);
    assert_eq!(ip.ttl(), 0x40);
    assert_eq!(ip.protocol(), InetProtocol::UDP);
    assert_eq!(ip.protocol_u8(), 17);
    assert_eq!(ip.csum(), 0xb861);
    assert_eq!(ip.source(), &[192, 168, 0, 1]);
    assert_eq!(ip.source_u32(), 0xc0a8_0001);
    assert_eq!(ip.destination(), &[192, 168, 0, 199]);
    assert_eq!(ip.destination_u32(), 0xc0a8_00c7);
    assert!(ip.options().is_empty());
    assert_eq!(ip.calc_size(), Ok(IPv4Size::S20));
}

#[test]
fn older_accessor_names_read_the_same_fields() {
    let (ip, _) = IPv4::new(&HEADER_WITH_OPTIONS).ok().unwrap();
    assert_eq!(ip.get_version(), 4);
    assert_eq!(ip.get_ihl_u8(), 6);
    assert_eq!(ip.get_dscp(), 0x30);
    assert_eq!(ip.get_ecn(), 0);
    assert_eq!(ip.get_total_length(), &[0x00, 0x20]);
    assert_eq!(ip.get_total_length_u16(), 0x20);
    assert_eq!(ip.get_protocol(), InetProtocol::IGMP);
    assert_eq!(ip.get_source(), &[192, 168, 0, 1]);
    assert_eq!(ip.get_source_u32(), 0xc0a8_0001);
    assert_eq!(ip.get_destination(), &[224, 0, 0, 22]);
    assert_eq!(ip.get_destination_u32(), 0xe000_0016);
}

#[test]
fn ipv4_header_with_options() {
    let (ip, rem) = IPv4::new(&HEADER_WITH_OPTIONS).ok().unwrap();
    assert_eq!(ip.size(), IPv4Size::S24);
    assert_eq!(ip.size().as_usize(), 24);
    assert!(rem.is_empty());
    assert_eq!(ip.options(), &[0x94, 0x04, 0x00, 0x00]);
    assert_eq!(ip.dscp(), 0x30);
    assert_eq!(ip.calc_csum(), 0x4357);
}

#[test]
fn ihl_15_needs_60_bytes() {
    let mut packet = [0u8; 60];
    packet[0] = 0x4f;
    let (ip, rem) = IPv4::new(&packet).ok().unwrap();
    assert_eq!(ip.size(), IPv4Size::S60);
    assert_eq!(ip.options().len(), 40);
    assert!(rem.is_empty());
    for len in 20..60 {
        assert_eq!(
            IPv4::new(&packet[..len]).err(),
            Some(Error::InvalidSizeForIhl(len, IPv4Size::S60))
        );
    }
}

#[test]
fn wrong_version_is_refused_whatever_the_length() {
    for len in [20usize, 24, 60, 100] {
        let mut packet = vec![0u8; len];
        packet[0] = 0x55;
        assert_eq!(IPv4::new(&packet).err(), Some(Error::InvalidVersion(5)));
        assert_eq!(IPv4::new_mut(&mut packet).err(), Some(Error::InvalidVersion(5)));
    }
    let mut packet = [0u8; 20];
    packet[0] = 0x65;
    assert_eq!(IPv4::new(&packet).err(), Some(Error::InvalidVersion(6)));
}

#[test]
fn ipv4_short_buffer_is_invalid_size() {
    let packet = [0x45u8; 19];
    assert_eq!(IPv4::new(&packet).err(), Some(Error::InvalidSize(19)));
    let empty: [u8; 0] = [];
    assert_eq!(IPv4::new(&empty).err(), Some(Error::InvalidSize(0)));
}

#[test]
fn small_ihl_is_refused_before_the_version_is_looked_at() {
    for ihl in 0u8..5 {
        let mut packet = [0u8; 20];
        packet[0] = 0x40 | ihl;
        assert_eq!(
            IPv4::new(&packet).err(),
            Some(Error::InvalidIhl(IhlError::InvalidIhl(ihl)))
        );
        packet[0] = 0x50 | ihl;
        assert_eq!(
            IPv4::new(&packet).err(),
            Some(Error::InvalidIhl(IhlError::InvalidIhl(ihl)))
        );
    }
}

#[test]
fn ipv4_size_table() {
    for ihl in 0u8..=255 {
        let r = IPv4Size::try_from_ihl_u8(ihl);
        if (5..=15).contains(&ihl) {
            assert_eq!(r.unwrap().as_usize(), 4 * usize::from(ihl));
        } else {
            assert_eq!(r, Err(IhlError::InvalidIhl(ihl)));
        }
    }
    assert_eq!(IPv4Size::try_from_ihl_u8(5), Ok(IPv4Size::S20));
    assert_eq!(IPv4Size::try_from_ihl_u8(15), Ok(IPv4Size::S60));
    assert!(IPv4Size::S20 < IPv4Size::S24);
    assert!(IPv4Size::S56 < IPv4Size::S60);
    assert_eq!(IPv4::MIN_LEN, 20);
    assert_eq!(IPv4::MAX_LEN, 60);
    assert_eq!(Error::from(IhlError::InvalidIhl(3)), Error::InvalidIhl(IhlError::InvalidIhl(3)));
}

#[test]
fn checksum_of_known_header() {
    let (ip, _) = IPv4::new(&HEADER).ok().unwrap();
    assert_eq!(ip.calc_csum(), 0xb861);
    let mut zeroed = HEADER;
    zeroed[10] = 0;
    zeroed[11] = 0;
    let (ip, _) = IPv4::new(&zeroed).ok().unwrap();
    assert_eq!(ip.calc_csum(), 0xb861);
    let mut garbage = HEADER;
    garbage[10] = 0x12;
    garbage[11] = 0x34;
    let (ip, _) = IPv4::new(&garbage).ok().unwrap();
    assert_eq!(ip.calc_csum(), 0xb861);
}

#[test]
fn checksum_covers_every_bit_outside_its_field() {
    let mut packet = HEADER;
    packet[6] = 0x80;
    let (ip, _) = IPv4::new(&packet).ok().unwrap();
    assert_eq!(ip.calc_csum(), 0x7861);
}

#[test]
fn update_csum_makes_the_header_sum_to_zero() {
    for seed in 0u8..50 {
        let mut packet = [0u8; 28];
        for (i, byte) in packet.iter_mut().enumerate() {
            *byte = seed.wrapping_mul(31).wrapping_add((i as u8).wrapping_mul(17));
        }
        packet[0] = 0x47;
        let (mut ip, rem) = IPv4::new_mut(&mut packet).ok().unwrap();
        assert!(rem.is_empty());
        let expected = ip.calc_csum();
        ip.update_csum();
        assert_eq!(ip.csum(), expected);
        assert_eq!(ip.calc_csum(), expected);
        assert_eq!(checksum(ip.slice()), 0);
        ip.update_csum();
        assert_eq!(ip.csum(), expected);
    }
}

#[test]
fn update_csum_writes_the_known_checksum() {
    let mut packet = HEADER;
    packet[10] = 0;
    packet[11] = 0;
    {
        let (mut ip, _) = IPv4::new_mut(&mut packet).ok().unwrap();
        ip.update_csum();
    }
    assert_eq!(packet, HEADER);
}

#[test]
fn set_csum_writes_what_it_is_given() {
    let mut packet = HEADER;
    let (mut ip, _) = IPv4::new_mut(&mut packet).ok().unwrap();
    for value in [0u16, 1, 0x00ff, 0x0100, 0x1234, 0xfffe, 0xffff] {
        ip.set_csum(value);
        assert_eq!(ip.csum(), value);
        assert_eq!(ip.calc_csum(), 0xb861);
    }
    ip.set_csum(0xabcd);
    assert_eq!(&ip.slice()[10..12], &[0xab, 0xcd]);
}

#[test]
fn ipv4_fields_read_back_what_was_set() {
    let mut packet = HEADER_WITH_OPTIONS;
    let (mut ip, _) = IPv4::new_mut(&mut packet).ok().unwrap();
    for value in [0u32, 1, 0x0102_0304, 0x7fff_ffff, 0x8000_0000, 0xffff_ffff] {
        ip.set_source_u32(value);
        assert_eq!(ip.source_u32(), value);
        assert_eq!(ip.source(), &value.to_be_bytes());
        ip.set_destination_u32(!value);
        assert_eq!(ip.destination_u32(), !value);
        assert_eq!(ip.source_u32(), value);
    }
    ip.set_source(&[10, 0, 0, 7]);
    ip.set_destination(&[10, 0, 0, 8]);
    assert_eq!(ip.source(), &[10, 0, 0, 7]);
    assert_eq!(ip.destination(), &[10, 0, 0, 8]);
    assert_eq!(ip.source_u32(), 0x0a00_0007);
    for value in [0u16, 1, 0x00ff, 0x0100, 0x8000, 0xffff] {
        ip.set_total_length_u16(value);
        assert_eq!(ip.total_length(), value);
        assert_eq!(ip.total_length_u16(), value);
    }
    ip.set_total_length(&[0x12, 0x34]);
    assert_eq!(ip.total_length(), 0x1234);
    assert_eq!(ip.get_total_length(), &[0x12, 0x34]);
    for number in 0u8..=255 {
        ip.set_protocol(InetProtocol::from(number));
        assert_eq!(ip.protocol_u8(), number);
        assert_eq!(ip.protocol(), InetProtocol::from(number));
    }
    ip.set_protocol(InetProtocol::TCP);
    assert_eq!(ip.protocol_u8(), 6);
    assert_eq!(ip.identification(), 1);
    assert_eq!(ip.ttl(), 1);
    assert_eq!(ip.options(), &[0x94, 0x04, 0x00, 0x00]);
    assert_eq!(ip.size(), IPv4Size::S24);
}

#[test]
fn dscp_and_ecn_do_not_disturb_each_other() {
    let mut packet = HEADER;
    let (mut ip, _) = IPv4::new_mut(&mut packet).ok().unwrap();
    for dscp in 0u8..=0x3f {
        for ecn in 0u8..=3 {
            ip.set_dscp(dscp);
            ip.set_ecn(ecn);
            assert_eq!(ip.dscp(), dscp);
            assert_eq!(ip.ecn(), ecn);
            ip.set_ecn(3 - ecn);
            assert_eq!(ip.dscp(), dscp);
            assert_eq!(ip.ecn(), 3 - ecn);
            ip.set_dscp(0x3f - dscp);
            assert_eq!(ip.dscp(), 0x3f - dscp);
            assert_eq!(ip.ecn(), 3 - ecn);
        }
    }
    ip.set_dscp(0x3f);
    ip.set_ecn(0);
    assert_eq!(ip.slice()[1], 0xfc);
    ip.set_dscp(0);
    ip.set_ecn(3);
    assert_eq!(ip.slice()[1], 0x03);
    ip.set_ecn(1);
    assert_eq!(ip.ecn(), 1);
    ip.set_dscp(0x2a);
    ip.set_dscp(0x15);
    assert_eq!(ip.dscp(), 0x15);
    assert_eq!(ip.ecn(), 1);
}

#[test]
fn oversized_dscp_and_ecn_keep_their_low_bits_only() {
    let mut packet = HEADER;
    let (mut ip, _) = IPv4::new_mut(&mut packet).ok().unwrap();
    ip.set_dscp(0x15);
    ip.set_ecn(0xfe);
    assert_eq!(ip.ecn(), 2);
    assert_eq!(ip.dscp(), 0x15);
    ip.set_dscp(0xff);
    assert_eq!(ip.dscp(), 0x3f);
    assert_eq!(ip.ecn(), 2);
}

#[test]
fn flags_and_fragment_offset() {
    let mut packet = HEADER;
    packet[6] = 0b0011_0101;
    packet[7] = 0xa7;
    let (ip, _) = IPv4::new(&packet).ok().unwrap();
    assert!(!ip.dont_fragment());
    assert!(ip.more_fragments());
    assert_eq!(ip.fragment_offset(), [0b1_0101, 0xa7]);
    packet[6] = 0b1101_1111;
    let (ip, _) = IPv4::new(&packet).ok().unwrap();
    assert!(ip.dont_fragment());
    assert!(!ip.more_fragments());
    assert_eq!(ip.fragment_offset(), [0x1f, 0xa7]);
}

#[test]
fn writing_the_length_field_does_not_resize_the_view() {
    let mut packet = [0u8; 60];
    packet[0] = 0x46;
    let (mut ip, rem) = IPv4::new_mut(&mut packet).ok().unwrap();
    assert_eq!(rem.len(), 36);
    ip.slice_mut()[0] = 0x4f;
    assert_eq!(ip.ihl_u8(), 15);
    assert_eq!(ip.calc_size(), Ok(IPv4Size::S60));
    assert_eq!(ip.size(), IPv4Size::S24);
    assert_eq!(ip.slice().len(), 24);
    assert_eq!(ip.options().len(), 4);
    ip.slice_mut()[0] = 0x42;
    assert_eq!(ip.calc_size(), Err(IhlError::InvalidIhl(2)));
    assert_eq!(ip.size(), IPv4Size::S24);
}

#[test]
fn incremental_update_matches_full_recomputation() {
    let mut packet = HEADER;
    let (mut ip, _) = IPv4::new_mut(&mut packet).ok().unwrap();
    let old_csum = ip.csum();
    let old_source = ip.source_u32();
    assert_eq!(old_csum, ip.calc_csum());

    let diff = csum_diff(old_source, 0x0a00_0007, u32::from(!old_csum));
    assert_eq!(diff, 102650);
    ip.set_source_u32(0x0a00_0007);
    assert_eq!(csum_fold_helper(diff), 0x6f04);
    assert_eq!(ip.calc_csum(), 0x6f04);

    let wide = csum_diff(old_source, 0x0a00_0007, !u32::from(old_csum));
    assert_eq!(csum_fold_helper(wide), 0x6f04);
}

#[test]
fn incremental_update_of_a_16_bit_word() {
    let mut packet = HEADER;
    let (mut ip, _) = IPv4::new_mut(&mut packet).ok().unwrap();
    let old_csum = ip.calc_csum();
    let old_word = u32::from(u16::from_be_bytes([ip.ttl(), ip.protocol_u8()]));
    assert_eq!(old_word, 0x4011);
    ip.slice_mut()[8] = 0x3f;
    let diff = csum_diff(old_word, 0x3f11, u32::from(!old_csum));
    assert_eq!(csum_fold_helper(diff), 0xb961);
    assert_eq!(ip.calc_csum(), 0xb961);
}

#[test]
fn incremental_update_over_many_rewrites() {
    let mut packet = HEADER_WITH_OPTIONS;
    let (mut ip, _) = IPv4::new_mut(&mut packet).ok().unwrap();
    ip.update_csum();
    let mut address: u32 = 0x0102_0304;
    for round in 0u32..200 {
        let old_csum = ip.csum();
        let old = ip.destination_u32();
        address = address.wrapping_mul(1_103_515_245).wrapping_add(12345 + round);
        ip.set_destination_u32(address);
        let updated = csum_fold_helper(csum_diff(old, address, u32::from(!old_csum)));
        assert_eq!(updated, ip.calc_csum());
        ip.set_csum(updated);
        assert_eq!(checksum(ip.slice()), 0);
    }
}
