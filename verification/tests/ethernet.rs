use packet_views::link::eth::{Error, EtherSize};
use packet_views::link::{EtherType, Ethernet};

#[test]
fn create_mut() {
    let mut packet = [
        0x00, 0x00, 0x00, 0x00, 0x00, 0x00, 0x01, 0x01, 0x01, 0x01, 0x01, 0x01, 0x08, 0x00,
    ];
    let (mut eth, rem) = Ethernet::new_mut(&mut packet).unwrap();

    assert_eq!(rem.len(), 0);
    assert_eq!(eth.destination(), &[0x00, 0x00, 0x00, 0x00, 0x00, 0x00]);
    assert_eq!(eth.source(), &[0x01, 0x01, 0x01, 0x01, 0x01, 0x01]);
    assert_eq!(eth.ethertype(), EtherType::IPv4);

    eth.set_source(&[0x02, 0x02, 0x02, 0x02, 0x02, 0x02]);
    eth.set_destination(&[0x01, 0x02, 0x03, 0x04, 0x05, 0x06]);

    assert_eq!(eth.source(), &[0x02, 0x02, 0x02, 0x02, 0x02, 0x02]);
    assert_eq!(eth.destination(), &[0x01, 0x02, 0x03, 0x04, 0x05, 0x06]);
}

#[test]
fn create_ref() {
    let packet = [
        0x00, 0x00, 0x00, 0x00, 0x00, 0x00, 0x01, 0x01, 0x01, 0x01, 0x01, 0x01, 0x08, 0x00,
    ];
    let (eth, rem) = Ethernet::new(&packet).unwrap();

    assert_eq!(rem.len(), 0);
    assert_eq!(eth.size(), EtherSize::S14);
    assert_eq!(eth.destination(), &[0x00, 0x00, 0x00, 0x00, 0x00, 0x00]);
    assert_eq!(eth.source(), &[0x01, 0x01, 0x01, 0x01, 0x01, 0x01]);
    assert_eq!(eth.ethertype(), EtherType::IPv4);
}

#[test]
fn vlan_tagged() {
    let packet = [
        0x00, 0x00, 0x00, 0x00, 0x00, 0x00, 0x01, 0x01, 0x01, 0x01, 0x01, 0x01, 0x81, 0x00,
        0x08, 0x00,
    ];
    let (eth, rem) = Ethernet::new(&packet).unwrap();

    assert_eq!(rem.len(), 0);
    assert_eq!(eth.size(), EtherSize::S16);
    assert_eq!(eth.destination(), &[0x00, 0x00, 0x00, 0x00, 0x00, 0x00]);
    assert_eq!(eth.source(), &[0x01, 0x01, 0x01, 0x01, 0x01, 0x01]);
    assert_eq!(eth.ethertype(), EtherType::IPv4);
}

#[test]
fn double_vlan_tagged() {
    let packet = [
        0x00, 0x00, 0x00, 0x00, 0x00, 0x00, 0x01, 0x01, 0x01, 0x01, 0x01, 0x01, 0x91, 0x00,
        0x81, 0x00, 0x08, 0x00,
    ];
    let (eth, rem) = Ethernet::new(&packet).unwrap();

    assert_eq!(rem.len(), 0);
    assert_eq!(eth.size(), EtherSize::S18);
    assert_eq!(eth.destination(), &[0x00, 0x00, 0x00, 0x00, 0x00, 0x00]);
    assert_eq!(eth.source(), &[0x01, 0x01, 0x01, 0x01, 0x01, 0x01]);
    assert_eq!(eth.ethertype(), EtherType::IPv4);
}

#[test]
fn change_ehertype() {
    let mut packet = [
        0x00, 0x00, 0x00, 0x00, 0x00, 0x00, 0x01, 0x01, 0x01, 0x01, 0x01, 0x01, 0x81, 0x00,
        0x08, 0x00,
    ];
    let (mut eth, rem) = Ethernet::new_mut(&mut packet).unwrap();

    assert_eq!(rem.len(), 0);
    assert_eq!(eth.size(), EtherSize::S16);
    assert_eq!(eth.destination(), &[0x00, 0x00, 0x00, 0x00, 0x00, 0x00]);
    assert_eq!(eth.source(), &[0x01, 0x01, 0x01, 0x01, 0x01, 0x01]);
    assert_eq!(eth.ethertype(), EtherType::IPv4);

    eth.set_ethertype(EtherType::Arp);

    assert_eq!(eth.size(), EtherSize::S16);
    assert_eq!(eth.destination(), &[0x00, 0x00, 0x00, 0x00, 0x00, 0x00]);
    assert_eq!(eth.source(), &[0x01, 0x01, 0x01, 0x01, 0x01, 0x01]);
    assert_eq!(eth.ethertype(), EtherType::Arp);
}

fn frame(tail: &[u8]) -> Vec<u8> {
    let mut bytes = vec![
        0xaa, 0xbb, 0xcc, 0xdd, 0xee, 0xff, 0x01, 0x02, 0x03, 0x04, 0x05, 0x06,
    ];
    bytes.extend_from_slice(tail);
    bytes
}

#[test]
fn untagged_frame_measures_14() {
    let packet = frame(&[0x08, 0x00, 0x45, 0x00]);
    let (eth, rem) = Ethernet::new(&packet).unwrap();
    assert_eq!(eth.size(), EtherSize::S14);
    assert_eq!(eth.size_usize(), 14);
    assert_eq!(eth.slice(), &packet[..14]);
    assert_eq!(rem, &[0x45, 0x00]);
    assert_eq!(eth.ethertype(), EtherType::IPv4);
    assert_eq!(eth.destination(), &[0xaa, 0xbb, 0xcc, 0xdd, 0xee, 0xff]);
    assert_eq!(eth.source(), &[0x01, 0x02, 0x03, 0x04, 0x05, 0x06]);
}

#[test]
fn single_tag_reads_ethertype_behind_the_tag() {
    let packet = frame(&[0x81, 0x00, 0x86, 0xdd, 0x60]);
    let (eth, rem) = Ethernet::new(&packet).unwrap();
    assert_eq!(eth.size(), EtherSize::S16);
    assert_eq!(eth.size_usize(), 16);
    assert_eq!(eth.ethertype(), EtherType::IPv6);
    assert_eq!(rem, &[0x60]);
}

#[test]
fn double_tag_measures_18() {
    let packet = frame(&[0x91, 0x00, 0x81, 0x00, 0x08, 0x06, 0x00, 0x01]);
    let (eth, rem) = Ethernet::new(&packet).unwrap();
    assert_eq!(eth.size(), EtherSize::S18);
    assert_eq!(eth.size_usize(), 18);
    assert_eq!(eth.ethertype(), EtherType::Arp);
    assert_eq!(rem, &[0x00, 0x01]);
}

#[test]
fn unknown_ethertype_is_an_untagged_frame() {
    let packet = frame(&[0x12, 0x34]);
    let (eth, rem) = Ethernet::new(&packet).unwrap();
    assert_eq!(eth.size(), EtherSize::S14);
    assert_eq!(eth.ethertype(), EtherType::Other(0x1234));
    assert!(rem.is_empty());
}

#[test]
fn provider_bridging_is_not_measured_as_a_tag() {
    let packet = frame(&[0x88, 0xa8, 0x00, 0x01, 0x08, 0x00]);
    let (eth, rem) = Ethernet::new(&packet).unwrap();
    assert_eq!(eth.size(), EtherSize::S14);
    assert_eq!(eth.ethertype(), EtherType::ProviderBridging);
    assert_eq!(rem.len(), 4);
}

#[test]
fn short_buffer_is_wrong_size() {
    let packet = [0u8; 13];
    assert_eq!(Ethernet::new(&packet).err(), Some(Error::WrongSize(13)));
    let empty: [u8; 0] = [];
    assert_eq!(Ethernet::new(&empty).err(), Some(Error::WrongSize(0)));
    let mut packet = [0u8; 13];
    assert_eq!(Ethernet::new_mut(&mut packet).err(), Some(Error::WrongSize(13)));
}

#[test]
fn tag_without_room_is_wrong_size_for_type() {
    let packet = frame(&[0x81, 0x00]);
    assert_eq!(
        Ethernet::new(&packet).err(),
        Some(Error::WrongSizeForType(EtherType::VlanTaggedFrame, 14))
    );
    let packet = frame(&[0x81, 0x00, 0x08]);
    assert_eq!(
        Ethernet::new(&packet).err(),
        Some(Error::WrongSizeForType(EtherType::VlanTaggedFrame, 15))
    );
    let packet = frame(&[0x91, 0x00, 0x81, 0x00, 0x08]);
    assert_eq!(
        Ethernet::new(&packet).err(),
        Some(Error::WrongSizeForType(EtherType::VlanDoubleTaggedFrame, 17))
    );
    let mut packet = frame(&[0x91, 0x00]);
    assert_eq!(
        Ethernet::new_mut(&mut packet).err(),
        Some(Error::WrongSizeForType(EtherType::VlanDoubleTaggedFrame, 14))
    );
}

#[test]
fn new_min_takes_14_bytes_without_looking() {
    let mut packet = frame(&[0x81, 0x00, 0x08, 0x00]);
    let (eth, rem) = Ethernet::new_min(&mut packet);
    assert_eq!(eth.size(), EtherSize::S14);
    assert_eq!(eth.ethertype(), EtherType::VlanTaggedFrame);
    assert_eq!(rem, &[0x08, 0x00]);
}

#[test]
fn setters_write_through_to_the_buffer() {
    let mut packet = frame(&[0x81, 0x00, 0x08, 0x00, 0x99]);
    {
        let (mut eth, rem) = Ethernet::new_mut(&mut packet).unwrap();
        eth.set_destination(&[1, 2, 3, 4, 5, 6]);
        eth.set_source(&[7, 8, 9, 10, 11, 12]);
        eth.set_ethertype(EtherType::Other(0xbeef));
        assert_eq!(eth.ethertype(), EtherType::Other(0xbeef));
        assert_eq!(eth.size(), EtherSize::S16);
        rem[0] = 0x77;
    }
    assert_eq!(
        packet,
        vec![1, 2, 3, 4, 5, 6, 7, 8, 9, 10, 11, 12, 0x81, 0x00, 0xbe, 0xef, 0x77]
    );
}

#[test]
fn set_ethertype_on_untagged_frame_does_not_resize() {
    let mut packet = frame(&[0x08, 0x00, 0x45, 0x00, 0x00, 0x00]);
    let (mut eth, rem) = Ethernet::new_mut(&mut packet).unwrap();
    eth.set_ethertype(EtherType::VlanDoubleTaggedFrame);
    assert_eq!(eth.size(), EtherSize::S14);
    assert_eq!(eth.slice().len(), 14);
    assert_eq!(eth.ethertype(), EtherType::VlanDoubleTaggedFrame);
    assert_eq!(rem.len(), 4);
}

#[test]
fn slice_mut_gives_the_header_bytes() {
    let mut packet = frame(&[0x08, 0x00, 0x45]);
    let (mut eth, _rem) = Ethernet::new_mut(&mut packet).unwrap();
    assert_eq!(eth.slice_mut().len(), 14);
    eth.slice_mut()[13] = 0x06;
    assert_eq!(eth.ethertype(), EtherType::Arp);
    assert_eq!(eth.size(), EtherSize::S14);
}

#[test]
fn ethertype_numbers_round_trip() {
    let named = [
        (0x0800u16, EtherType::IPv4),
        (0x86dd, EtherType::IPv6),
        (0x0806, EtherType::Arp),
        (0x0842, EtherType::WakeOnLan),
        (0x8100, EtherType::VlanTaggedFrame),
        (0x88a8, EtherType::ProviderBridging),
        (0x9100, EtherType::VlanDoubleTaggedFrame),
    ];
    for (number, ethertype) in named {
        assert_eq!(EtherType::from(number), ethertype);
        assert_eq!(u16::from(ethertype), number);
    }
    for number in 0..=u16::MAX {
        assert_eq!(u16::from(EtherType::from(number)), number);
    }
    assert_eq!(EtherType::from(0x0801), EtherType::Other(0x0801));
    assert_eq!(u16::from(EtherType::Other(7)), 7);
}

#[test]
fn ethertype_from_bytes() {
    assert_eq!(EtherType::from([0x08, 0x06]), EtherType::Arp);
    assert_eq!(EtherType::from([0x06, 0x08]), EtherType::Other(0x0608));
    let bytes: &[u8] = &[0x86, 0xdd, 0x01];
    assert_eq!(EtherType::try_from(bytes), Ok(EtherType::IPv6));
    let short: &[u8] = &[0x86];
    assert_eq!(EtherType::try_from(short), Err(()));
    let none: &[u8] = &[];
    assert_eq!(EtherType::try_from(none), Err(()));
}

#[test]
fn ether_sizes_are_ordered_by_length() {
    assert!(EtherSize::S14 < EtherSize::S16);
    assert!(EtherSize::S16 < EtherSize::S18);
    assert_eq!(EtherSize::S14.as_usize(), 14);
    assert_eq!(EtherSize::S16.as_usize(), 16);
    assert_eq!(EtherSize::S18.as_usize(), 18);
    assert_eq!(Ethernet::MIN_LEN, 14);
    assert_eq!(Ethernet::MAX_LEN, 18);
}

#[test]
fn older_ethernet_accessor_names_read_the_same_fields() {
    let packet = frame(&[0x81, 0x00, 0x08, 0x06]);
    let (eth, _) = Ethernet::new(&packet).unwrap();
    assert_eq!(eth.get_destination(), eth.destination());
    assert_eq!(eth.get_destination(), &[0xaa, 0xbb, 0xcc, 0xdd, 0xee, 0xff]);
    assert_eq!(eth.get_source(), &[0x01, 0x02, 0x03, 0x04, 0x05, 0x06]);
    assert_eq!(eth.get_ethertype(), EtherType::Arp);
    assert_eq!(eth.get_size(), EtherSize::S16);
    assert_eq!(eth.get_size_usize(), 16);
}
