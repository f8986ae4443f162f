use packet_views::transport::udp::Error;
use packet_views::transport::Udp;

#[test]
fn header_of_8_bytes() {
    let mut datagram = [0x00, 0x35, 0xc0, 0x01, 0x00, 0x0c, 0xab, 0xcd, 1, 2, 3, 4];
    let (udp, rem) = Udp::new(&mut datagram).ok().unwrap();
    assert_eq!(udp.source(), 53);
    assert_eq!(udp.destination(), 0xc001);
    assert_eq!(udp.length(), 12);
    assert_eq!(udp.checksum(), &[0xab, 0xcd]);
    assert_eq!(rem, &[1, 2, 3, 4]);
    assert_eq!(Udp::SIZE, 8);
}

#[test]
fn exactly_8_bytes_leave_nothing() {
    let mut datagram = [0u8; 8];
    let (_, rem) = Udp::new(&mut datagram).ok().unwrap();
    assert!(rem.is_empty());
}

#[test]
fn short_buffer_is_invalid_length() {
    for len in 0usize..8 {
        let mut datagram = vec![0u8; len];
        assert_eq!(Udp::new(&mut datagram).err(), Some(Error::InvalidLength(len)));
    }
}

#[test]
fn udp_fields_read_back_what_was_set() {
    let mut datagram = [0u8; 9];
    {
        let (mut udp, rem) = Udp::new(&mut datagram).ok().unwrap();
        for value in [0u16, 1, 0x00ff, 0x0100, 0x7fff, 0x8000, 0xffff] {
            udp.set_source(value);
            udp.set_destination(!value);
            udp.set_length(value ^ 0x5555);
            udp.set_checksum(value ^ 0xaaaa);
            assert_eq!(udp.source(), value);
            assert_eq!(udp.destination(), !value);
            assert_eq!(udp.length(), value ^ 0x5555);
            assert_eq!(udp.checksum(), &(value ^ 0xaaaa).to_be_bytes());
        }
        udp.set_source(0x1234);
        udp.set_destination(0x5678);
        udp.set_length(0x9abc);
        udp.set_checksum(0xdef0);
        rem[0] = 0x11;
    }
    assert_eq!(datagram, [0x12, 0x34, 0x56, 0x78, 0x9a, 0xbc, 0xde, 0xf0, 0x11]);
}

#[test]
fn checksum_can_be_set_to_zero() {
    let mut datagram = [0xffu8; 8];
    let (mut udp, _) = Udp::new(&mut datagram).ok().unwrap();
    udp.set_checksum_zero();
    assert_eq!(udp.checksum(), &[0, 0]);
    assert_eq!(udp.source(), 0xffff);
    assert_eq!(udp.destination(), 0xffff);
    assert_eq!(udp.length(), 0xffff);
}
