use packet_views::link::{EtherType, Ethernet};
use packet_views::network::{IPv4, InetProtocol};
use packet_views::transport::{Tcp, Udp};

fn tcp_frame(tags: &[u8], ip_options: &[u8], tcp_options: &[u8], payload: &[u8]) -> Vec<u8> {
    let mut frame = vec![
        0xaa, 0xbb, 0xcc, 0xdd, 0xee, 0xff, 0x01, 0x02, 0x03, 0x04, 0x05, 0x06,
    ];
    frame.extend_from_slice(tags);
    frame.extend_from_slice(&[0x08, 0x00]);
    let ihl = 5 + (ip_options.len() / 4) as u8;
    frame.extend_from_slice(&[
        0x40 | ihl, 0x00, 0x00, 0x00, 0x00, 0x01, 0x00, 0x00, 0x40, 0x06, 0x00, 0x00, 10, 0, 0,
        1, 10, 0, 0, 2,
    ]);
    frame.extend_from_slice(ip_options);
    let offset = 5 + (tcp_options.len() / 4) as u8;
    frame.extend_from_slice(&[
        0x04, 0xd2, 0x00, 0x50, 0, 0, 0, 1, 0, 0, 0, 0, offset << 4, 0x02, 0xff, 0xff, 0, 0, 0,
        0,
    ]);
    frame.extend_from_slice(tcp_options);
    frame.extend_from_slice(payload);
    frame
}

#[test]
fn headers_parsed_in_turn_partition_the_frame() {
    let cases: [(&[u8], &[u8], &[u8], &[u8]); 4] = [
        (&[], &[], &[], b"payload"),
        (&[0x81, 0x00], &[1, 1, 1, 1], &[], b""),
        (&[0x91, 0x00, 0x81, 0x00], &[], &[2, 4, 5, 0xb4, 1, 1, 1, 1], b"x"),
        (&[], &[0; 40], &[0; 40], &[0x55; 100]),
    ];
    for (tags, ip_options, tcp_options, payload) in cases {
        let frame = tcp_frame(tags, ip_options, tcp_options, payload);
        let (eth, rest) = Ethernet::new(&frame).unwrap();
        assert_eq!(eth.ethertype(), EtherType::IPv4);
        let (ip, rest) = IPv4::new(rest).ok().unwrap();
        assert_eq!(ip.protocol(), InetProtocol::TCP);
        let (tcp, rest) = Tcp::new(rest).ok().unwrap();

        let e = eth.size_usize();
        let i = ip.size().as_usize();
        let t = tcp.size().as_usize();
        assert_eq!(e, 14 + tags.len());
        assert_eq!(i, 20 + ip_options.len());
        assert_eq!(t, 20 + tcp_options.len());
        assert_eq!(e + i + t + rest.len(), frame.len());
        assert_eq!(eth.slice(), &frame[..e]);
        assert_eq!(ip.slice(), &frame[e..e + i]);
        assert_eq!(tcp.slice(), &frame[e + i..e + i + t]);
        assert_eq!(rest, payload);
        assert_eq!(ip.options(), ip_options);
        assert_eq!(tcp.options(), tcp_options);
    }
}

#[test]
fn writable_views_of_one_frame_write_to_their_own_bytes() {
    let mut frame = tcp_frame(&[0x91, 0x00, 0x81, 0x00], &[], &[1, 1, 1, 1], b"abc");
    let untouched = frame.clone();
    {
        let (mut eth, rest) = Ethernet::new_mut(&mut frame).unwrap();
        let (mut ip, rest) = IPv4::new_mut(rest).ok().unwrap();
        let (mut tcp, payload) = Tcp::new_mut(rest).ok().unwrap();
        eth.set_source(&[9, 9, 9, 9, 9, 9]);
        ip.set_destination_u32(0x0a00_0063);
        let source = *ip.source();
        let destination = *ip.destination();
        let csum = tcp.calc_checksum_ipv4_raw(source, destination, payload).unwrap();
        tcp.set_csum(csum);
        ip.update_csum();
        payload[0] = b'z';
    }
    let ip = 18;
    let tcp = ip + 20;
    let payload = tcp + 24;
    assert_eq!(frame.len(), payload + 3);
    assert_eq!(&frame[0..6], &untouched[0..6]);
    assert_eq!(&frame[6..12], &[9, 9, 9, 9, 9, 9]);
    assert_eq!(&frame[12..ip + 10], &untouched[12..ip + 10]);
    assert_eq!(&frame[ip + 10..ip + 12], &[0x66, 0x94]);
    assert_eq!(&frame[ip + 12..ip + 16], &untouched[ip + 12..ip + 16]);
    assert_eq!(&frame[ip + 16..ip + 20], &[10, 0, 0, 0x63]);
    assert_eq!(&frame[tcp..tcp + 16], &untouched[tcp..tcp + 16]);
    assert_eq!(&frame[tcp + 16..tcp + 18], &[0xbf, 0xf0]);
    assert_eq!(&frame[tcp + 18..payload], &untouched[tcp + 18..payload]);
    assert_eq!(&frame[payload..], b"zbc");
    assert_eq!(frame.len(), untouched.len());
}

#[test]
fn udp_behind_ipv4() {
    let mut frame = vec![
        0xaa, 0xbb, 0xcc, 0xdd, 0xee, 0xff, 0x01, 0x02, 0x03, 0x04, 0x05, 0x06, 0x08, 0x00,
    ];
    frame.extend_from_slice(&[
        0x45, 0, 0, 32, 0, 0, 0, 0, 64, 17, 0, 0, 10, 0, 0, 1, 10, 0, 0, 2,
    ]);
    frame.extend_from_slice(&[0x00, 0x35, 0x80, 0x00, 0x00, 0x0c, 0x00, 0x00]);
    frame.extend_from_slice(b"data");
    let (_, rest) = Ethernet::new_mut(&mut frame).unwrap();
    let (ip, rest) = IPv4::new_mut(rest).ok().unwrap();
    assert_eq!(ip.protocol(), InetProtocol::UDP);
    let (udp, payload) = Udp::new(rest).ok().unwrap();
    assert_eq!(udp.source(), 53);
    assert_eq!(udp.destination(), 0x8000);
    assert_eq!(udp.length(), 12);
    assert_eq!(payload, b"data");
}
