use libnet::codec::{
    build_packet_v4, build_packet_v6, build_response_packet, to_address_v4, to_address_v6,
    GenericIpPacket, IpHeader, Ipv4Fields, Ipv6Fields, MAX_FLOW_LABEL, MAX_UDP_PAYLOAD_V4,
    MAX_UDP_PAYLOAD_V6,
};

const SRC4: [u8; 4] = [10, 0, 0, 2];
const DST4: [u8; 4] = [10, 0, 0, 1];

fn src6() -> [u8; 16] {
    [1, 2, 3, 4, 5, 6, 7, 8, 9, 10, 11, 12, 13, 14, 15, 16]
}

fn dst6() -> [u8; 16] {
    [17, 18, 19, 20, 21, 22, 23, 24, 25, 26, 27, 28, 29, 30, 31, 32]
}

#[test]
fn build_v4_writes_the_expected_bytes() {
    let packet = build_packet_v4(&SRC4, 54321, &DST4, 53, 64, 0x1234, &[1, 2, 3]).unwrap();
    let expected: Vec<u8> = vec![
        69, 0, 0, 31, 18, 52, 64, 0, 64, 17, 20, 152, 10, 0, 0, 2, 10, 0, 0, 1, 212, 49, 0, 53, 0,
        11, 19, 109, 1, 2, 3,
    ];
    assert_eq!(packet, expected);
}

#[test]
fn build_v6_writes_the_expected_bytes() {
    let packet =
        build_packet_v6(&src6(), 4000, &dst6(), 53, 0x12, 0x54321, 33, &[1, 2, 3]).unwrap();
    let expected: Vec<u8> = vec![
        97, 37, 67, 33, 0, 11, 17, 33, 1, 2, 3, 4, 5, 6, 7, 8, 9, 10, 11, 12, 13, 14, 15, 16, 17,
        18, 19, 20, 21, 22, 23, 24, 25, 26, 27, 28, 29, 30, 31, 32, 15, 160, 0, 53, 0, 11, 234,
        240, 1, 2, 3,
    ];
    assert_eq!(packet, expected);
}

#[test]
fn round_trip_v4() {
    let payload: Vec<u8> = (0..200u16).map(|i| (i % 251) as u8).collect();
    let packet = build_packet_v4(&SRC4, 54321, &DST4, 53, 17, 0xBEEF, &payload).unwrap();
    assert_eq!(packet.len(), 28 + payload.len());
    let parsed = GenericIpPacket::from_array(&packet).unwrap();
    assert_eq!(
        parsed.net,
        IpHeader::V4(Ipv4Fields {
            source: SRC4,
            destination: DST4,
            time_to_live: 17,
            identification: 0xBEEF,
        })
    );
    let udp = parsed.get_udp_packet().unwrap();
    assert_eq!(udp.source_port, 54321);
    assert_eq!(udp.destination_port, 53);
    assert_eq!(udp.payload, payload);
}

#[test]
fn round_trip_v6() {
    let payload: Vec<u8> = vec![9; 77];
    let packet =
        build_packet_v6(&src6(), 1, &dst6(), 65535, 0xAB, MAX_FLOW_LABEL, 255, &payload).unwrap();
    assert_eq!(packet.len(), 48 + payload.len());
    let parsed = GenericIpPacket::from_array(&packet).unwrap();
    assert_eq!(
        parsed.net,
        IpHeader::V6(Ipv6Fields {
            source: src6(),
            destination: dst6(),
            traffic_class: 0xAB,
            flow_label: MAX_FLOW_LABEL,
            hop_limit: 255,
        })
    );
    let udp = parsed.get_udp_packet().unwrap();
    assert_eq!(udp.source_port, 1);
    assert_eq!(udp.destination_port, 65535);
    assert_eq!(udp.payload, payload);
}

#[test]
fn round_trip_empty_payload() {
    let packet = build_packet_v4(&SRC4, 0, &DST4, 0, 0, 0, &[]).unwrap();
    assert_eq!(packet.len(), 28);
    let parsed = GenericIpPacket::from_array(&packet).unwrap();
    assert_eq!(parsed.get_udp_packet().unwrap().payload, Vec::<u8>::new());
    let packet = build_packet_v6(&src6(), 0, &dst6(), 0, 0, 0, 0, &[]).unwrap();
    assert_eq!(packet.len(), 48);
    let parsed = GenericIpPacket::from_array(&packet).unwrap();
    assert_eq!(parsed.get_udp_packet().unwrap().payload, Vec::<u8>::new());
}

#[test]
fn build_v4_payload_limit() {
    let largest = vec![0u8; MAX_UDP_PAYLOAD_V4];
    let packet = build_packet_v4(&SRC4, 1, &DST4, 2, 3, 4, &largest).unwrap();
    assert_eq!(packet.len(), 65535);
    let parsed = GenericIpPacket::from_array(&packet).unwrap();
    assert_eq!(parsed.get_udp_packet().unwrap().payload.len(), MAX_UDP_PAYLOAD_V4);
    let too_large = vec![0u8; MAX_UDP_PAYLOAD_V4 + 1];
    assert!(build_packet_v4(&SRC4, 1, &DST4, 2, 3, 4, &too_large).is_none());
    let wraps_around = vec![0u8; 65536 + 4];
    assert!(build_packet_v4(&SRC4, 1, &DST4, 2, 3, 4, &wraps_around).is_none());
}

#[test]
fn build_v6_payload_limit() {
    let largest = vec![0u8; MAX_UDP_PAYLOAD_V6];
    let packet = build_packet_v6(&src6(), 1, &dst6(), 2, 3, 4, 5, &largest).unwrap();
    assert_eq!(packet.len(), 48 + MAX_UDP_PAYLOAD_V6);
    let parsed = GenericIpPacket::from_array(&packet).unwrap();
    assert_eq!(parsed.get_udp_packet().unwrap().payload.len(), MAX_UDP_PAYLOAD_V6);
    assert_eq!(parsed.get_ipv6_header().unwrap().flow_label, 4);
    let too_large = vec![0u8; MAX_UDP_PAYLOAD_V6 + 1];
    assert!(build_packet_v6(&src6(), 1, &dst6(), 2, 3, 4, 5, &too_large).is_none());
    let wraps_around = vec![0u8; 65536 + 4];
    assert!(build_packet_v6(&src6(), 1, &dst6(), 2, 3, 4, 5, &wraps_around).is_none());
}

#[test]
fn build_v6_flow_label_limit() {
    assert!(build_packet_v6(&src6(), 1, &dst6(), 2, 3, MAX_FLOW_LABEL, 5, &[1]).is_some());
    assert!(build_packet_v6(&src6(), 1, &dst6(), 2, 3, MAX_FLOW_LABEL + 1, 5, &[1]).is_none());
    assert!(build_packet_v6(&src6(), 1, &dst6(), 2, 3, u32::MAX, 5, &[1]).is_none());
}

#[test]
fn from_array_rejects_what_is_no_ip_datagram() {
    assert!(GenericIpPacket::from_array(&[]).is_none());
    assert!(GenericIpPacket::from_array(&[0x45]).is_none());
    assert!(GenericIpPacket::from_array(&[0u8; 40]).is_none());
    let mut truncated = build_packet_v4(&SRC4, 1, &DST4, 2, 3, 4, &[1, 2, 3, 4]).unwrap();
    truncated.truncate(30);
    assert!(GenericIpPacket::from_array(&truncated).is_none());
}

#[test]
fn from_array_finds_no_udp_in_a_tcp_segment() {
    let builder = etherparse::PacketBuilder::ipv4(SRC4, DST4, 20).tcp(1000, 53, 1, 1024);
    let mut segment = Vec::new();
    builder.write(&mut segment, &[1, 2, 3]).unwrap();
    let parsed = GenericIpPacket::from_array(&segment).unwrap();
    assert!(parsed.get_udp_packet().is_none());
    assert!(parsed.get_ipv4_header().is_some());
    assert!(build_response_packet(&segment, vec![1]).is_none());
}

#[test]
fn headers_and_destination_by_family() {
    let v4 = build_packet_v4(&SRC4, 1, &DST4, 2, 3, 4, &[1]).unwrap();
    let parsed = GenericIpPacket::from_array(&v4).unwrap();
    assert_eq!(parsed.get_ipv4_header().unwrap().destination, DST4);
    assert!(parsed.get_ipv6_header().is_none());
    assert_eq!(parsed.get_destination_address(), Some(DST4.to_vec()));

    let v6 = build_packet_v6(&src6(), 1, &dst6(), 2, 3, 4, 5, &[1]).unwrap();
    let parsed = GenericIpPacket::from_array(&v6).unwrap();
    assert!(parsed.get_ipv4_header().is_none());
    assert_eq!(parsed.get_ipv6_header().unwrap().source, src6());
    assert_eq!(parsed.get_destination_address(), Some(dst6().to_vec()));
}

#[test]
fn response_swaps_source_and_destination_v4() {
    let request = build_packet_v4(&SRC4, 54321, &DST4, 53, 64, 0x4242, &[7, 7, 7]).unwrap();
    let reply = build_response_packet(&request, vec![1, 2, 3, 4, 5]).unwrap();
    let expected = build_packet_v4(&DST4, 53, &SRC4, 54321, 64, 0x4242, &[1, 2, 3, 4, 5]).unwrap();
    assert_eq!(reply, expected);
    let parsed = GenericIpPacket::from_array(&reply).unwrap();
    assert_eq!(
        parsed.net,
        IpHeader::V4(Ipv4Fields {
            source: DST4,
            destination: SRC4,
            time_to_live: 64,
            identification: 0x4242,
        })
    );
    let udp = parsed.get_udp_packet().unwrap();
    assert_eq!((udp.source_port, udp.destination_port), (53, 54321));
    assert_eq!(udp.payload, vec![1, 2, 3, 4, 5]);
}

#[test]
fn response_swaps_source_and_destination_v6() {
    let request = build_packet_v6(&src6(), 40000, &dst6(), 53, 0x20, 0xABCDE, 9, &[7]).unwrap();
    let reply = build_response_packet(&request, vec![5, 4, 3]).unwrap();
    let parsed = GenericIpPacket::from_array(&reply).unwrap();
    assert_eq!(
        parsed.net,
        IpHeader::V6(Ipv6Fields {
            source: dst6(),
            destination: src6(),
            traffic_class: 0x20,
            flow_label: 0xABCDE,
            hop_limit: 9,
        })
    );
    let udp = parsed.get_udp_packet().unwrap();
    assert_eq!((udp.source_port, udp.destination_port), (53, 40000));
    assert_eq!(udp.payload, vec![5, 4, 3]);
}

#[test]
fn response_needs_a_request_and_a_payload_that_fits() {
    assert!(build_response_packet(&[1, 2, 3], vec![1]).is_none());
    let request = build_packet_v4(&SRC4, 54321, &DST4, 53, 64, 1, &[7]).unwrap();
    assert!(build_response_packet(&request, vec![0; MAX_UDP_PAYLOAD_V4]).is_some());
    assert!(build_response_packet(&request, vec![0; MAX_UDP_PAYLOAD_V4 + 1]).is_none());
    let request = build_packet_v6(&src6(), 40000, &dst6(), 53, 0, 0, 9, &[7]).unwrap();
    assert!(build_response_packet(&request, vec![0; MAX_UDP_PAYLOAD_V6]).is_some());
    assert!(build_response_packet(&request, vec![0; MAX_UDP_PAYLOAD_V6 + 1]).is_none());
}

#[test]
fn addresses_from_bytes() {
    assert_eq!(to_address_v4(&vec![198, 51, 100, 12]), [198, 51, 100, 12]);
    assert_eq!(to_address_v6(&dst6().to_vec()), dst6());
}
