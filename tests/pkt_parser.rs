use packet_sniffer::packet::{decode_info_from_packet, Device, PacketExt, TimeVal};
use packet_sniffer::pkt_parser::{
    ipv4_address_to_string, ipv6_address_to_string, mac_address_to_string, EtherType,
    EthernetHeader, Header, Ipv4Header, Ipv6Header, Protocol, TCPHeader, UDPHeader,
};

#[test]
fn test_ethernet_packet() {
    let data = vec![51, 51, 0, 1, 0, 2, 80, 235, 113, 35, 142, 103, 134, 221, 96, 9, 31, 94, 0, 103, 17, 1, 254, 128, 0, 0, 0, 0, 0, 0, 5, 194, 180, 157, 9, 91, 63, 25, 255, 2, 0, 0, 0, 0, 0, 0, 0, 0, 0, 0, 0, 1, 0, 2, 2, 34, 2, 35, 0, 103, 0, 211, 1, 228, 89, 38, 0, 8, 0, 2, 12, 31, 0, 1, 0, 14, 0, 1, 0, 1, 42, 94, 58, 157, 80, 235, 113, 35, 142, 103, 0, 3, 0, 12, 10, 80, 235, 113, 0, 0, 0, 0, 0, 0, 0, 0, 0, 39, 0, 17, 0, 15, 68, 69, 83, 75, 84, 79, 80, 45, 83, 86, 65, 65, 84, 84, 52, 0, 16, 0, 14, 0, 0, 1, 55, 0, 8, 77, 83, 70, 84, 32, 53, 46, 48, 0, 6, 0, 8, 0, 17, 0, 23, 0, 24, 0, 39];
    let (ethernet_header_res, payload) = EthernetHeader::decode(data);
    let ethernet_header = ethernet_header_res.unwrap();
    // six bytes, two hex digits each: 33:33:00:01:00:02
    assert_eq!(ethernet_header.get_dest_address(), "333300010002".to_string());
    assert_eq!(ethernet_header.get_src_address(), "50eb71238e67".to_string());
    assert_eq!(ethernet_header.get_ether_type(), EtherType::Ipv6);
}

#[test]
fn test_whole_packet_1() {
    let data = vec![80, 235, 113, 35, 142, 103, 152, 0, 106, 4, 85, 32, 8, 0, 69, 0, 0, 130, 170, 10, 64, 0, 64, 17, 12, 250, 192, 168, 1, 1, 192, 168, 1, 21, 0, 53, 234, 64, 0, 110, 71, 245, 212, 212, 129, 131, 0, 1, 0, 0, 0, 1, 0, 0, 4, 119, 112, 97, 100, 4, 104, 111, 109, 101, 0, 0, 1, 0, 1, 0, 0, 6, 0, 1, 0, 0, 0, 91, 0, 64, 1, 97, 12, 114, 111, 111, 116, 45, 115, 101, 114, 118, 101, 114, 115, 3, 110, 101, 116, 0, 5, 110, 115, 116, 108, 100, 12, 118, 101, 114, 105, 115, 105, 103, 110, 45, 103, 114, 115, 3, 99, 111, 109, 0, 120, 134, 93, 48, 0, 0, 7, 8, 0, 0, 3, 132, 0, 9, 58, 128, 0, 1, 81, 128];
    let (ethernet_header_res, eth_payload) = EthernetHeader::decode(data);
    let ethernet_header = ethernet_header_res.unwrap();
    assert_eq!(ethernet_header.get_dest_address(), "50eb71238e67".to_string());
    assert_eq!(ethernet_header.get_src_address(),  "98006a045520".to_string());
    assert_eq!(ethernet_header.get_ether_type(), EtherType::Ipv4);

    let (ipv4_header_result, ipv4_payload) = Ipv4Header::decode(eth_payload);
    let ipv4_header = ipv4_header_result.unwrap();

    assert_eq!(ipv4_header.get_dest_address(), "192.168.1.21".to_string());
    assert_eq!(ipv4_header.get_src_address(), "192.168.1.1".to_string());
    assert_eq!(ipv4_header.get_protocol(), Protocol::UDP);

    let (udp_header_result, udp_payload) = UDPHeader::decode(ipv4_payload);
    let udp_header = udp_header_result.unwrap();

    assert_eq!(udp_header.get_src_port(), 53);
    assert_eq!(udp_header.get_dest_port(), 59968);
}

#[test]
fn test_whole_packet_2() {
    let data = vec![152, 0, 106, 4, 85, 32, 80, 235, 113, 35, 142, 103, 8, 0, 69, 0, 0, 40, 134, 79, 64, 0, 128, 6, 0, 0, 192, 168, 1, 21, 149, 154, 167, 92, 220, 49, 1, 187, 135, 216, 62, 67, 24, 80, 57, 27, 80, 20, 0, 0, 254, 206, 0, 0];
    let (ethernet_header_res, eth_payload) = EthernetHeader::decode(data);
    let ethernet_header = ethernet_header_res.unwrap();
    assert_eq!(ethernet_header.get_dest_address(), "98006a045520".to_string());
    assert_eq!(ethernet_header.get_src_address(),  "50eb71238e67".to_string());
    assert_eq!(ethernet_header.get_ether_type(), EtherType::Ipv4);

    let (ipv4_header_result, ipv4_payload) = Ipv4Header::decode(eth_payload);
    let ipv4_header = ipv4_header_result.unwrap();

    assert_eq!(ipv4_header.get_dest_address(), "149.154.167.92".to_string());
    assert_eq!(ipv4_header.get_src_address(), "192.168.1.21".to_string());
    assert_eq!(ipv4_header.get_protocol(), Protocol::TCP);

    let (tcp_header_result, tcp_payload) = TCPHeader::decode(ipv4_payload);
    let tcp_header = tcp_header_result.unwrap();

    assert_eq!(tcp_header.get_src_port(), 56369);
    assert_eq!(tcp_header.get_dest_port(), 443);
}


fn ipv6_frame() -> Vec<u8> {
    vec![51, 51, 0, 1, 0, 2, 80, 235, 113, 35, 142, 103, 134, 221, 96, 9, 31, 94, 0, 103, 17, 1, 254, 128, 0, 0, 0, 0, 0, 0, 5, 194, 180, 157, 9, 91, 63, 25, 255, 2, 0, 0, 0, 0, 0, 0, 0, 0, 0, 0, 0, 1, 0, 2, 2, 34, 2, 35, 0, 103, 0, 211, 1, 228, 89, 38, 0, 8, 0, 2, 12, 31, 0, 1, 0, 14, 0, 1, 0, 1, 42, 94, 58, 157, 80, 235, 113, 35, 142, 103, 0, 3, 0, 12, 10, 80, 235, 113, 0, 0, 0, 0, 0, 0, 0, 0, 0, 39, 0, 17, 0, 15, 68, 69, 83, 75, 84, 79, 80, 45, 83, 86, 65, 65, 84, 84, 52, 0, 16, 0, 14, 0, 0, 1, 55, 0, 8, 77, 83, 70, 84, 32, 53, 46, 48, 0, 6, 0, 8, 0, 17, 0, 23, 0, 24, 0, 39]
}

fn udp_frame() -> Vec<u8> {
    vec![80, 235, 113, 35, 142, 103, 152, 0, 106, 4, 85, 32, 8, 0, 69, 0, 0, 130, 170, 10, 64, 0, 64, 17, 12, 250, 192, 168, 1, 1, 192, 168, 1, 21, 0, 53, 234, 64, 0, 110, 71, 245, 212, 212, 129, 131, 0, 1, 0, 0, 0, 1, 0, 0, 4, 119, 112, 97, 100, 4, 104, 111, 109, 101, 0, 0, 1, 0, 1, 0, 0, 6, 0, 1, 0, 0, 0, 91, 0, 64, 1, 97, 12, 114, 111, 111, 116, 45, 115, 101, 114, 118, 101, 114, 115, 3, 110, 101, 116, 0, 5, 110, 115, 116, 108, 100, 12, 118, 101, 114, 105, 115, 105, 103, 110, 45, 103, 114, 115, 3, 99, 111, 109, 0, 120, 134, 93, 48, 0, 0, 7, 8, 0, 0, 3, 132, 0, 9, 58, 128, 0, 1, 81, 128]
}

fn tcp_frame() -> Vec<u8> {
    vec![152, 0, 106, 4, 85, 32, 80, 235, 113, 35, 142, 103, 8, 0, 69, 0, 0, 40, 134, 79, 64, 0, 128, 6, 0, 0, 192, 168, 1, 21, 149, 154, 167, 92, 220, 49, 1, 187, 135, 216, 62, 67, 24, 80, 57, 27, 80, 20, 0, 0, 254, 206, 0, 0]
}

fn device(addresses: Vec<Vec<u8>>) -> Device {
    Device { name: "eth0".to_string(), desc: None, addresses }
}

#[test]
fn address_renderings() {
    assert_eq!(mac_address_to_string(&[0x50, 0xeb, 0x71, 0x23, 0x8e, 0x67]), "50eb71238e67");
    assert_eq!(mac_address_to_string(&[0, 1, 10, 255]), "00010aff");
    assert_eq!(ipv4_address_to_string(&[192, 168, 1, 21]), "192.168.1.21");
    assert_eq!(ipv4_address_to_string(&[0, 0, 0, 0]), "0.0.0.0");
    assert_eq!(ipv4_address_to_string(&[255, 10, 100, 9]), "255.10.100.9");
    assert_eq!(ipv6_address_to_string(&[0xfe, 0x80, 0, 0, 0, 0, 0, 0, 5, 0xc2, 0xb4, 0x9d, 9, 0x5b, 0x3f, 0x19]),
        "fe8000000000000005c2b49d095b3f19");
    assert_eq!(mac_address_to_string(&[]), "");
}

#[test]
fn ethernet_payload_follows_header() {
    let data = udp_frame();
    let (res, payload) = EthernetHeader::decode(data.clone());
    assert!(res.is_ok());
    assert_eq!(payload, data[14..].to_vec());
}

#[test]
fn ethernet_short_frame_is_an_error() {
    let data = vec![1u8, 2, 3, 4, 5, 6, 7, 8, 9, 10, 11, 12, 8];
    let (res, rest) = EthernetHeader::decode(data.clone());
    assert!(res.is_err());
    assert_eq!(rest, data);
    let (res, rest) = EthernetHeader::decode(vec![]);
    assert!(res.is_err());
    assert!(rest.is_empty());
}

#[test]
fn ethernet_unknown_type_is_an_error() {
    let mut data = udp_frame();
    data[12] = 0x12;
    data[13] = 0x34;
    let (res, rest) = EthernetHeader::decode(data.clone());
    assert_eq!(res.unwrap_err().msg, "Cannot get the correct ether type, received 0x1234");
    assert_eq!(rest, data);
}

#[test]
fn ethernet_arp_type() {
    let mut data = udp_frame();
    data[12] = 0x08;
    data[13] = 0x06;
    let (res, _) = EthernetHeader::decode(data);
    assert_eq!(res.unwrap().get_ether_type(), EtherType::ARP);
}

#[test]
fn ipv4_rejects_other_protocols_and_short_packets() {
    let ip = udp_frame()[14..].to_vec();
    let mut icmp = ip.clone();
    icmp[9] = 1;
    let (res, rest) = Ipv4Header::decode(icmp.clone());
    assert_eq!(res.unwrap_err().msg, "Unable to identify level 4 protocol. Received 0x1");
    assert_eq!(rest, icmp);
    let short = ip[..19].to_vec();
    let (res, rest) = Ipv4Header::decode(short.clone());
    assert!(res.is_err());
    assert_eq!(rest, short);
    let mut long_header = ip[..24].to_vec();
    long_header[0] = 0x4f;
    let (res, _) = Ipv4Header::decode(long_header);
    assert!(res.is_err());
}

#[test]
fn ipv4_honours_header_length() {
    let mut ip = udp_frame()[14..].to_vec();
    ip[0] = 0x46;
    let (res, payload) = Ipv4Header::decode(ip.clone());
    assert!(res.is_ok());
    assert_eq!(payload, ip[24..].to_vec());
}

#[test]
fn ipv6_header_fields() {
    let (eth, payload) = EthernetHeader::decode(ipv6_frame());
    assert_eq!(eth.unwrap().get_ether_type(), EtherType::Ipv6);
    let (res, l4) = Ipv6Header::decode(payload.clone());
    let h = res.unwrap();
    assert_eq!(h.get_protocol(), Protocol::UDP);
    assert_eq!(h.get_src_address(), "fe8000000000000005c2b49d095b3f19");
    assert_eq!(h.get_dest_address(), "ff020000000000000000000000010002");
    assert_eq!(l4, payload[40..].to_vec());
    let (udp, rest) = UDPHeader::decode(l4);
    let udp = udp.unwrap();
    assert_eq!(udp.get_src_port(), 546);
    assert_eq!(udp.get_dest_port(), 547);
    assert_eq!(rest.len(), 157 - 14 - 40 - 8);
}

#[test]
fn ipv6_other_next_header_is_unknown() {
    let mut ip = ipv6_frame()[14..].to_vec();
    ip[6] = 58;
    let (res, _) = Ipv6Header::decode(ip);
    assert_eq!(res.unwrap().get_protocol(), Protocol::Unknown);
    let (res, _) = Ipv6Header::decode(vec![0u8; 39]);
    assert!(res.is_err());
}

#[test]
fn transport_headers_reject_short_segments() {
    let (res, rest) = UDPHeader::decode(vec![0, 53, 234, 64, 0, 8, 0]);
    assert!(res.is_err());
    assert_eq!(rest.len(), 7);
    let (res, rest) = TCPHeader::decode(vec![0u8; 19]);
    assert!(res.is_err());
    assert_eq!(rest.len(), 19);
    let (res, rest) = TCPHeader::decode(vec![1u8; 20]);
    let h = res.unwrap();
    assert_eq!(h.get_src_port(), 257);
    assert_eq!(h.get_dest_port(), 257);
    assert!(rest.is_empty());
}

#[test]
fn received_udp_frame_names_the_source() {
    let dev = device(vec![vec![192, 168, 1, 21]]);
    let packet = PacketExt::new(&udp_frame(), TimeVal { sec: 10, u_sec: 5 });
    let info = decode_info_from_packet(&dev, packet).unwrap();
    assert_eq!(info.address, "192.168.1.1");
    assert_eq!(info.port, 53);
    assert_eq!(info.protocol, Protocol::UDP);
    assert_eq!(info.byte_transmitted, 144 - 14 - 20 - 8);
    assert_eq!(info.time_stamp, 10_000_005);
}

#[test]
fn transmitted_tcp_frame_names_the_destination() {
    let dev = device(vec![vec![192, 168, 1, 21]]);
    let packet = PacketExt::new(&tcp_frame(), TimeVal { sec: 1, u_sec: 0 });
    let info = decode_info_from_packet(&dev, packet).unwrap();
    assert_eq!(info.address, "149.154.167.92");
    assert_eq!(info.port, 443);
    assert_eq!(info.protocol, Protocol::TCP);
    assert_eq!(info.byte_transmitted, 0);
}

#[test]
fn tcp_frame_seen_from_elsewhere_names_the_source() {
    let dev = device(vec![vec![10, 0, 0, 1]]);
    let packet = PacketExt::new(&tcp_frame(), TimeVal { sec: 1, u_sec: 0 });
    let info = decode_info_from_packet(&dev, packet).unwrap();
    assert_eq!(info.address, "192.168.1.21");
    assert_eq!(info.port, 56369);
}

#[test]
fn ipv6_frame_is_decoded() {
    let dev = device(vec![]);
    let packet = PacketExt::new(&ipv6_frame(), TimeVal { sec: 0, u_sec: 7 });
    let info = decode_info_from_packet(&dev, packet).unwrap();
    assert_eq!(info.address, "fe8000000000000005c2b49d095b3f19");
    assert_eq!(info.port, 546);
    assert_eq!(info.byte_transmitted, 95);
    assert_eq!(info.time_stamp, 7);
}

#[test]
fn undecodable_frames_are_errors() {
    let dev = device(vec![]);
    let mut arp = udp_frame();
    arp[13] = 6;
    assert!(decode_info_from_packet(&dev, PacketExt::new(&arp, TimeVal { sec: 0, u_sec: 0 })).is_err());
    let short = udp_frame()[..40].to_vec();
    assert!(decode_info_from_packet(&dev, PacketExt::new(&short, TimeVal { sec: 0, u_sec: 0 })).is_err());
    let mut icmp6 = ipv6_frame();
    icmp6[20] = 58;
    assert!(decode_info_from_packet(&dev, PacketExt::new(&icmp6, TimeVal { sec: 0, u_sec: 0 })).is_err());
}

#[test]
fn timestamps_in_microseconds() {
    let t = TimeVal { sec: 4_294_967_295, u_sec: 999_999 };
    assert_eq!(t.to_micros(), 4_294_967_295_999_999);
    assert_eq!(TimeVal::from_micros(1_500_000), TimeVal { sec: 1, u_sec: 500_000 });
}
