use packet_sniffer::analyzer::Analyzer;
use packet_sniffer::layer::{decode_layer, Layer};
use packet_sniffer::packet_analysis::PacketAnalysis;
use packet_sniffer::protocol::Protocol;

/// A 14-byte Ethernet header with the given EtherType, followed by `rest`.
fn eth_frame(ethertype: u16, rest: &[u8]) -> Vec<u8> {
    let mut b = vec![
        0xde, 0xf0, 0x12, 0x34, 0x45, 0x67, // destination
        0x12, 0x34, 0x56, 0x78, 0x9a, 0xbc, // source
    ];
    b.push((ethertype >> 8) as u8);
    b.push((ethertype & 0xff) as u8);
    b.extend_from_slice(rest);
    b
}

/// A 20-byte IPv4 header with the given next-level protocol, followed by
/// `rest`.
fn ipv4_header(next_level_protocol: u8, rest: &[u8]) -> Vec<u8> {
    let mut b = vec![
        0x45, 0x00, // version/IHL, DSCP/ECN
        0x00, 0x36, // total length
        0xab, 0xcd, // identification
        0x40, 0x00, // flags/fragment offset
        0x40, next_level_protocol, // TTL, protocol
        0x12, 0x34, // checksum
        10, 0, 0, 1, // source
        10, 0, 0, 2, // destination
    ];
    b.extend_from_slice(rest);
    b
}

/// A 20-byte TCP header (source port 80, destination port 443), followed by
/// `rest`.
fn tcp_header(rest: &[u8]) -> Vec<u8> {
    let mut b = vec![
        0x00, 0x50, // source port 80
        0x01, 0xbb, // destination port 443
        0x00, 0x00, 0x00, 0x01, // sequence
        0x00, 0x00, 0x00, 0x02, // acknowledgement
        0x50, 0x18, // data offset/reserved, flags
        0xff, 0xff, // window
        0x00, 0x00, // checksum
        0x00, 0x00, // urgent pointer
    ];
    b.extend_from_slice(rest);
    b
}

/// An 8-byte UDP header (ports 53 and 4096), followed by `rest`.
fn udp_header(rest: &[u8]) -> Vec<u8> {
    let mut b = vec![0x00, 0x35, 0x10, 0x00, 0x00, 0x10, 0xab, 0xcd];
    b.extend_from_slice(rest);
    b
}

#[test]
fn short_buffers_decode_to_no_layer() {
    assert!(decode_layer(Protocol::Ethernet, &[0u8; 13]).is_none());
    assert!(decode_layer(Protocol::ARP, &[0u8; 27]).is_none());
    assert!(decode_layer(Protocol::IPv4, &[0u8; 19]).is_none());
    assert!(decode_layer(Protocol::IPv6, &[0u8; 39]).is_none());
    assert!(decode_layer(Protocol::TCP, &[0u8; 19]).is_none());
    assert!(decode_layer(Protocol::UDP, &[0u8; 7]).is_none());
    assert!(decode_layer(Protocol::Ethernet, &[]).is_none());
}

#[test]
fn minimum_buffers_decode_to_a_layer() {
    assert!(decode_layer(Protocol::Ethernet, &[0u8; 14]).is_some());
    assert!(decode_layer(Protocol::ARP, &[0u8; 28]).is_some());
    assert!(decode_layer(Protocol::IPv4, &[0u8; 20]).is_some());
    assert!(decode_layer(Protocol::IPv6, &[0u8; 40]).is_some());
    assert!(decode_layer(Protocol::TCP, &[0u8; 20]).is_some());
    assert!(decode_layer(Protocol::UDP, &[0u8; 8]).is_some());
}

#[test]
fn ethernet_fields_decode_exactly() {
    let bytes = eth_frame(0x86dd, &[1, 2, 3]);
    match decode_layer(Protocol::Ethernet, &bytes) {
        Some(Layer::Ethernet(e)) => {
            assert_eq!(e.destination, vec![0xde, 0xf0, 0x12, 0x34, 0x45, 0x67]);
            assert_eq!(e.source, vec![0x12, 0x34, 0x56, 0x78, 0x9a, 0xbc]);
            assert_eq!(e.ethertype, 0x86dd);
            assert_eq!(e.payload, vec![1, 2, 3]);
        }
        _ => panic!("expected an Ethernet layer"),
    }
}

#[test]
fn tcp_fields_decode_exactly() {
    let bytes = tcp_header(&[9, 9]);
    match decode_layer(Protocol::TCP, &bytes) {
        Some(Layer::TCP(t)) => {
            assert_eq!(t.source, 80);
            assert_eq!(t.destination, 443);
            assert_eq!(t.sequence, 1);
            assert_eq!(t.acknowledgement, 2);
            assert_eq!(t.data_offset, 5);
            assert_eq!(t.reserved, 0);
            assert_eq!(t.flags, 0x18);
            assert_eq!(t.window, 0xffff);
            assert_eq!(t.checksum, 0);
            assert_eq!(t.payload, vec![9, 9]);
        }
        _ => panic!("expected a TCP layer"),
    }
}

#[test]
fn tcp_options_count_as_header() {
    // Data offset 6: the header spans 24 bytes, the 4 option bytes
    // belong to it, and the payload starts after them.
    let mut with_options = tcp_header(&[]);
    with_options[12] = 0x60;
    with_options.extend_from_slice(&[1, 1, 1, 1]); // options
    match decode_layer(Protocol::TCP, &with_options) {
        Some(Layer::TCP(t)) => {
            assert_eq!(t.data_offset, 6);
            assert!(t.payload.is_empty());
        }
        _ => panic!("expected a TCP layer"),
    }
    with_options.extend_from_slice(&[7, 8, 9]); // payload after the options
    match decode_layer(Protocol::TCP, &with_options) {
        Some(Layer::TCP(t)) => assert_eq!(t.payload, vec![7, 8, 9]),
        _ => panic!("expected a TCP layer"),
    }
}

#[test]
fn malformed_tcp_offsets_fall_back() {
    // An offset below five spans only the fixed header.
    let mut low_offset = tcp_header(&[4, 5]);
    low_offset[12] = 0x10;
    match decode_layer(Protocol::TCP, &low_offset) {
        Some(Layer::TCP(t)) => {
            assert_eq!(t.data_offset, 1);
            assert_eq!(t.payload, vec![4, 5]);
        }
        _ => panic!("expected a TCP layer"),
    }
    // An offset pointing past the buffer leaves an empty payload.
    let mut far_offset = tcp_header(&[4, 5]);
    far_offset[12] = 0xf0;
    match decode_layer(Protocol::TCP, &far_offset) {
        Some(Layer::TCP(t)) => {
            assert_eq!(t.data_offset, 15);
            assert!(t.payload.is_empty());
        }
        _ => panic!("expected a TCP layer"),
    }
}

#[test]
fn ipv4_options_count_as_header() {
    // Header length 6: the header spans 24 bytes; total length 28 states
    // four payload bytes beyond it.
    let mut bytes = ipv4_header(6, &[]);
    bytes[0] = 0x46;
    bytes[2] = 0x00;
    bytes[3] = 28;
    bytes.extend_from_slice(&[1, 1, 1, 1]); // options
    bytes.extend_from_slice(&[7, 8, 9, 10]); // payload
    match decode_layer(Protocol::IPv4, &bytes) {
        Some(Layer::IPv4(p)) => {
            assert_eq!(p.header_length, 6);
            assert_eq!(p.total_length, 28);
            assert_eq!(p.payload, vec![7, 8, 9, 10]);
        }
        _ => panic!("expected an IPv4 layer"),
    }
}

#[test]
fn ipv4_total_length_bounds_the_payload() {
    // Total length 20: the datagram is all header, and the trailing
    // Ethernet padding is not payload — and decodes to no further layer.
    let mut ipv4 = ipv4_header(6, &[]);
    ipv4[2] = 0x00;
    ipv4[3] = 20;
    ipv4.extend_from_slice(&tcp_header(&[])); // padding, not datagram
    match decode_layer(Protocol::IPv4, &ipv4) {
        Some(Layer::IPv4(p)) => assert!(p.payload.is_empty()),
        _ => panic!("expected an IPv4 layer"),
    }
    let frame = Analyzer::analyze_packet(&eth_frame(0x0800, &ipv4), 0);
    assert_eq!(frame.packets.len(), 2);
}

#[test]
fn ipv6_stated_length_bounds_the_payload() {
    let mut ipv6 = vec![
        0x60, 0x00, 0x00, 0x00, // version/TC/flow label
        0x00, 0x02, // payload length: two bytes
        59, 64, // next header, hop limit
    ];
    ipv6.extend_from_slice(&[1u8; 16]);
    ipv6.extend_from_slice(&[2u8; 16]);
    ipv6.extend_from_slice(&[7, 8, 9, 10]); // two payload bytes, two padding
    match decode_layer(Protocol::IPv6, &ipv6) {
        Some(Layer::IPv6(p)) => {
            assert_eq!(p.payload_length, 2);
            assert_eq!(p.payload, vec![7, 8]);
        }
        _ => panic!("expected an IPv6 layer"),
    }
}

#[test]
fn ipv4_fields_decode_exactly() {
    let bytes = ipv4_header(6, &[]);
    match decode_layer(Protocol::IPv4, &bytes) {
        Some(Layer::IPv4(p)) => {
            assert_eq!(p.header_length, 5);
            assert_eq!(p.dscp, 0);
            assert_eq!(p.ecn, 0);
            assert_eq!(p.total_length, 0x36);
            assert_eq!(p.identification, 0xabcd);
            assert_eq!(p.flags, 2);
            assert_eq!(p.ttl, 0x40);
            assert_eq!(p.next_level_protocol, 6);
            assert_eq!(p.checksum, 0x1234);
            assert_eq!(p.source, vec![10, 0, 0, 1]);
            assert_eq!(p.destination, vec![10, 0, 0, 2]);
            assert!(p.payload.is_empty());
        }
        _ => panic!("expected an IPv4 layer"),
    }
}

#[test]
fn ethernet_ipv4_tcp_chain_has_three_layers() {
    let bytes = eth_frame(0x0800, &ipv4_header(6, &tcp_header(&[])));
    assert_eq!(bytes.len(), 54);
    let frame = Analyzer::analyze_packet(&bytes, 1000);
    assert_eq!(frame.packets.len(), 3);
    assert_eq!(frame.packets[0].protocol(), Protocol::Ethernet);
    assert_eq!(frame.packets[1].protocol(), Protocol::IPv4);
    assert_eq!(frame.packets[2].protocol(), Protocol::TCP);
    assert_eq!(frame.timestamp, 1000);
}

#[test]
fn truncated_chain_stops_after_ethernet() {
    let mut bytes = eth_frame(0x0800, &ipv4_header(6, &tcp_header(&[])));
    bytes.truncate(30);
    let frame = Analyzer::analyze_packet(&bytes, 1000);
    assert_eq!(frame.packets.len(), 1);
    assert_eq!(frame.packets[0].protocol(), Protocol::Ethernet);
}

#[test]
fn ethernet_ipv6_udp_chain_has_three_layers() {
    let mut ipv6 = vec![
        0x60, 0x00, 0x00, 0x00, // version/TC/flow label
        0x00, 0x08, // payload length
        17, 64, // next header UDP, hop limit
    ];
    ipv6.extend_from_slice(&[1u8; 16]); // source
    ipv6.extend_from_slice(&[2u8; 16]); // destination
    ipv6.extend_from_slice(&udp_header(&[]));
    let bytes = eth_frame(0x86dd, &ipv6);
    let frame = Analyzer::analyze_packet(&bytes, 0);
    assert_eq!(frame.packets.len(), 3);
    assert_eq!(frame.packets[0].protocol(), Protocol::Ethernet);
    assert_eq!(frame.packets[1].protocol(), Protocol::IPv6);
    assert_eq!(frame.packets[2].protocol(), Protocol::UDP);
}

#[test]
fn arp_chain_is_terminal() {
    let arp = vec![
        0x00, 0x01, // hardware type
        0x08, 0x00, // protocol type
        6, 4, // address lengths
        0x00, 0x02, // operation: reply
        0xde, 0xf0, 0x12, 0x34, 0x45, 0x67, // sender MAC
        192, 168, 0, 1, // sender IPv4
        0x12, 0x34, 0x56, 0x78, 0x9a, 0xbc, // target MAC
        192, 168, 0, 2, // target IPv4
    ];
    let bytes = eth_frame(0x0806, &arp);
    let frame = Analyzer::analyze_packet(&bytes, 0);
    assert_eq!(frame.packets.len(), 2);
    assert_eq!(frame.packets[1].protocol(), Protocol::ARP);
    assert_eq!(frame.packets[1].source(), "192.168.0.1");
    assert_eq!(frame.packets[1].destination(), "192.168.0.2");
}

#[test]
fn unknown_ethertype_ends_the_chain() {
    let bytes = eth_frame(0x9999, &ipv4_header(6, &[]));
    let frame = Analyzer::analyze_packet(&bytes, 0);
    assert_eq!(frame.packets.len(), 1);
}

#[test]
fn unknown_ip_protocol_ends_the_chain() {
    let bytes = eth_frame(0x0800, &ipv4_header(99, &tcp_header(&[])));
    let frame = Analyzer::analyze_packet(&bytes, 0);
    assert_eq!(frame.packets.len(), 2);
}

#[test]
fn decode_is_deterministic() {
    let bytes = eth_frame(0x0800, &ipv4_header(17, &udp_header(&[5, 6, 7])));
    let a = Analyzer::analyze_packet(&bytes, 42);
    let b = Analyzer::analyze_packet(&bytes, 42);
    assert_eq!(a.timestamp, b.timestamp);
    assert_eq!(a.packets.len(), b.packets.len());
    for (x, y) in a.packets.iter().zip(b.packets.iter()) {
        assert_eq!(x.protocol(), y.protocol());
        assert_eq!(x.source(), y.source());
        assert_eq!(x.destination(), y.destination());
        assert_eq!(x.payload(), y.payload());
        assert_eq!(x.short_description(), y.short_description());
    }
}

#[test]
fn layer_sources_render_canonically() {
    let bytes = eth_frame(0x0800, &ipv4_header(6, &tcp_header(&[])));
    let frame = Analyzer::analyze_packet(&bytes, 0);
    assert_eq!(frame.packets[0].source(), "12:34:56:78:9a:bc");
    assert_eq!(frame.packets[0].destination(), "de:f0:12:34:45:67");
    assert_eq!(frame.packets[1].source(), "10.0.0.1");
    assert_eq!(frame.packets[1].destination(), "10.0.0.2");
    assert_eq!(frame.packets[2].source(), "80");
    assert_eq!(frame.packets[2].destination(), "443");
}

#[test]
fn short_descriptions_match_the_layers() {
    let bytes = eth_frame(0x0800, &ipv4_header(6, &tcp_header(&[1, 2, 3, 4])));
    let frame = Analyzer::analyze_packet(&bytes, 0);
    assert_eq!(
        frame.packets[0].short_description(),
        "ETHERNET: 12:34:56:78:9a:bc -> de:f0:12:34:45:67 len 44"
    );
    assert_eq!(frame.packets[1].short_description(), "IPv4 10.0.0.1 -> 10.0.0.2 len 24");
    assert_eq!(frame.packets[2].short_description(), "TCP: 80 -> 443 len 4");
}

#[test]
fn get_info_prefixes_the_calendar_timestamp() {
    let bytes = eth_frame(0x0800, &ipv4_header(6, &tcp_header(&[])));
    let frame = Analyzer::analyze_packet(&bytes, 0);
    let info = frame.get_info();
    assert!(info.starts_with("[1970-01-01 00:00:00] "));
    assert_eq!(
        info,
        "[1970-01-01 00:00:00] ETHERNET: 12:34:56:78:9a:bc -> de:f0:12:34:45:67 len 40;\
         IPv4 10.0.0.1 -> 10.0.0.2 len 20;TCP: 80 -> 443 len 0;"
    );
}

#[test]
fn get_info_formats_a_recent_timestamp() {
    let frame = packet_sniffer::analyzed_data::AnalyzedData::new(1725029869);
    assert_eq!(frame.get_info(), "[2024-08-30 14:57:49] ");
}

#[test]
fn ipv6_source_renders_as_full_groups() {
    let mut ipv6 = vec![0x6a, 0xbc, 0xde, 0xf0, 0x00, 0x00, 59, 255];
    let src: Vec<u8> = (0u8..16).collect();
    ipv6.extend_from_slice(&src);
    ipv6.extend_from_slice(&[0xffu8; 16]);
    match decode_layer(Protocol::IPv6, &ipv6) {
        Some(Layer::IPv6(p)) => {
            assert_eq!(p.traffic_class, 0xab);
            assert_eq!(p.flow_label, 0xcdef0);
            assert_eq!(p.next_header, 59);
            assert_eq!(p.hop_limit, 255);
            let layer = Layer::IPv6(p);
            assert_eq!(layer.source(), "0001:0203:0405:0607:0809:0a0b:0c0d:0e0f");
            assert_eq!(layer.destination(), "ffff:ffff:ffff:ffff:ffff:ffff:ffff:ffff");
        }
        _ => panic!("expected an IPv6 layer"),
    }
}
