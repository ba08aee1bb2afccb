use packet_sniffer::analyzed_data::AnalyzedData;
use packet_sniffer::analyzer::Analyzer;
use packet_sniffer::layer::Layer;
use packet_sniffer::protocol::Protocol;
use packet_sniffer::tcp::TCP;

/// A frame holding one TCP layer whose payload has the given size.
fn tcp_frame(timestamp: i64, payload_size: usize) -> AnalyzedData {
    let mut frame = AnalyzedData::new(timestamp);
    frame.packets.push(Layer::TCP(TCP {
        source: 80,
        destination: 443,
        sequence: 0,
        acknowledgement: 0,
        data_offset: 5,
        reserved: 0,
        flags: 0,
        window: 0,
        checksum: 0,
        payload: vec![0u8; payload_size],
    }));
    frame
}

#[test]
fn zero_frames_yield_the_all_zero_summary() {
    let summary = Analyzer::analyze_traffic(&Vec::new());
    assert_eq!(summary.total_packets(), 0);
    assert_eq!(summary.sniffing_duration(), 0);
    assert_eq!(summary.average_packet_size(), 0);
    assert_eq!(summary.average_packets_per_second_millis(), 0);
    assert_eq!(summary.max_packet_size(), 0);
    assert_eq!(summary.min_packet_size(), 0);
    for p in [
        Protocol::ARP,
        Protocol::Ethernet,
        Protocol::IPv4,
        Protocol::IPv6,
        Protocol::TCP,
        Protocol::UDP,
    ] {
        assert_eq!(summary.protocol_usage(p), 0);
    }
}

#[test]
fn identical_frames_have_equal_min_max_avg() {
    let frames = vec![tcp_frame(0, 150), tcp_frame(1, 150), tcp_frame(2, 150)];
    let summary = Analyzer::analyze_traffic(&frames);
    assert_eq!(summary.min_packet_size(), 150);
    assert_eq!(summary.max_packet_size(), 150);
    assert_eq!(summary.average_packet_size(), 150);
}

#[test]
fn two_frames_ten_seconds_apart() {
    let frames = vec![tcp_frame(100, 100), tcp_frame(110, 300)];
    let summary = Analyzer::analyze_traffic(&frames);
    assert_eq!(summary.total_packets(), 2);
    assert_eq!(summary.sniffing_duration(), 10);
    assert_eq!(summary.average_packet_size(), 200);
    assert_eq!(summary.min_packet_size(), 100);
    assert_eq!(summary.max_packet_size(), 300);
    // 0.2 frames per second, carried in thousandths.
    assert_eq!(summary.average_packets_per_second_millis(), 200);
    assert_eq!(summary.protocol_usage(Protocol::TCP), 2);
}

#[test]
fn zero_duration_yields_the_sentinel_rate() {
    let frames = vec![tcp_frame(50, 10), tcp_frame(50, 20)];
    let summary = Analyzer::analyze_traffic(&frames);
    assert_eq!(summary.sniffing_duration(), 0);
    assert_eq!(summary.average_packets_per_second_millis(), u64::MAX);
}

#[test]
fn protocol_counts_sum_to_total_layers() {
    // Two decoded frames: one with three layers, one with two.
    let three = Analyzer::analyze_packet(
        &{
            let mut b = vec![
                0xde, 0xf0, 0x12, 0x34, 0x45, 0x67, 0x12, 0x34, 0x56, 0x78, 0x9a, 0xbc, 0x08,
                0x00, 0x45, 0x00, 0x00, 0x36, 0xab, 0xcd, 0x40, 0x00, 0x40, 6, 0x12, 0x34, 10, 0,
                0, 1, 10, 0, 0, 2,
            ];
            b.extend_from_slice(&[
                0x00, 0x50, 0x01, 0xbb, 0, 0, 0, 1, 0, 0, 0, 2, 0x50, 0x18, 0xff, 0xff, 0, 0, 0,
                0,
            ]);
            b
        },
        0,
    );
    let two = Analyzer::analyze_packet(
        &{
            let mut b = vec![
                0xde, 0xf0, 0x12, 0x34, 0x45, 0x67, 0x12, 0x34, 0x56, 0x78, 0x9a, 0xbc, 0x08,
                0x00,
            ];
            b.extend_from_slice(&[
                0x45, 0x00, 0x00, 0x14, 0xab, 0xcd, 0x40, 0x00, 0x40, 99, 0x12, 0x34, 10, 0, 0,
                1, 10, 0, 0, 2,
            ]);
            b
        },
        5,
    );
    assert_eq!(three.packets.len(), 3);
    assert_eq!(two.packets.len(), 2);
    let total_layers = three.packets.len() + two.packets.len();
    let frames = vec![three, two];
    let summary = Analyzer::analyze_traffic(&frames);
    let counted: usize = [
        Protocol::ARP,
        Protocol::Ethernet,
        Protocol::IPv4,
        Protocol::IPv6,
        Protocol::TCP,
        Protocol::UDP,
    ]
    .iter()
    .map(|p| summary.protocol_usage(*p))
    .sum();
    assert_eq!(counted, total_layers);
    assert_eq!(summary.protocol_usage(Protocol::Ethernet), 2);
    assert_eq!(summary.protocol_usage(Protocol::IPv4), 2);
    assert_eq!(summary.protocol_usage(Protocol::TCP), 1);
    assert_eq!(summary.total_packets(), 2);
}

#[test]
fn layerless_frames_count_as_size_zero() {
    let frames = vec![AnalyzedData::new(0), tcp_frame(3, 40)];
    let summary = Analyzer::analyze_traffic(&frames);
    assert_eq!(summary.min_packet_size(), 0);
    assert_eq!(summary.max_packet_size(), 40);
    assert_eq!(summary.average_packet_size(), 20);
    assert_eq!(summary.sniffing_duration(), 3);
}

#[test]
fn traffic_info_renders_the_whole_summary() {
    let frames = vec![tcp_frame(100, 100), tcp_frame(110, 300)];
    let summary = Analyzer::analyze_traffic(&frames);
    assert_eq!(
        summary.get_info(),
        "Total packets: 2\nSniffing duration: 10 seconds\nAverage packet size: 200 bytes\n\
         Average packets per second (thousandths): 200\nMax packet size: 300 bytes\n\
         Min packet size: 100 bytes\nProtocol usages:\n\tTCP: 2\n"
    );
}

#[test]
fn traffic_info_omits_absent_protocols() {
    let summary = Analyzer::analyze_traffic(&Vec::new());
    assert_eq!(
        summary.get_info(),
        "Total packets: 0\nSniffing duration: 0 seconds\nAverage packet size: 0 bytes\n\
         Average packets per second (thousandths): 0\nMax packet size: 0 bytes\n\
         Min packet size: 0 bytes\nProtocol usages:\n"
    );
}
