use packet_sniffer::analyzed_data::AnalyzedData;
use packet_sniffer::analyzer::Analyzer;
use packet_sniffer::filter::{Filter, FilterUpdate};
use packet_sniffer::filter_controller::FilterController;
use packet_sniffer::packet_filter::PacketFilter;
use packet_sniffer::protocol::Protocol;
use packet_sniffer::protocol_filter::ProtocolFilter;
use packet_sniffer::source_filter::SourceFilter;
use packet_sniffer::destination_filter::DestinationFilter;

/// One frame with Ethernet, IPv4 (10.0.0.1 -> 10.0.0.2) and TCP (80 -> 443)
/// layers.
fn sample_frame() -> AnalyzedData {
    let bytes: Vec<u8> = vec![
        0xde, 0xf0, 0x12, 0x34, 0x45, 0x67, 0x12, 0x34, 0x56, 0x78, 0x9a, 0xbc, 0x08, 0x00, // eth
        0x45, 0x00, 0x00, 0x36, 0xab, 0xcd, 0x40, 0x00, 0x40, 6, 0x12, 0x34, 10, 0, 0, 1, 10, 0,
        0, 2, // ipv4
        0x00, 0x50, 0x01, 0xbb, 0, 0, 0, 1, 0, 0, 0, 2, 0x50, 0x18, 0xff, 0xff, 0, 0, 0,
        0, // tcp
    ];
    Analyzer::analyze_packet(&bytes, 0)
}

fn source_filter(address: &str, protocol: Protocol) -> Filter {
    let mut f = SourceFilter::new();
    f.configure(Some(String::from(address)), Some(protocol));
    Filter::BySource(f)
}

fn destination_filter(address: &str, protocol: Protocol) -> Filter {
    let mut f = DestinationFilter::new();
    f.configure(Some(String::from(address)), Some(protocol));
    Filter::ByDestination(f)
}

fn protocol_filter(protocols: &[Protocol]) -> Filter {
    let mut f = ProtocolFilter::new();
    for p in protocols {
        f.add_protocol(*p);
    }
    Filter::ByProtocol(f)
}

#[test]
fn empty_filter_set_accepts_every_frame() {
    let frame = sample_frame();
    assert!(frame.apply_filters(&Vec::new()));
    let empty = AnalyzedData::new(0);
    assert!(empty.apply_filters(&Vec::new()));
}

#[test]
fn source_filter_matches_the_ipv4_layer() {
    let frame = sample_frame();
    assert!(frame.apply_filters(&vec![source_filter("10.0.0.1", Protocol::IPv4)]));
    assert!(!frame.apply_filters(&vec![source_filter("10.0.0.9", Protocol::IPv4)]));
}

#[test]
fn source_filter_is_gated_by_applicability() {
    let frame = sample_frame();
    // The address is right but no IPv6 layer exists to apply it to.
    assert!(!frame.apply_filters(&vec![source_filter("10.0.0.1", Protocol::IPv6)]));
    // The TCP layer's source is the port.
    assert!(frame.apply_filters(&vec![source_filter("80", Protocol::TCP)]));
}

#[test]
fn destination_filter_matches_the_tcp_layer() {
    let frame = sample_frame();
    assert!(frame.apply_filters(&vec![destination_filter("443", Protocol::TCP)]));
    assert!(!frame.apply_filters(&vec![destination_filter("80", Protocol::TCP)]));
}

#[test]
fn protocol_filter_matches_membership() {
    let frame = sample_frame();
    assert!(frame.apply_filters(&vec![protocol_filter(&[Protocol::TCP])]));
    assert!(frame.apply_filters(&vec![protocol_filter(&[Protocol::UDP, Protocol::Ethernet])]));
    assert!(!frame.apply_filters(&vec![protocol_filter(&[Protocol::UDP, Protocol::ARP])]));
    assert!(!frame.apply_filters(&vec![protocol_filter(&[])]));
}

#[test]
fn filters_are_conjunctive() {
    let frame = sample_frame();
    let f1 = || source_filter("10.0.0.1", Protocol::IPv4);
    let f2 = || destination_filter("443", Protocol::TCP);
    let f3 = || source_filter("10.0.0.9", Protocol::IPv4);
    assert_eq!(
        frame.apply_filters(&vec![f1(), f2()]),
        frame.apply_filters(&vec![f1()]) && frame.apply_filters(&vec![f2()])
    );
    assert_eq!(
        frame.apply_filters(&vec![f1(), f3()]),
        frame.apply_filters(&vec![f1()]) && frame.apply_filters(&vec![f3()])
    );
    assert!(frame.apply_filters(&vec![f1(), f2()]));
    assert!(!frame.apply_filters(&vec![f1(), f3()]));
}

#[test]
fn frame_with_no_layers_fails_any_filter() {
    let empty = AnalyzedData::new(0);
    assert!(!empty.apply_filters(&vec![protocol_filter(&[Protocol::TCP])]));
    assert!(!empty.apply_filters(&vec![source_filter("", Protocol::IPv4)]));
}

#[test]
fn configure_replaces_only_what_was_supplied() {
    let mut f = SourceFilter::new();
    f.configure(Some(String::from("10.0.0.1")), Some(Protocol::IPv6));
    f.configure(None, None);
    let filter = Filter::BySource(f);
    assert_eq!(filter.get_config(), "Filtering by source address: 10.0.0.1 [IPv6]");
}

#[test]
fn filter_descriptions_and_configs_render() {
    let s = source_filter("10.0.0.1", Protocol::IPv4);
    let d = destination_filter("10.0.0.2", Protocol::IPv4);
    let p = protocol_filter(&[Protocol::TCP, Protocol::UDP]);
    assert_eq!(s.get_description(), "Filtering by source address");
    assert_eq!(d.get_description(), "Filtering by destination address");
    assert_eq!(p.get_description(), "Filtering by protocol");
    assert_eq!(s.get_config(), "Filtering by source address: 10.0.0.1 [IPv4]");
    assert_eq!(d.get_config(), "Filtering by destination address: 10.0.0.2 [IPv4]");
    assert_eq!(p.get_config(), "Filtering by protocols: [TCP, UDP]");
    assert_eq!(
        protocol_filter(&[]).get_config(),
        "Filtering by protocols: []"
    );
}

#[test]
fn controller_starts_with_catalog_and_no_active_filters() {
    let c = FilterController::new();
    assert_eq!(c.get_available_filters().len(), 3);
    assert_eq!(c.get_active_filters().len(), 0);
    let descriptions: Vec<String> =
        c.get_available_filters().iter().map(|f| f.get_description()).collect();
    assert_eq!(
        descriptions,
        vec![
            String::from("Filtering by source address"),
            String::from("Filtering by destination address"),
            String::from("Filtering by protocol"),
        ]
    );
}

#[test]
fn controller_add_remove_clear_touch_only_active_filters() {
    let mut c = FilterController::new();
    c.add_filter(source_filter("10.0.0.1", Protocol::IPv4));
    c.add_filter(protocol_filter(&[Protocol::TCP]));
    assert_eq!(c.get_active_filters().len(), 2);
    assert_eq!(c.get_available_filters().len(), 3);
    c.remove_filter(0);
    assert_eq!(c.get_active_filters().len(), 1);
    assert_eq!(c.get_active_filters()[0].get_description(), "Filtering by protocol");
    c.clear_filters();
    assert_eq!(c.get_active_filters().len(), 0);
    assert_eq!(c.get_available_filters().len(), 3);
}

#[test]
fn controller_configures_a_filter_in_place() {
    let mut c = FilterController::new();
    c.add_filter(Filter::BySource(SourceFilter::new()));
    c.configure_filter(
        0,
        FilterUpdate::Address { address: Some(String::from("10.0.0.7")), protocol: None },
    );
    assert_eq!(
        c.get_active_filters()[0].get_config(),
        "Filtering by source address: 10.0.0.7 [IPv4]"
    );
    c.add_filter(Filter::ByProtocol(ProtocolFilter::new()));
    c.configure_filter(1, FilterUpdate::AddProtocol(Protocol::ARP));
    assert_eq!(c.get_active_filters()[1].get_config(), "Filtering by protocols: [ARP]");
    c.configure_filter(1, FilterUpdate::ClearProtocols);
    assert_eq!(c.get_active_filters()[1].get_config(), "Filtering by protocols: []");
    // A mismatched update leaves the filter unchanged.
    c.configure_filter(0, FilterUpdate::AddProtocol(Protocol::TCP));
    assert_eq!(
        c.get_active_filters()[0].get_config(),
        "Filtering by source address: 10.0.0.7 [IPv4]"
    );
}

#[test]
fn mismatched_configure_keeps_invalid_input_out() {
    // Supplying no pieces keeps the prior, valid configuration.
    let mut f = DestinationFilter::new();
    f.configure(Some(String::from("10.0.0.2")), Some(Protocol::IPv4));
    f.configure(None, Some(Protocol::TCP));
    let filter = Filter::ByDestination(f);
    assert_eq!(filter.get_config(), "Filtering by destination address: 10.0.0.2 [TCP]");
}

#[test]
fn create_filter_builds_a_configured_instance() {
    let prototype = SourceFilter::new();
    let built = prototype.create_filter(String::from("1.2.3.4"), Protocol::IPv4);
    let filter = Filter::BySource(built);
    assert_eq!(filter.get_config(), "Filtering by source address: 1.2.3.4 [IPv4]");
    let pf = ProtocolFilter::new();
    let built = pf.create_filter(vec![Protocol::UDP]);
    assert_eq!(Filter::ByProtocol(built).get_config(), "Filtering by protocols: [UDP]");
}
