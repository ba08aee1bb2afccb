use packet_sniffer::analyzed_data::AnalyzedData;
use packet_sniffer::filter::Filter;
use packet_sniffer::layer::Layer;
use packet_sniffer::packet_viewer::{BrowserAction, BrowserCommand, PacketViewer};
use packet_sniffer::protocol::Protocol;
use packet_sniffer::protocol_filter::ProtocolFilter;
use packet_sniffer::udp::UDP;

/// A frame holding one UDP layer, or none for an odd timestamp.
fn frame(timestamp: i64, with_udp: bool) -> AnalyzedData {
    let mut f = AnalyzedData::new(timestamp);
    if with_udp {
        f.packets.push(Layer::UDP(UDP {
            source: 53,
            destination: 4096,
            length: 8,
            checksum: 0,
            payload: Vec::new(),
        }));
    }
    f
}

#[test]
fn filtered_packets_keep_capture_order() {
    let frames = vec![
        frame(0, true),
        frame(1, false),
        frame(2, true),
        frame(3, true),
        frame(4, false),
    ];
    let mut udp_only = ProtocolFilter::new();
    udp_only.add_protocol(Protocol::UDP);
    let filters = vec![Filter::ByProtocol(udp_only)];
    let filtered = PacketViewer::get_filtered_packets(&frames, &filters);
    assert_eq!(filtered, vec![0, 2, 3]);
    let all = PacketViewer::get_filtered_packets(&frames, &Vec::new());
    assert_eq!(all, vec![0, 1, 2, 3, 4]);
}

#[test]
fn default_window_covers_the_first_ten() {
    let viewer = PacketViewer::new();
    assert_eq!(viewer.get_current_window(25), Some((0, 10)));
    assert_eq!(viewer.get_current_window(7), Some((0, 7)));
}

#[test]
fn empty_filtered_sequence_has_no_window() {
    let viewer = PacketViewer::new();
    assert_eq!(viewer.get_current_window(0), None);
}

#[test]
fn advancing_past_the_end_clamps_to_a_nonempty_window() {
    let mut viewer = PacketViewer::new();
    viewer.switch_to_next_window(25); // 0 -> 10
    assert_eq!(viewer.get_current_window(25), Some((10, 20)));
    viewer.switch_to_next_window(25); // 10 -> 20
    assert_eq!(viewer.get_current_window(25), Some((20, 25)));
    viewer.switch_to_next_window(25); // clamped: stays at 20
    assert_eq!(viewer.get_current_window(25), Some((20, 25)));
    let w = viewer.get_current_window(25).unwrap();
    assert!(w.0 < w.1 && w.1 <= 25);
}

#[test]
fn retreating_before_the_start_clamps_to_zero() {
    let mut viewer = PacketViewer::new();
    viewer.switch_to_next_window(25);
    viewer.switch_to_previous_window(); // 10 -> 0
    assert_eq!(viewer.get_current_window(25), Some((0, 10)));
    viewer.switch_to_previous_window(); // clamped at 0
    assert_eq!(viewer.get_current_window(25), Some((0, 10)));
}

#[test]
fn resize_rejects_zero_and_keeps_the_prior_size() {
    let mut viewer = PacketViewer::new();
    assert!(!viewer.change_window_size(0));
    assert_eq!(viewer.get_current_window(25), Some((0, 10)));
    assert!(viewer.change_window_size(3));
    assert_eq!(viewer.get_current_window(25), Some((0, 3)));
}

#[test]
fn detail_positions_are_one_based_over_the_whole_sequence() {
    let viewer = PacketViewer::new();
    assert_eq!(viewer.view_packet_details(0, 25), None);
    assert_eq!(viewer.view_packet_details(1, 25), Some(0));
    assert_eq!(viewer.view_packet_details(25, 25), Some(24));
    assert_eq!(viewer.view_packet_details(26, 25), None);
    assert_eq!(viewer.view_packet_details(1, 0), None);
}

#[test]
fn session_steps_follow_the_commands() {
    let mut viewer = PacketViewer::new();
    viewer.start_browsing();
    match viewer.interpret_command(BrowserCommand::NextWindow, 12) {
        BrowserAction::ShowWindow(Some((10, 12))) => {}
        _ => panic!("expected the second window"),
    }
    match viewer.interpret_command(BrowserCommand::PreviousWindow, 12) {
        BrowserAction::ShowWindow(Some((0, 10))) => {}
        _ => panic!("expected the first window"),
    }
    match viewer.interpret_command(BrowserCommand::Resize(0), 12) {
        BrowserAction::WindowSizeChanged(false) => {}
        _ => panic!("expected the resize to be rejected"),
    }
    match viewer.interpret_command(BrowserCommand::Detail(12), 12) {
        BrowserAction::ShowDetail(Some(11)) => {}
        _ => panic!("expected the last frame's detail"),
    }
    match viewer.interpret_command(BrowserCommand::Detail(13), 12) {
        BrowserAction::ShowDetail(None) => {}
        _ => panic!("expected an out-of-range report"),
    }
    match viewer.interpret_command(BrowserCommand::Help, 12) {
        BrowserAction::ShowInstructions => {}
        _ => panic!("expected the instructions"),
    }
    match viewer.interpret_command(BrowserCommand::Quit, 12) {
        BrowserAction::Quit => {}
        _ => panic!("expected the session to end"),
    }
}

#[test]
fn window_size_survives_sessions_but_cursor_resets() {
    let mut viewer = PacketViewer::new();
    assert!(viewer.change_window_size(5));
    viewer.switch_to_next_window(25);
    assert_eq!(viewer.get_current_window(25), Some((5, 10)));
    viewer.start_browsing();
    assert_eq!(viewer.get_current_window(25), Some((0, 5)));
}
