//! A verified core for a packet sniffer: a protocol decode chain that turns
//! raw frame bytes into a stack of decoded layers, composable filters over
//! decoded frames, a traffic aggregator, and a windowed packet browser.

pub mod analyzed_data;
pub mod analyzed_traffic;
pub mod analyzer;
pub mod arp;
pub mod bytes;
pub mod destination_filter;
pub mod ethernet;
pub mod filter;
pub mod filter_controller;
pub mod index_util;
pub mod ipv4;
pub mod ipv6;
pub mod layer;
pub mod operation_controller;
pub mod operations;
pub mod packet_analysis;
pub mod packet_filter;
pub mod packet_viewer;
pub mod protocol;
pub mod protocol_filter;
pub mod source_filter;
pub mod tcp;
pub mod text;
pub mod timefmt;
pub mod udp;
