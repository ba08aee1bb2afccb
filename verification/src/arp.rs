//! The ARP layer decoder.

use vstd::prelude::*;

use crate::bytes::{be16, read_be16, sub_vec, tail_vec};
use crate::layer::{Layer, LayerView};
use crate::packet_analysis::PacketAnalysis;
use crate::protocol::Protocol;
use crate::text::{dec_u64_string, ipv4_string, mac_string, spec_ipv4_str};

verus! {

/// Minimum (and consumed) ARP header size in bytes.
pub const ARP_HEADER_LEN: usize = 28;

/// One decoded ARP layer.
pub struct ARP {
    pub hardware_type: u16,
    pub protocol_type: u16,
    pub hw_addr_len: u8,
    pub proto_addr_len: u8,
    pub operation: u16,
    pub sender_hw_addr: Vec<u8>,
    pub sender_proto_addr: Vec<u8>,
    pub target_hw_addr: Vec<u8>,
    pub target_proto_addr: Vec<u8>,
    pub payload: Vec<u8>,
}

/// The mathematical shape of a decoded ARP layer.
#[verifier::ext_equal]
pub struct ArpView {
    pub hardware_type: u16,
    pub protocol_type: u16,
    pub hw_addr_len: u8,
    pub proto_addr_len: u8,
    pub operation: u16,
    pub sender_hw_addr: Seq<u8>,
    pub sender_proto_addr: Seq<u8>,
    pub target_hw_addr: Seq<u8>,
    pub target_proto_addr: Seq<u8>,
    pub payload: Seq<u8>,
}

impl View for ARP {
    type V = ArpView;

    open spec fn view(&self) -> ArpView {
        ArpView {
            hardware_type: self.hardware_type,
            protocol_type: self.protocol_type,
            hw_addr_len: self.hw_addr_len,
            proto_addr_len: self.proto_addr_len,
            operation: self.operation,
            sender_hw_addr: self.sender_hw_addr@,
            sender_proto_addr: self.sender_proto_addr@,
            target_hw_addr: self.target_hw_addr@,
            target_proto_addr: self.target_proto_addr@,
            payload: self.payload@,
        }
    }
}

/// The ARP layer decoded from `b`, laid out for IPv4 over Ethernet: 16-bit
/// hardware and protocol types, address lengths, a 16-bit operation, two
/// MAC/IPv4 address pairs, and the remainder as payload. No layer when `b`
/// is shorter than the header.
pub open spec fn spec_decode_arp(b: Seq<u8>) -> Option<ArpView> {
    if b.len() >= ARP_HEADER_LEN {
        Some(
            ArpView {
                hardware_type: be16(b, 0) as u16,
                protocol_type: be16(b, 2) as u16,
                hw_addr_len: b[4],
                proto_addr_len: b[5],
                operation: be16(b, 6) as u16,
                sender_hw_addr: b.subrange(8, 14),
                sender_proto_addr: b.subrange(14, 18),
                target_hw_addr: b.subrange(18, 24),
                target_proto_addr: b.subrange(24, 28),
                payload: b.subrange(ARP_HEADER_LEN as int, b.len() as int),
            },
        )
    } else {
        None
    }
}

impl ARP {
    /// Decode one ARP layer from raw bytes.
    pub fn new(packet_data: &[u8]) -> (r: Option<ARP>)
        ensures
            r is Some <==> packet_data@.len() >= ARP_HEADER_LEN,
            r matches Some(a) ==> Some(a@) == spec_decode_arp(packet_data@),
    {
        if packet_data.len() >= ARP_HEADER_LEN {
            let a = ARP {
                hardware_type: read_be16(packet_data, 0),
                protocol_type: read_be16(packet_data, 2),
                hw_addr_len: packet_data[4],
                proto_addr_len: packet_data[5],
                operation: read_be16(packet_data, 6),
                sender_hw_addr: sub_vec(packet_data, 8, 14),
                sender_proto_addr: sub_vec(packet_data, 14, 18),
                target_hw_addr: sub_vec(packet_data, 18, 24),
                target_proto_addr: sub_vec(packet_data, 24, 28),
                payload: tail_vec(packet_data, ARP_HEADER_LEN),
            };
            proof {
                assert(a@ =~= spec_decode_arp(packet_data@)->0);
            }
            Some(a)
        } else {
            None
        }
    }
}

impl PacketAnalysis for ARP {
    open spec fn wf(&self) -> bool {
        self.sender_hw_addr@.len() == 6 && self.sender_proto_addr@.len() == 4
            && self.target_hw_addr@.len() == 6 && self.target_proto_addr@.len() == 4
    }

    open spec fn spec_protocol(&self) -> Protocol {
        Protocol::ARP
    }

    open spec fn spec_source(&self) -> Seq<char> {
        spec_ipv4_str(self.sender_proto_addr@)
    }

    open spec fn spec_destination(&self) -> Seq<char> {
        spec_ipv4_str(self.target_proto_addr@)
    }

    open spec fn spec_payload(&self) -> Seq<u8> {
        self.payload@
    }

    open spec fn spec_next_tag(&self) -> Option<Protocol> {
        None
    }

    open spec fn spec_short_description(&self) -> Seq<char> {
        LayerView::ARP(self@).short_description()
    }

    fn protocol(&self) -> Protocol {
        Protocol::ARP
    }

    fn source(&self) -> String {
        ipv4_string(&self.sender_proto_addr)
    }

    fn destination(&self) -> String {
        ipv4_string(&self.target_proto_addr)
    }

    fn payload_length(&self) -> usize {
        self.payload.len()
    }

    fn payload(&self) -> &Vec<u8> {
        &self.payload
    }

    fn short_description(&self) -> (r: String) {
        let mut s = String::from_str("ARP ");
        let shw = mac_string(&self.sender_hw_addr);
        s.append(shw.as_str());
        s.append("[");
        let sproto = ipv4_string(&self.sender_proto_addr);
        s.append(sproto.as_str());
        s.append("] -> ");
        let thw = mac_string(&self.target_hw_addr);
        s.append(thw.as_str());
        s.append("[");
        let tproto = ipv4_string(&self.target_proto_addr);
        s.append(tproto.as_str());
        s.append("] len ");
        let len = dec_u64_string(self.payload.len() as u64);
        s.append(len.as_str());
        proof {
            assert(s@ =~= self.spec_short_description());
        }
        s
    }

    fn next_protocol(&self) -> Option<Layer> {
        None
    }
}

} // verus!
