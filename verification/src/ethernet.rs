//! The Ethernet layer decoder.

use vstd::prelude::*;

use crate::bytes::{be16, read_be16, sub_vec, tail_vec};
use crate::layer::{decode_layer, spec_ethertype_next, Layer, LayerView};
use crate::packet_analysis::PacketAnalysis;
use crate::protocol::Protocol;
use crate::text::{dec_u64_string, mac_string, spec_mac_str};

verus! {

/// Minimum (and consumed) Ethernet header size in bytes.
pub const ETHERNET_HEADER_LEN: usize = 14;

/// One decoded Ethernet layer: addresses, EtherType, and the bytes that
/// follow the header.
pub struct Ethernet {
    pub destination: Vec<u8>,
    pub source: Vec<u8>,
    pub ethertype: u16,
    pub payload: Vec<u8>,
}

/// The mathematical shape of a decoded Ethernet layer.
#[verifier::ext_equal]
pub struct EthernetView {
    pub destination: Seq<u8>,
    pub source: Seq<u8>,
    pub ethertype: u16,
    pub payload: Seq<u8>,
}

impl View for Ethernet {
    type V = EthernetView;

    open spec fn view(&self) -> EthernetView {
        EthernetView {
            destination: self.destination@,
            source: self.source@,
            ethertype: self.ethertype,
            payload: self.payload@,
        }
    }
}

/// The Ethernet layer decoded from `b`: destination and source addresses,
/// big-endian EtherType, and the remainder as payload. No layer when `b` is
/// shorter than the header.
pub open spec fn spec_decode_ethernet(b: Seq<u8>) -> Option<EthernetView> {
    if b.len() >= ETHERNET_HEADER_LEN {
        Some(
            EthernetView {
                destination: b.subrange(0, 6),
                source: b.subrange(6, 12),
                ethertype: be16(b, 12) as u16,
                payload: b.subrange(ETHERNET_HEADER_LEN as int, b.len() as int),
            },
        )
    } else {
        None
    }
}

impl Ethernet {
    /// Decode one Ethernet layer from raw bytes.
    pub fn new(packet_data: &[u8]) -> (r: Option<Ethernet>)
        ensures
            r is Some <==> packet_data@.len() >= ETHERNET_HEADER_LEN,
            r matches Some(e) ==> Some(e@) == spec_decode_ethernet(packet_data@),
    {
        if packet_data.len() >= ETHERNET_HEADER_LEN {
            let e = Ethernet {
                destination: sub_vec(packet_data, 0, 6),
                source: sub_vec(packet_data, 6, 12),
                ethertype: read_be16(packet_data, 12),
                payload: tail_vec(packet_data, ETHERNET_HEADER_LEN),
            };
            proof {
                assert(e@ =~= spec_decode_ethernet(packet_data@)->0);
            }
            Some(e)
        } else {
            None
        }
    }
}

impl PacketAnalysis for Ethernet {
    open spec fn wf(&self) -> bool {
        self.destination@.len() == 6 && self.source@.len() == 6
    }

    open spec fn spec_protocol(&self) -> Protocol {
        Protocol::Ethernet
    }

    open spec fn spec_source(&self) -> Seq<char> {
        spec_mac_str(self.source@)
    }

    open spec fn spec_destination(&self) -> Seq<char> {
        spec_mac_str(self.destination@)
    }

    open spec fn spec_payload(&self) -> Seq<u8> {
        self.payload@
    }

    open spec fn spec_next_tag(&self) -> Option<Protocol> {
        spec_ethertype_next(self.ethertype)
    }

    open spec fn spec_short_description(&self) -> Seq<char> {
        LayerView::Ethernet(self@).short_description()
    }

    fn protocol(&self) -> Protocol {
        Protocol::Ethernet
    }

    fn source(&self) -> String {
        mac_string(&self.source)
    }

    fn destination(&self) -> String {
        mac_string(&self.destination)
    }

    fn payload_length(&self) -> usize {
        self.payload.len()
    }

    fn payload(&self) -> &Vec<u8> {
        &self.payload
    }

    fn short_description(&self) -> (r: String) {
        let mut s = String::from_str("ETHERNET: ");
        let src = mac_string(&self.source);
        s.append(src.as_str());
        s.append(" -> ");
        let dst = mac_string(&self.destination);
        s.append(dst.as_str());
        s.append(" len ");
        let len = dec_u64_string(self.payload.len() as u64);
        s.append(len.as_str());
        proof {
            assert(s@ =~= self.spec_short_description());
        }
        s
    }

    fn next_protocol(&self) -> Option<Layer> {
        if self.ethertype == 0x0800 {
            decode_layer(Protocol::IPv4, self.payload.as_slice())
        } else if self.ethertype == 0x86DD {
            decode_layer(Protocol::IPv6, self.payload.as_slice())
        } else if self.ethertype == 0x0806 {
            decode_layer(Protocol::ARP, self.payload.as_slice())
        } else {
            None
        }
    }
}

} // verus!
