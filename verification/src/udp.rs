//! The UDP layer decoder.

use vstd::prelude::*;

use crate::bytes::{be16, read_be16, tail_vec};
use crate::layer::{Layer, LayerView};
use crate::packet_analysis::PacketAnalysis;
use crate::protocol::Protocol;
use crate::text::{dec_u64_string, spec_dec_nat};

verus! {

/// Minimum (and consumed) UDP header size in bytes.
pub const UDP_HEADER_LEN: usize = 8;

/// One decoded UDP layer.
pub struct UDP {
    pub source: u16,
    pub destination: u16,
    pub length: u16,
    pub checksum: u16,
    pub payload: Vec<u8>,
}

/// The mathematical shape of a decoded UDP layer.
#[verifier::ext_equal]
pub struct UdpView {
    pub source: u16,
    pub destination: u16,
    pub length: u16,
    pub checksum: u16,
    pub payload: Seq<u8>,
}

impl View for UDP {
    type V = UdpView;

    open spec fn view(&self) -> UdpView {
        UdpView {
            source: self.source,
            destination: self.destination,
            length: self.length,
            checksum: self.checksum,
            payload: self.payload@,
        }
    }
}

/// The UDP layer decoded from `b`: both ports, the stated datagram length,
/// the checksum, and the remainder as payload. No layer when `b` is shorter
/// than the header.
pub open spec fn spec_decode_udp(b: Seq<u8>) -> Option<UdpView> {
    if b.len() >= UDP_HEADER_LEN {
        Some(
            UdpView {
                source: be16(b, 0) as u16,
                destination: be16(b, 2) as u16,
                length: be16(b, 4) as u16,
                checksum: be16(b, 6) as u16,
                payload: b.subrange(UDP_HEADER_LEN as int, b.len() as int),
            },
        )
    } else {
        None
    }
}

impl UDP {
    /// Decode one UDP layer from raw bytes.
    pub fn new(packet_data: &[u8]) -> (r: Option<UDP>)
        ensures
            r is Some <==> packet_data@.len() >= UDP_HEADER_LEN,
            r matches Some(u) ==> Some(u@) == spec_decode_udp(packet_data@),
    {
        if packet_data.len() >= UDP_HEADER_LEN {
            let u = UDP {
                source: read_be16(packet_data, 0),
                destination: read_be16(packet_data, 2),
                length: read_be16(packet_data, 4),
                checksum: read_be16(packet_data, 6),
                payload: tail_vec(packet_data, UDP_HEADER_LEN),
            };
            proof {
                assert(u@ =~= spec_decode_udp(packet_data@)->0);
            }
            Some(u)
        } else {
            None
        }
    }
}

impl PacketAnalysis for UDP {
    open spec fn wf(&self) -> bool {
        true
    }

    open spec fn spec_protocol(&self) -> Protocol {
        Protocol::UDP
    }

    open spec fn spec_source(&self) -> Seq<char> {
        spec_dec_nat(self.source as nat)
    }

    open spec fn spec_destination(&self) -> Seq<char> {
        spec_dec_nat(self.destination as nat)
    }

    open spec fn spec_payload(&self) -> Seq<u8> {
        self.payload@
    }

    open spec fn spec_next_tag(&self) -> Option<Protocol> {
        None
    }

    open spec fn spec_short_description(&self) -> Seq<char> {
        LayerView::UDP(self@).short_description()
    }

    fn protocol(&self) -> Protocol {
        Protocol::UDP
    }

    fn source(&self) -> String {
        dec_u64_string(self.source as u64)
    }

    fn destination(&self) -> String {
        dec_u64_string(self.destination as u64)
    }

    fn payload_length(&self) -> usize {
        self.payload.len()
    }

    fn payload(&self) -> &Vec<u8> {
        &self.payload
    }

    fn short_description(&self) -> (r: String) {
        let mut s = String::from_str("UDP: ");
        let src = dec_u64_string(self.source as u64);
        s.append(src.as_str());
        s.append(" -> ");
        let dst = dec_u64_string(self.destination as u64);
        s.append(dst.as_str());
        s.append(" len ");
        let len = dec_u64_string(self.payload.len() as u64);
        s.append(len.as_str());
        proof {
            assert(s@ =~= self.spec_short_description());
        }
        s
    }

    fn next_protocol(&self) -> Option<Layer> {
        None
    }
}

} // verus!
