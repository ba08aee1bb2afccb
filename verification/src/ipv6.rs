//! The IPv6 layer decoder.

use vstd::prelude::*;

use crate::bytes::{be16, read_be16, sub_vec, tail_vec};
use crate::layer::{decode_layer, spec_ip_next, Layer, LayerView};
use crate::packet_analysis::PacketAnalysis;
use crate::protocol::Protocol;
use crate::text::{dec_u64_string, ipv6_string, spec_ipv6_str};

verus! {

/// Minimum (and consumed) IPv6 header size in bytes.
pub const IPV6_HEADER_LEN: usize = 40;

/// One decoded IPv6 layer.
pub struct IPv6 {
    pub source: Vec<u8>,
    pub destination: Vec<u8>,
    pub traffic_class: u8,
    pub flow_label: u32,
    pub payload_length: u16,
    pub next_header: u8,
    pub hop_limit: u8,
    pub payload: Vec<u8>,
}

/// The mathematical shape of a decoded IPv6 layer.
#[verifier::ext_equal]
pub struct Ipv6View {
    pub source: Seq<u8>,
    pub destination: Seq<u8>,
    pub traffic_class: u8,
    pub flow_label: u32,
    pub payload_length: u16,
    pub next_header: u8,
    pub hop_limit: u8,
    pub payload: Seq<u8>,
}

impl View for IPv6 {
    type V = Ipv6View;

    open spec fn view(&self) -> Ipv6View {
        Ipv6View {
            source: self.source@,
            destination: self.destination@,
            traffic_class: self.traffic_class,
            flow_label: self.flow_label,
            payload_length: self.payload_length,
            next_header: self.next_header,
            hop_limit: self.hop_limit,
            payload: self.payload@,
        }
    }
}

/// The traffic class of an IPv6 header: the eight bits that straddle the
/// first two bytes.
pub open spec fn spec_ipv6_traffic_class(b: Seq<u8>) -> int {
    (b[0] as int % 16) * 16 + b[1] as int / 16
}

/// The 20-bit flow label of an IPv6 header.
pub open spec fn spec_ipv6_flow_label(b: Seq<u8>) -> int {
    (b[1] as int % 16) * 0x10000 + b[2] as int * 0x100 + b[3] as int
}

/// Where the IPv6 payload ends: the stated payload length bounds it, and
/// the buffer end clamps it.
pub open spec fn spec_ipv6_payload_end(b: Seq<u8>) -> int {
    if IPV6_HEADER_LEN + be16(b, 4) <= b.len() {
        IPV6_HEADER_LEN + be16(b, 4)
    } else {
        b.len() as int
    }
}

/// The IPv6 layer decoded from `b`: traffic class and flow label split out
/// of the first four bytes, the stated payload length, next header, hop
/// limit, both addresses, and the bytes after the header up to the stated
/// payload length as payload. No layer when `b` is shorter than the header.
pub open spec fn spec_decode_ipv6(b: Seq<u8>) -> Option<Ipv6View> {
    if b.len() >= IPV6_HEADER_LEN {
        Some(
            Ipv6View {
                source: b.subrange(8, 24),
                destination: b.subrange(24, 40),
                traffic_class: spec_ipv6_traffic_class(b) as u8,
                flow_label: spec_ipv6_flow_label(b) as u32,
                payload_length: be16(b, 4) as u16,
                next_header: b[6],
                hop_limit: b[7],
                payload: b.subrange(IPV6_HEADER_LEN as int, spec_ipv6_payload_end(b)),
            },
        )
    } else {
        None
    }
}

impl IPv6 {
    /// Decode one IPv6 layer from raw bytes.
    pub fn new(packet_data: &[u8]) -> (r: Option<IPv6>)
        ensures
            r is Some <==> packet_data@.len() >= IPV6_HEADER_LEN,
            r matches Some(p) ==> Some(p@) == spec_decode_ipv6(packet_data@),
    {
        if packet_data.len() >= IPV6_HEADER_LEN {
            let tc = (packet_data[0] % 16) * 16 + packet_data[1] / 16;
            let fl = ((packet_data[1] % 16) as u32) * 0x10000 + (packet_data[2] as u32) * 0x100
                + (packet_data[3] as u32);
            let stated = read_be16(packet_data, 4) as usize;
            let end = if IPV6_HEADER_LEN + stated <= packet_data.len() {
                IPV6_HEADER_LEN + stated
            } else {
                packet_data.len()
            };
            let p = IPv6 {
                source: sub_vec(packet_data, 8, 24),
                destination: sub_vec(packet_data, 24, 40),
                traffic_class: tc,
                flow_label: fl,
                payload_length: read_be16(packet_data, 4),
                next_header: packet_data[6],
                hop_limit: packet_data[7],
                payload: sub_vec(packet_data, IPV6_HEADER_LEN, end),
            };
            proof {
                assert(p@ =~= spec_decode_ipv6(packet_data@)->0);
            }
            Some(p)
        } else {
            None
        }
    }
}

impl PacketAnalysis for IPv6 {
    open spec fn wf(&self) -> bool {
        self.source@.len() == 16 && self.destination@.len() == 16
    }

    open spec fn spec_protocol(&self) -> Protocol {
        Protocol::IPv6
    }

    open spec fn spec_source(&self) -> Seq<char> {
        spec_ipv6_str(self.source@)
    }

    open spec fn spec_destination(&self) -> Seq<char> {
        spec_ipv6_str(self.destination@)
    }

    open spec fn spec_payload(&self) -> Seq<u8> {
        self.payload@
    }

    open spec fn spec_next_tag(&self) -> Option<Protocol> {
        spec_ip_next(self.next_header)
    }

    open spec fn spec_short_description(&self) -> Seq<char> {
        LayerView::IPv6(self@).short_description()
    }

    fn protocol(&self) -> Protocol {
        Protocol::IPv6
    }

    fn source(&self) -> String {
        ipv6_string(&self.source)
    }

    fn destination(&self) -> String {
        ipv6_string(&self.destination)
    }

    fn payload_length(&self) -> usize {
        self.payload.len()
    }

    fn payload(&self) -> &Vec<u8> {
        &self.payload
    }

    fn short_description(&self) -> (r: String) {
        let mut s = String::from_str("IPv6 ");
        let src = ipv6_string(&self.source);
        s.append(src.as_str());
        s.append(" -> ");
        let dst = ipv6_string(&self.destination);
        s.append(dst.as_str());
        s.append(" len ");
        let len = dec_u64_string(self.payload.len() as u64);
        s.append(len.as_str());
        proof {
            assert(s@ =~= self.spec_short_description());
        }
        s
    }

    fn next_protocol(&self) -> Option<Layer> {
        if self.next_header == 6 {
            decode_layer(Protocol::TCP, self.payload.as_slice())
        } else if self.next_header == 17 {
            decode_layer(Protocol::UDP, self.payload.as_slice())
        } else {
            None
        }
    }
}

} // verus!
