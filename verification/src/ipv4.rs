//! The IPv4 layer decoder.

use vstd::prelude::*;

use crate::bytes::{be16, read_be16, sub_vec, tail_vec};
use crate::layer::{decode_layer, spec_ip_next, Layer, LayerView};
use crate::packet_analysis::PacketAnalysis;
use crate::protocol::Protocol;
use crate::text::{dec_u64_string, ipv4_string, spec_ipv4_str};

verus! {

/// Minimum (and consumed) IPv4 header size in bytes.
pub const IPV4_HEADER_LEN: usize = 20;

/// One decoded IPv4 layer.
pub struct IPv4 {
    pub source: Vec<u8>,
    pub destination: Vec<u8>,
    pub header_length: u8,
    pub dscp: u8,
    pub ecn: u8,
    pub total_length: u16,
    pub identification: u16,
    pub flags: u8,
    pub ttl: u8,
    pub checksum: u16,
    pub next_level_protocol: u8,
    pub payload: Vec<u8>,
}

/// The mathematical shape of a decoded IPv4 layer.
#[verifier::ext_equal]
pub struct Ipv4View {
    pub source: Seq<u8>,
    pub destination: Seq<u8>,
    pub header_length: u8,
    pub dscp: u8,
    pub ecn: u8,
    pub total_length: u16,
    pub identification: u16,
    pub flags: u8,
    pub ttl: u8,
    pub checksum: u16,
    pub next_level_protocol: u8,
    pub payload: Seq<u8>,
}

impl View for IPv4 {
    type V = Ipv4View;

    open spec fn view(&self) -> Ipv4View {
        Ipv4View {
            source: self.source@,
            destination: self.destination@,
            header_length: self.header_length,
            dscp: self.dscp,
            ecn: self.ecn,
            total_length: self.total_length,
            identification: self.identification,
            flags: self.flags,
            ttl: self.ttl,
            checksum: self.checksum,
            next_level_protocol: self.next_level_protocol,
            payload: self.payload@,
        }
    }
}

/// Where the IPv4 payload starts: the header spans four bytes per
/// header-length word, the options included. A header length below five is
/// malformed and spans only the fixed header; one pointing past the buffer
/// leaves an empty payload.
pub open spec fn spec_ipv4_header_span(b: Seq<u8>) -> int {
    let header_bytes = 4 * (b[0] as int % 16);
    let start = if header_bytes <= IPV4_HEADER_LEN {
        IPV4_HEADER_LEN as int
    } else {
        header_bytes
    };
    if start <= b.len() {
        start
    } else {
        b.len() as int
    }
}

/// Where the IPv4 payload ends: the stated total length, less the header
/// words, bounds the payload; the buffer end clamps it.
pub open spec fn spec_ipv4_payload_end(b: Seq<u8>) -> int {
    let header_bytes = 4 * (b[0] as int % 16);
    let start = if header_bytes <= IPV4_HEADER_LEN {
        IPV4_HEADER_LEN as int
    } else {
        header_bytes
    };
    let stated = if be16(b, 2) <= header_bytes {
        0
    } else {
        be16(b, 2) - header_bytes
    };
    if start + stated <= b.len() {
        start + stated
    } else {
        b.len() as int
    }
}

/// The IPv4 layer decoded from `b`: the header-length nibble, DSCP and ECN
/// split of the second byte, big-endian 16-bit fields, the three flag bits,
/// TTL, the next-level protocol number, both addresses, and the bytes
/// between the header — options included — and the stated total length as
/// payload. No layer when `b` is shorter than the minimum header.
pub open spec fn spec_decode_ipv4(b: Seq<u8>) -> Option<Ipv4View> {
    if b.len() >= IPV4_HEADER_LEN {
        Some(
            Ipv4View {
                source: b.subrange(12, 16),
                destination: b.subrange(16, 20),
                header_length: (b[0] as int % 16) as u8,
                dscp: (b[1] as int / 4) as u8,
                ecn: (b[1] as int % 4) as u8,
                total_length: be16(b, 2) as u16,
                identification: be16(b, 4) as u16,
                flags: (b[6] as int / 32) as u8,
                ttl: b[8],
                checksum: be16(b, 10) as u16,
                next_level_protocol: b[9],
                payload: b.subrange(spec_ipv4_header_span(b), spec_ipv4_payload_end(b)),
            },
        )
    } else {
        None
    }
}

impl IPv4 {
    /// Decode one IPv4 layer from raw bytes.
    pub fn new(packet_data: &[u8]) -> (r: Option<IPv4>)
        ensures
            r is Some <==> packet_data@.len() >= IPV4_HEADER_LEN,
            r matches Some(p) ==> Some(p@) == spec_decode_ipv4(packet_data@),
    {
        if packet_data.len() >= IPV4_HEADER_LEN {
            let header_bytes = 4 * ((packet_data[0] % 16) as usize);
            let start = if header_bytes <= IPV4_HEADER_LEN {
                IPV4_HEADER_LEN
            } else {
                header_bytes
            };
            let total_length = read_be16(packet_data, 2) as usize;
            let stated = if total_length <= header_bytes {
                0
            } else {
                total_length - header_bytes
            };
            let lo = if start <= packet_data.len() {
                start
            } else {
                packet_data.len()
            };
            let hi = if start + stated <= packet_data.len() {
                start + stated
            } else {
                packet_data.len()
            };
            let p = IPv4 {
                source: sub_vec(packet_data, 12, 16),
                destination: sub_vec(packet_data, 16, 20),
                header_length: packet_data[0] % 16,
                dscp: packet_data[1] / 4,
                ecn: packet_data[1] % 4,
                total_length: read_be16(packet_data, 2),
                identification: read_be16(packet_data, 4),
                flags: packet_data[6] / 32,
                ttl: packet_data[8],
                checksum: read_be16(packet_data, 10),
                next_level_protocol: packet_data[9],
                payload: sub_vec(packet_data, lo, hi),
            };
            proof {
                assert(p@ =~= spec_decode_ipv4(packet_data@)->0);
            }
            Some(p)
        } else {
            None
        }
    }
}

impl PacketAnalysis for IPv4 {
    open spec fn wf(&self) -> bool {
        self.source@.len() == 4 && self.destination@.len() == 4
    }

    open spec fn spec_protocol(&self) -> Protocol {
        Protocol::IPv4
    }

    open spec fn spec_source(&self) -> Seq<char> {
        spec_ipv4_str(self.source@)
    }

    open spec fn spec_destination(&self) -> Seq<char> {
        spec_ipv4_str(self.destination@)
    }

    open spec fn spec_payload(&self) -> Seq<u8> {
        self.payload@
    }

    open spec fn spec_next_tag(&self) -> Option<Protocol> {
        spec_ip_next(self.next_level_protocol)
    }

    open spec fn spec_short_description(&self) -> Seq<char> {
        LayerView::IPv4(self@).short_description()
    }

    fn protocol(&self) -> Protocol {
        Protocol::IPv4
    }

    fn source(&self) -> String {
        ipv4_string(&self.source)
    }

    fn destination(&self) -> String {
        ipv4_string(&self.destination)
    }

    fn payload_length(&self) -> usize {
        self.payload.len()
    }

    fn payload(&self) -> &Vec<u8> {
        &self.payload
    }

    fn short_description(&self) -> (r: String) {
        let mut s = String::from_str("IPv4 ");
        let src = ipv4_string(&self.source);
        s.append(src.as_str());
        s.append(" -> ");
        let dst = ipv4_string(&self.destination);
        s.append(dst.as_str());
        s.append(" len ");
        let len = dec_u64_string(self.payload.len() as u64);
        s.append(len.as_str());
        proof {
            assert(s@ =~= self.spec_short_description());
        }
        s
    }

    fn next_protocol(&self) -> Option<Layer> {
        if self.next_level_protocol == 6 {
            decode_layer(Protocol::TCP, self.payload.as_slice())
        } else if self.next_level_protocol == 17 {
            decode_layer(Protocol::UDP, self.payload.as_slice())
        } else {
            None
        }
    }
}

} // verus!
