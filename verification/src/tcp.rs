//! The TCP layer decoder.

use vstd::prelude::*;

use crate::bytes::{be16, be32, read_be16, read_be32, tail_vec};
use crate::layer::{Layer, LayerView};
use crate::packet_analysis::PacketAnalysis;
use crate::protocol::Protocol;
use crate::text::{dec_u64_string, spec_dec_nat};

verus! {

/// Minimum (and consumed) TCP header size in bytes.
pub const TCP_HEADER_LEN: usize = 20;

/// One decoded TCP layer.
pub struct TCP {
    pub source: u16,
    pub destination: u16,
    pub sequence: u32,
    pub acknowledgement: u32,
    pub data_offset: u8,
    pub reserved: u8,
    pub flags: u8,
    pub window: u16,
    pub checksum: u16,
    pub payload: Vec<u8>,
}

/// The mathematical shape of a decoded TCP layer.
#[verifier::ext_equal]
pub struct TcpView {
    pub source: u16,
    pub destination: u16,
    pub sequence: u32,
    pub acknowledgement: u32,
    pub data_offset: u8,
    pub reserved: u8,
    pub flags: u8,
    pub window: u16,
    pub checksum: u16,
    pub payload: Seq<u8>,
}

impl View for TCP {
    type V = TcpView;

    open spec fn view(&self) -> TcpView {
        TcpView {
            source: self.source,
            destination: self.destination,
            sequence: self.sequence,
            acknowledgement: self.acknowledgement,
            data_offset: self.data_offset,
            reserved: self.reserved,
            flags: self.flags,
            window: self.window,
            checksum: self.checksum,
            payload: self.payload@,
        }
    }
}

/// Where the TCP payload starts: the header spans four bytes per
/// data-offset word, the options included. A data offset below five is
/// malformed and spans only the fixed header; one pointing past the buffer
/// leaves an empty payload.
pub open spec fn spec_tcp_header_span(b: Seq<u8>) -> int {
    let offset_bytes = 4 * (b[12] as int / 16);
    if offset_bytes <= TCP_HEADER_LEN {
        TCP_HEADER_LEN as int
    } else if offset_bytes <= b.len() {
        offset_bytes
    } else {
        b.len() as int
    }
}

/// The TCP layer decoded from `b`: both ports, sequence and acknowledgement
/// numbers, the data-offset and reserved nibbles, the flag byte, window,
/// checksum, and whatever follows the header — options included — as
/// payload. No layer when `b` is shorter than the minimum header.
pub open spec fn spec_decode_tcp(b: Seq<u8>) -> Option<TcpView> {
    if b.len() >= TCP_HEADER_LEN {
        Some(
            TcpView {
                source: be16(b, 0) as u16,
                destination: be16(b, 2) as u16,
                sequence: be32(b, 4) as u32,
                acknowledgement: be32(b, 8) as u32,
                data_offset: (b[12] as int / 16) as u8,
                reserved: (b[12] as int % 16) as u8,
                flags: b[13],
                window: be16(b, 14) as u16,
                checksum: be16(b, 16) as u16,
                payload: b.subrange(spec_tcp_header_span(b), b.len() as int),
            },
        )
    } else {
        None
    }
}

impl TCP {
    /// Decode one TCP layer from raw bytes.
    pub fn new(packet_data: &[u8]) -> (r: Option<TCP>)
        ensures
            r is Some <==> packet_data@.len() >= TCP_HEADER_LEN,
            r matches Some(t) ==> Some(t@) == spec_decode_tcp(packet_data@),
    {
        if packet_data.len() >= TCP_HEADER_LEN {
            let offset_bytes = 4 * ((packet_data[12] / 16) as usize);
            let span = if offset_bytes <= TCP_HEADER_LEN {
                TCP_HEADER_LEN
            } else if offset_bytes <= packet_data.len() {
                offset_bytes
            } else {
                packet_data.len()
            };
            let t = TCP {
                source: read_be16(packet_data, 0),
                destination: read_be16(packet_data, 2),
                sequence: read_be32(packet_data, 4),
                acknowledgement: read_be32(packet_data, 8),
                data_offset: packet_data[12] / 16,
                reserved: packet_data[12] % 16,
                flags: packet_data[13],
                window: read_be16(packet_data, 14),
                checksum: read_be16(packet_data, 16),
                payload: tail_vec(packet_data, span),
            };
            proof {
                assert(t@ =~= spec_decode_tcp(packet_data@)->0);
            }
            Some(t)
        } else {
            None
        }
    }
}

impl PacketAnalysis for TCP {
    open spec fn wf(&self) -> bool {
        true
    }

    open spec fn spec_protocol(&self) -> Protocol {
        Protocol::TCP
    }

    open spec fn spec_source(&self) -> Seq<char> {
        spec_dec_nat(self.source as nat)
    }

    open spec fn spec_destination(&self) -> Seq<char> {
        spec_dec_nat(self.destination as nat)
    }

    open spec fn spec_payload(&self) -> Seq<u8> {
        self.payload@
    }

    open spec fn spec_next_tag(&self) -> Option<Protocol> {
        None
    }

    open spec fn spec_short_description(&self) -> Seq<char> {
        LayerView::TCP(self@).short_description()
    }

    fn protocol(&self) -> Protocol {
        Protocol::TCP
    }

    fn source(&self) -> String {
        dec_u64_string(self.source as u64)
    }

    fn destination(&self) -> String {
        dec_u64_string(self.destination as u64)
    }

    fn payload_length(&self) -> usize {
        self.payload.len()
    }

    fn payload(&self) -> &Vec<u8> {
        &self.payload
    }

    fn short_description(&self) -> (r: String) {
        let mut s = String::from_str("TCP: ");
        let src = dec_u64_string(self.source as u64);
        s.append(src.as_str());
        s.append(" -> ");
        let dst = dec_u64_string(self.destination as u64);
        s.append(dst.as_str());
        s.append(" len ");
        let len = dec_u64_string(self.payload.len() as u64);
        s.append(len.as_str());
        proof {
            assert(s@ =~= self.spec_short_description());
        }
        s
    }

    fn next_protocol(&self) -> Option<Layer> {
        None
    }
}

} // verus!
