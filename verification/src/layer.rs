//! One decoded protocol layer, as a closed tagged union, together with the
//! fixed dispatch table that selects the next decoder from a layer's header.

use vstd::prelude::*;

use crate::arp::{spec_decode_arp, ArpView, ARP, ARP_HEADER_LEN};
use crate::ethernet::{spec_decode_ethernet, Ethernet, EthernetView, ETHERNET_HEADER_LEN};
use crate::ipv4::{spec_decode_ipv4, IPv4, Ipv4View, IPV4_HEADER_LEN};
use crate::ipv6::{spec_decode_ipv6, IPv6, Ipv6View, IPV6_HEADER_LEN};
use crate::packet_analysis::PacketAnalysis;
use crate::protocol::Protocol;
use crate::tcp::{spec_decode_tcp, TcpView, TCP, TCP_HEADER_LEN};
use crate::text::{spec_dec_nat, spec_ipv4_str, spec_ipv6_str, spec_mac_str};
use crate::udp::{spec_decode_udp, UdpView, UDP, UDP_HEADER_LEN};

verus! {

/// One decoded protocol layer.
pub enum Layer {
    Ethernet(Ethernet),
    ARP(ARP),
    IPv4(IPv4),
    IPv6(IPv6),
    TCP(TCP),
    UDP(UDP),
}

/// The mathematical shape of one decoded layer.
#[verifier::ext_equal]
pub enum LayerView {
    Ethernet(EthernetView),
    ARP(ArpView),
    IPv4(Ipv4View),
    IPv6(Ipv6View),
    TCP(TcpView),
    UDP(UdpView),
}

impl View for Layer {
    type V = LayerView;

    open spec fn view(&self) -> LayerView {
        match self {
            Layer::Ethernet(e) => LayerView::Ethernet(e@),
            Layer::ARP(a) => LayerView::ARP(a@),
            Layer::IPv4(p) => LayerView::IPv4(p@),
            Layer::IPv6(p) => LayerView::IPv6(p@),
            Layer::TCP(t) => LayerView::TCP(t@),
            Layer::UDP(u) => LayerView::UDP(u@),
        }
    }
}

/// The mathematical shapes of a sequence of layers, in order.
pub open spec fn layer_views(layers: Seq<Layer>) -> Seq<LayerView> {
    Seq::new(layers.len(), |i: int| layers[i]@)
}

/// The minimum header size of the layer decoded under `tag`; buffers
/// shorter than this decode to no layer.
pub open spec fn spec_min_header_len(tag: Protocol) -> int {
    match tag {
        Protocol::Ethernet => ETHERNET_HEADER_LEN as int,
        Protocol::ARP => ARP_HEADER_LEN as int,
        Protocol::IPv4 => IPV4_HEADER_LEN as int,
        Protocol::IPv6 => IPV6_HEADER_LEN as int,
        Protocol::TCP => TCP_HEADER_LEN as int,
        Protocol::UDP => UDP_HEADER_LEN as int,
    }
}

/// Which decoder to try on an Ethernet payload, by EtherType.
pub open spec fn spec_ethertype_next(ethertype: u16) -> Option<Protocol> {
    if ethertype == 0x0800 {
        Some(Protocol::IPv4)
    } else if ethertype == 0x86DD {
        Some(Protocol::IPv6)
    } else if ethertype == 0x0806 {
        Some(Protocol::ARP)
    } else {
        None
    }
}

/// Which decoder to try on an IP payload, by next-protocol number.
pub open spec fn spec_ip_next(proto: u8) -> Option<Protocol> {
    if proto == 6 {
        Some(Protocol::TCP)
    } else if proto == 17 {
        Some(Protocol::UDP)
    } else {
        None
    }
}

impl LayerView {
    /// The protocol tag of this layer.
    pub open spec fn protocol(self) -> Protocol {
        match self {
            LayerView::Ethernet(_) => Protocol::Ethernet,
            LayerView::ARP(_) => Protocol::ARP,
            LayerView::IPv4(_) => Protocol::IPv4,
            LayerView::IPv6(_) => Protocol::IPv6,
            LayerView::TCP(_) => Protocol::TCP,
            LayerView::UDP(_) => Protocol::UDP,
        }
    }

    /// The layer's payload: the bytes after its header (options included),
    /// bounded by the header's stated datagram length where one exists.
    pub open spec fn payload(self) -> Seq<u8> {
        match self {
            LayerView::Ethernet(e) => e.payload,
            LayerView::ARP(a) => a.payload,
            LayerView::IPv4(p) => p.payload,
            LayerView::IPv6(p) => p.payload,
            LayerView::TCP(t) => t.payload,
            LayerView::UDP(u) => u.payload,
        }
    }

    /// The address fields hold exactly as many bytes as their kind asks.
    pub open spec fn wf(self) -> bool {
        match self {
            LayerView::Ethernet(e) => e.destination.len() == 6 && e.source.len() == 6,
            LayerView::ARP(a) => a.sender_hw_addr.len() == 6 && a.sender_proto_addr.len() == 4
                && a.target_hw_addr.len() == 6 && a.target_proto_addr.len() == 4,
            LayerView::IPv4(p) => p.source.len() == 4 && p.destination.len() == 4,
            LayerView::IPv6(p) => p.source.len() == 16 && p.destination.len() == 16,
            LayerView::TCP(_) => true,
            LayerView::UDP(_) => true,
        }
    }

    /// The printable source identifier of this layer.
    pub open spec fn source(self) -> Seq<char> {
        match self {
            LayerView::Ethernet(e) => spec_mac_str(e.source),
            LayerView::ARP(a) => spec_ipv4_str(a.sender_proto_addr),
            LayerView::IPv4(p) => spec_ipv4_str(p.source),
            LayerView::IPv6(p) => spec_ipv6_str(p.source),
            LayerView::TCP(t) => spec_dec_nat(t.source as nat),
            LayerView::UDP(u) => spec_dec_nat(u.source as nat),
        }
    }

    /// The printable destination identifier of this layer.
    pub open spec fn destination(self) -> Seq<char> {
        match self {
            LayerView::Ethernet(e) => spec_mac_str(e.destination),
            LayerView::ARP(a) => spec_ipv4_str(a.target_proto_addr),
            LayerView::IPv4(p) => spec_ipv4_str(p.destination),
            LayerView::IPv6(p) => spec_ipv6_str(p.destination),
            LayerView::TCP(t) => spec_dec_nat(t.destination as nat),
            LayerView::UDP(u) => spec_dec_nat(u.destination as nat),
        }
    }

    /// Which decoder, if any, should try this layer's payload next.
    pub open spec fn next_tag(self) -> Option<Protocol> {
        match self {
            LayerView::Ethernet(e) => spec_ethertype_next(e.ethertype),
            LayerView::IPv4(p) => spec_ip_next(p.next_level_protocol),
            LayerView::IPv6(p) => spec_ip_next(p.next_header),
            LayerView::ARP(_) => None,
            LayerView::TCP(_) => None,
            LayerView::UDP(_) => None,
        }
    }

    /// The one-line description of this layer.
    pub open spec fn short_description(self) -> Seq<char> {
        match self {
            LayerView::Ethernet(e) => "ETHERNET: "@ + spec_mac_str(e.source) + " -> "@
                + spec_mac_str(e.destination) + " len "@ + spec_dec_nat(e.payload.len()),
            LayerView::ARP(a) => "ARP "@ + spec_mac_str(a.sender_hw_addr) + "["@ + spec_ipv4_str(
                a.sender_proto_addr,
            ) + "] -> "@ + spec_mac_str(a.target_hw_addr) + "["@ + spec_ipv4_str(
                a.target_proto_addr,
            ) + "] len "@ + spec_dec_nat(a.payload.len()),
            LayerView::IPv4(p) => "IPv4 "@ + spec_ipv4_str(p.source) + " -> "@ + spec_ipv4_str(
                p.destination,
            ) + " len "@ + spec_dec_nat(p.payload.len()),
            LayerView::IPv6(p) => "IPv6 "@ + spec_ipv6_str(p.source) + " -> "@ + spec_ipv6_str(
                p.destination,
            ) + " len "@ + spec_dec_nat(p.payload.len()),
            LayerView::TCP(t) => "TCP: "@ + spec_dec_nat(t.source as nat) + " -> "@ + spec_dec_nat(
                t.destination as nat,
            ) + " len "@ + spec_dec_nat(t.payload.len()),
            LayerView::UDP(u) => "UDP: "@ + spec_dec_nat(u.source as nat) + " -> "@ + spec_dec_nat(
                u.destination as nat,
            ) + " len "@ + spec_dec_nat(u.payload.len()),
        }
    }
}

/// The layer decoded from `b` under `tag`: exactly the decoder of that tag,
/// wrapped in the union.
pub open spec fn spec_decode_layer(tag: Protocol, b: Seq<u8>) -> Option<LayerView> {
    match tag {
        Protocol::Ethernet => match spec_decode_ethernet(b) {
            Some(e) => Some(LayerView::Ethernet(e)),
            None => None,
        },
        Protocol::ARP => match spec_decode_arp(b) {
            Some(a) => Some(LayerView::ARP(a)),
            None => None,
        },
        Protocol::IPv4 => match spec_decode_ipv4(b) {
            Some(p) => Some(LayerView::IPv4(p)),
            None => None,
        },
        Protocol::IPv6 => match spec_decode_ipv6(b) {
            Some(p) => Some(LayerView::IPv6(p)),
            None => None,
        },
        Protocol::TCP => match spec_decode_tcp(b) {
            Some(t) => Some(LayerView::TCP(t)),
            None => None,
        },
        Protocol::UDP => match spec_decode_udp(b) {
            Some(u) => Some(LayerView::UDP(u)),
            None => None,
        },
    }
}

/// Everything a successful decode guarantees about the layer it returns:
/// it is well formed, carries the tag it was decoded under, and its payload
/// is strictly shorter than the input, by at least the minimum header.
pub proof fn lemma_decode_layer_shape(tag: Protocol, b: Seq<u8>)
    ensures
        spec_decode_layer(tag, b) is Some <==> b.len() >= spec_min_header_len(tag),
        spec_decode_layer(tag, b) matches Some(l) ==> l.wf() && l.protocol() == tag
            && l.payload().len() + spec_min_header_len(tag) <= b.len(),
{
}

impl Layer {
    /// The protocol tag of this layer.
    pub fn protocol(&self) -> (r: Protocol)
        ensures
            r == self@.protocol(),
    {
        match self {
            Layer::Ethernet(e) => e.protocol(),
            Layer::ARP(a) => a.protocol(),
            Layer::IPv4(p) => p.protocol(),
            Layer::IPv6(p) => p.protocol(),
            Layer::TCP(t) => t.protocol(),
            Layer::UDP(u) => u.protocol(),
        }
    }

    /// The printable source identifier of this layer.
    pub fn source(&self) -> (r: String)
        requires
            self@.wf(),
        ensures
            r@ == self@.source(),
    {
        match self {
            Layer::Ethernet(e) => e.source(),
            Layer::ARP(a) => a.source(),
            Layer::IPv4(p) => p.source(),
            Layer::IPv6(p) => p.source(),
            Layer::TCP(t) => t.source(),
            Layer::UDP(u) => u.source(),
        }
    }

    /// The printable destination identifier of this layer.
    pub fn destination(&self) -> (r: String)
        requires
            self@.wf(),
        ensures
            r@ == self@.destination(),
    {
        match self {
            Layer::Ethernet(e) => e.destination(),
            Layer::ARP(a) => a.destination(),
            Layer::IPv4(p) => p.destination(),
            Layer::IPv6(p) => p.destination(),
            Layer::TCP(t) => t.destination(),
            Layer::UDP(u) => u.destination(),
        }
    }

    /// How many bytes this layer's header left as payload.
    pub fn payload_length(&self) -> (r: usize)
        ensures
            r == self@.payload().len(),
    {
        match self {
            Layer::Ethernet(e) => e.payload_length(),
            Layer::ARP(a) => a.payload_length(),
            Layer::IPv4(p) => p.payload_length(),
            Layer::IPv6(p) => p.payload_length(),
            Layer::TCP(t) => t.payload_length(),
            Layer::UDP(u) => u.payload_length(),
        }
    }

    /// The layer's payload: the bytes after its header (options included),
    /// bounded by the header's stated datagram length where one exists.
    pub fn payload(&self) -> (r: &Vec<u8>)
        ensures
            r@ == self@.payload(),
    {
        match self {
            Layer::Ethernet(e) => e.payload(),
            Layer::ARP(a) => a.payload(),
            Layer::IPv4(p) => p.payload(),
            Layer::IPv6(p) => p.payload(),
            Layer::TCP(t) => t.payload(),
            Layer::UDP(u) => u.payload(),
        }
    }

    /// The one-line description of this layer.
    pub fn short_description(&self) -> (r: String)
        requires
            self@.wf(),
        ensures
            r@ == self@.short_description(),
    {
        match self {
            Layer::Ethernet(e) => e.short_description(),
            Layer::ARP(a) => a.short_description(),
            Layer::IPv4(p) => p.short_description(),
            Layer::IPv6(p) => p.short_description(),
            Layer::TCP(t) => t.short_description(),
            Layer::UDP(u) => u.short_description(),
        }
    }

    /// Decode the next layer from this layer's payload, following the
    /// fixed dispatch table.
    pub fn next_protocol(&self) -> (r: Option<Layer>)
        ensures
            ({
                let expected = match self@.next_tag() {
                    Some(t) => spec_decode_layer(t, self@.payload()),
                    None => None,
                };
                &&& (r is Some <==> expected is Some)
                &&& (r matches Some(l) ==> Some(l@) == expected)
            }),
    {
        match self {
            Layer::Ethernet(e) => e.next_protocol(),
            Layer::ARP(a) => a.next_protocol(),
            Layer::IPv4(p) => p.next_protocol(),
            Layer::IPv6(p) => p.next_protocol(),
            Layer::TCP(t) => t.next_protocol(),
            Layer::UDP(u) => u.next_protocol(),
        }
    }
}

/// Decode one layer of protocol `tag` from raw bytes. Returns no layer
/// exactly when the buffer is shorter than the tag's minimum header size.
pub fn decode_layer(tag: Protocol, packet_data: &[u8]) -> (r: Option<Layer>)
    ensures
        r is Some <==> packet_data@.len() >= spec_min_header_len(tag),
        r matches Some(l) ==> Some(l@) == spec_decode_layer(tag, packet_data@),
{
    match tag {
        Protocol::Ethernet => match Ethernet::new(packet_data) {
            Some(e) => Some(Layer::Ethernet(e)),
            None => None,
        },
        Protocol::ARP => match ARP::new(packet_data) {
            Some(a) => Some(Layer::ARP(a)),
            None => None,
        },
        Protocol::IPv4 => match IPv4::new(packet_data) {
            Some(p) => Some(Layer::IPv4(p)),
            None => None,
        },
        Protocol::IPv6 => match IPv6::new(packet_data) {
            Some(p) => Some(Layer::IPv6(p)),
            None => None,
        },
        Protocol::TCP => match TCP::new(packet_data) {
            Some(t) => Some(Layer::TCP(t)),
            None => None,
        },
        Protocol::UDP => match UDP::new(packet_data) {
            Some(u) => Some(Layer::UDP(u)),
            None => None,
        },
    }
}

} // verus!
