//! A filter that accepts layers whose source identifier equals a configured
//! address, on one configured protocol.

use vstd::prelude::*;

use crate::layer::{Layer, LayerView};
use crate::packet_filter::PacketFilter;
use crate::protocol::Protocol;

verus! {

/// Accepts a layer when its printable source equals the configured address;
/// applicable only to the configured protocol.
pub struct SourceFilter {
    accepted_source: String,
    applicable_protocol: Protocol,
}

/// The mathematical shape of a source filter's configuration.
#[verifier::ext_equal]
pub struct SourceFilterView {
    pub accepted_source: Seq<char>,
    pub applicable_protocol: Protocol,
}

impl View for SourceFilter {
    type V = SourceFilterView;

    closed spec fn view(&self) -> SourceFilterView {
        SourceFilterView {
            accepted_source: self.accepted_source@,
            applicable_protocol: self.applicable_protocol,
        }
    }
}

impl SourceFilter {
    /// The default source filter: empty address, applicable to IPv4.
    pub fn new() -> (r: SourceFilter)
        ensures
            r@.accepted_source == Seq::<char>::empty(),
            r@.applicable_protocol == Protocol::IPv4,
    {
        SourceFilter { accepted_source: String::new(), applicable_protocol: Protocol::IPv4 }
    }

    /// Replace the criteria with whatever was collected from the operator;
    /// a missing piece keeps its prior value.
    pub fn configure(&mut self, source: Option<String>, protocol: Option<Protocol>)
        ensures
            final(self)@.accepted_source == (match source {
                Some(s) => s@,
                None => old(self)@.accepted_source,
            }),
            final(self)@.applicable_protocol == (match protocol {
                Some(p) => p,
                None => old(self)@.applicable_protocol,
            }),
    {
        match source {
            Some(s) => {
                self.accepted_source = s;
            },
            None => {},
        }
        match protocol {
            Some(p) => {
                self.applicable_protocol = p;
            },
            None => {},
        }
    }

    /// A fully configured instance, built from validated operator input.
    pub fn create_filter(&self, source: String, protocol: Protocol) -> (r: SourceFilter)
        ensures
            r@.accepted_source == source@,
            r@.applicable_protocol == protocol,
    {
        SourceFilter { accepted_source: source, applicable_protocol: protocol }
    }
}

impl PacketFilter for SourceFilter {
    open spec fn spec_matches_layer(&self, l: LayerView) -> bool {
        l.source() == self@.accepted_source
    }

    open spec fn spec_applicable(&self, p: Protocol) -> bool {
        p == self@.applicable_protocol
    }

    open spec fn spec_description(&self) -> Seq<char> {
        "Filtering by source address"@
    }

    open spec fn spec_config(&self) -> Seq<char> {
        "Filtering by source address: "@ + self@.accepted_source + " ["@
            + self@.applicable_protocol.spec_name() + "]"@
    }

    fn apply(&self, packet: &Layer) -> (r: bool) {
        let src = packet.source();
        src == self.accepted_source
    }

    fn is_applicable(&self, protocol: Protocol) -> (r: bool) {
        protocol == self.applicable_protocol
    }

    fn get_description(&self) -> (r: String) {
        String::from_str("Filtering by source address")
    }

    fn get_config(&self) -> (r: String) {
        let mut s = String::from_str("Filtering by source address: ");
        s.append(self.accepted_source.as_str());
        s.append(" [");
        let name = self.applicable_protocol.name();
        s.append(name.as_str());
        s.append("]");
        proof {
            assert(s@ =~= self.spec_config());
        }
        s
    }
}

} // verus!
