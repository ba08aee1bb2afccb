//! A filter that accepts layers whose destination identifier equals a
//! configured address, on one configured protocol.

use vstd::prelude::*;

use crate::layer::{Layer, LayerView};
use crate::packet_filter::PacketFilter;
use crate::protocol::Protocol;

verus! {

/// Accepts a layer when its printable destination equals the configured
/// address; applicable only to the configured protocol.
pub struct DestinationFilter {
    accepted_destination: String,
    applicable_protocol: Protocol,
}

/// The mathematical shape of a destination filter's configuration.
#[verifier::ext_equal]
pub struct DestinationFilterView {
    pub accepted_destination: Seq<char>,
    pub applicable_protocol: Protocol,
}

impl View for DestinationFilter {
    type V = DestinationFilterView;

    closed spec fn view(&self) -> DestinationFilterView {
        DestinationFilterView {
            accepted_destination: self.accepted_destination@,
            applicable_protocol: self.applicable_protocol,
        }
    }
}

impl DestinationFilter {
    /// The default destination filter: empty address, applicable to IPv4.
    pub fn new() -> (r: DestinationFilter)
        ensures
            r@.accepted_destination == Seq::<char>::empty(),
            r@.applicable_protocol == Protocol::IPv4,
    {
        DestinationFilter {
            accepted_destination: String::new(),
            applicable_protocol: Protocol::IPv4,
        }
    }

    /// Replace the criteria with whatever was collected from the operator;
    /// a missing piece keeps its prior value.
    pub fn configure(&mut self, destination: Option<String>, protocol: Option<Protocol>)
        ensures
            final(self)@.accepted_destination == (match destination {
                Some(d) => d@,
                None => old(self)@.accepted_destination,
            }),
            final(self)@.applicable_protocol == (match protocol {
                Some(p) => p,
                None => old(self)@.applicable_protocol,
            }),
    {
        match destination {
            Some(d) => {
                self.accepted_destination = d;
            },
            None => {},
        }
        match protocol {
            Some(p) => {
                self.applicable_protocol = p;
            },
            None => {},
        }
    }

    /// A fully configured instance, built from validated operator input.
    pub fn create_filter(&self, destination: String, protocol: Protocol) -> (r: DestinationFilter)
        ensures
            r@.accepted_destination == destination@,
            r@.applicable_protocol == protocol,
    {
        DestinationFilter { accepted_destination: destination, applicable_protocol: protocol }
    }
}

impl PacketFilter for DestinationFilter {
    open spec fn spec_matches_layer(&self, l: LayerView) -> bool {
        l.destination() == self@.accepted_destination
    }

    open spec fn spec_applicable(&self, p: Protocol) -> bool {
        p == self@.applicable_protocol
    }

    open spec fn spec_description(&self) -> Seq<char> {
        "Filtering by destination address"@
    }

    open spec fn spec_config(&self) -> Seq<char> {
        "Filtering by destination address: "@ + self@.accepted_destination + " ["@
            + self@.applicable_protocol.spec_name() + "]"@
    }

    fn apply(&self, packet: &Layer) -> (r: bool) {
        let dst = packet.destination();
        dst == self.accepted_destination
    }

    fn is_applicable(&self, protocol: Protocol) -> (r: bool) {
        protocol == self.applicable_protocol
    }

    fn get_description(&self) -> (r: String) {
        String::from_str("Filtering by destination address")
    }

    fn get_config(&self) -> (r: String) {
        let mut s = String::from_str("Filtering by destination address: ");
        s.append(self.accepted_destination.as_str());
        s.append(" [");
        let name = self.applicable_protocol.name();
        s.append(name.as_str());
        s.append("]");
        proof {
            assert(s@ =~= self.spec_config());
        }
        s
    }
}

} // verus!
