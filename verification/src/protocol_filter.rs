//! A filter that accepts layers whose protocol belongs to a configured set
//! of tags. Applicability is unconditional: the filter is meaningful for
//! every layer, and membership is enforced by the match test alone.

use vstd::prelude::*;

use crate::layer::{Layer, LayerView};
use crate::packet_filter::PacketFilter;
use crate::protocol::Protocol;

verus! {

/// Accepts a layer when its protocol tag is among the accepted ones.
pub struct ProtocolFilter {
    pub(crate) accepted_protocols: Vec<Protocol>,
}

/// The mathematical shape of a protocol filter's configuration.
#[verifier::ext_equal]
pub struct ProtocolFilterView {
    pub accepted_protocols: Seq<Protocol>,
}

impl View for ProtocolFilter {
    type V = ProtocolFilterView;

    closed spec fn view(&self) -> ProtocolFilterView {
        ProtocolFilterView { accepted_protocols: self.accepted_protocols@ }
    }
}

/// Is `p` among the protocols of `v`?
pub fn contains_protocol(v: &Vec<Protocol>, p: Protocol) -> (r: bool)
    ensures
        r == v@.contains(p),
{
    let mut i: usize = 0;
    while i < v.len()
        invariant
            i <= v@.len(),
            forall|j: int| 0 <= j < i ==> v@[j] != p,
        decreases v@.len() - i,
    {
        if v[i] == p {
            return true;
        }
        i = i + 1;
    }
    false
}

impl ProtocolFilter {
    /// The default protocol filter: no accepted protocols.
    pub fn new() -> (r: ProtocolFilter)
        ensures
            r@.accepted_protocols == Seq::<Protocol>::empty(),
    {
        ProtocolFilter { accepted_protocols: Vec::new() }
    }

    /// Add one protocol to the accepted set.
    pub fn add_protocol(&mut self, protocol: Protocol)
        ensures
            final(self)@.accepted_protocols == old(self)@.accepted_protocols.push(protocol),
    {
        self.accepted_protocols.push(protocol);
    }

    /// Add one protocol to a set under construction.
    pub fn add_protocol_static(protocols: &mut Vec<Protocol>, protocol: Protocol)
        ensures
            final(protocols)@ == old(protocols)@.push(protocol),
    {
        protocols.push(protocol);
    }

    /// Empty the accepted set.
    pub fn clear_protocols(&mut self)
        ensures
            final(self)@.accepted_protocols == Seq::<Protocol>::empty(),
    {
        self.accepted_protocols.clear();
    }

    /// Empty a set under construction.
    pub fn clear_protocols_static(protocols: &mut Vec<Protocol>)
        ensures
            final(protocols)@ == Seq::<Protocol>::empty(),
    {
        protocols.clear();
    }

    /// A fully configured instance, built from a collected protocol set.
    pub fn create_filter(&self, protocols: Vec<Protocol>) -> (r: ProtocolFilter)
        ensures
            r@.accepted_protocols == protocols@,
    {
        ProtocolFilter { accepted_protocols: protocols }
    }
}

/// The comma-separated list of protocol names, bracketed by the caller.
pub open spec fn spec_protocol_list(s: Seq<Protocol>) -> Seq<char>
    decreases s.len(),
{
    if s.len() == 0 {
        Seq::empty()
    } else if s.len() == 1 {
        s[0].spec_name()
    } else {
        spec_protocol_list(s.drop_last()) + ", "@ + s.last().spec_name()
    }
}

impl PacketFilter for ProtocolFilter {
    open spec fn spec_matches_layer(&self, l: LayerView) -> bool {
        self@.accepted_protocols.contains(l.protocol())
    }

    open spec fn spec_applicable(&self, p: Protocol) -> bool {
        true
    }

    open spec fn spec_description(&self) -> Seq<char> {
        "Filtering by protocol"@
    }

    open spec fn spec_config(&self) -> Seq<char> {
        "Filtering by protocols: ["@ + spec_protocol_list(self@.accepted_protocols) + "]"@
    }

    fn apply(&self, packet: &Layer) -> (r: bool) {
        contains_protocol(&self.accepted_protocols, packet.protocol())
    }

    fn is_applicable(&self, protocol: Protocol) -> (r: bool) {
        true
    }

    fn get_description(&self) -> (r: String) {
        String::from_str("Filtering by protocol")
    }

    fn get_config(&self) -> (r: String) {
        let mut s = String::from_str("Filtering by protocols: [");
        let ghost prefix = s@;
        let mut i: usize = 0;
        while i < self.accepted_protocols.len()
            invariant
                i <= self.accepted_protocols@.len(),
                prefix == "Filtering by protocols: ["@,
                s@ == prefix + spec_protocol_list(self@.accepted_protocols.take(i as int)),
            decreases self.accepted_protocols@.len() - i,
        {
            if i > 0 {
                s.append(", ");
            }
            let name = self.accepted_protocols[i].name();
            s.append(name.as_str());
            proof {
                let taken = self@.accepted_protocols.take(i + 1 as int);
                assert(taken.drop_last() =~= self@.accepted_protocols.take(i as int));
                assert(taken.last() == self@.accepted_protocols[i as int]);
            }
            i = i + 1;
        }
        s.append("]");
        proof {
            assert(self@.accepted_protocols.take(self.accepted_protocols@.len() as int)
                =~= self@.accepted_protocols);
            assert(s@ =~= self.spec_config());
        }
        s
    }
}

} // verus!
