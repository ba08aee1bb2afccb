//! The shared surface of packet filters: a per-protocol applicability test
//! and a per-layer match test, plus printable descriptions.

use vstd::prelude::*;

use crate::layer::{Layer, LayerView};
use crate::protocol::Protocol;

verus! {

/// What every filter kind offers. Implemented by each concrete filter;
/// `Filter` dispatches to these implementations.
pub trait PacketFilter: Sized {
    /// Does a single layer satisfy this filter's configured criteria?
    spec fn spec_matches_layer(&self, l: LayerView) -> bool;

    /// Is this filter meaningful for a layer of protocol `p`?
    spec fn spec_applicable(&self, p: Protocol) -> bool;

    /// The catalog description of this filter kind.
    spec fn spec_description(&self) -> Seq<char>;

    /// The printable form of this filter's current configuration.
    spec fn spec_config(&self) -> Seq<char>;

    fn apply(&self, packet: &Layer) -> (r: bool)
        requires
            packet@.wf(),
        ensures
            r == self.spec_matches_layer(packet@),
    ;

    fn is_applicable(&self, protocol: Protocol) -> (r: bool)
        ensures
            r == self.spec_applicable(protocol),
    ;

    fn get_description(&self) -> (r: String)
        ensures
            r@ == self.spec_description(),
    ;

    fn get_config(&self) -> (r: String)
        ensures
            r@ == self.spec_config(),
    ;
}

} // verus!
