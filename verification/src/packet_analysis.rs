//! The shared capability surface of decoded protocol layers: description,
//! next-protocol dispatch, source and destination identifiers, and payload
//! access.

use vstd::prelude::*;

use crate::layer::{spec_decode_layer, Layer};
use crate::protocol::Protocol;

verus! {

/// What every decoded layer offers. Implemented by each protocol's layer
/// type; `Layer` dispatches to these implementations.
pub trait PacketAnalysis: Sized {
    /// The address fields hold exactly as many bytes as their kind asks.
    spec fn wf(&self) -> bool;

    /// The protocol tag of this layer.
    spec fn spec_protocol(&self) -> Protocol;

    /// The printable source identifier of this layer.
    spec fn spec_source(&self) -> Seq<char>;

    /// The printable destination identifier of this layer.
    spec fn spec_destination(&self) -> Seq<char>;

    /// The layer's payload: the bytes after its header (options included),
    /// bounded by the header's stated datagram length where one exists.
    spec fn spec_payload(&self) -> Seq<u8>;

    /// Which decoder, if any, should try this layer's payload next.
    spec fn spec_next_tag(&self) -> Option<Protocol>;

    /// The one-line description of this layer.
    spec fn spec_short_description(&self) -> Seq<char>;

    fn protocol(&self) -> (r: Protocol)
        ensures
            r == self.spec_protocol(),
    ;

    fn source(&self) -> (r: String)
        requires
            self.wf(),
        ensures
            r@ == self.spec_source(),
    ;

    fn destination(&self) -> (r: String)
        requires
            self.wf(),
        ensures
            r@ == self.spec_destination(),
    ;

    fn payload_length(&self) -> (r: usize)
        ensures
            r == self.spec_payload().len(),
    ;

    fn payload(&self) -> (r: &Vec<u8>)
        ensures
            r@ == self.spec_payload(),
    ;

    fn short_description(&self) -> (r: String)
        requires
            self.wf(),
        ensures
            r@ == self.spec_short_description(),
    ;

    /// Decode the next layer from this layer's payload, following the fixed
    /// dispatch table.
    fn next_protocol(&self) -> (r: Option<Layer>)
        ensures
            ({
                let expected = match self.spec_next_tag() {
                    Some(t) => spec_decode_layer(t, self.spec_payload()),
                    None => None,
                };
                &&& (r is Some <==> expected is Some)
                &&& (r matches Some(l) ==> Some(l@) == expected)
            }),
    ;
}

} // verus!
