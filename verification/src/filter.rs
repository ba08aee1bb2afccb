//! The closed union of filter kinds, frame acceptance by a set of active
//! filters, and the laws that acceptance obeys.
//!
//! A frame is accepted by a set of filters exactly when, for every filter,
//! some layer of the frame is both applicable to that filter and satisfies
//! its match test: an AND across filters of an OR across the frame's layers.

use vstd::prelude::*;

use crate::analyzed_data::AnalyzedData;
use crate::destination_filter::{DestinationFilter, DestinationFilterView};
use crate::layer::{Layer, LayerView};
use crate::packet_filter::PacketFilter;
use crate::protocol::Protocol;
use crate::protocol_filter::{ProtocolFilter, ProtocolFilterView};
use crate::source_filter::{SourceFilter, SourceFilterView};

verus! {

/// One configured filter instance, of any kind.
pub enum Filter {
    BySource(SourceFilter),
    ByDestination(DestinationFilter),
    ByProtocol(ProtocolFilter),
}

/// The mathematical shape of one configured filter.
#[verifier::ext_equal]
pub enum FilterView {
    BySource(SourceFilterView),
    ByDestination(DestinationFilterView),
    ByProtocol(ProtocolFilterView),
}

impl View for Filter {
    type V = FilterView;

    open spec fn view(&self) -> FilterView {
        match self {
            Filter::BySource(f) => FilterView::BySource(f@),
            Filter::ByDestination(f) => FilterView::ByDestination(f@),
            Filter::ByProtocol(f) => FilterView::ByProtocol(f@),
        }
    }
}

impl FilterView {
    /// Is this filter meaningful for a layer of protocol `p`?
    pub open spec fn applicable(self, p: Protocol) -> bool {
        match self {
            FilterView::BySource(f) => p == f.applicable_protocol,
            FilterView::ByDestination(f) => p == f.applicable_protocol,
            FilterView::ByProtocol(_) => true,
        }
    }

    /// Does a single layer satisfy this filter's configured criteria?
    pub open spec fn accepts_layer(self, l: LayerView) -> bool {
        match self {
            FilterView::BySource(f) => l.source() == f.accepted_source,
            FilterView::ByDestination(f) => l.destination() == f.accepted_destination,
            FilterView::ByProtocol(f) => f.accepted_protocols.contains(l.protocol()),
        }
    }
}

/// One operator-supplied reconfiguration of an active filter. Address
/// updates speak to address filters; protocol-set updates speak to protocol
/// filters; a mismatched update leaves the filter unchanged.
pub enum FilterUpdate {
    Address { address: Option<String>, protocol: Option<Protocol> },
    AddProtocol(Protocol),
    ClearProtocols,
}

/// The mathematical shape of one reconfiguration.
#[verifier::ext_equal]
pub enum FilterUpdateView {
    Address { address: Option<Seq<char>>, protocol: Option<Protocol> },
    AddProtocol(Protocol),
    ClearProtocols,
}

impl View for FilterUpdate {
    type V = FilterUpdateView;

    open spec fn view(&self) -> FilterUpdateView {
        match self {
            FilterUpdate::Address { address, protocol } => FilterUpdateView::Address {
                address: match address {
                    Some(s) => Some(s@),
                    None => None,
                },
                protocol: *protocol,
            },
            FilterUpdate::AddProtocol(p) => FilterUpdateView::AddProtocol(*p),
            FilterUpdate::ClearProtocols => FilterUpdateView::ClearProtocols,
        }
    }
}

/// The configuration `f` carries after applying `u`: address updates
/// replace the supplied pieces of an address filter's criteria and keep the
/// missing ones; protocol-set updates grow or empty a protocol filter's
/// set; anything else leaves the filter as it was.
pub open spec fn spec_configured(f: FilterView, u: FilterUpdateView) -> FilterView {
    match (f, u) {
        (FilterView::BySource(s), FilterUpdateView::Address { address, protocol }) => (
        FilterView::BySource(
            SourceFilterView {
                accepted_source: match address {
                    Some(a) => a,
                    None => s.accepted_source,
                },
                applicable_protocol: match protocol {
                    Some(p) => p,
                    None => s.applicable_protocol,
                },
            },
        )),
        (FilterView::ByDestination(d), FilterUpdateView::Address { address, protocol }) => (
        FilterView::ByDestination(
            DestinationFilterView {
                accepted_destination: match address {
                    Some(a) => a,
                    None => d.accepted_destination,
                },
                applicable_protocol: match protocol {
                    Some(p) => p,
                    None => d.applicable_protocol,
                },
            },
        )),
        (FilterView::ByProtocol(pf), FilterUpdateView::AddProtocol(p)) => (FilterView::ByProtocol(
            ProtocolFilterView { accepted_protocols: pf.accepted_protocols.push(p) },
        )),
        (FilterView::ByProtocol(_), FilterUpdateView::ClearProtocols) => (FilterView::ByProtocol(
            ProtocolFilterView { accepted_protocols: Seq::empty() },
        )),
        _ => f,
    }
}

/// The mathematical shapes of a sequence of filters, in order.
pub open spec fn filter_views(filters: Seq<Filter>) -> Seq<FilterView> {
    Seq::new(filters.len(), |i: int| filters[i]@)
}

/// Does some layer of the frame both fall under `f` and satisfy it?
pub open spec fn spec_filter_matches_frame(f: FilterView, packets: Seq<LayerView>) -> bool {
    exists|i: int|
        0 <= i < packets.len() && f.applicable((#[trigger] packets[i]).protocol())
            && f.accepts_layer(packets[i])
}

/// Is the frame accepted by every filter of the set?
pub open spec fn spec_accepts(packets: Seq<LayerView>, filters: Seq<FilterView>) -> bool {
    forall|j: int| 0 <= j < filters.len() ==> spec_filter_matches_frame(#[trigger] filters[j], packets)
}

impl Filter {
    /// Does a single layer satisfy this filter's configured criteria?
    pub fn apply(&self, packet: &Layer) -> (r: bool)
        requires
            packet@.wf(),
        ensures
            r == self@.accepts_layer(packet@),
    {
        match self {
            Filter::BySource(f) => f.apply(packet),
            Filter::ByDestination(f) => f.apply(packet),
            Filter::ByProtocol(f) => f.apply(packet),
        }
    }

    /// Is this filter meaningful for a layer of protocol `protocol`?
    pub fn is_applicable(&self, protocol: Protocol) -> (r: bool)
        ensures
            r == self@.applicable(protocol),
    {
        match self {
            Filter::BySource(f) => f.is_applicable(protocol),
            Filter::ByDestination(f) => f.is_applicable(protocol),
            Filter::ByProtocol(f) => f.is_applicable(protocol),
        }
    }

    /// Reconfigure this filter in place: the update replaces what it
    /// supplies, keeps what it leaves out, and a mismatched update changes
    /// nothing.
    pub fn configure(&mut self, update: FilterUpdate)
        ensures
            final(self)@ == spec_configured(old(self)@, update@),
    {
        match self {
            Filter::BySource(f) => match update {
                FilterUpdate::Address { address, protocol } => f.configure(address, protocol),
                _ => {},
            },
            Filter::ByDestination(f) => match update {
                FilterUpdate::Address { address, protocol } => f.configure(address, protocol),
                _ => {},
            },
            Filter::ByProtocol(f) => match update {
                FilterUpdate::AddProtocol(p) => f.add_protocol(p),
                FilterUpdate::ClearProtocols => f.clear_protocols(),
                _ => {},
            },
        }
    }

    /// The catalog description of this filter's kind.
    pub fn get_description(&self) -> (r: String)
        ensures
            r@ == (match self@ {
                FilterView::BySource(_) => "Filtering by source address"@,
                FilterView::ByDestination(_) => "Filtering by destination address"@,
                FilterView::ByProtocol(_) => "Filtering by protocol"@,
            }),
    {
        match self {
            Filter::BySource(f) => f.get_description(),
            Filter::ByDestination(f) => f.get_description(),
            Filter::ByProtocol(f) => f.get_description(),
        }
    }

    /// The printable form of this filter's current configuration.
    pub fn get_config(&self) -> (r: String)
        ensures
            r@ == (match self {
                Filter::BySource(f) => f.spec_config(),
                Filter::ByDestination(f) => f.spec_config(),
                Filter::ByProtocol(f) => f.spec_config(),
            }),
    {
        match self {
            Filter::BySource(f) => f.get_config(),
            Filter::ByDestination(f) => f.get_config(),
            Filter::ByProtocol(f) => f.get_config(),
        }
    }
}

/// Does some layer of `frame` both fall under `f` and satisfy it?
pub fn filter_matches_frame(frame: &AnalyzedData, f: &Filter) -> (r: bool)
    requires
        frame@.wf(),
    ensures
        r == spec_filter_matches_frame(f@, frame@.packets),
{
    let mut i: usize = 0;
    while i < frame.packets.len()
        invariant
            i <= frame.packets@.len(),
            frame@.wf(),
            forall|k: int|
                0 <= k < i ==> !(f@.applicable((#[trigger] frame@.packets[k]).protocol())
                    && f@.accepts_layer(frame@.packets[k])),
        decreases frame.packets@.len() - i,
    {
        proof {
            assert(frame@.packets[i as int].wf());
        }
        let packet = &frame.packets[i];
        if f.is_applicable(packet.protocol()) {
            if f.apply(packet) {
                return true;
            }
        }
        i = i + 1;
    }
    false
}

impl AnalyzedData {
    /// Is this frame accepted by every filter of the set? A frame passes a
    /// filter when at least one of its layers is applicable to the filter
    /// and satisfies it; an empty filter set accepts every frame.
    pub fn apply_filters(&self, filters: &Vec<Filter>) -> (r: bool)
        requires
            self@.wf(),
        ensures
            r == spec_accepts(self@.packets, filter_views(filters@)),
    {
        let mut j: usize = 0;
        while j < filters.len()
            invariant
                j <= filters@.len(),
                self@.wf(),
                forall|k: int|
                    0 <= k < j ==> spec_filter_matches_frame(
                        #[trigger] filter_views(filters@)[k],
                        self@.packets,
                    ),
        decreases filters@.len() - j,
        {
            if !filter_matches_frame(self, &filters[j]) {
                proof {
                    assert(!spec_filter_matches_frame(filter_views(filters@)[j as int],
                        self@.packets));
                }
                return false;
            }
            j = j + 1;
        }
        true
    }
}

/// Filter conjunction: a frame passes two filters together exactly when it
/// passes each of them alone.
pub proof fn lemma_filter_conjunction(packets: Seq<LayerView>, f1: FilterView, f2: FilterView)
    ensures
        spec_accepts(packets, seq![f1, f2]) == (spec_accepts(packets, seq![f1]) && spec_accepts(
            packets,
            seq![f2],
        )),
{
    let both = seq![f1, f2];
    assert(both[0] == f1 && both[1] == f2);
    assert(seq![f1][0] == f1);
    assert(seq![f2][0] == f2);
    if spec_accepts(packets, seq![f1]) && spec_accepts(packets, seq![f2]) {
        assert forall|j: int| 0 <= j < both.len() implies spec_filter_matches_frame(
            #[trigger] both[j],
            packets,
        ) by {
            if j == 0 {
                assert(spec_filter_matches_frame(seq![f1][0], packets));
            } else {
                assert(spec_filter_matches_frame(seq![f2][0], packets));
            }
        }
    }
}

/// An empty filter set accepts every frame.
pub proof fn lemma_empty_filters_accept(packets: Seq<LayerView>)
    ensures
        spec_accepts(packets, Seq::empty()),
{
}

/// A non-empty filter set never accepts a frame that has no applicable
/// layer for one of its filters.
pub proof fn lemma_no_applicable_layer_rejects(
    packets: Seq<LayerView>,
    filters: Seq<FilterView>,
    j: int,
)
    requires
        0 <= j < filters.len(),
        forall|i: int|
            0 <= i < packets.len() ==> !filters[j].applicable((#[trigger] packets[i]).protocol()),
    ensures
        !spec_accepts(packets, filters),
{
    assert(!spec_filter_matches_frame(filters[j], packets));
}

} // verus!
