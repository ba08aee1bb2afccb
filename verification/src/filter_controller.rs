//! The filter registry: a fixed catalog of available filter kinds and the
//! ordered, mutable list of configured active filters.

use vstd::prelude::*;

use crate::destination_filter::{DestinationFilter, DestinationFilterView};
use crate::filter::{filter_views, spec_configured, Filter, FilterUpdate, FilterView};
use crate::protocol::Protocol;
use crate::protocol_filter::{ProtocolFilter, ProtocolFilterView};
use crate::source_filter::{SourceFilter, SourceFilterView};

verus! {

/// Holds the available-filter catalog and the active-filter list.
/// Removal and clearing touch only the active list, never the catalog.
pub struct FilterController {
    available_filters: Vec<Filter>,
    active_filters: Vec<Filter>,
}

/// The mathematical shape of the filter registry.
#[verifier::ext_equal]
pub struct FilterControllerView {
    pub available_filters: Seq<FilterView>,
    pub active_filters: Seq<FilterView>,
}

impl View for FilterController {
    type V = FilterControllerView;

    closed spec fn view(&self) -> FilterControllerView {
        FilterControllerView {
            available_filters: filter_views(self.available_filters@),
            active_filters: filter_views(self.active_filters@),
        }
    }
}

/// The fixed catalog: one default instance of each filter kind, in the
/// order source, destination, protocol.
pub open spec fn spec_default_catalog() -> Seq<FilterView> {
    seq![
        FilterView::BySource(
            SourceFilterView {
                accepted_source: Seq::empty(),
                applicable_protocol: Protocol::IPv4,
            },
        ),
        FilterView::ByDestination(
            DestinationFilterView {
                accepted_destination: Seq::empty(),
                applicable_protocol: Protocol::IPv4,
            },
        ),
        FilterView::ByProtocol(ProtocolFilterView { accepted_protocols: Seq::empty() }),
    ]
}

impl FilterController {
    /// A fresh registry: the three-kind catalog and no active filters.
    pub fn new() -> (r: FilterController)
        ensures
            r@.available_filters == spec_default_catalog(),
            r@.active_filters == Seq::<FilterView>::empty(),
    {
        let mut available: Vec<Filter> = Vec::new();
        available.push(Filter::BySource(SourceFilter::new()));
        available.push(Filter::ByDestination(DestinationFilter::new()));
        available.push(Filter::ByProtocol(ProtocolFilter::new()));
        let r = FilterController { available_filters: available, active_filters: Vec::new() };
        proof {
            assert(r@.available_filters[0] =~= spec_default_catalog()[0]);
            assert(r@.available_filters[1] =~= spec_default_catalog()[1]);
            assert(r@.available_filters[2] =~= spec_default_catalog()[2]);
            assert(r@.available_filters =~= spec_default_catalog());
            assert(r@.active_filters =~= Seq::<FilterView>::empty());
        }
        r
    }

    /// The available-filter catalog.
    pub fn get_available_filters(&self) -> (r: &Vec<Filter>)
        ensures
            filter_views(r@) == self@.available_filters,
    {
        &self.available_filters
    }

    /// The active filters, in insertion order.
    pub fn get_active_filters(&self) -> (r: &Vec<Filter>)
        ensures
            filter_views(r@) == self@.active_filters,
    {
        &self.active_filters
    }

    /// Append a configured filter to the active list.
    pub fn add_filter(&mut self, filter: Filter)
        ensures
            final(self)@.active_filters == old(self)@.active_filters.push(filter@),
            final(self)@.available_filters == old(self)@.available_filters,
    {
        let ghost f = filter@;
        self.active_filters.push(filter);
        proof {
            assert(self@.active_filters =~= old(self)@.active_filters.push(f));
        }
    }

    /// Remove the active filter at `filter_idx`; the catalog is untouched.
    pub fn remove_filter(&mut self, filter_idx: usize)
        requires
            filter_idx < old(self)@.active_filters.len(),
        ensures
            final(self)@.active_filters == old(self)@.active_filters.remove(filter_idx as int),
            final(self)@.available_filters == old(self)@.available_filters,
    {
        self.active_filters.remove(filter_idx);
        proof {
            assert(self@.active_filters =~= old(self)@.active_filters.remove(filter_idx as int));
        }
    }

    /// Reconfigure the active filter at `filter_idx` with the collected
    /// update; every other filter and the catalog stay as they were.
    pub fn configure_filter(&mut self, filter_idx: usize, update: FilterUpdate)
        requires
            filter_idx < old(self)@.active_filters.len(),
        ensures
            final(self)@.active_filters == old(self)@.active_filters.update(
                filter_idx as int,
                spec_configured(old(self)@.active_filters[filter_idx as int], update@),
            ),
            final(self)@.available_filters == old(self)@.available_filters,
    {
        let ghost u = update@;
        let mut filter = self.active_filters.remove(filter_idx);
        filter.configure(update);
        let ghost configured = filter@;
        self.active_filters.insert(filter_idx, filter);
        proof {
            assert(configured == spec_configured(
                old(self)@.active_filters[filter_idx as int],
                u,
            ));
            assert(self@.active_filters =~= old(self)@.active_filters.update(
                filter_idx as int,
                configured,
            ));
        }
    }

    /// Drop every active filter; the catalog is untouched.
    pub fn clear_filters(&mut self)
        ensures
            final(self)@.active_filters == Seq::<FilterView>::empty(),
            final(self)@.available_filters == old(self)@.available_filters,
    {
        self.active_filters.clear();
        proof {
            assert(self@.active_filters =~= Seq::<FilterView>::empty());
        }
    }
}

} // verus!
