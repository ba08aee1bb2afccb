//! One fully decoded frame: a capture timestamp and the ordered stack of
//! layers decoded from one raw capture event, outermost first.

use vstd::prelude::*;

use crate::layer::{layer_views, Layer, LayerView};
use crate::timefmt::{spec_utc_datetime_str, utc_datetime_string, TIMESTAMP_LIMIT};

verus! {

/// One decoded frame: capture timestamp (seconds since the epoch) and the
/// decoded layer stack, outermost first.
pub struct AnalyzedData {
    pub timestamp: i64,
    pub packets: Vec<Layer>,
}

/// The mathematical shape of one decoded frame.
#[verifier::ext_equal]
pub struct AnalyzedDataView {
    pub timestamp: int,
    pub packets: Seq<LayerView>,
}

impl View for AnalyzedData {
    type V = AnalyzedDataView;

    open spec fn view(&self) -> AnalyzedDataView {
        AnalyzedDataView { timestamp: self.timestamp as int, packets: layer_views(self.packets@) }
    }
}

impl AnalyzedDataView {
    /// The timestamp is displayable and every layer is well formed.
    pub open spec fn wf(self) -> bool {
        &&& 0 <= self.timestamp < TIMESTAMP_LIMIT
        &&& forall|i: int| 0 <= i < self.packets.len() ==> (#[trigger] self.packets[i]).wf()
    }
}

/// The semicolon-terminated concatenation of the one-line descriptions of
/// `packets`.
pub open spec fn spec_frame_descriptions(packets: Seq<LayerView>) -> Seq<char>
    decreases packets.len(),
{
    if packets.len() == 0 {
        Seq::empty()
    } else {
        spec_frame_descriptions(packets.drop_last()) + packets.last().short_description() + ";"@
    }
}

impl AnalyzedData {
    /// An empty frame captured at `timestamp`.
    pub fn new(timestamp: i64) -> (r: AnalyzedData)
        ensures
            r@.timestamp == timestamp,
            r@.packets.len() == 0,
    {
        AnalyzedData { timestamp, packets: Vec::new() }
    }

    /// The one-line summary of this frame: the bracketed calendar form of
    /// the timestamp, then each layer's short description, each followed by
    /// a semicolon.
    pub fn get_info(&self) -> (r: String)
        requires
            self@.wf(),
        ensures
            r@ == "["@ + spec_utc_datetime_str(self@.timestamp) + "] "@ + spec_frame_descriptions(
                self@.packets,
            ),
    {
        let mut s = String::from_str("[");
        let ts = utc_datetime_string(self.timestamp);
        s.append(ts.as_str());
        s.append("] ");
        let ghost prefix = s@;
        let mut i: usize = 0;
        while i < self.packets.len()
            invariant
                i <= self.packets@.len(),
                self@.wf(),
                prefix == "["@ + spec_utc_datetime_str(self@.timestamp) + "] "@,
                s@ == prefix + spec_frame_descriptions(self@.packets.take(i as int)),
            decreases self.packets@.len() - i,
        {
            proof {
                assert(self@.packets[i as int].wf());
            }
            let d = self.packets[i].short_description();
            s.append(d.as_str());
            s.append(";");
            proof {
                assert(self@.packets.take(i + 1 as int).drop_last() =~= self@.packets.take(
                    i as int,
                ));
                assert(self@.packets.take(i + 1 as int).last() == self@.packets[i as int]);
            }
            i = i + 1;
        }
        proof {
            assert(self@.packets.take(self.packets@.len() as int) =~= self@.packets);
        }
        s
    }
}

} // verus!
