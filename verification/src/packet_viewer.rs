//! The windowed packet browser: a cursor over the filtered frame sequence,
//! advanced and retreated a window at a time, with clamping so the window
//! never starts past the last element and never retreats below zero.

use vstd::prelude::*;

use crate::analyzed_data::{AnalyzedData, AnalyzedDataView};
use crate::analyzer::{frame_views, spec_frames_wf};
use crate::filter::{filter_views, spec_accepts, Filter, FilterView};

verus! {

/// Browser state for one session: cursor into the filtered sequence and
/// the operator-configurable window size.
pub struct PacketViewer {
    window_size: usize,
    current_idx: usize,
}

/// The mathematical shape of the browser state.
#[verifier::ext_equal]
pub struct PacketViewerView {
    pub window_size: usize,
    pub current_idx: usize,
}

impl View for PacketViewer {
    type V = PacketViewerView;

    closed spec fn view(&self) -> PacketViewerView {
        PacketViewerView { window_size: self.window_size, current_idx: self.current_idx }
    }
}

impl PacketViewerView {
    /// The window never shrinks below one element.
    pub open spec fn wf(self) -> bool {
        self.window_size >= 1
    }
}

/// One operator command to a browsing session. Positions for detail lookup
/// are one-based into the whole filtered sequence.
pub enum BrowserCommand {
    NextWindow,
    PreviousWindow,
    CurrentWindow,
    Resize(usize),
    Detail(usize),
    Help,
    Quit,
}

/// What the surrounding loop should do after one command: display a window
/// (or report that nothing is there), display one frame's detail (or report
/// the position out of range), reprint the instructions, report whether a
/// resize was accepted, or end the session.
pub enum BrowserAction {
    ShowWindow(Option<(usize, usize)>),
    ShowDetail(Option<usize>),
    ShowInstructions,
    WindowSizeChanged(bool),
    Quit,
}

/// The cursor after advancing one window: moved only when a full step stays
/// inside the sequence, else left in place.
pub open spec fn spec_advanced(v: PacketViewerView, packets_count: usize) -> int {
    if v.current_idx + v.window_size < packets_count {
        v.current_idx + v.window_size
    } else {
        v.current_idx as int
    }
}

/// The cursor after retreating one window, clamped at zero.
pub open spec fn spec_retreated(v: PacketViewerView) -> int {
    if v.current_idx > v.window_size {
        v.current_idx - v.window_size
    } else {
        0int
    }
}

/// The half-open bounds of the current window over a filtered sequence of
/// `packets_count` frames: the start is the cursor clamped to the last
/// element, the end is one window later clamped to the sequence end; an
/// empty sequence has no window.
pub open spec fn spec_window(v: PacketViewerView, packets_count: usize) -> Option<(usize, usize)> {
    if packets_count == 0 {
        None
    } else {
        let start = if v.current_idx < packets_count {
            v.current_idx as int
        } else {
            packets_count - 1
        };
        let end = if start + v.window_size < packets_count {
            start + v.window_size
        } else {
            packets_count as int
        };
        if end <= start {
            None
        } else {
            Some(((start as usize), (end as usize)))
        }
    }
}

/// The zero-based index a one-based detail position denotes, if it lies
/// within the filtered sequence.
pub open spec fn spec_detail_index(position: usize, packets_count: usize) -> Option<usize> {
    if 1 <= position <= packets_count {
        Some((position - 1) as usize)
    } else {
        None
    }
}

/// The positions (in capture order) of the frames that the active filters
/// accept.
pub open spec fn spec_filtered_indices(
    v: Seq<AnalyzedDataView>,
    fs: Seq<FilterView>,
) -> Seq<usize>
    decreases v.len(),
{
    if v.len() == 0 {
        Seq::empty()
    } else {
        let rest = spec_filtered_indices(v.drop_last(), fs);
        if spec_accepts(v.last().packets, fs) {
            rest.push((v.len() - 1) as usize)
        } else {
            rest
        }
    }
}

impl PacketViewer {
    /// A fresh browser: default window of ten, cursor at the start.
    pub fn new() -> (r: PacketViewer)
        ensures
            r@.window_size == 10,
            r@.current_idx == 0,
            r@.wf(),
    {
        PacketViewer { window_size: 10, current_idx: 0 }
    }

    /// Begin a browsing session: the cursor returns to the start, the
    /// window size is kept across sessions.
    pub fn start_browsing(&mut self)
        ensures
            final(self)@.current_idx == 0,
            final(self)@.window_size == old(self)@.window_size,
    {
        self.current_idx = 0;
    }

    /// The filtered subsequence for this session, as positions into the
    /// frame collection; computed once and cached by the caller.
    pub fn get_filtered_packets(packets: &Vec<AnalyzedData>, filters: &Vec<Filter>) -> (r: Vec<
        usize,
    >)
        requires
            spec_frames_wf(frame_views(packets@)),
        ensures
            r@ == spec_filtered_indices(frame_views(packets@), filter_views(filters@)),
    {
        let ghost v = frame_views(packets@);
        let ghost fs = filter_views(filters@);
        let mut result: Vec<usize> = Vec::new();
        let mut i: usize = 0;
        while i < packets.len()
            invariant
                i <= packets@.len(),
                v == frame_views(packets@),
                fs == filter_views(filters@),
                spec_frames_wf(v),
                result@ == spec_filtered_indices(v.take(i as int), fs),
            decreases packets@.len() - i,
        {
            proof {
                assert(v[i as int] == packets@[i as int]@);
                assert(v[i as int].wf());
                assert(v.take(i + 1 as int).drop_last() =~= v.take(i as int));
                assert(v.take(i + 1 as int).last() == v[i as int]);
            }
            if packets[i].apply_filters(filters) {
                result.push(i);
            }
            i = i + 1;
        }
        proof {
            assert(v.take(packets@.len() as int) =~= v);
        }
        result
    }

    /// The half-open bounds of the current window, or nothing to show.
    pub fn get_current_window(&self, packets_count: usize) -> (r: Option<(usize, usize)>)
        ensures
            r == spec_window(self@, packets_count),
    {
        if packets_count == 0 {
            return None;
        }
        let start = if self.current_idx < packets_count {
            self.current_idx
        } else {
            packets_count - 1
        };
        let end = if self.window_size < packets_count - start {
            start + self.window_size
        } else {
            packets_count
        };
        if end <= start {
            None
        } else {
            Some((start, end))
        }
    }

    /// Advance one window, clamped so the window never starts past the
    /// last element.
    pub fn switch_to_next_window(&mut self, packets_count: usize)
        ensures
            final(self)@.current_idx == spec_advanced(old(self)@, packets_count),
            final(self)@.window_size == old(self)@.window_size,
    {
        if self.current_idx < packets_count && packets_count - self.current_idx
            > self.window_size {
            self.current_idx = self.current_idx + self.window_size;
        }
    }

    /// Retreat one window, clamped at the start.
    pub fn switch_to_previous_window(&mut self)
        ensures
            final(self)@.current_idx == spec_retreated(old(self)@),
            final(self)@.window_size == old(self)@.window_size,
    {
        if self.current_idx > self.window_size {
            self.current_idx = self.current_idx - self.window_size;
        } else {
            self.current_idx = 0;
        }
    }

    /// Resize the window: a size of zero is rejected and the prior size
    /// kept. Returns whether the new size was accepted.
    pub fn change_window_size(&mut self, new_window_size: usize) -> (accepted: bool)
        ensures
            accepted == (new_window_size >= 1),
            final(self)@.window_size == (if new_window_size >= 1 {
                new_window_size as int
            } else {
                old(self)@.window_size as int
            }),
            final(self)@.current_idx == old(self)@.current_idx,
            old(self)@.wf() ==> final(self)@.wf(),
    {
        if new_window_size >= 1 {
            self.window_size = new_window_size;
            true
        } else {
            false
        }
    }

    /// The zero-based index a one-based detail position denotes; positions
    /// outside the filtered sequence are reported, not fatal. The position
    /// addresses the whole filtered sequence, not just the shown window.
    pub fn view_packet_details(&self, position: usize, packets_count: usize) -> (r: Option<usize>)
        ensures
            r == spec_detail_index(position, packets_count),
    {
        if 1 <= position && position <= packets_count {
            Some(position - 1)
        } else {
            None
        }
    }

    /// One step of a browsing session: apply the command to the state and
    /// say what the surrounding loop should display.
    pub fn interpret_command(&mut self, command: BrowserCommand, packets_count: usize) -> (r:
        BrowserAction)
        ensures
            final(self)@.window_size == (match command {
                BrowserCommand::Resize(n) => if n >= 1 {
                    n as int
                } else {
                    old(self)@.window_size as int
                },
                _ => old(self)@.window_size as int,
            }),
            final(self)@.current_idx == (match command {
                BrowserCommand::NextWindow => spec_advanced(old(self)@, packets_count),
                BrowserCommand::PreviousWindow => spec_retreated(old(self)@),
                _ => old(self)@.current_idx as int,
            }),
            r == (match command {
                BrowserCommand::NextWindow => BrowserAction::ShowWindow(
                    spec_window(final(self)@, packets_count),
                ),
                BrowserCommand::PreviousWindow => BrowserAction::ShowWindow(
                    spec_window(final(self)@, packets_count),
                ),
                BrowserCommand::CurrentWindow => BrowserAction::ShowWindow(
                    spec_window(final(self)@, packets_count),
                ),
                BrowserCommand::Resize(n) => BrowserAction::WindowSizeChanged(n >= 1),
                BrowserCommand::Detail(position) => BrowserAction::ShowDetail(
                    spec_detail_index(position, packets_count),
                ),
                BrowserCommand::Help => BrowserAction::ShowInstructions,
                BrowserCommand::Quit => BrowserAction::Quit,
            }),
    {
        match command {
            BrowserCommand::NextWindow => {
                self.switch_to_next_window(packets_count);
                BrowserAction::ShowWindow(self.get_current_window(packets_count))
            },
            BrowserCommand::PreviousWindow => {
                self.switch_to_previous_window();
                BrowserAction::ShowWindow(self.get_current_window(packets_count))
            },
            BrowserCommand::CurrentWindow => {
                BrowserAction::ShowWindow(self.get_current_window(packets_count))
            },
            BrowserCommand::Resize(n) => {
                let accepted = self.change_window_size(n);
                BrowserAction::WindowSizeChanged(accepted)
            },
            BrowserCommand::Detail(position) => {
                BrowserAction::ShowDetail(self.view_packet_details(position, packets_count))
            },
            BrowserCommand::Help => BrowserAction::ShowInstructions,
            BrowserCommand::Quit => BrowserAction::Quit,
        }
    }
}

/// Pagination clamping: over a non-empty filtered sequence the current
/// window always exists, holds at least one element, and lies inside the
/// sequence — wherever the cursor was clamped to; retreating never takes
/// the cursor below zero.
pub proof fn lemma_window_clamped(v: PacketViewerView, packets_count: usize)
    requires
        v.wf(),
        packets_count > 0,
    ensures
        spec_window(v, packets_count) is Some,
        spec_window(v, packets_count) matches Some(w) ==> w.0 < w.1 <= packets_count,
        spec_retreated(v) >= 0,
{
}

} // verus!
