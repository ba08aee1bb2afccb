//! The traffic summary: per-protocol layer counts, totals, capture-span
//! duration, payload-size statistics, and a capture rate.
//!
//! The rate is carried in thousandths of frames per second; a capture span
//! of zero seconds with frames present yields the sentinel `u64::MAX`
//! instead of a division by zero.

use vstd::prelude::*;

use crate::protocol::{Protocol, PROTOCOL_COUNT};
use crate::text::{append_dec_u64, spec_dec_nat};

verus! {

/// Aggregate statistics over a frame collection, recomputed on demand.
pub struct AnalyzedTraffic {
    protocol_usages: Vec<usize>,
    total_packets: usize,
    sniffing_duration: u64,
    average_packet_size: usize,
    average_packets_per_second_millis: u64,
    max_packet_size: usize,
    min_packet_size: usize,
}

/// The mathematical shape of a traffic summary.
#[verifier::ext_equal]
pub struct AnalyzedTrafficView {
    pub protocol_usages: Seq<usize>,
    pub total_packets: usize,
    pub sniffing_duration: u64,
    pub average_packet_size: usize,
    pub average_packets_per_second_millis: u64,
    pub max_packet_size: usize,
    pub min_packet_size: usize,
}

impl View for AnalyzedTraffic {
    type V = AnalyzedTrafficView;

    closed spec fn view(&self) -> AnalyzedTrafficView {
        AnalyzedTrafficView {
            protocol_usages: self.protocol_usages@,
            total_packets: self.total_packets,
            sniffing_duration: self.sniffing_duration,
            average_packet_size: self.average_packet_size,
            average_packets_per_second_millis: self.average_packets_per_second_millis,
            max_packet_size: self.max_packet_size,
            min_packet_size: self.min_packet_size,
        }
    }
}

impl AnalyzedTrafficView {
    /// One usage counter per protocol tag, in catalog order.
    pub open spec fn wf(self) -> bool {
        self.protocol_usages.len() == PROTOCOL_COUNT
    }
}

/// The histogram line for one protocol: nothing when the protocol never
/// occurred, else a tab-indented `name: count` line.
pub open spec fn spec_usage_line(p: Protocol, n: usize) -> Seq<char> {
    if n == 0 {
        Seq::empty()
    } else {
        "\t"@ + p.spec_name() + ": "@ + spec_dec_nat(n as nat) + "\n"@
    }
}

/// The full printable traffic summary.
pub open spec fn spec_traffic_info(v: AnalyzedTrafficView) -> Seq<char>
    recommends
        v.wf(),
{
    "Total packets: "@ + spec_dec_nat(v.total_packets as nat) + "\nSniffing duration: "@
        + spec_dec_nat(v.sniffing_duration as nat) + " seconds\nAverage packet size: "@
        + spec_dec_nat(v.average_packet_size as nat)
        + " bytes\nAverage packets per second (thousandths): "@ + spec_dec_nat(
        v.average_packets_per_second_millis as nat,
    ) + "\nMax packet size: "@ + spec_dec_nat(v.max_packet_size as nat)
        + " bytes\nMin packet size: "@ + spec_dec_nat(v.min_packet_size as nat)
        + " bytes\nProtocol usages:\n"@ + spec_usage_line(Protocol::ARP, v.protocol_usages[0])
        + spec_usage_line(Protocol::Ethernet, v.protocol_usages[1]) + spec_usage_line(
        Protocol::IPv4,
        v.protocol_usages[2],
    ) + spec_usage_line(Protocol::IPv6, v.protocol_usages[3]) + spec_usage_line(
        Protocol::TCP,
        v.protocol_usages[4],
    ) + spec_usage_line(Protocol::UDP, v.protocol_usages[5])
}

/// Append the histogram line for one protocol, or nothing for a count of
/// zero.
fn append_usage_line(s: &mut String, p: Protocol, n: usize)
    ensures
        final(s)@ == old(s)@ + spec_usage_line(p, n),
{
    if n > 0 {
        s.append("\t");
        let name = p.name();
        s.append(name.as_str());
        s.append(": ");
        append_dec_u64(s, n as u64);
        s.append("\n");
    }
}

impl AnalyzedTraffic {
    /// Assemble a summary from its computed parts; the usage vector holds
    /// one counter per protocol tag, in catalog order.
    pub fn new(
        protocol_usages: Vec<usize>,
        total_packets: usize,
        sniffing_duration: u64,
        average_packet_size: usize,
        average_packets_per_second_millis: u64,
        max_packet_size: usize,
        min_packet_size: usize,
    ) -> (r: AnalyzedTraffic)
        requires
            protocol_usages@.len() == PROTOCOL_COUNT,
        ensures
            r@ == (AnalyzedTrafficView {
                protocol_usages: protocol_usages@,
                total_packets,
                sniffing_duration,
                average_packet_size,
                average_packets_per_second_millis,
                max_packet_size,
                min_packet_size,
            }),
            r@.wf(),
    {
        AnalyzedTraffic {
            protocol_usages,
            total_packets,
            sniffing_duration,
            average_packet_size,
            average_packets_per_second_millis,
            max_packet_size,
            min_packet_size,
        }
    }

    /// How many layers of protocol `p` the collection held.
    pub fn protocol_usage(&self, p: Protocol) -> (r: usize)
        requires
            self@.wf(),
        ensures
            r == self@.protocol_usages[p.spec_repr()],
    {
        let idx = p.repr();
        self.protocol_usages[idx]
    }

    /// How many frames the collection held.
    pub fn total_packets(&self) -> (r: usize)
        ensures
            r == self@.total_packets,
    {
        self.total_packets
    }

    /// Whole seconds between the first and last capture timestamps.
    pub fn sniffing_duration(&self) -> (r: u64)
        ensures
            r == self@.sniffing_duration,
    {
        self.sniffing_duration
    }

    /// Mean outermost-layer payload size, rounded down.
    pub fn average_packet_size(&self) -> (r: usize)
        ensures
            r == self@.average_packet_size,
    {
        self.average_packet_size
    }

    /// Frames per second in thousandths; `u64::MAX` marks an instantaneous
    /// burst.
    pub fn average_packets_per_second_millis(&self) -> (r: u64)
        ensures
            r == self@.average_packets_per_second_millis,
    {
        self.average_packets_per_second_millis
    }

    /// Largest outermost-layer payload size seen.
    pub fn max_packet_size(&self) -> (r: usize)
        ensures
            r == self@.max_packet_size,
    {
        self.max_packet_size
    }

    /// Smallest outermost-layer payload size seen.
    pub fn min_packet_size(&self) -> (r: usize)
        ensures
            r == self@.min_packet_size,
    {
        self.min_packet_size
    }

    /// The formatted multi-line traffic summary, ending with one histogram
    /// line per protocol that occurred.
    #[verifier::rlimit(30)]
    pub fn get_info(&self) -> (r: String)
        requires
            self@.wf(),
        ensures
            r@ == spec_traffic_info(self@),
    {
        let mut s = String::from_str("Total packets: ");
        append_dec_u64(&mut s, self.total_packets as u64);
        s.append("\nSniffing duration: ");
        append_dec_u64(&mut s, self.sniffing_duration);
        s.append(" seconds\nAverage packet size: ");
        append_dec_u64(&mut s, self.average_packet_size as u64);
        s.append(" bytes\nAverage packets per second (thousandths): ");
        append_dec_u64(&mut s, self.average_packets_per_second_millis);
        s.append("\nMax packet size: ");
        append_dec_u64(&mut s, self.max_packet_size as u64);
        s.append(" bytes\nMin packet size: ");
        append_dec_u64(&mut s, self.min_packet_size as u64);
        s.append(" bytes\nProtocol usages:\n");
        append_usage_line(&mut s, Protocol::ARP, self.protocol_usages[0]);
        append_usage_line(&mut s, Protocol::Ethernet, self.protocol_usages[1]);
        append_usage_line(&mut s, Protocol::IPv4, self.protocol_usages[2]);
        append_usage_line(&mut s, Protocol::IPv6, self.protocol_usages[3]);
        append_usage_line(&mut s, Protocol::TCP, self.protocol_usages[4]);
        append_usage_line(&mut s, Protocol::UDP, self.protocol_usages[5]);
        proof {
            assert(s@ =~= spec_traffic_info(self@));
        }
        s
    }
}

} // verus!
