//! The decode chain: starting from Ethernet, decode one layer, hand its
//! payload to the decoder the dispatch table selects next, and stop at the
//! first layer that ends the chain or fails to decode.

use vstd::prelude::*;
use vstd::arithmetic::div_mod::{lemma_div_is_ordered, lemma_div_multiples_vanish};

use crate::analyzed_data::{AnalyzedData, AnalyzedDataView};
use crate::analyzed_traffic::{AnalyzedTraffic, AnalyzedTrafficView};
use crate::layer::{
    decode_layer, layer_views, lemma_decode_layer_shape, spec_decode_layer, spec_min_header_len,
    Layer, LayerView,
};
use crate::packet_analysis::PacketAnalysis;
use crate::protocol::{Protocol, PROTOCOL_COUNT};
use crate::timefmt::TIMESTAMP_LIMIT;

verus! {

/// The full stack of layers decoded from `b`, starting with the decoder of
/// `tag`: empty when that decoder fails, else that layer followed by the
/// stack its payload yields under the dispatch table.
pub open spec fn spec_chain(tag: Protocol, b: Seq<u8>) -> Seq<LayerView>
    decreases b.len(),
{
    match spec_decode_layer(tag, b) {
        None => Seq::empty(),
        Some(l) => seq![l] + (match l.next_tag() {
            None => Seq::<LayerView>::empty(),
            Some(t) => spec_chain(t, l.payload()),
        }),
    }
}

/// The stack contributed by a decode result: nothing for a failed decode,
/// else the layer and whatever its payload yields.
pub open spec fn spec_chain_from(pending: Option<LayerView>) -> Seq<LayerView> {
    match pending {
        None => Seq::empty(),
        Some(l) => seq![l] + (match l.next_tag() {
            None => Seq::<LayerView>::empty(),
            Some(t) => spec_chain(t, l.payload()),
        }),
    }
}

/// The mathematical shape of a decode result.
pub open spec fn spec_opt_layer_view(o: Option<Layer>) -> Option<LayerView> {
    match o {
        Some(l) => Some(l@),
        None => None,
    }
}

/// Every layer of a decode chain is well formed.
pub proof fn lemma_chain_wf(tag: Protocol, b: Seq<u8>)
    ensures
        forall|i: int|
            0 <= i < spec_chain(tag, b).len() ==> (#[trigger] spec_chain(tag, b)[i]).wf(),
    decreases b.len(),
{
    lemma_decode_layer_shape(tag, b);
    match spec_decode_layer(tag, b) {
        None => {},
        Some(l) => {
            let rest = match l.next_tag() {
                None => Seq::<LayerView>::empty(),
                Some(t) => spec_chain(t, l.payload()),
            };
            match l.next_tag() {
                None => {},
                Some(t) => {
                    lemma_chain_wf(t, l.payload());
                },
            }
            assert forall|i: int| 0 <= i < spec_chain(tag, b).len() implies (#[trigger] spec_chain(
                tag,
                b,
            )[i]).wf() by {
                if i == 0 {
                    assert(spec_chain(tag, b)[i] == l);
                } else {
                    assert(spec_chain(tag, b)[i] == rest[i - 1]);
                }
            }
        },
    }
}

/// The stateless analysis service: raw bytes in, decoded frames and
/// traffic summaries out.
pub struct Analyzer {}

impl Analyzer {
    /// Decode one captured frame: run the decode chain on its raw bytes,
    /// starting from Ethernet, and keep the capture timestamp with the
    /// result. Pure in the bytes: the layer stack is exactly
    /// `spec_chain(Ethernet, bytes)`.
    pub fn analyze_packet(packet_data: &[u8], timestamp: i64) -> (r: AnalyzedData)
        requires
            0 <= timestamp < TIMESTAMP_LIMIT,
        ensures
            r@.timestamp == timestamp,
            r@.packets == spec_chain(Protocol::Ethernet, packet_data@),
            r@.wf(),
    {
        let mut packets: Vec<Layer> = Vec::new();
        let mut pending: Option<Layer> = decode_layer(Protocol::Ethernet, packet_data);
        while pending.is_some()
            invariant
                layer_views(packets@) + spec_chain_from(spec_opt_layer_view(pending))
                    =~= spec_chain(Protocol::Ethernet, packet_data@),
            decreases spec_chain_from(spec_opt_layer_view(pending)).len(),
        {
            let l = pending.unwrap();
            let next = l.next_protocol();
            proof {
                assert(layer_views(packets@.push(l)) =~= layer_views(packets@).push(l@));
                assert(spec_chain_from(spec_opt_layer_view(Some(l))) =~= seq![l@]
                    + spec_chain_from(spec_opt_layer_view(next)));
            }
            packets.push(l);
            pending = next;
        }
        proof {
            assert(layer_views(packets@) =~= spec_chain(Protocol::Ethernet, packet_data@));
            lemma_chain_wf(Protocol::Ethernet, packet_data@);
        }
        AnalyzedData { timestamp, packets }
    }

    /// Summarize a frame collection, supplied in capture order: totals,
    /// capture-span duration, payload-size statistics over each frame's
    /// outermost layer, the capture rate, and one usage counter per
    /// protocol. Zero frames yield the all-zero summary.
    pub fn analyze_traffic(packets: &Vec<AnalyzedData>) -> (r: AnalyzedTraffic)
        requires
            packets@.len() > 0 ==> 0 <= frame_views(packets@)[0].timestamp <= frame_views(
                packets@,
            ).last().timestamp < TIMESTAMP_LIMIT,
            spec_total_layers(frame_views(packets@)) <= usize::MAX,
        ensures
            r@ == spec_traffic_summary(frame_views(packets@)),
            r@.wf(),
    {
        let ghost v = frame_views(packets@);
        let n = packets.len();
        let mut usages: Vec<usize> = Vec::new();

        if n == 0 {
            usages.push(0);
            usages.push(0);
            usages.push(0);
            usages.push(0);
            usages.push(0);
            usages.push(0);
            let r = AnalyzedTraffic::new(usages, 0, 0, 0, 0, 0, 0);
            proof {
                assert(r@.protocol_usages =~= spec_protocol_usages(v));
                assert(r@ =~= spec_traffic_summary(v));
            }
            return r;
        }

        proof {
            lemma_layer_count_le_total(v, Protocol::ARP);
            lemma_layer_count_le_total(v, Protocol::Ethernet);
            lemma_layer_count_le_total(v, Protocol::IPv4);
            lemma_layer_count_le_total(v, Protocol::IPv6);
            lemma_layer_count_le_total(v, Protocol::TCP);
            lemma_layer_count_le_total(v, Protocol::UDP);
        }
        usages.push(count_layers_of(packets, Protocol::ARP));
        usages.push(count_layers_of(packets, Protocol::Ethernet));
        usages.push(count_layers_of(packets, Protocol::IPv4));
        usages.push(count_layers_of(packets, Protocol::IPv6));
        usages.push(count_layers_of(packets, Protocol::TCP));
        usages.push(count_layers_of(packets, Protocol::UDP));

        proof {
            assert(v[0] == packets@[0]@);
            assert(v[n - 1] == packets@[n - 1]@);
            assert(v.last() == v[n - 1]);
        }
        let first_ts = packets[0].timestamp;
        let last_ts = packets[n - 1].timestamp;
        let duration: u64 = (last_ts - first_ts) as u64;

        let ghost max_bytes = usize::MAX as int;
        let mut sum: u128 = 0;
        let mut max_size: usize = 0;
        let mut min_size: usize = usize::MAX;
        let mut i: usize = 0;
        while i < n
            invariant
                i <= n,
                n == packets@.len(),
                v == frame_views(packets@),
                sum == spec_sum_sizes(v.take(i as int)),
                sum <= i * max_bytes,
                max_bytes == usize::MAX as int,
                max_size == spec_max_size(v.take(i as int)),
                min_size == spec_min_size(v.take(i as int)),
            decreases n - i,
        {
            let frame = &packets[i];
            let packet_size = if frame.packets.len() > 0 {
                frame.packets[0].payload_length()
            } else {
                0
            };
            proof {
                assert(v[i as int] == frame@);
                assert(v.take(i + 1 as int).drop_last() =~= v.take(i as int));
                assert(v.take(i + 1 as int).last() == v[i as int]);
                assert(packet_size == spec_first_layer_size(v[i as int]));
                assert((i + 1) * max_bytes == i * max_bytes + max_bytes) by (nonlinear_arith);
                assert(sum as int + packet_size as int <= (i as int + 1) * max_bytes);
                assert((i as int + 1) * max_bytes <= u128::MAX as int) by (nonlinear_arith)
                    requires
                        0 <= i as int + 1 <= u64::MAX as int,
                        0 <= max_bytes <= u64::MAX as int,
                ;
            }
            if packet_size > max_size {
                max_size = packet_size;
            }
            if packet_size < min_size {
                min_size = packet_size;
            }
            sum = sum + packet_size as u128;
            i = i + 1;
        }
        proof {
            assert(v.take(n as int) =~= v);
        }

        let avg: usize = (sum / (n as u128)) as usize;
        proof {
            lemma_div_is_ordered(sum as int, n * max_bytes, n as int);
            lemma_div_multiples_vanish(max_bytes, n as int);
            assert(n * max_bytes == (n as int) * max_bytes) by (nonlinear_arith);
            assert(sum as int / n as int <= max_bytes);
        }

        let rate: u64 = if duration == 0 {
            u64::MAX
        } else {
            let q: u128 = 1000u128 * (n as u128) / (duration as u128);
            if q > u64::MAX as u128 {
                u64::MAX
            } else {
                q as u64
            }
        };

        let r = AnalyzedTraffic::new(usages, n, duration, avg, rate, max_size, min_size);
        proof {
            assert(r@.protocol_usages =~= spec_protocol_usages(v));
            assert(r@ =~= spec_traffic_summary(v));
        }
        r
    }
}

/// How many layers across all frames carry tag `p`.
fn count_layers_of(packets: &Vec<AnalyzedData>, p: Protocol) -> (r: usize)
    requires
        spec_layer_count(frame_views(packets@), p) <= usize::MAX,
    ensures
        r == spec_layer_count(frame_views(packets@), p),
{
    let ghost v = frame_views(packets@);
    let mut count: usize = 0;
    let mut i: usize = 0;
    while i < packets.len()
        invariant
            i <= packets@.len(),
            v == frame_views(packets@),
            spec_layer_count(v, p) <= usize::MAX,
            count == spec_layer_count(v.take(i as int), p),
        decreases packets@.len() - i,
    {
        let frame = &packets[i];
        proof {
            assert(v[i as int] == frame@);
            assert(v.take(i + 1 as int).drop_last() =~= v.take(i as int));
            assert(v.take(i + 1 as int).last() == v[i as int]);
            lemma_layer_count_prefix(v, i + 1 as int, p);
        }
        let mut k: usize = 0;
        while k < frame.packets.len()
            invariant
                k <= frame.packets@.len(),
                v == frame_views(packets@),
                i < packets@.len(),
                v[i as int] == frame@,
                spec_layer_count(v, p) <= usize::MAX,
                spec_layer_count(v.take(i as int), p) + spec_count_in_frame(frame@.packets, p)
                    <= spec_layer_count(v, p),
                count == spec_layer_count(v.take(i as int), p) + spec_count_in_frame(
                    frame@.packets.take(k as int),
                    p,
                ),
            decreases frame.packets@.len() - k,
        {
            let proto = frame.packets[k].protocol();
            proof {
                let fp = frame@.packets;
                assert(fp.take(k + 1 as int).drop_last() =~= fp.take(k as int));
                assert(fp.take(k + 1 as int).last() == fp[k as int]);
                lemma_count_in_frame_prefix(fp, k + 1 as int, p);
            }
            if proto == p {
                count = count + 1;
            }
            k = k + 1;
        }
        proof {
            assert(frame@.packets.take(frame.packets@.len() as int) =~= frame@.packets);
        }
        i = i + 1;
    }
    proof {
        assert(v.take(packets@.len() as int) =~= v);
    }
    count
}

/// The mathematical shapes of a frame collection, in capture order.
pub open spec fn frame_views(frames: Seq<AnalyzedData>) -> Seq<AnalyzedDataView> {
    Seq::new(frames.len(), |i: int| frames[i]@)
}

/// Every frame of the collection is well formed.
pub open spec fn spec_frames_wf(v: Seq<AnalyzedDataView>) -> bool {
    forall|i: int| 0 <= i < v.len() ==> (#[trigger] v[i]).wf()
}

/// The size a frame contributes to the statistics: the payload length of
/// its first (outermost) layer, or zero for a frame with no layers.
pub open spec fn spec_first_layer_size(d: AnalyzedDataView) -> nat {
    if d.packets.len() > 0 {
        d.packets[0].payload().len()
    } else {
        0
    }
}

/// The sum of the frames' outermost payload sizes.
pub open spec fn spec_sum_sizes(v: Seq<AnalyzedDataView>) -> nat
    decreases v.len(),
{
    if v.len() == 0 {
        0
    } else {
        spec_sum_sizes(v.drop_last()) + spec_first_layer_size(v.last())
    }
}

/// The largest outermost payload size, or zero over no frames.
pub open spec fn spec_max_size(v: Seq<AnalyzedDataView>) -> nat
    decreases v.len(),
{
    if v.len() == 0 {
        0
    } else {
        let rest = spec_max_size(v.drop_last());
        let last = spec_first_layer_size(v.last());
        if last > rest {
            last
        } else {
            rest
        }
    }
}

/// The smallest outermost payload size, starting from `usize::MAX` over no
/// frames.
pub open spec fn spec_min_size(v: Seq<AnalyzedDataView>) -> nat
    decreases v.len(),
{
    if v.len() == 0 {
        usize::MAX as nat
    } else {
        let rest = spec_min_size(v.drop_last());
        let last = spec_first_layer_size(v.last());
        if last < rest {
            last
        } else {
            rest
        }
    }
}

/// How many layers of `packets` carry tag `p`.
pub open spec fn spec_count_in_frame(packets: Seq<LayerView>, p: Protocol) -> nat
    decreases packets.len(),
{
    if packets.len() == 0 {
        0
    } else {
        spec_count_in_frame(packets.drop_last(), p) + (if packets.last().protocol() == p {
            1nat
        } else {
            0nat
        })
    }
}

/// How many layers across all frames carry tag `p`.
pub open spec fn spec_layer_count(v: Seq<AnalyzedDataView>, p: Protocol) -> nat
    decreases v.len(),
{
    if v.len() == 0 {
        0
    } else {
        spec_layer_count(v.drop_last(), p) + spec_count_in_frame(v.last().packets, p)
    }
}

/// How many layers the collection holds in all.
pub open spec fn spec_total_layers(v: Seq<AnalyzedDataView>) -> nat
    decreases v.len(),
{
    if v.len() == 0 {
        0
    } else {
        spec_total_layers(v.drop_last()) + v.last().packets.len()
    }
}

/// Whole seconds between the first and the last capture timestamp, in the
/// collection's given order; zero over no frames.
pub open spec fn spec_duration(v: Seq<AnalyzedDataView>) -> int {
    if v.len() == 0 {
        0
    } else {
        v.last().timestamp - v[0].timestamp
    }
}

/// The capture rate in thousandths of frames per second: zero over no
/// frames, the sentinel `u64::MAX` over a zero-second span, else the
/// clamped quotient.
pub open spec fn spec_rate_millis(v: Seq<AnalyzedDataView>) -> int {
    if v.len() == 0 {
        0
    } else if spec_duration(v) == 0 {
        u64::MAX as int
    } else if 1000 * (v.len() as int) / spec_duration(v) > u64::MAX as int {
        u64::MAX as int
    } else {
        1000 * (v.len() as int) / spec_duration(v)
    }
}

/// One usage counter per protocol tag, in catalog order.
pub open spec fn spec_protocol_usages(v: Seq<AnalyzedDataView>) -> Seq<usize> {
    Seq::new(
        PROTOCOL_COUNT as nat,
        |i: int| spec_layer_count(v, Protocol::spec_from_repr(i)->0) as usize,
    )
}

/// The whole summary `analyze_traffic` owes for a collection.
pub open spec fn spec_traffic_summary(v: Seq<AnalyzedDataView>) -> AnalyzedTrafficView {
    AnalyzedTrafficView {
        protocol_usages: spec_protocol_usages(v),
        total_packets: v.len() as usize,
        sniffing_duration: spec_duration(v) as u64,
        average_packet_size: (if v.len() == 0 {
            0
        } else {
            spec_sum_sizes(v) / v.len()
        }) as usize,
        average_packets_per_second_millis: spec_rate_millis(v) as u64,
        max_packet_size: (if v.len() == 0 {
            0
        } else {
            spec_max_size(v)
        }) as usize,
        min_packet_size: (if v.len() == 0 {
            0
        } else {
            spec_min_size(v)
        }) as usize,
    }
}

/// A frame's per-protocol count never exceeds its layer count.
proof fn lemma_count_in_frame_le_len(packets: Seq<LayerView>, p: Protocol)
    ensures
        spec_count_in_frame(packets, p) <= packets.len(),
    decreases packets.len(),
{
    if packets.len() > 0 {
        lemma_count_in_frame_le_len(packets.drop_last(), p);
    }
}

/// A collection's per-protocol count never exceeds its total layer count.
pub proof fn lemma_layer_count_le_total(v: Seq<AnalyzedDataView>, p: Protocol)
    ensures
        spec_layer_count(v, p) <= spec_total_layers(v),
    decreases v.len(),
{
    if v.len() > 0 {
        lemma_layer_count_le_total(v.drop_last(), p);
        lemma_count_in_frame_le_len(v.last().packets, p);
    }
}

/// A prefix of a frame counts no more layers of a tag than the frame.
proof fn lemma_count_in_frame_prefix(s: Seq<LayerView>, k: int, p: Protocol)
    requires
        0 <= k <= s.len(),
    ensures
        spec_count_in_frame(s.take(k), p) <= spec_count_in_frame(s, p),
    decreases s.len(),
{
    if k == s.len() {
        assert(s.take(k) =~= s);
    } else {
        assert(s.take(k) =~= s.drop_last().take(k));
        lemma_count_in_frame_prefix(s.drop_last(), k, p);
    }
}

/// A prefix of a collection counts no more layers of a tag than the whole.
proof fn lemma_layer_count_prefix(v: Seq<AnalyzedDataView>, i: int, p: Protocol)
    requires
        0 <= i <= v.len(),
    ensures
        spec_layer_count(v.take(i), p) <= spec_layer_count(v, p),
    decreases v.len(),
{
    if i == v.len() {
        assert(v.take(i) =~= v);
    } else {
        assert(v.take(i) =~= v.drop_last().take(i));
        lemma_layer_count_prefix(v.drop_last(), i, p);
    }
}

/// Within one frame, the six per-protocol counts partition the layers.
proof fn lemma_frame_counts_partition(packets: Seq<LayerView>)
    ensures
        spec_count_in_frame(packets, Protocol::ARP) + spec_count_in_frame(
            packets,
            Protocol::Ethernet,
        ) + spec_count_in_frame(packets, Protocol::IPv4) + spec_count_in_frame(
            packets,
            Protocol::IPv6,
        ) + spec_count_in_frame(packets, Protocol::TCP) + spec_count_in_frame(
            packets,
            Protocol::UDP,
        ) == packets.len(),
    decreases packets.len(),
{
    if packets.len() > 0 {
        lemma_frame_counts_partition(packets.drop_last());
    }
}

/// The per-protocol counts of a summary add up, across the six protocols,
/// to the total number of layers across all frames.
pub proof fn lemma_protocol_counts_sum_to_layers(v: Seq<AnalyzedDataView>)
    ensures
        spec_layer_count(v, Protocol::ARP) + spec_layer_count(v, Protocol::Ethernet)
            + spec_layer_count(v, Protocol::IPv4) + spec_layer_count(v, Protocol::IPv6)
            + spec_layer_count(v, Protocol::TCP) + spec_layer_count(v, Protocol::UDP)
            == spec_total_layers(v),
    decreases v.len(),
{
    if v.len() > 0 {
        lemma_protocol_counts_sum_to_layers(v.drop_last());
        lemma_frame_counts_partition(v.last().packets);
    }
}

/// Over a non-empty collection of frames whose outermost payloads all have
/// size `s`, the minimum, maximum, and average sizes all equal `s`.
pub proof fn lemma_uniform_frames_stats(v: Seq<AnalyzedDataView>, s: nat)
    requires
        v.len() > 0,
        s <= usize::MAX,
        forall|i: int| 0 <= i < v.len() ==> spec_first_layer_size(#[trigger] v[i]) == s,
    ensures
        spec_max_size(v) == s,
        spec_min_size(v) == s,
        spec_sum_sizes(v) == v.len() * s,
        spec_sum_sizes(v) / v.len() == s,
    decreases v.len(),
{
    assert(v.last() == v[v.len() - 1]);
    assert(spec_first_layer_size(v.last()) == s);
    if v.len() == 1 {
        assert(v.drop_last().len() == 0);
        assert(spec_max_size(v.drop_last()) == 0);
        assert(spec_min_size(v.drop_last()) == usize::MAX as nat);
        assert(spec_sum_sizes(v.drop_last()) == 0);
        assert(v.len() * s == s) by (nonlinear_arith)
            requires
                v.len() == 1,
        ;
    } else {
        assert(forall|i: int|
            0 <= i < v.drop_last().len() ==> spec_first_layer_size(#[trigger] v.drop_last()[i])
                == s);
        lemma_uniform_frames_stats(v.drop_last(), s);
        assert((v.len() - 1) * s + s == v.len() * s) by (nonlinear_arith);
    }
    lemma_div_multiples_vanish(s as int, v.len() as int);
    assert(v.len() * s == (v.len() as int) * (s as int)) by (nonlinear_arith);
}

/// Decode-chain determinism: the decoded frame is a function of the raw
/// bytes and the timestamp, so two frames analyzed from the same input are
/// identical in layer count and every field.
pub proof fn lemma_analyze_deterministic(
    d1: AnalyzedDataView,
    d2: AnalyzedDataView,
    b: Seq<u8>,
    ts: int,
)
    requires
        d1.timestamp == ts,
        d1.packets == spec_chain(Protocol::Ethernet, b),
        d2.timestamp == ts,
        d2.packets == spec_chain(Protocol::Ethernet, b),
    ensures
        d1 == d2,
{
    assert(d1 =~= d2);
}

} // verus!
