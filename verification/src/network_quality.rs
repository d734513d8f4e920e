//! The quality prober: latency, jitter and loss from a round of probes, and
//! the TCP retransmission rate from two readings of cumulative counters.

use vstd::prelude::*;
use crate::global::NetworkQualitySample;
use crate::percent::Percent;

verus! {

/// Sum of a sequence of round-trip times.
pub open spec fn rtt_total(rtts: Seq<u32>) -> int
    decreases rtts.len(),
{
    if rtts.len() == 0 {
        0
    } else {
        rtt_total(rtts.drop_last()) + rtts.last()
    }
}

/// Sum of the absolute differences between neighbouring round-trip times.
pub open spec fn rtt_variation(rtts: Seq<u32>) -> int
    decreases rtts.len(),
{
    if rtts.len() < 2 {
        0
    } else {
        let n = rtts.len() as int;
        let step = if rtts[n - 1] >= rtts[n - 2] {
            rtts[n - 1] - rtts[n - 2]
        } else {
            rtts[n - 2] - rtts[n - 1]
        };
        rtt_variation(rtts.drop_last()) + step
    }
}

/// Jitter: the mean absolute difference between neighbouring round-trip
/// times, rounded down; zero when there are fewer than two.
pub open spec fn jitter_of(rtts: Seq<u32>) -> int {
    if rtts.len() < 2 {
        0
    } else {
        rtt_variation(rtts) / (rtts.len() - 1)
    }
}

/// `m` is the smallest element of `rtts`.
pub open spec fn is_smallest(rtts: Seq<u32>, m: u32) -> bool {
    rtts.contains(m) && forall|i: int| 0 <= i < rtts.len() ==> m <= rtts[i]
}

/// `m` is the largest element of `rtts`.
pub open spec fn is_largest(rtts: Seq<u32>, m: u32) -> bool {
    rtts.contains(m) && forall|i: int| 0 <= i < rtts.len() ==> rtts[i] <= m
}

proof fn lemma_quotient_bound(total: int, n: int, bound: int)
    by (nonlinear_arith)
    requires
        n > 0,
        0 <= total <= n * bound,
    ensures
        0 <= total / n <= bound,
{
}

/// Jitter of the round-trip times in probe order.
pub fn compute_jitter(rtts: &[u32]) -> (jitter: u32)
    ensures
        jitter == jitter_of(rtts@),
{
    let n = rtts.len();
    if n < 2 {
        return 0;
    }
    let mut sum: u128 = 0;
    let mut i: usize = 1;
    while i < n
        invariant
            n == rtts.len(),
            1 <= i <= n,
            sum == rtt_variation(rtts@.take(i as int)),
            sum <= (i - 1) * 0xffff_ffff,
        decreases n - i,
    {
        let a = rtts[i - 1];
        let b = rtts[i];
        let diff: u32 = if b >= a { b - a } else { a - b };
        proof {
            let next = rtts@.take(i + 1);
            assert(next.drop_last() =~= rtts@.take(i as int));
            assert(next[i as int] == b && next[i - 1] == a);
        }
        sum = sum + diff as u128;
        i = i + 1;
    }
    proof {
        assert(rtts@.take(n as int) =~= rtts@);
        lemma_quotient_bound(sum as int, n - 1, 0xffff_ffff);
    }
    let mean: u128 = sum / ((n - 1) as u128);
    mean as u32
}

/// What one round of probes measured.
#[derive(Clone, Copy, Debug, PartialEq, Eq)]
pub struct PingStats {
    pub avg_ms: u32,
    pub min_ms: u32,
    pub max_ms: u32,
    pub jitter_ms: u32,
    pub loss_percent: Percent,
    pub success_count: usize,
    pub last_error: u32,
    pub last_reply_status: Option<u32>,
}

impl PingStats {
    /// The latency and loss figures are those of `count` probes of which the
    /// successful ones took `rtts`, in probe order. With no success every
    /// latency figure is zero and the loss is one hundred per cent.
    pub open spec fn summarizes(self, rtts: Seq<u32>, count: nat) -> bool {
        &&& self.success_count == rtts.len()
        &&& rtts.len() == 0 ==> {
            &&& self.avg_ms == 0
            &&& self.min_ms == 0
            &&& self.max_ms == 0
            &&& self.jitter_ms == 0
            &&& self.loss_percent == (Percent { part: 1, whole: 1 })
        }
        &&& rtts.len() > 0 ==> {
            &&& self.avg_ms == rtt_total(rtts) / (rtts.len() as int)
            &&& is_smallest(rtts, self.min_ms)
            &&& is_largest(rtts, self.max_ms)
            &&& self.jitter_ms == jitter_of(rtts)
            &&& self.loss_percent == (Percent {
                part: (count - rtts.len()) as u64,
                whole: count as u64,
            })
        }
    }
}

/// Status code of an echo reply that reached its target.
pub const ECHO_REPLY_SUCCESS: u32 = 0;

/// How one echo probe ended.
#[derive(Clone, Copy, Debug, PartialEq, Eq)]
pub enum EchoOutcome {
    /// A reply was received. It counts as a success only when `status` is
    /// [`ECHO_REPLY_SUCCESS`].
    Reply { status: u32, round_trip_ms: u32 },
    /// No reply was received; `error` is the system's error code.
    NoReply { error: u32 },
}

/// How one handshake probe ended.
#[derive(Clone, Copy, Debug, PartialEq, Eq)]
pub enum HandshakeOutcome {
    /// The connection was established after `elapsed_ms` milliseconds.
    Connected { elapsed_ms: u128 },
    /// The connection failed; `os_error` is the system's error code, if it
    /// gave one.
    Failed { os_error: Option<i32> },
}

/// Round-trip times of the successful echo probes, in probe order.
pub open spec fn echo_round_trips(outcomes: Seq<EchoOutcome>) -> Seq<u32>
    decreases outcomes.len(),
{
    if outcomes.len() == 0 {
        Seq::empty()
    } else {
        let earlier = echo_round_trips(outcomes.drop_last());
        match outcomes.last() {
            EchoOutcome::Reply { status, round_trip_ms } => if status == ECHO_REPLY_SUCCESS {
                earlier.push(round_trip_ms)
            } else {
                earlier
            },
            EchoOutcome::NoReply { .. } => earlier,
        }
    }
}

/// Error code of the last echo probe that got no reply, zero if each got one.
pub open spec fn echo_last_error(outcomes: Seq<EchoOutcome>) -> u32
    decreases outcomes.len(),
{
    if outcomes.len() == 0 {
        0
    } else {
        match outcomes.last() {
            EchoOutcome::NoReply { error } => error,
            EchoOutcome::Reply { .. } => echo_last_error(outcomes.drop_last()),
        }
    }
}

/// Status of the last echo reply received, if any was.
pub open spec fn echo_last_reply_status(outcomes: Seq<EchoOutcome>) -> Option<u32>
    decreases outcomes.len(),
{
    if outcomes.len() == 0 {
        None
    } else {
        match outcomes.last() {
            EchoOutcome::Reply { status, .. } => Some(status),
            EchoOutcome::NoReply { .. } => echo_last_reply_status(outcomes.drop_last()),
        }
    }
}

/// A handshake time in whole milliseconds, capped at the largest `u32`.
pub open spec fn capped_millis(elapsed_ms: u128) -> u32 {
    if elapsed_ms > u32::MAX {
        u32::MAX
    } else {
        elapsed_ms as u32
    }
}

/// The error code recorded for a failed handshake.
pub open spec fn handshake_error_code(os_error: Option<i32>) -> u32 {
    match os_error {
        Some(code) => code as u32,
        None => 0,
    }
}

/// Times of the successful handshake probes, in probe order.
pub open spec fn handshake_round_trips(outcomes: Seq<HandshakeOutcome>) -> Seq<u32>
    decreases outcomes.len(),
{
    if outcomes.len() == 0 {
        Seq::empty()
    } else {
        let earlier = handshake_round_trips(outcomes.drop_last());
        match outcomes.last() {
            HandshakeOutcome::Connected { elapsed_ms } => earlier.push(capped_millis(elapsed_ms)),
            HandshakeOutcome::Failed { .. } => earlier,
        }
    }
}

/// Error code of the last failed handshake, zero if none failed.
pub open spec fn handshake_last_error(outcomes: Seq<HandshakeOutcome>) -> u32
    decreases outcomes.len(),
{
    if outcomes.len() == 0 {
        0
    } else {
        match outcomes.last() {
            HandshakeOutcome::Failed { os_error } => handshake_error_code(os_error),
            HandshakeOutcome::Connected { .. } => handshake_last_error(outcomes.drop_last()),
        }
    }
}

/// Latency, jitter and loss of `count` probes whose successes took `rtts`.
fn summarize_round_trips(
    rtts: &Vec<u32>,
    count: usize,
    last_error: u32,
    last_reply_status: Option<u32>,
) -> (stats: PingStats)
    requires
        rtts.len() <= count,
    ensures
        stats.summarizes(rtts@, count as nat),
        stats.last_error == last_error,
        stats.last_reply_status == last_reply_status,
{
    let n = rtts.len();
    if n == 0 {
        return PingStats {
            avg_ms: 0,
            min_ms: 0,
            max_ms: 0,
            jitter_ms: 0,
            loss_percent: Percent::full(),
            success_count: 0,
            last_error,
            last_reply_status,
        };
    }
    let mut min_ms: u32 = rtts[0];
    let mut max_ms: u32 = rtts[0];
    let mut total: u128 = rtts[0] as u128;
    let mut i: usize = 1;
    proof {
        assert(rtts@.take(1).drop_last() =~= Seq::<u32>::empty());
        assert(rtts@.take(1)[0] == rtts@[0]);
        assert(rtt_total(rtts@.take(1)) == rtts@[0]) by {
            reveal_with_fuel(rtt_total, 2);
        }
    }
    while i < n
        invariant
            n == rtts.len(),
            1 <= i <= n,
            is_smallest(rtts@.take(i as int), min_ms),
            is_largest(rtts@.take(i as int), max_ms),
            total == rtt_total(rtts@.take(i as int)),
            total <= i * 0xffff_ffff,
        decreases n - i,
    {
        let rtt = rtts[i];
        proof {
            let before = rtts@.take(i as int);
            let next = rtts@.take(i + 1);
            assert(next.drop_last() =~= before);
            assert(next[i as int] == rtt);
            assert(forall|k: int| 0 <= k < i ==> next[k] == before[k]);
            let j = choose|j: int| 0 <= j < before.len() && before[j] == min_ms;
            assert(next[j] == min_ms);
            let k = choose|k: int| 0 <= k < before.len() && before[k] == max_ms;
            assert(next[k] == max_ms);
        }
        if rtt < min_ms {
            min_ms = rtt;
        }
        if rtt > max_ms {
            max_ms = rtt;
        }
        total = total + rtt as u128;
        i = i + 1;
    }
    proof {
        assert(rtts@.take(n as int) =~= rtts@);
        lemma_quotient_bound(total as int, n as int, 0xffff_ffff);
    }
    let avg: u128 = total / (n as u128);
    let jitter_ms = compute_jitter(rtts.as_slice());
    let failure_count = count - n;
    PingStats {
        avg_ms: avg as u32,
        min_ms,
        max_ms,
        jitter_ms,
        loss_percent: Percent { part: failure_count as u64, whole: count as u64 },
        success_count: n,
        last_error,
        last_reply_status,
    }
}

/// Summarizes a round of echo probes, given how each one ended, in the
/// order in which they were sent.
///
/// A probe succeeds when a reply arrives whose status is
/// [`ECHO_REPLY_SUCCESS`]; only those contribute a round-trip time. The
/// loss is the share of probes that did not succeed.
pub fn summarize_echo_probes(outcomes: &Vec<EchoOutcome>) -> (stats: PingStats)
    ensures
        stats.summarizes(echo_round_trips(outcomes@), outcomes@.len()),
        stats.last_error == echo_last_error(outcomes@),
        stats.last_reply_status == echo_last_reply_status(outcomes@),
        stats.loss_percent.wf(),
        stats.success_count == 0 ==> stats.loss_percent.is_exactly(100),
        outcomes@.len() > 0 && stats.success_count == outcomes@.len()
            ==> stats.loss_percent.is_exactly(0),
{
    let count = outcomes.len();
    let mut rtts: Vec<u32> = Vec::new();
    let mut last_error: u32 = 0;
    let mut last_reply_status: Option<u32> = None;
    let mut i: usize = 0;
    while i < count
        invariant
            count == outcomes.len(),
            i <= count,
            rtts@ == echo_round_trips(outcomes@.take(i as int)),
            rtts.len() <= i,
            last_error == echo_last_error(outcomes@.take(i as int)),
            last_reply_status == echo_last_reply_status(outcomes@.take(i as int)),
        decreases count - i,
    {
        proof {
            assert(outcomes@.take(i + 1).drop_last() =~= outcomes@.take(i as int));
            assert(outcomes@.take(i + 1).last() == outcomes@[i as int]);
        }
        match outcomes[i] {
            EchoOutcome::Reply { status, round_trip_ms } => {
                last_reply_status = Some(status);
                if status == ECHO_REPLY_SUCCESS {
                    rtts.push(round_trip_ms);
                }
            },
            EchoOutcome::NoReply { error } => {
                last_error = error;
            },
        }
        i = i + 1;
    }
    proof {
        assert(outcomes@.take(count as int) =~= outcomes@);
    }
    summarize_round_trips(&rtts, count, last_error, last_reply_status)
}

/// Summarizes a round of handshake probes, given how each one ended, in the
/// order in which they were made.
///
/// Each established connection contributes its time in whole milliseconds,
/// capped at the largest `u32`. No reply status is recorded.
pub fn summarize_handshake_probes(outcomes: &Vec<HandshakeOutcome>) -> (stats: PingStats)
    ensures
        stats.summarizes(handshake_round_trips(outcomes@), outcomes@.len()),
        stats.last_error == handshake_last_error(outcomes@),
        stats.last_reply_status == None::<u32>,
        stats.loss_percent.wf(),
        stats.success_count == 0 ==> stats.loss_percent.is_exactly(100),
        outcomes@.len() > 0 && stats.success_count == outcomes@.len()
            ==> stats.loss_percent.is_exactly(0),
{
    let count = outcomes.len();
    let mut rtts: Vec<u32> = Vec::new();
    let mut last_error: u32 = 0;
    let mut i: usize = 0;
    while i < count
        invariant
            count == outcomes.len(),
            i <= count,
            rtts@ == handshake_round_trips(outcomes@.take(i as int)),
            rtts.len() <= i,
            last_error == handshake_last_error(outcomes@.take(i as int)),
        decreases count - i,
    {
        proof {
            assert(outcomes@.take(i + 1).drop_last() =~= outcomes@.take(i as int));
            assert(outcomes@.take(i + 1).last() == outcomes@[i as int]);
        }
        match outcomes[i] {
            HandshakeOutcome::Connected { elapsed_ms } => {
                let capped: u32 = if elapsed_ms > u32::MAX as u128 {
                    u32::MAX
                } else {
                    elapsed_ms as u32
                };
                rtts.push(capped);
            },
            HandshakeOutcome::Failed { os_error } => {
                last_error = match os_error {
                    Some(code) => code as u32,
                    None => 0,
                };
            },
        }
        i = i + 1;
    }
    proof {
        assert(outcomes@.take(count as int) =~= outcomes@);
    }
    summarize_round_trips(&rtts, count, last_error, None)
}

/// Whether a round of echo probes must be repeated with handshake probes:
/// it was carried out and not one probe succeeded.
pub open spec fn handshake_fallback_needed(echo: Option<PingStats>) -> bool {
    match echo {
        Some(stats) => stats.success_count == 0,
        None => false,
    }
}

/// Decides, after the echo probes, whether the cycle falls back to
/// handshake probes. Handshake and echo timings are never mixed: the
/// fallback replaces the echo figures as a whole.
pub fn needs_handshake_fallback(echo: &Option<PingStats>) -> (fallback: bool)
    ensures
        fallback == handshake_fallback_needed(*echo),
{
    match echo {
        Some(stats) => stats.success_count == 0,
        None => false,
    }
}

/// TCP traffic of one probe cycle.
#[derive(Clone, Copy, Debug, PartialEq, Eq, Structural)]
pub struct TcpStats {
    pub retransmission_percent: Percent,
    pub segments_sent: i64,
    pub segments_retransmitted: i64,
}

/// The larger of `value` and zero.
pub open spec fn non_negative(value: i64) -> int {
    if value < 0 {
        0
    } else {
        value as int
    }
}

/// Retransmitted segments as a share of the segments sent. Without any
/// segment sent the rate is zero; a negative number of retransmissions
/// counts as none.
pub open spec fn retransmission_out_of_sent(sent: i64, retransmitted: i64) -> Percent {
    if sent <= 0 {
        Percent { part: 0, whole: 1 }
    } else {
        Percent { part: non_negative(retransmitted) as u64, whole: sent as u64 }
    }
}

/// Retransmitted segments as a share of all segments, sent and
/// retransmitted together. Negative counts are taken as zero, and the rate
/// of no traffic at all is zero.
pub open spec fn retransmission_out_of_total(sent: i64, retransmitted: i64) -> Percent {
    if non_negative(sent) + non_negative(retransmitted) == 0 {
        Percent { part: 0, whole: 1 }
    } else {
        Percent {
            part: non_negative(retransmitted) as u64,
            whole: (non_negative(sent) + non_negative(retransmitted)) as u64,
        }
    }
}

/// The retransmission rate relative to the segments sent.
pub fn compute_retransmission_percent_out(
    segments_sent: i64,
    segments_retransmitted: i64,
) -> (rate: Percent)
    ensures
        rate == retransmission_out_of_sent(segments_sent, segments_retransmitted),
        rate.wf(),
{
    if segments_sent <= 0 {
        return Percent::zero();
    }
    let retransmitted: u64 = if segments_retransmitted < 0 {
        0
    } else {
        segments_retransmitted as u64
    };
    Percent { part: retransmitted, whole: segments_sent as u64 }
}

/// The retransmission rate relative to all segments put on the wire.
pub fn compute_retransmission_percent_total(
    segments_sent: i64,
    segments_retransmitted: i64,
) -> (rate: Percent)
    ensures
        rate == retransmission_out_of_total(segments_sent, segments_retransmitted),
        rate.wf(),
{
    let sent: u64 = if segments_sent < 0 {
        0
    } else {
        segments_sent as u64
    };
    let retransmitted: u64 = if segments_retransmitted < 0 {
        0
    } else {
        segments_retransmitted as u64
    };
    let total: u64 = sent + retransmitted;
    if total == 0 {
        Percent::zero()
    } else {
        Percent { part: retransmitted, whole: total }
    }
}

/// Whether the counters went backwards between two readings.
pub open spec fn counters_rolled_back(previous: (i64, i64), current: (i64, i64)) -> bool {
    current.0 < previous.0 || current.1 < previous.1
}

/// The traffic between a baseline and the current reading of the cumulative
/// counters `(segments sent, segments retransmitted)`.
///
/// Without a baseline, or when either counter is lower than in the
/// baseline, nothing is reported for the cycle: both counts and the rate
/// are zero.
pub open spec fn interval_stats(baseline: Option<(i64, i64)>, current: (i64, i64)) -> TcpStats {
    match baseline {
        Some(previous) if !counters_rolled_back(previous, current) => TcpStats {
            retransmission_percent: retransmission_out_of_sent(
                (current.0 - previous.0) as i64,
                (current.1 - previous.1) as i64,
            ),
            segments_sent: (current.0 - previous.0) as i64,
            segments_retransmitted: (current.1 - previous.1) as i64,
        },
        _ => TcpStats {
            retransmission_percent: Percent { part: 0, whole: 1 },
            segments_sent: 0,
            segments_retransmitted: 0,
        },
    }
}

/// Whether the growth of both counters since the baseline fits in an `i64`.
pub open spec fn interval_fits(baseline: Option<(i64, i64)>, current: (i64, i64)) -> bool {
    match baseline {
        Some(previous) => current.0 - previous.0 <= i64::MAX && current.1 - previous.1
            <= i64::MAX,
        None => true,
    }
}

/// Computes the traffic of the cycle that ends with the reading `current`
/// and makes that reading the baseline of the next cycle.
pub fn compute_interval_tcp_stats(
    baseline: &mut Option<(i64, i64)>,
    current: (i64, i64),
) -> (stats: TcpStats)
    requires
        interval_fits(*old(baseline), current),
    ensures
        stats == interval_stats(*old(baseline), current),
        *final(baseline) == Some(current),
        stats.retransmission_percent.wf(),
{
    let (current_sent, current_retrans) = current;
    let previous = *baseline;
    *baseline = Some(current);
    match previous {
        Some((prev_sent, prev_retrans)) => {
            if current_sent < prev_sent || current_retrans < prev_retrans {
                TcpStats {
                    retransmission_percent: Percent::zero(),
                    segments_sent: 0,
                    segments_retransmitted: 0,
                }
            } else {
                let delta_sent = current_sent - prev_sent;
                let delta_retrans = current_retrans - prev_retrans;
                TcpStats {
                    retransmission_percent: compute_retransmission_percent_out(
                        delta_sent,
                        delta_retrans,
                    ),
                    segments_sent: delta_sent,
                    segments_retransmitted: delta_retrans,
                }
            }
        },
        None => TcpStats {
            retransmission_percent: Percent::zero(),
            segments_sent: 0,
            segments_retransmitted: 0,
        },
    }
}

/// The pair of cumulative counters as the quality sample carries them.
pub open spec fn counters_of(segments_out: u32, segments_retransmitted: u32) -> (i64, i64) {
    (segments_out as i64, segments_retransmitted as i64)
}

/// Whether a baseline holds counts, that is no negative number.
pub open spec fn baseline_holds_counts(baseline: Option<(i64, i64)>) -> bool {
    match baseline {
        Some(previous) => previous.0 >= 0 && previous.1 >= 0,
        None => true,
    }
}

/// Turns a reading of the system's TCP counters into the statistics of the
/// cycle. A failed reading (`None`) yields no statistics and leaves the
/// baseline as it is.
pub fn query_tcp_stats(
    baseline: &mut Option<(i64, i64)>,
    reading: Option<(u32, u32)>,
) -> (stats: Option<TcpStats>)
    requires
        baseline_holds_counts(*old(baseline)),
    ensures
        match reading {
            Some((sent, retransmitted)) => {
                &&& stats == Some(interval_stats(*old(baseline), counters_of(sent, retransmitted)))
                &&& *final(baseline) == Some(counters_of(sent, retransmitted))
            },
            None => stats.is_none() && *final(baseline) == *old(baseline),
        },
        baseline_holds_counts(*final(baseline)),
{
    match reading {
        Some((sent, retransmitted)) => Some(
            compute_interval_tcp_stats(baseline, (sent as i64, retransmitted as i64)),
        ),
        None => None,
    }
}

/// Establishes the baseline at the start of a probe session: an existing
/// baseline is kept, otherwise a successful reading becomes the baseline.
pub fn init_tcp_stats_baseline(baseline: &mut Option<(i64, i64)>, reading: Option<(u32, u32)>)
    ensures
        *final(baseline) == match *old(baseline) {
            Some(previous) => Some(previous),
            None => match reading {
                Some((sent, retransmitted)) => Some(counters_of(sent, retransmitted)),
                None => None,
            },
        },
        baseline_holds_counts(*old(baseline)) ==> baseline_holds_counts(*final(baseline)),
{
    if baseline.is_some() {
        return ;
    }
    if let Some((sent, retransmitted)) = reading {
        *baseline = Some((sent as i64, retransmitted as i64));
    }
}

/// Forgets the baseline at the end of a probe session.
pub fn reset_tcp_stats_baseline(baseline: &mut Option<(i64, i64)>)
    ensures
        final(baseline).is_none(),
{
    *baseline = None;
}

/// The sample built from the probe statistics and the TCP statistics of a
/// cycle; a part that is missing contributes zeros.
pub open spec fn quality_sample(ping: Option<PingStats>, tcp: Option<TcpStats>)
    -> NetworkQualitySample {
    NetworkQualitySample {
        latency_avg_ms: if let Some(p) = ping { p.avg_ms } else { 0 },
        latency_min_ms: if let Some(p) = ping { p.min_ms } else { 0 },
        latency_max_ms: if let Some(p) = ping { p.max_ms } else { 0 },
        jitter_ms: if let Some(p) = ping { p.jitter_ms } else { 0 },
        packet_loss_percent: if let Some(p) = ping {
            p.loss_percent
        } else {
            Percent { part: 0, whole: 1 }
        },
        tcp_retransmission_percent: if let Some(t) = tcp {
            t.retransmission_percent
        } else {
            Percent { part: 0, whole: 1 }
        },
        tcp_segments_sent: if let Some(t) = tcp { t.segments_sent } else { 0 },
        tcp_segments_retransmitted: if let Some(t) = tcp { t.segments_retransmitted } else { 0 },
    }
}

/// Completes one probe cycle: puts the latency figures and the TCP figures
/// into the sample that is handed to the consumer.
pub fn probe_quality_once(
    ping: Option<PingStats>,
    tcp: Option<TcpStats>,
) -> (sample: NetworkQualitySample)
    ensures
        sample == quality_sample(ping, tcp),
{
    let (latency_avg_ms, latency_min_ms, latency_max_ms, jitter_ms, packet_loss_percent) =
        match ping {
        Some(p) => (p.avg_ms, p.min_ms, p.max_ms, p.jitter_ms, p.loss_percent),
        None => (0, 0, 0, 0, Percent::zero()),
    };
    let (tcp_retransmission_percent, tcp_segments_sent, tcp_segments_retransmitted) = match tcp {
        Some(t) => (t.retransmission_percent, t.segments_sent, t.segments_retransmitted),
        None => (Percent::zero(), 0, 0),
    };
    NetworkQualitySample {
        latency_avg_ms,
        latency_min_ms,
        latency_max_ms,
        jitter_ms,
        packet_loss_percent,
        tcp_retransmission_percent,
        tcp_segments_sent,
        tcp_segments_retransmitted,
    }
}

/// The prober's own bookkeeping: whether it is meant to run, whether a
/// worker thread exists that has to be waited for, and the TCP baseline.
#[derive(Clone, Copy, Debug, PartialEq, Eq)]
pub struct ProberState {
    pub running: bool,
    pub worker_attached: bool,
    pub baseline: Option<(i64, i64)>,
}

impl ProberState {
    /// The bookkeeping of a prober that never ran.
    pub open spec fn initial() -> ProberState {
        ProberState { running: false, worker_attached: false, baseline: None }
    }

    /// Creates the bookkeeping of a prober that never ran.
    pub fn new() -> (prober: ProberState)
        ensures
            prober == ProberState::initial(),
    {
        ProberState { running: false, worker_attached: false, baseline: None }
    }
}

/// Handles a request to start the prober and tells whether a worker thread
/// must be spawned for it. A prober that is running already is left alone
/// and nothing is spawned.
pub fn start_quality_probe(prober: &mut ProberState) -> (spawn: bool)
    ensures
        spawn == !old(prober).running,
        final(prober).running,
        final(prober).worker_attached == (old(prober).worker_attached || spawn),
        final(prober).baseline == old(prober).baseline,
{
    let already_running = prober.running;
    prober.running = true;
    if already_running {
        return false;
    }
    prober.worker_attached = true;
    true
}

/// Handles a request to stop the prober and tells whether a worker thread
/// has to be waited for. The prober is told to stop running and the TCP
/// baseline is forgotten, so that the next session starts afresh.
pub fn stop_quality_probe(prober: &mut ProberState) -> (join: bool)
    ensures
        join == old(prober).worker_attached,
        *final(prober) == ProberState::initial(),
{
    prober.running = false;
    let join = prober.worker_attached;
    prober.worker_attached = false;
    reset_tcp_stats_baseline(&mut prober.baseline);
    join
}

/// The time to sleep after a cycle that took `elapsed_nanos`, so that cycles
/// start `interval_nanos` apart. A cycle that took the whole interval or
/// more is followed by the next one at once.
pub fn pause_before_next_cycle(interval_nanos: u128, elapsed_nanos: u128) -> (pause: Option<u128>)
    ensures
        pause == if elapsed_nanos < interval_nanos {
            Some((interval_nanos - elapsed_nanos) as u128)
        } else {
            None
        },
{
    if elapsed_nanos < interval_nanos {
        Some(interval_nanos - elapsed_nanos)
    } else {
        None
    }
}

/// The number whose bytes, least significant first, are `octets`.
pub open spec fn little_endian_value(octets: [u8; 4]) -> int {
    octets[0] + 0x100 * octets[1] + 0x1_0000 * octets[2] + 0x100_0000 * octets[3]
}

/// The destination of an echo probe to the IPv4 address with the given
/// octets, first octet first. The echo interface takes the address with its
/// first octet in the least significant byte.
pub fn echo_destination(octets: [u8; 4]) -> (address: u32)
    ensures
        address == little_endian_value(octets),
{
    let b0: u32 = octets[0] as u32;
    let b1: u32 = octets[1] as u32;
    let b2: u32 = octets[2] as u32;
    let b3: u32 = octets[3] as u32;
    b0 + 0x100 * b1 + 0x1_0000 * b2 + 0x100_0000 * b3
}

/// One address from a name lookup.
#[derive(Clone, Copy, Debug, PartialEq, Eq)]
pub enum ResolvedAddress {
    /// An IPv4 address, given by its octets, first octet first.
    V4([u8; 4]),
    /// An address of another family, which the prober cannot use.
    Other,
}

/// Whether the answer at position `at` is the IPv4 address `octets` and no
/// answer before it is an IPv4 address.
pub open spec fn is_first_ipv4(answers: Seq<ResolvedAddress>, at: int, octets: [u8; 4]) -> bool {
    &&& 0 <= at < answers.len()
    &&& answers[at] == ResolvedAddress::V4(octets)
    &&& forall|j: int| 0 <= j < at ==> answers[j] == ResolvedAddress::Other
}

/// Picks the probe target from the answers of a name lookup: the first
/// IPv4 address in the order of the answers, or none if the lookup gave no
/// IPv4 address.
pub fn first_ipv4_address(answers: &Vec<ResolvedAddress>) -> (target: Option<[u8; 4]>)
    ensures
        match target {
            Some(octets) => exists|at: int| #[trigger] is_first_ipv4(answers@, at, octets),
            None => forall|i: int| 0 <= i < answers@.len() ==> answers@[i] == ResolvedAddress::Other,
        },
{
    let mut i: usize = 0;
    while i < answers.len()
        invariant
            i <= answers.len(),
            forall|j: int| 0 <= j < i ==> answers@[j] == ResolvedAddress::Other,
        decreases answers.len() - i,
    {
        match answers[i] {
            ResolvedAddress::V4(octets) => {
                let target = Some(octets);
                assert(target matches Some(found) && is_first_ipv4(answers@, i as int, found));
                return target;
            },
            ResolvedAddress::Other => {},
        }
        i = i + 1;
    }
    None
}

} // verus!
