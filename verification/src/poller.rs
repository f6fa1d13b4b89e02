//! The snapshot poller: from cumulative byte counters to rates.
//!
//! Each tick takes the time since the last one and the counters as read, and
//! replaces the snapshot. Waiting and reading are the caller's.

use crate::clock::NANOS_PER_SECOND;
use crate::units::{clamp_u64, BYTES_PER_MB, MILLION};
use vstd::prelude::*;

verus! {

/// Seconds from one tick to the next.
pub const POLL_INTERVAL_SECONDS: u64 = 2;

/// Disk traffic, as of the last tick.
#[derive(Clone, Copy, Debug, PartialEq, Eq)]
pub struct DiskStats {
    pub read_micro_mb: u64,
    pub write_micro_mb: u64,
    pub read_per_sec: u64,
    pub write_per_sec: u64,
}

/// Network traffic, as of the last tick.
#[derive(Clone, Copy, Debug, PartialEq, Eq)]
pub struct NetworkStats {
    pub rx_micro_mb: u64,
    pub tx_micro_mb: u64,
    pub rx_per_sec: u64,
    pub tx_per_sec: u64,
}

/// GPU load. Nothing measures it yet.
#[derive(Clone, Debug, PartialEq, Eq)]
pub struct GpuStats {
    pub utilization_micro_pct: u64,
    pub name: String,
}

/// The latest measurement of what changes slowly.
#[derive(Clone, Debug, PartialEq, Eq)]
pub struct SlowMetrics {
    pub disk: DiskStats,
    pub network: NetworkStats,
    pub gpu: GpuStats,
}

/// Bytes that one source has taken in and given out: a network interface
/// what it received and transmitted, a process what it read and wrote.
#[derive(Clone, Copy, Debug, PartialEq, Eq)]
pub struct Traffic {
    pub inbound: u64,
    pub outbound: u64,
}

/// What the poller remembers from one tick to the next.
#[derive(Clone, Copy, Debug, PartialEq, Eq)]
pub struct PollerState {
    pub last_rx: u64,
    pub last_tx: u64,
}

/// The sum of `inbound` over `sources`.
pub open spec fn inbound_of(sources: Seq<Traffic>) -> int
    decreases sources.len(),
{
    if sources.len() == 0 {
        0
    } else {
        inbound_of(sources.drop_last()) + sources.last().inbound
    }
}

/// The sum of `outbound` over `sources`.
pub open spec fn outbound_of(sources: Seq<Traffic>) -> int
    decreases sources.len(),
{
    if sources.len() == 0 {
        0
    } else {
        outbound_of(sources.drop_last()) + sources.last().outbound
    }
}

/// By how much a cumulative counter has grown; zero where it has fallen,
/// as it does when it is reset or wraps around.
pub open spec fn delta_of(previous: u64, current: u64) -> u64 {
    if current >= previous {
        (current - previous) as u64
    } else {
        0
    }
}

/// Bytes per second of `bytes` in `elapsed_nanos`, rounded down and held to
/// the range of `u64`.
pub open spec fn rate_of(bytes: u64, elapsed_nanos: u128) -> u64
    recommends
        elapsed_nanos > 0,
{
    clamp_u64(bytes * NANOS_PER_SECOND / (elapsed_nanos as int))
}

/// `bytes` in millionths of a mebibyte, rounded down.
pub open spec fn micro_mb_of(bytes: u64) -> u64 {
    (bytes * MILLION / (BYTES_PER_MB as int)) as u64
}

/// The disk traffic that a tick publishes. The sources report what they
/// read and wrote since the tick before, so the sums are the deltas.
pub open spec fn disk_of(processes: Seq<Traffic>, elapsed_nanos: u128) -> DiskStats {
    let read = clamp_u64(inbound_of(processes));
    let written = clamp_u64(outbound_of(processes));
    DiskStats {
        read_micro_mb: micro_mb_of(read),
        write_micro_mb: micro_mb_of(written),
        read_per_sec: rate_of(read, elapsed_nanos),
        write_per_sec: rate_of(written, elapsed_nanos),
    }
}

/// The network traffic that a tick publishes. The sources report running
/// totals, so the deltas are taken against the totals of the tick before.
pub open spec fn network_of(state: PollerState, interfaces: Seq<Traffic>, elapsed_nanos: u128) -> NetworkStats {
    let rx = clamp_u64(inbound_of(interfaces));
    let tx = clamp_u64(outbound_of(interfaces));
    NetworkStats {
        rx_micro_mb: micro_mb_of(rx),
        tx_micro_mb: micro_mb_of(tx),
        rx_per_sec: rate_of(delta_of(state.last_rx, rx), elapsed_nanos),
        tx_per_sec: rate_of(delta_of(state.last_tx, tx), elapsed_nanos),
    }
}

/// By how much a cumulative counter has grown.
pub fn counter_delta(previous: u64, current: u64) -> (delta: u64)
    ensures
        delta == delta_of(previous, current),
{
    if current >= previous {
        current - previous
    } else {
        0
    }
}

/// Bytes per second of `bytes` in `elapsed_nanos`.
pub fn rate_per_sec(bytes: u64, elapsed_nanos: u128) -> (rate: u64)
    requires
        elapsed_nanos > 0,
    ensures
        rate == rate_of(bytes, elapsed_nanos),
{
    let rate: u128 = (bytes as u128) * (NANOS_PER_SECOND as u128) / elapsed_nanos;
    if rate > u64::MAX as u128 {
        u64::MAX
    } else {
        rate as u64
    }
}

/// `bytes` in millionths of a mebibyte.
pub fn to_micro_mb(bytes: u64) -> (micro_mb: u64)
    ensures
        micro_mb == micro_mb_of(bytes),
        micro_mb == bytes * MILLION / (BYTES_PER_MB as int),
{
    ((bytes as u128) * (MILLION as u128) / (BYTES_PER_MB as u128)) as u64
}

/// What `sources` have taken in and given out, in all; each sum is held to
/// the range of `u64`.
pub fn total_traffic(sources: &Vec<Traffic>) -> (total: Traffic)
    ensures
        total.inbound == clamp_u64(inbound_of(sources@)),
        total.outbound == clamp_u64(outbound_of(sources@)),
{
    let mut inbound: u64 = 0;
    let mut outbound: u64 = 0;
    let mut i: usize = 0;
    while i < sources.len()
        invariant
            i <= sources.len(),
            inbound_of(sources@.take(i as int)) >= 0,
            outbound_of(sources@.take(i as int)) >= 0,
            inbound == clamp_u64(inbound_of(sources@.take(i as int))),
            outbound == clamp_u64(outbound_of(sources@.take(i as int))),
        decreases sources.len() - i,
    {
        proof {
            let next = sources@.take(i + 1);
            assert(next.drop_last() =~= sources@.take(i as int));
        }
        inbound = inbound.saturating_add(sources[i].inbound);
        outbound = outbound.saturating_add(sources[i].outbound);
        i += 1;
    }
    proof {
        assert(sources@.take(sources.len() as int) =~= sources@);
    }
    Traffic { inbound, outbound }
}

impl PollerState {
    /// The state before the first tick: nothing counted yet.
    pub fn new() -> (state: PollerState)
        ensures
            state == (PollerState { last_rx: 0, last_tx: 0 }),
    {
        PollerState { last_rx: 0, last_tx: 0 }
    }

    /// One tick, `elapsed_nanos` after the one before: replaces the disk and
    /// network parts of `snapshot` and remembers the network totals. A tick
    /// after no time at all is skipped: it changes nothing, and the answer
    /// is `false`.
    pub fn tick(
        &mut self,
        snapshot: &mut SlowMetrics,
        elapsed_nanos: u128,
        interfaces: &Vec<Traffic>,
        processes: &Vec<Traffic>,
    ) -> (published: bool)
        ensures
            published == (elapsed_nanos != 0),
            elapsed_nanos == 0 ==> *final(self) == *old(self) && *final(snapshot) == *old(
                snapshot,
            ),
            elapsed_nanos != 0 ==> {
                &&& final(snapshot).disk == disk_of(processes@, elapsed_nanos)
                &&& final(snapshot).network == network_of(*old(self), interfaces@, elapsed_nanos)
                &&& final(snapshot).gpu == old(snapshot).gpu
                &&& final(self).last_rx == clamp_u64(inbound_of(interfaces@))
                &&& final(self).last_tx == clamp_u64(outbound_of(interfaces@))
            },
    {
        if elapsed_nanos == 0 {
            return false;
        }
        let network = total_traffic(interfaces);
        let rx_delta = counter_delta(self.last_rx, network.inbound);
        let tx_delta = counter_delta(self.last_tx, network.outbound);
        let disk = total_traffic(processes);
        snapshot.network = NetworkStats {
            rx_micro_mb: to_micro_mb(network.inbound),
            tx_micro_mb: to_micro_mb(network.outbound),
            rx_per_sec: rate_per_sec(rx_delta, elapsed_nanos),
            tx_per_sec: rate_per_sec(tx_delta, elapsed_nanos),
        };
        snapshot.disk = DiskStats {
            read_micro_mb: to_micro_mb(disk.inbound),
            write_micro_mb: to_micro_mb(disk.outbound),
            read_per_sec: rate_per_sec(disk.inbound, elapsed_nanos),
            write_per_sec: rate_per_sec(disk.outbound, elapsed_nanos),
        };
        self.last_rx = network.inbound;
        self.last_tx = network.outbound;
        true
    }
}

impl Default for SlowMetrics {
    /// The snapshot before the first tick: nothing measured.
    fn default() -> (snapshot: SlowMetrics)
        ensures
            snapshot.disk == (DiskStats {
                read_micro_mb: 0,
                write_micro_mb: 0,
                read_per_sec: 0,
                write_per_sec: 0,
            }),
            snapshot.network == (NetworkStats {
                rx_micro_mb: 0,
                tx_micro_mb: 0,
                rx_per_sec: 0,
                tx_per_sec: 0,
            }),
            snapshot.gpu.utilization_micro_pct == 0,
            snapshot.gpu.name@ == Seq::<char>::empty(),
    {
        SlowMetrics {
            disk: DiskStats { read_micro_mb: 0, write_micro_mb: 0, read_per_sec: 0, write_per_sec: 0 },
            network: NetworkStats { rx_micro_mb: 0, tx_micro_mb: 0, rx_per_sec: 0, tx_per_sec: 0 },
            gpu: GpuStats { utilization_micro_pct: 0, name: String::new() },
        }
    }
}

} // verus!
