//! Live statistics: what the host shows now, and the sample that a running
//! session takes of it.

use crate::clock::{millis_of, rfc3339_text, Moment, MomentView};
use crate::manager::{step, Command, SessionManager};
use crate::poller::{DiskStats, GpuStats, NetworkStats, SlowMetrics};
use crate::sample::ResourceSample;
use crate::units::{share, share_of, BYTES_PER_MB};
use vstd::prelude::*;

verus! {

/// What the host reports when asked: instantaneous CPU load, memory in
/// bytes, and the time since boot in seconds.
#[derive(Clone, Copy, Debug, PartialEq, Eq)]
pub struct HostReading {
    pub cpu_utilization_micro_pct: u64,
    pub cores: usize,
    pub total_memory: u64,
    pub used_memory: u64,
    pub free_memory: u64,
    pub uptime: u64,
}

/// CPU load.
#[derive(Clone, Copy, Debug, PartialEq, Eq)]
pub struct CpuStats {
    pub utilization_micro_pct: u64,
    pub cores: usize,
}

/// Memory use, in whole mebibytes; `total` is in bytes.
#[derive(Clone, Copy, Debug, PartialEq, Eq)]
pub struct MemoryStats {
    pub total_mb: u64,
    pub used_mb: u64,
    pub free_mb: u64,
    pub usage_micro_pct: u64,
    pub total: u64,
}

/// The host at one moment.
#[derive(Clone, Debug, PartialEq, Eq)]
pub struct SystemStats {
    /// The moment, as RFC 3339 writes it.
    pub timestamp: String,
    pub cpu: CpuStats,
    pub memory: MemoryStats,
    pub disk: DiskStats,
    pub network: NetworkStats,
    pub gpu: GpuStats,
    pub uptime: u64,
}

/// Whole mebibytes in `bytes`.
pub open spec fn whole_mb(bytes: u64) -> u64 {
    bytes / BYTES_PER_MB
}

/// The memory use that `host` reports. The share in use is taken of whole
/// mebibytes, and is zero for a host that reports less than one.
pub open spec fn memory_of(host: HostReading) -> MemoryStats {
    MemoryStats {
        total_mb: whole_mb(host.total_memory),
        used_mb: whole_mb(host.used_memory),
        free_mb: whole_mb(host.free_memory),
        usage_micro_pct: share_of(
            whole_mb(host.used_memory) as int,
            whole_mb(host.total_memory) as int,
        ),
        total: host.total_memory,
    }
}

/// The sample that a running session takes at `now` of `host`, with the
/// rates of `disk` and `network`.
pub open spec fn sample_of(
    host: HostReading,
    disk: DiskStats,
    network: NetworkStats,
    now: MomentView,
) -> ResourceSample {
    ResourceSample {
        timestamp_ms: millis_of(now) as i64,
        cpu_utilization_micro_pct: host.cpu_utilization_micro_pct,
        memory_used_mb: whole_mb(host.used_memory),
        memory_micro_pct: memory_of(host).usage_micro_pct,
        disk_read_per_sec: disk.read_per_sec,
        disk_write_per_sec: disk.write_per_sec,
        net_rx_per_sec: network.rx_per_sec,
        net_tx_per_sec: network.tx_per_sec,
    }
}

/// What [`SystemStats`] holds but for its text, with the text.
pub open spec fn stats_agree(
    stats: SystemStats,
    host: HostReading,
    slow: SlowMetrics,
    timestamp: Seq<char>,
) -> bool {
    &&& stats.timestamp@ == timestamp
    &&& stats.cpu == (CpuStats {
        utilization_micro_pct: host.cpu_utilization_micro_pct,
        cores: host.cores,
    })
    &&& stats.memory == memory_of(host)
    &&& stats.disk == slow.disk
    &&& stats.network == slow.network
    &&& stats.gpu.utilization_micro_pct == slow.gpu.utilization_micro_pct
    &&& stats.gpu.name@ == slow.gpu.name@
    &&& stats.uptime == host.uptime
}

/// The memory use that `host` reports.
pub fn memory_stats(host: &HostReading) -> (memory: MemoryStats)
    ensures
        memory == memory_of(*host),
{
    let total_mb = host.total_memory / BYTES_PER_MB;
    let used_mb = host.used_memory / BYTES_PER_MB;
    MemoryStats {
        total_mb,
        used_mb,
        free_mb: host.free_memory / BYTES_PER_MB,
        usage_micro_pct: share(used_mb, total_mb),
        total: host.total_memory,
    }
}

/// Observes, then records: puts `host` and the snapshot `slow` together into
/// the statistics of the moment `now`, and, where a session is running,
/// appends one sample of them to it.
pub fn get_current_stats(
    host: &HostReading,
    slow: &SlowMetrics,
    manager: &mut SessionManager,
    now: Moment,
) -> (stats: SystemStats)
    ensures
        final(manager)@ == step(
            old(manager)@,
            Command::Record { sample: sample_of(*host, slow.disk, slow.network, now@) },
        ),
        stats_agree(
            stats,
            *host,
            *slow,
            rfc3339_text(now@.seconds as int, now@.nanos as int),
        ),
{
    manager.record(take_sample(host, slow, now));
    system_stats(host, slow, now.to_rfc3339())
}

/// The sample that a running session takes at `now` of `host` and `slow`.
pub fn take_sample(host: &HostReading, slow: &SlowMetrics, now: Moment) -> (sample: ResourceSample)
    ensures
        sample == sample_of(*host, slow.disk, slow.network, now@),
{
    let memory = memory_stats(host);
    ResourceSample {
        timestamp_ms: now.timestamp_millis(),
        cpu_utilization_micro_pct: host.cpu_utilization_micro_pct,
        memory_used_mb: memory.used_mb,
        memory_micro_pct: memory.usage_micro_pct,
        disk_read_per_sec: slow.disk.read_per_sec,
        disk_write_per_sec: slow.disk.write_per_sec,
        net_rx_per_sec: slow.network.rx_per_sec,
        net_tx_per_sec: slow.network.tx_per_sec,
    }
}

/// The statistics of the moment that `timestamp` writes out: `host` and
/// the snapshot `slow` put together.
pub fn system_stats(host: &HostReading, slow: &SlowMetrics, timestamp: String) -> (stats:
    SystemStats)
    ensures
        stats_agree(stats, *host, *slow, timestamp@),
{
    let memory = memory_stats(host);
    SystemStats {
        timestamp,
        cpu: CpuStats {
            utilization_micro_pct: host.cpu_utilization_micro_pct,
            cores: host.cores,
        },
        memory,
        disk: slow.disk,
        network: slow.network,
        gpu: GpuStats {
            utilization_micro_pct: slow.gpu.utilization_micro_pct,
            name: slow.gpu.name.clone(),
        },
        uptime: host.uptime,
    }
}

} // verus!
