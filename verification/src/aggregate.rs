//! From a finished session to its run record.

use crate::estimate::{
    calculate_carbon, calculate_energy, carbon_model, energy_model, power_draw_of, CarbonResult,
    CarbonView, EnergyResult, RunMetrics,
};
use crate::sample::{
    law_mean_within, lemma_mean_bounds, mean, mean_of, peak_memory, peak_memory_of, Reading, ResourceSample,
};
use crate::session::{ProfilingSession, SessionView};
use crate::settings::{AppSettings, SettingsView};
use crate::units::{clamp_i64, scale, toward_zero, BYTES_PER_MB, FULL_SCALE};
use vstd::prelude::*;

verus! {

/// Disk throughput, read and written together, that counts as full
/// activity: 100 MB/s. A reference point of the model, not a limit of any
/// disk.
pub const DISK_CEILING_PER_SEC: u64 = 100_000_000;

/// Network throughput, received and sent together, that counts as full
/// activity: 10 MB/s. A reference point of the model, not a limit of any
/// link.
pub const NETWORK_CEILING_PER_SEC: u64 = 10_000_000;

/// Tenths of the CPU time that are charged to user code.
pub const USER_TENTHS: u64 = 7;

/// Tenths of the CPU time that are charged to the system.
pub const SYSTEM_TENTHS: u64 = 3;

/// Millionths of a percent times tenths times milliseconds, over
/// milliseconds: 10^8 for the percentage and 10 for the tenths.
pub const CPU_TIME_DIVISOR: u64 = 1_000_000_000;

/// Millionths in a thousandth: bytes per second times milliseconds are
/// thousandths of a byte, and this makes them millionths.
pub const MICROS_PER_MILLI: u64 = 1000;

/// What a run used, as measured.
#[derive(Clone, Copy, Debug, PartialEq, Eq)]
pub struct RunResources {
    pub wall_time_ms: i64,
    pub cpu_utilization_micro_pct: u64,
    pub cpu_time_user_ms: i64,
    pub cpu_time_system_ms: i64,
    pub memory_peak_mb: u64,
    pub memory_avg_micro_pct: u64,
    pub disk_read_micro_mb: i64,
    pub disk_write_micro_mb: i64,
    pub net_recv_micro_mb: i64,
    pub net_sent_micro_mb: i64,
    pub gpu_utilization_micro_pct: u64,
}

/// The record of a finished session.
#[derive(Clone, Debug, PartialEq, Eq)]
pub struct RunResult {
    pub id: String,
    pub project: String,
    pub command: String,
    pub branch: String,
    pub commit: String,
    /// When the session started, as RFC 3339 writes it.
    pub timestamp: String,
    pub resources: RunResources,
    pub metrics: RunMetrics,
    pub carbon: CarbonResult,
    pub energy: EnergyResult,
    pub sample_count: usize,
    pub duration_ms: i64,
}

/// What a [`RunResult`] holds.
pub struct RunView {
    pub id: Seq<char>,
    pub project: Seq<char>,
    pub command: Seq<char>,
    pub branch: Seq<char>,
    pub commit: Seq<char>,
    pub timestamp: Seq<char>,
    pub resources: RunResources,
    pub metrics: RunMetrics,
    pub carbon: CarbonView,
    pub energy: EnergyResult,
    pub sample_count: usize,
    pub duration_ms: i64,
}

impl View for RunResult {
    type V = RunView;

    open spec fn view(&self) -> RunView {
        RunView {
            id: self.id@,
            project: self.project@,
            command: self.command@,
            branch: self.branch@,
            commit: self.commit@,
            timestamp: self.timestamp@,
            resources: self.resources,
            metrics: self.metrics,
            carbon: self.carbon@,
            energy: self.energy,
            sample_count: self.sample_count,
            duration_ms: self.duration_ms,
        }
    }
}

/// Throughput as a share of a ceiling, and no more than all of it.
pub open spec fn activity_of(total_per_sec: int, ceiling_per_sec: int) -> u64
    recommends
        total_per_sec >= 0,
        ceiling_per_sec > 0,
{
    let share = total_per_sec * FULL_SCALE / ceiling_per_sec;
    if share > FULL_SCALE {
        FULL_SCALE
    } else {
        share as u64
    }
}

/// Millionths of a mebibyte moved in `duration_ms` at `rate_per_sec`: the
/// rate times the seconds, over the bytes of a mebibyte.
pub open spec fn transferred(rate_per_sec: int, duration_ms: int) -> i64 {
    clamp_i64(
        toward_zero(
            rate_per_sec * (MICROS_PER_MILLI as int) * duration_ms,
            BYTES_PER_MB as int,
        ),
    )
}

/// Milliseconds of CPU time charged to a party that gets `tenths` tenths of
/// it: the utilised share of the duration, times the tenths.
pub open spec fn cpu_time(cpu_micro_pct: int, tenths: int, duration_ms: int) -> i64 {
    clamp_i64(toward_zero(cpu_micro_pct * tenths * duration_ms, CPU_TIME_DIVISOR as int))
}

/// The utilisation of a session with the given samples.
pub open spec fn metrics_model(samples: Seq<ResourceSample>) -> RunMetrics {
    RunMetrics {
        cpu_utilization_micro_pct: mean_of(samples, Reading::CpuUtilization) as u64,
        memory_usage_micro_pct: mean_of(samples, Reading::MemoryPercent) as u64,
        gpu_utilization_micro_pct: 0,
        disk_activity_micro_pct: activity_of(
            mean_of(samples, Reading::DiskRead) + mean_of(samples, Reading::DiskWrite),
            DISK_CEILING_PER_SEC as int,
        ),
        network_activity_micro_pct: activity_of(
            mean_of(samples, Reading::NetRx) + mean_of(samples, Reading::NetTx),
            NETWORK_CEILING_PER_SEC as int,
        ),
    }
}

/// What a session with the given samples used in `duration_ms`.
pub open spec fn resources_model(samples: Seq<ResourceSample>, duration_ms: i64) -> RunResources {
    let cpu = mean_of(samples, Reading::CpuUtilization);
    RunResources {
        wall_time_ms: duration_ms,
        cpu_utilization_micro_pct: cpu as u64,
        cpu_time_user_ms: cpu_time(cpu, USER_TENTHS as int, duration_ms as int),
        cpu_time_system_ms: cpu_time(cpu, SYSTEM_TENTHS as int, duration_ms as int),
        memory_peak_mb: peak_memory_of(samples),
        memory_avg_micro_pct: mean_of(samples, Reading::MemoryPercent) as u64,
        disk_read_micro_mb: transferred(mean_of(samples, Reading::DiskRead), duration_ms as int),
        disk_write_micro_mb: transferred(mean_of(samples, Reading::DiskWrite), duration_ms as int),
        net_recv_micro_mb: transferred(mean_of(samples, Reading::NetRx), duration_ms as int),
        net_sent_micro_mb: transferred(mean_of(samples, Reading::NetTx), duration_ms as int),
        gpu_utilization_micro_pct: 0,
    }
}

/// The record of `session`, stopped `duration_ms` after its start under
/// `settings`.
pub open spec fn run_model(session: SessionView, duration_ms: i64, settings: SettingsView) -> RunView {
    let metrics = metrics_model(session.samples);
    let energy = energy_model(metrics, duration_ms, power_draw_of(settings.hardware_profile));
    RunView {
        id: session.id,
        project: session.project,
        command: session.command,
        branch: session.branch,
        commit: session.commit,
        timestamp: session.start_timestamp,
        resources: resources_model(session.samples, duration_ms),
        metrics,
        carbon: carbon_model(energy.total_micro_wh, settings.region, settings.pue_micros),
        energy,
        sample_count: session.samples.len() as usize,
        duration_ms,
    }
}

/// Throughput as a share of a ceiling.
pub fn activity(read_per_sec: u64, write_per_sec: u64, ceiling_per_sec: u64) -> (share: u64)
    requires
        ceiling_per_sec > 0,
    ensures
        share == activity_of(read_per_sec + write_per_sec, ceiling_per_sec as int),
        share <= FULL_SCALE,
{
    let total: u128 = read_per_sec as u128 + write_per_sec as u128;
    assert(total * FULL_SCALE <= u128::MAX) by (nonlinear_arith)
        requires
            total <= 2 * u64::MAX,
            FULL_SCALE == 100_000_000,
    ;
    let share: u128 = total * (FULL_SCALE as u128) / (ceiling_per_sec as u128);
    if share > FULL_SCALE as u128 {
        FULL_SCALE
    } else {
        share as u64
    }
}

/// The utilisation of a session with the given samples.
pub fn summarize_metrics(samples: &Vec<ResourceSample>) -> (metrics: RunMetrics)
    ensures
        metrics == metrics_model(samples@),
{
    let disk_read = mean(samples, Reading::DiskRead);
    let disk_write = mean(samples, Reading::DiskWrite);
    let net_rx = mean(samples, Reading::NetRx);
    let net_tx = mean(samples, Reading::NetTx);
    RunMetrics {
        cpu_utilization_micro_pct: mean(samples, Reading::CpuUtilization),
        memory_usage_micro_pct: mean(samples, Reading::MemoryPercent),
        gpu_utilization_micro_pct: 0,
        disk_activity_micro_pct: activity(disk_read, disk_write, DISK_CEILING_PER_SEC),
        network_activity_micro_pct: activity(net_rx, net_tx, NETWORK_CEILING_PER_SEC),
    }
}

/// What a session with the given samples used in `duration_ms`.
pub fn summarize_resources(samples: &Vec<ResourceSample>, duration_ms: i64) -> (resources:
    RunResources)
    ensures
        resources == resources_model(samples@, duration_ms),
{
    let cpu = mean(samples, Reading::CpuUtilization);
    RunResources {
        wall_time_ms: duration_ms,
        cpu_utilization_micro_pct: cpu,
        cpu_time_user_ms: scale(cpu, USER_TENTHS, duration_ms, CPU_TIME_DIVISOR),
        cpu_time_system_ms: scale(cpu, SYSTEM_TENTHS, duration_ms, CPU_TIME_DIVISOR),
        memory_peak_mb: peak_memory(samples),
        memory_avg_micro_pct: mean(samples, Reading::MemoryPercent),
        disk_read_micro_mb: scale(
            mean(samples, Reading::DiskRead),
            MICROS_PER_MILLI,
            duration_ms,
            BYTES_PER_MB,
        ),
        disk_write_micro_mb: scale(
            mean(samples, Reading::DiskWrite),
            MICROS_PER_MILLI,
            duration_ms,
            BYTES_PER_MB,
        ),
        net_recv_micro_mb: scale(
            mean(samples, Reading::NetRx),
            MICROS_PER_MILLI,
            duration_ms,
            BYTES_PER_MB,
        ),
        net_sent_micro_mb: scale(
            mean(samples, Reading::NetTx),
            MICROS_PER_MILLI,
            duration_ms,
            BYTES_PER_MB,
        ),
        gpu_utilization_micro_pct: 0,
    }
}

/// The record of `session`, stopped `duration_ms` after its start under
/// `settings`.
///
/// Never fails: a session without samples has zero for every mean, and a
/// region or hardware profile that the reference tables do not know has
/// their fallback.
pub fn aggregate(session: ProfilingSession, duration_ms: i64, settings: &AppSettings) -> (run:
    RunResult)
    ensures
        run@ == run_model(session@, duration_ms, settings@),
{
    let metrics = summarize_metrics(&session.samples);
    let resources = summarize_resources(&session.samples, duration_ms);
    let energy = calculate_energy(&metrics, duration_ms, settings.hardware_profile.as_str());
    let carbon = calculate_carbon(energy.total_micro_wh, settings.region.as_str(), settings.pue_micros);
    RunResult {
        id: session.id,
        project: session.project,
        command: session.command,
        branch: session.branch,
        commit: session.commit,
        timestamp: session.start_timestamp,
        resources,
        metrics,
        carbon,
        energy,
        sample_count: session.samples.len(),
        duration_ms,
    }
}

/// Shares stay shares: where no sample reads a CPU or memory share beyond
/// full load, no metric of the run is beyond it; disk and network activity
/// never are.
pub proof fn law_metrics_within_full_scale(samples: Seq<ResourceSample>)
    requires
        forall|i: int|
            0 <= i < samples.len() ==> (#[trigger] samples[i]).cpu_utilization_micro_pct
                <= FULL_SCALE && samples[i].memory_micro_pct <= FULL_SCALE,
    ensures
        ({
            let metrics = metrics_model(samples);
            &&& metrics.cpu_utilization_micro_pct <= FULL_SCALE
            &&& metrics.memory_usage_micro_pct <= FULL_SCALE
            &&& metrics.gpu_utilization_micro_pct <= FULL_SCALE
            &&& metrics.disk_activity_micro_pct <= FULL_SCALE
            &&& metrics.network_activity_micro_pct <= FULL_SCALE
        }),
{
    law_mean_within(samples, Reading::CpuUtilization, FULL_SCALE as int);
    law_mean_within(samples, Reading::MemoryPercent, FULL_SCALE as int);
    lemma_mean_bounds(samples, Reading::DiskRead);
    lemma_mean_bounds(samples, Reading::DiskWrite);
    lemma_mean_bounds(samples, Reading::NetRx);
    lemma_mean_bounds(samples, Reading::NetTx);
}

/// A session that is stopped before it has taken a sample has a record of
/// zeros: no samples, every mean and every share zero, nothing transferred,
/// no energy and no carbon, whatever the duration and the settings.
pub proof fn law_no_samples_all_zero(session: SessionView, duration_ms: i64, settings: SettingsView)
    requires
        session.samples.len() == 0,
    ensures
        ({
            let run = run_model(session, duration_ms, settings);
            &&& run.sample_count == 0
            &&& run.metrics == (RunMetrics {
                cpu_utilization_micro_pct: 0,
                memory_usage_micro_pct: 0,
                gpu_utilization_micro_pct: 0,
                disk_activity_micro_pct: 0,
                network_activity_micro_pct: 0,
            })
            &&& run.resources == (RunResources {
                wall_time_ms: duration_ms,
                cpu_utilization_micro_pct: 0,
                cpu_time_user_ms: 0,
                cpu_time_system_ms: 0,
                memory_peak_mb: 0,
                memory_avg_micro_pct: 0,
                disk_read_micro_mb: 0,
                disk_write_micro_mb: 0,
                net_recv_micro_mb: 0,
                net_sent_micro_mb: 0,
                gpu_utilization_micro_pct: 0,
            })
            &&& run.energy == (EnergyResult {
                total_micro_wh: 0,
                cpu_micro_wh: 0,
                gpu_micro_wh: 0,
                memory_micro_wh: 0,
                disk_micro_wh: 0,
                network_micro_wh: 0,
            })
            &&& run.carbon.total_micro_g == 0
        }),
{
    // every product of the model has a factor that is zero
    assert forall|a: int, b: int| #[trigger] (a * 0 * b) == 0 by {
        assert(a * 0 * b == 0) by (nonlinear_arith);
    }
    assert forall|a: int, b: int| #[trigger] (0 * a * b) == 0 by {
        assert(0 * a * b == 0) by (nonlinear_arith);
    }
    assert forall|a: int, b: int| #[trigger] (a * b * 0) == 0 by {
        assert(a * b * 0 == 0) by (nonlinear_arith);
    }
}

} // verus!
