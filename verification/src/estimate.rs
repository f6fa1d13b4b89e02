//! The energy and carbon models.
//!
//! Energy is power times utilisation times time, per subsystem; carbon is
//! energy times the facility's overhead times the region's intensity.

use crate::reference::{
    carbon_intensity_of, get_carbon_intensity_map, get_hardware_profiles_map,
    hardware_profile_of, intensity_views, lookup_intensity, lookup_profile, profile_views,
    FALLBACK_CPU_TDP_MICRO_W, FALLBACK_MEMORY_MICRO_W_PER_GB, FALLBACK_MICRO_G_PER_KWH,
};
use crate::units::{clamp_i64, scale, toward_zero};
use vstd::prelude::*;

verus! {

/// Power of the GPU at full load, in microwatts. No GPU is measured, so none
/// is charged.
pub const GPU_TDP_MICRO_W: u64 = 0;

/// Power of the disks at full activity, in microwatts: 5 W.
pub const DISK_MICRO_W: u64 = 5_000_000;

/// Power of the network interfaces at full activity, in microwatts: 2 W.
pub const NETWORK_MICRO_W: u64 = 2_000_000;

/// Gigabytes of memory that a host is taken to have.
pub const MEMORY_BASELINE_GB: u64 = 16;

/// Microwatts times millionths of a percent times milliseconds, over
/// microwatt-hours: 10^8 for the percentage and 3.6 * 10^6 for the hour.
pub const ENERGY_DIVISOR: u64 = 360_000_000_000_000;

/// [`ENERGY_DIVISOR`] over [`MEMORY_BASELINE_GB`].
pub const ENERGY_DIVISOR_PER_GB: u64 = 22_500_000_000_000;

/// Microwatt-hours times millionths times micrograms per kWh, over
/// micrograms: 10^9 for the kWh and 10^6 for the millionths.
pub const CARBON_DIVISOR: u64 = 1_000_000_000_000_000;

/// Utilisation of a run, each as a share of full load.
#[derive(Clone, Copy, Debug, PartialEq, Eq)]
pub struct RunMetrics {
    pub cpu_utilization_micro_pct: u64,
    pub memory_usage_micro_pct: u64,
    pub gpu_utilization_micro_pct: u64,
    pub disk_activity_micro_pct: u64,
    pub network_activity_micro_pct: u64,
}

/// Energy of a run, in all and by subsystem.
#[derive(Clone, Copy, Debug, PartialEq, Eq)]
pub struct EnergyResult {
    pub total_micro_wh: i64,
    pub cpu_micro_wh: i64,
    pub gpu_micro_wh: i64,
    pub memory_micro_wh: i64,
    pub disk_micro_wh: i64,
    pub network_micro_wh: i64,
}

/// Carbon of a run, with the factors it was computed from.
#[derive(Clone, Debug, PartialEq, Eq)]
pub struct CarbonResult {
    pub total_micro_g: i64,
    /// The region's display name, or the code where the table has no such
    /// region.
    pub region: String,
    pub intensity_micro_g_per_kwh: u64,
    pub pue_micros: u64,
}

/// What a [`CarbonResult`] holds.
pub struct CarbonView {
    pub total_micro_g: i64,
    pub region: Seq<char>,
    pub intensity_micro_g_per_kwh: u64,
    pub pue_micros: u64,
}

impl View for CarbonResult {
    type V = CarbonView;

    open spec fn view(&self) -> CarbonView {
        CarbonView {
            total_micro_g: self.total_micro_g,
            region: self.region@,
            intensity_micro_g_per_kwh: self.intensity_micro_g_per_kwh,
            pue_micros: self.pue_micros,
        }
    }
}

/// The power draw that energy is computed from.
#[derive(Clone, Copy, Debug, PartialEq, Eq)]
pub struct PowerDraw {
    pub cpu_tdp_micro_w: u64,
    pub memory_micro_w_per_gb: u64,
}

/// The power draw of the hardware profile `code`; that of a low-power laptop
/// where the table has no such profile.
pub open spec fn power_draw_of(code: Seq<char>) -> PowerDraw {
    match hardware_profile_of(code) {
        Some(profile) => PowerDraw {
            cpu_tdp_micro_w: profile.cpu_tdp_micro_w,
            memory_micro_w_per_gb: profile.memory_micro_w_per_gb,
        },
        None => PowerDraw {
            cpu_tdp_micro_w: FALLBACK_CPU_TDP_MICRO_W,
            memory_micro_w_per_gb: FALLBACK_MEMORY_MICRO_W_PER_GB,
        },
    }
}

/// Energy in microwatt-hours of a subsystem that draws `power_micro_w` at
/// full load and ran at `utilization_micro_pct` for `duration_ms`.
///
/// In the units of the formula: watts times the utilised share times hours,
/// over a thousand, in kWh.
pub open spec fn subsystem_energy(
    power_micro_w: int,
    utilization_micro_pct: int,
    duration_ms: int,
) -> i64 {
    clamp_i64(
        toward_zero(power_micro_w * utilization_micro_pct * duration_ms, ENERGY_DIVISOR as int),
    )
}

/// The energy of a run with the given utilisation, duration and power draw.
pub open spec fn energy_model(metrics: RunMetrics, duration_ms: i64, draw: PowerDraw) -> EnergyResult {
    let cpu = subsystem_energy(
        draw.cpu_tdp_micro_w as int,
        metrics.cpu_utilization_micro_pct as int,
        duration_ms as int,
    );
    let gpu = if metrics.gpu_utilization_micro_pct > 0 {
        subsystem_energy(
            GPU_TDP_MICRO_W as int,
            metrics.gpu_utilization_micro_pct as int,
            duration_ms as int,
        )
    } else {
        0
    };
    let memory = subsystem_energy(
        draw.memory_micro_w_per_gb * MEMORY_BASELINE_GB,
        metrics.memory_usage_micro_pct as int,
        duration_ms as int,
    );
    let disk = subsystem_energy(
        DISK_MICRO_W as int,
        metrics.disk_activity_micro_pct as int,
        duration_ms as int,
    );
    let network = subsystem_energy(
        NETWORK_MICRO_W as int,
        metrics.network_activity_micro_pct as int,
        duration_ms as int,
    );
    EnergyResult {
        total_micro_wh: clamp_i64(cpu + gpu + memory + disk + network),
        cpu_micro_wh: cpu,
        gpu_micro_wh: gpu,
        memory_micro_wh: memory,
        disk_micro_wh: disk,
        network_micro_wh: network,
    }
}

/// The carbon of `energy_micro_wh` in the region `region` at the given PUE.
///
/// In the units of the formula: kWh times PUE times grams per kWh.
pub open spec fn carbon_model(energy_micro_wh: i64, region: Seq<char>, pue_micros: u64) -> CarbonView {
    let (name, intensity) = match carbon_intensity_of(region) {
        Some(entry) => (entry.region, entry.micro_g_per_kwh),
        None => (region, FALLBACK_MICRO_G_PER_KWH),
    };
    CarbonView {
        total_micro_g: clamp_i64(
            toward_zero(pue_micros * intensity * energy_micro_wh, CARBON_DIVISOR as int),
        ),
        region: name,
        intensity_micro_g_per_kwh: intensity,
        pue_micros,
    }
}

/// Rounding toward zero does not see a factor that dividend and divisor
/// share.
proof fn lemma_common_factor(num: int, den: int, factor: int)
    requires
        den > 0,
        factor > 0,
    ensures
        toward_zero(factor * num, factor * den) == toward_zero(num, den),
{
    if num >= 0 {
        vstd::arithmetic::div_mod::lemma_div_multiples_vanish_quotient(factor, num, den);
    } else {
        vstd::arithmetic::div_mod::lemma_div_multiples_vanish_quotient(factor, -num, den);
        assert(-(factor * num) == factor * (-num)) by (nonlinear_arith);
    }
}

/// The sum of five values of `i64`, held to the range of `i64`.
fn clamped_sum(a: i64, b: i64, c: i64, d: i64, e: i64) -> (sum: i64)
    ensures
        sum == clamp_i64(a + b + c + d + e),
{
    let wide: i128 = a as i128 + b as i128 + c as i128 + d as i128 + e as i128;
    if wide > i64::MAX as i128 {
        i64::MAX
    } else if wide < i64::MIN as i128 {
        i64::MIN
    } else {
        wide as i64
    }
}

/// The energy of a run with the given utilisation and duration on the
/// hardware profile `hw_profile`.
pub fn calculate_energy(metrics: &RunMetrics, duration_ms: i64, hw_profile: &str) -> (energy:
    EnergyResult)
    ensures
        energy == energy_model(*metrics, duration_ms, power_draw_of(hw_profile@)),
{
    let profiles = get_hardware_profiles_map();
    let draw = match lookup_profile(&profiles, hw_profile) {
        Some(profile) => PowerDraw {
            cpu_tdp_micro_w: profile.cpu_tdp_micro_w,
            memory_micro_w_per_gb: profile.memory_micro_w_per_gb,
        },
        None => PowerDraw {
            cpu_tdp_micro_w: FALLBACK_CPU_TDP_MICRO_W,
            memory_micro_w_per_gb: FALLBACK_MEMORY_MICRO_W_PER_GB,
        },
    };
    let cpu = scale(
        draw.cpu_tdp_micro_w,
        metrics.cpu_utilization_micro_pct,
        duration_ms,
        ENERGY_DIVISOR,
    );
    let gpu = if metrics.gpu_utilization_micro_pct > 0 {
        scale(GPU_TDP_MICRO_W, metrics.gpu_utilization_micro_pct, duration_ms, ENERGY_DIVISOR)
    } else {
        0
    };
    let memory = scale(
        draw.memory_micro_w_per_gb,
        metrics.memory_usage_micro_pct,
        duration_ms,
        ENERGY_DIVISOR_PER_GB,
    );
    proof {
        let num = draw.memory_micro_w_per_gb * metrics.memory_usage_micro_pct * duration_ms;
        lemma_common_factor(num, ENERGY_DIVISOR_PER_GB as int, MEMORY_BASELINE_GB as int);
        assert(MEMORY_BASELINE_GB * num == (draw.memory_micro_w_per_gb * MEMORY_BASELINE_GB)
            * metrics.memory_usage_micro_pct * duration_ms) by (nonlinear_arith)
            requires
                num == draw.memory_micro_w_per_gb * metrics.memory_usage_micro_pct * duration_ms,
        ;
    }
    let disk = scale(DISK_MICRO_W, metrics.disk_activity_micro_pct, duration_ms, ENERGY_DIVISOR);
    let network = scale(
        NETWORK_MICRO_W,
        metrics.network_activity_micro_pct,
        duration_ms,
        ENERGY_DIVISOR,
    );
    EnergyResult {
        total_micro_wh: clamped_sum(cpu, gpu, memory, disk, network),
        cpu_micro_wh: cpu,
        gpu_micro_wh: gpu,
        memory_micro_wh: memory,
        disk_micro_wh: disk,
        network_micro_wh: network,
    }
}

/// The carbon of `energy_micro_wh` in the region `region` at the given PUE.
pub fn calculate_carbon(energy_micro_wh: i64, region: &str, pue_micros: u64) -> (carbon:
    CarbonResult)
    ensures
        carbon@ == carbon_model(energy_micro_wh, region@, pue_micros),
{
    let table = get_carbon_intensity_map();
    let (name, intensity) = match lookup_intensity(&table, region) {
        Some(entry) => (entry.region.clone(), entry.micro_g_per_kwh),
        None => (region.to_owned(), FALLBACK_MICRO_G_PER_KWH),
    };
    CarbonResult {
        total_micro_g: scale(pue_micros, intensity, energy_micro_wh, CARBON_DIVISOR),
        region: name,
        intensity_micro_g_per_kwh: intensity,
        pue_micros,
    }
}

} // verus!
