//! Resource samples and their summaries.

use vstd::prelude::*;

verus! {

/// One reading of the host, taken while a session is active.
#[derive(Clone, Copy, Debug, PartialEq, Eq)]
pub struct ResourceSample {
    /// When the reading was taken, in milliseconds since the Unix epoch.
    pub timestamp_ms: i64,
    pub cpu_utilization_micro_pct: u64,
    /// Memory in use, in whole mebibytes.
    pub memory_used_mb: u64,
    pub memory_micro_pct: u64,
    pub disk_read_per_sec: u64,
    pub disk_write_per_sec: u64,
    pub net_rx_per_sec: u64,
    pub net_tx_per_sec: u64,
}

/// The readings of a sample that a session averages.
#[derive(Clone, Copy, Debug, PartialEq, Eq)]
pub enum Reading {
    CpuUtilization,
    MemoryPercent,
    DiskRead,
    DiskWrite,
    NetRx,
    NetTx,
}

impl ResourceSample {
    /// The reading `which` of this sample.
    pub open spec fn reading(self, which: Reading) -> u64 {
        match which {
            Reading::CpuUtilization => self.cpu_utilization_micro_pct,
            Reading::MemoryPercent => self.memory_micro_pct,
            Reading::DiskRead => self.disk_read_per_sec,
            Reading::DiskWrite => self.disk_write_per_sec,
            Reading::NetRx => self.net_rx_per_sec,
            Reading::NetTx => self.net_tx_per_sec,
        }
    }

    /// The reading `which` of this sample.
    pub fn get(&self, which: Reading) -> (r: u64)
        ensures
            r == self.reading(which),
    {
        match which {
            Reading::CpuUtilization => self.cpu_utilization_micro_pct,
            Reading::MemoryPercent => self.memory_micro_pct,
            Reading::DiskRead => self.disk_read_per_sec,
            Reading::DiskWrite => self.disk_write_per_sec,
            Reading::NetRx => self.net_rx_per_sec,
            Reading::NetTx => self.net_tx_per_sec,
        }
    }
}

/// The sum of one reading over `samples`.
pub open spec fn sum_of(samples: Seq<ResourceSample>, which: Reading) -> int
    decreases samples.len(),
{
    if samples.len() == 0 {
        0
    } else {
        sum_of(samples.drop_last(), which) + samples.last().reading(which)
    }
}

/// The arithmetic mean of one reading over `samples`, rounded down; zero
/// where there is no sample.
pub open spec fn mean_of(samples: Seq<ResourceSample>, which: Reading) -> int {
    if samples.len() == 0 {
        0
    } else {
        sum_of(samples, which) / (samples.len() as int)
    }
}

/// The largest `memory_used_mb` among `samples`; zero where there is no
/// sample.
pub open spec fn peak_memory_of(samples: Seq<ResourceSample>) -> u64
    decreases samples.len(),
{
    if samples.len() == 0 {
        0
    } else {
        let before = peak_memory_of(samples.drop_last());
        if samples.last().memory_used_mb > before {
            samples.last().memory_used_mb
        } else {
            before
        }
    }
}

/// A sum of `n` readings is at most `n` times the largest reading there is.
proof fn lemma_sum_bounds(samples: Seq<ResourceSample>, which: Reading)
    ensures
        0 <= sum_of(samples, which) <= samples.len() * u64::MAX,
    decreases samples.len(),
{
    if samples.len() > 0 {
        lemma_sum_bounds(samples.drop_last(), which);
    }
}

/// A mean of readings is itself in the range of a reading.
pub(crate) proof fn lemma_mean_bounds(samples: Seq<ResourceSample>, which: Reading)
    ensures
        0 <= mean_of(samples, which) <= u64::MAX,
{
    if samples.len() > 0 {
        lemma_sum_bounds(samples, which);
        let n = samples.len() as int;
        let s = sum_of(samples, which);
        assert(0 <= s / n <= u64::MAX) by (nonlinear_arith)
            requires
                n > 0,
                0 <= s <= n * u64::MAX,
        ;
    }
}

/// A mean is no more than what no reading exceeds.
pub proof fn law_mean_within(samples: Seq<ResourceSample>, which: Reading, bound: int)
    requires
        bound >= 0,
        forall|i: int| 0 <= i < samples.len() ==> (#[trigger] samples[i]).reading(which) <= bound,
    ensures
        0 <= mean_of(samples, which) <= bound,
{
    lemma_sum_within(samples, which, bound);
    if samples.len() > 0 {
        let n = samples.len() as int;
        let s = sum_of(samples, which);
        assert(0 <= s / n <= bound) by (nonlinear_arith)
            requires
                n > 0,
                0 <= s <= n * bound,
        ;
    }
}

proof fn lemma_sum_within(samples: Seq<ResourceSample>, which: Reading, bound: int)
    requires
        forall|i: int| 0 <= i < samples.len() ==> (#[trigger] samples[i]).reading(which) <= bound,
    ensures
        0 <= sum_of(samples, which) <= samples.len() * bound,
    decreases samples.len(),
{
    if samples.len() > 0 {
        lemma_sum_within(samples.drop_last(), which, bound);
        assert((samples.len() - 1) * bound + bound == samples.len() * bound) by (nonlinear_arith);
    }
}

/// The peak is zero for no sample, else the reading of some sample, and no
/// sample reads more.
pub proof fn law_peak_is_maximum(samples: Seq<ResourceSample>)
    ensures
        forall|i: int| 0 <= i < samples.len() ==> samples[i].memory_used_mb <= peak_memory_of(samples),
        samples.len() == 0 ==> peak_memory_of(samples) == 0,
        samples.len() > 0 ==> exists|i: int|
            0 <= i < samples.len() && samples[i].memory_used_mb == peak_memory_of(samples),
    decreases samples.len(),
{
    if samples.len() > 0 {
        let front = samples.drop_last();
        law_peak_is_maximum(front);
        assert forall|i: int| 0 <= i < samples.len() implies samples[i].memory_used_mb
            <= peak_memory_of(samples) by {
            if i < front.len() {
                assert(front[i] == samples[i]);
            }
        }
        if samples.last().memory_used_mb > peak_memory_of(front) || front.len() == 0 {
            assert(samples[samples.len() - 1].memory_used_mb == peak_memory_of(samples));
        } else {
            let j = choose|j: int|
                0 <= j < front.len() && front[j].memory_used_mb == peak_memory_of(front);
            assert(samples[j].memory_used_mb == peak_memory_of(samples));
        }
    }
}

/// The mean of one reading over `samples`.
pub fn mean(samples: &Vec<ResourceSample>, which: Reading) -> (m: u64)
    ensures
        m == mean_of(samples@, which),
{
    let n = samples.len();
    if n == 0 {
        return 0;
    }
    let mut total: u128 = 0;
    let mut i: usize = 0;
    while i < n
        invariant
            n == samples.len(),
            i <= n,
            total == sum_of(samples@.take(i as int), which),
        decreases n - i,
    {
        proof {
            let next = samples@.take(i + 1);
            assert(next.drop_last() =~= samples@.take(i as int));
            lemma_sum_bounds(next, which);
        }
        total = total + samples[i].get(which) as u128;
        i += 1;
    }
    proof {
        assert(samples@.take(n as int) =~= samples@);
        lemma_mean_bounds(samples@, which);
    }
    (total / (n as u128)) as u64
}

/// The largest `memory_used_mb` among `samples`.
pub fn peak_memory(samples: &Vec<ResourceSample>) -> (peak: u64)
    ensures
        peak == peak_memory_of(samples@),
{
    let mut peak: u64 = 0;
    let mut i: usize = 0;
    while i < samples.len()
        invariant
            i <= samples.len(),
            peak == peak_memory_of(samples@.take(i as int)),
        decreases samples.len() - i,
    {
        proof {
            let next = samples@.take(i + 1);
            assert(next.drop_last() =~= samples@.take(i as int));
        }
        if samples[i].memory_used_mb > peak {
            peak = samples[i].memory_used_mb;
        }
        i += 1;
    }
    proof {
        assert(samples@.take(samples.len() as int) =~= samples@);
    }
    peak
}

} // verus!
