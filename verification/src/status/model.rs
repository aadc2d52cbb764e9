//! Read-only snapshot model shared by the web service and the sampler.

use vstd::prelude::*;

verus! {

/// A device status snapshot.
#[derive(Clone, Debug, PartialEq, Eq)]
pub struct DeviceStatus {
    /// Raised by one after each successful sample, so readers can tell new snapshots.
    pub revision: u64,
    /// Unix time of the sample in milliseconds; `None` while the system clock is unusable.
    pub collected_at_unix_ms: Option<u64>,
    /// `None` until `/proc` was first read successfully.
    pub system: Option<SystemStatus>,
}

impl Default for DeviceStatus {
    fn default() -> (r: Self)
        ensures
            r.revision == 0,
            r.collected_at_unix_ms is None,
            r.system is None,
    {
        DeviceStatus { revision: 0, collected_at_unix_ms: None, system: None }
    }
}

/// Basic running state read from the Linux system interfaces.
#[derive(Clone, Copy, Debug, PartialEq, Eq, Structural)]
pub struct SystemStatus {
    pub uptime_secs: u64,
    pub load_avg: LoadAvg,
    pub memory: MemoryStatus,
}

/// System load averages, in hundredths: the kernel publishes them in
/// `/proc/loadavg` with exactly two decimals, so `52` stands for `0.52`.
#[derive(Clone, Copy, Debug, PartialEq, Eq, Structural)]
pub struct LoadAvg {
    pub one_minute: u32,
    pub five_minutes: u32,
    pub fifteen_minutes: u32,
}

/// Physical memory, all in bytes.
#[derive(Clone, Copy, Debug, PartialEq, Eq, Structural)]
pub struct MemoryStatus {
    pub total_bytes: u64,
    /// The kernel's estimate of memory available to new programs; not the same as free memory.
    pub available_bytes: u64,
    pub used_bytes: u64,
}

/// The fields of `/proc/meminfo` that the memory status is computed from, in bytes.
#[derive(Clone, Copy, Debug, PartialEq, Eq, Structural)]
pub struct MeminfoReading {
    pub mem_total: u64,
    pub mem_free: u64,
    /// `MemAvailable`, missing on old kernels.
    pub mem_available: Option<u64>,
    pub buffers: u64,
    pub cached: u64,
}

/// `a + b`, or `u64::MAX` when the sum does not fit.
pub open spec fn saturating_sum(a: u64, b: u64) -> u64 {
    if a + b > u64::MAX {
        u64::MAX
    } else {
        (a + b) as u64
    }
}

/// The available memory: `MemAvailable`, or where the kernel lacks it the
/// conservative estimate of free(1), free + buffers + cache; never above the total.
pub open spec fn available_memory(m: MeminfoReading) -> u64 {
    let estimate = match m.mem_available {
        Some(available) => available,
        None => saturating_sum(saturating_sum(m.mem_free, m.buffers), m.cached),
    };
    if estimate < m.mem_total {
        estimate
    } else {
        m.mem_total
    }
}

impl MemoryStatus {
    /// The memory status of a `/proc/meminfo` reading.
    pub open spec fn spec_from_meminfo(m: MeminfoReading) -> MemoryStatus {
        MemoryStatus {
            total_bytes: m.mem_total,
            available_bytes: available_memory(m),
            used_bytes: (m.mem_total - available_memory(m)) as u64,
        }
    }

    /// Computes the memory status from a `/proc/meminfo` reading.
    pub fn from_meminfo(m: &MeminfoReading) -> (r: MemoryStatus)
        ensures
            r.total_bytes == m.mem_total,
            r.available_bytes == available_memory(*m),
            r.used_bytes == m.mem_total - available_memory(*m),
            r == Self::spec_from_meminfo(*m),
    {
        let estimate = match m.mem_available {
            Some(available) => available,
            None => m.mem_free.saturating_add(m.buffers).saturating_add(m.cached),
        };
        let available = if estimate < m.mem_total {
            estimate
        } else {
            m.mem_total
        };
        MemoryStatus {
            total_bytes: m.mem_total,
            available_bytes: available,
            used_bytes: m.mem_total.saturating_sub(available),
        }
    }
}

/// The available memory never exceeds the total, and the used and the
/// available memory add up to the total.
pub proof fn lemma_memory_accounts(m: MeminfoReading)
    ensures
        available_memory(m) <= m.mem_total,
        MemoryStatus::spec_from_meminfo(m).available_bytes <= MemoryStatus::spec_from_meminfo(
            m,
        ).total_bytes,
        MemoryStatus::spec_from_meminfo(m).used_bytes + MemoryStatus::spec_from_meminfo(
            m,
        ).available_bytes == MemoryStatus::spec_from_meminfo(m).total_bytes,
{
}

/// Where the kernel reports `MemAvailable`, that figure is the available
/// memory (capped at the total), whatever the free, buffer and cache figures
/// are; where it does not, free + buffers + cached is, capped at the total.
/// The total is always `MemTotal`.
pub proof fn lemma_available_memory_source(m: MeminfoReading, other: MeminfoReading)
    ensures
        MemoryStatus::spec_from_meminfo(m).total_bytes == m.mem_total,
        m.mem_available matches Some(a) ==> MemoryStatus::spec_from_meminfo(m).available_bytes == (
        if a < m.mem_total {
            a
        } else {
            m.mem_total
        }),
        m.mem_available is None && m.mem_free + m.buffers + m.cached < m.mem_total
            ==> MemoryStatus::spec_from_meminfo(m).available_bytes == m.mem_free + m.buffers
            + m.cached,
        m.mem_available is None && m.mem_free + m.buffers + m.cached >= m.mem_total
            ==> MemoryStatus::spec_from_meminfo(m).available_bytes == m.mem_total,
        m.mem_available is Some && other.mem_available == m.mem_available && other.mem_total
            == m.mem_total ==> MemoryStatus::spec_from_meminfo(other) == MemoryStatus::spec_from_meminfo(
            m,
        ),
{
}

/// A snapshot's revision never goes back: each successful sample raises it by
/// one until it stays at `u64::MAX`.
pub proof fn lemma_revision_advances(revision: u64)
    ensures
        DeviceStatus::next_revision(revision) >= revision,
        revision < u64::MAX ==> DeviceStatus::next_revision(revision) == revision + 1,
        revision == u64::MAX ==> DeviceStatus::next_revision(revision) == revision,
{
}

impl DeviceStatus {
    /// The revision that follows `revision`: one more, stopping at `u64::MAX`.
    pub open spec fn next_revision(revision: u64) -> u64 {
        if revision < u64::MAX {
            (revision + 1) as u64
        } else {
            u64::MAX
        }
    }

    /// The snapshot published after a successful sample that follows `self`.
    pub fn successor(&self, collected_at_unix_ms: Option<u64>, system: SystemStatus) -> (r:
        DeviceStatus)
        ensures
            r.revision == Self::next_revision(self.revision),
            r.collected_at_unix_ms == collected_at_unix_ms,
            r.system == Some(system),
    {
        DeviceStatus {
            revision: self.revision.saturating_add(1),
            collected_at_unix_ms,
            system: Some(system),
        }
    }
}

} // verus!
