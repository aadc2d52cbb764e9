//! The periodic sampler of Linux `/proc`, as a state machine.
//!
//! The runtime owns the timer and the reads of `/proc`; the `Collector`
//! decides what each event leads to: a new snapshot to publish after a
//! successful sample, the previous snapshot kept after a failed one, and a
//! restarted timer when the configured sampling period changes.

use std::time::{Duration, SystemTime, UNIX_EPOCH};

use crate::config::model::{duration_of_secs, AppConfig};
use crate::status::model::{DeviceStatus, LoadAvg, MeminfoReading, MemoryStatus, SystemStatus};
use vstd::prelude::*;

verus! {

#[verifier::external_type_specification]
#[verifier::external_body]
pub struct ExSystemTime(SystemTime);

/// Calls `std::time::SystemTime::now`. Nothing is claimed of the clock reading.
#[verifier::external_body]
fn system_time_now() -> SystemTime {
    SystemTime::now()
}

/// What `SystemTime::duration_since(UNIX_EPOCH)` gives for a time, its
/// error (a time before the epoch) taken as `None`.
pub uninterp spec fn elapsed_since_epoch(time: SystemTime) -> Option<Duration>;

/// What `Duration::as_millis` returns: the whole milliseconds in a duration.
pub uninterp spec fn whole_millis(duration: Duration) -> u128;

/// Calls `SystemTime::duration_since` with `UNIX_EPOCH`, turning its error (a
/// time before the epoch) into `None`. The result is named by `elapsed_since_epoch`.
#[verifier::external_body]
fn since_unix_epoch(time: &SystemTime) -> (r: Option<Duration>)
    ensures
        r == elapsed_since_epoch(*time),
{
    time.duration_since(UNIX_EPOCH).ok()
}

/// Calls `Duration::as_millis`, which std documents as the total number of
/// whole milliseconds in the duration: for a duration of whole seconds, made by
/// `Duration::from_secs`, that is a thousand per second.
#[verifier::external_body]
fn duration_millis(duration: &Duration) -> (r: u128)
    ensures
        r == whole_millis(*duration),
        forall|secs: u64| *duration == #[trigger] duration_of_secs(secs) ==> r == secs * 1000,
{
    duration.as_millis()
}

/// The whole milliseconds from the Unix epoch to `time`, or `None` for a time
/// before the epoch.
pub open spec fn millis_since_epoch(time: SystemTime) -> Option<u128> {
    match elapsed_since_epoch(time) {
        Some(elapsed) => Some(whole_millis(elapsed)),
        None => None,
    }
}

/// A count of milliseconds as a `u64` timestamp, or `None` when it does not fit.
pub open spec fn timestamp_of_millis(millis: Option<u128>) -> Option<u64> {
    match millis {
        Some(ms) => if ms <= u64::MAX {
            Some(ms as u64)
        } else {
            None
        },
        None => None,
    }
}

/// Turns the milliseconds elapsed since the Unix epoch, if the clock gave any,
/// into a timestamp.
pub fn timestamp_from_millis(millis: Option<u128>) -> (r: Option<u64>)
    ensures
        r == timestamp_of_millis(millis),
{
    match millis {
        Some(ms) => if ms <= u64::MAX as u128 {
            Some(ms as u64)
        } else {
            None
        },
        None => None,
    }
}

/// The Unix timestamp of `time` in milliseconds; `None` for a time before the
/// epoch or beyond what a `u64` holds.
pub fn timestamp_at(time: &SystemTime) -> (r: Option<u64>)
    ensures
        r == timestamp_of_millis(millis_since_epoch(*time)),
{
    let millis = match since_unix_epoch(time) {
        Some(elapsed) => Some(duration_millis(&elapsed)),
        None => None,
    };
    timestamp_from_millis(millis)
}

/// The current Unix time in milliseconds: the timestamp of the time that the
/// system clock reads. Which time it reads is not stated.
pub fn unix_timestamp_ms() -> (r: Option<u64>)
    ensures
        exists|time: SystemTime| r == timestamp_of_millis(#[trigger] millis_since_epoch(time)),
{
    let now = system_time_now();
    let r = timestamp_at(&now);
    assert(r == timestamp_of_millis(millis_since_epoch(now)));
    r
}

impl SystemStatus {
    /// Assembles the system status from the readings of `/proc/uptime`,
    /// `/proc/loadavg` and `/proc/meminfo`.
    pub fn from_readings(uptime_secs: u64, load_avg: LoadAvg, meminfo: &MeminfoReading) -> (r:
        SystemStatus)
        ensures
            r.uptime_secs == uptime_secs,
            r.load_avg == load_avg,
            r.memory == MemoryStatus::spec_from_meminfo(*meminfo),
    {
        SystemStatus { uptime_secs, load_avg, memory: MemoryStatus::from_meminfo(meminfo) }
    }
}

/// The snapshot to publish after a sample: the successor of `previous` when
/// `/proc` was read, `None` (keep the previous complete snapshot, never a
/// partial one) when reading failed.
pub open spec fn spec_next_snapshot(
    previous: DeviceStatus,
    reading: Result<SystemStatus, String>,
    collected_at_unix_ms: Option<u64>,
) -> Option<DeviceStatus> {
    match reading {
        Ok(system) => Some(
            DeviceStatus {
                revision: DeviceStatus::next_revision(previous.revision),
                collected_at_unix_ms,
                system: Some(system),
            },
        ),
        Err(_) => None,
    }
}

/// The snapshot that subscribers see after one finished sample: the new
/// snapshot when one is published, the previous one otherwise.
pub open spec fn after_sample(
    previous: DeviceStatus,
    sample: (Result<SystemStatus, String>, Option<u64>),
) -> DeviceStatus {
    match spec_next_snapshot(previous, sample.0, sample.1) {
        Some(next) => next,
        None => previous,
    }
}

/// The snapshot after a sequence of finished samples (each a `/proc` reading
/// and the clock's timestamp), the sampler being the only publisher.
pub open spec fn replay_samples(
    initial: DeviceStatus,
    samples: Seq<(Result<SystemStatus, String>, Option<u64>)>,
) -> DeviceStatus
    decreases samples.len(),
{
    if samples.len() == 0 {
        initial
    } else {
        after_sample(replay_samples(initial, samples.drop_last()), samples.last())
    }
}

/// The number of samples whose reading succeeded.
pub open spec fn successful_samples(samples: Seq<(Result<SystemStatus, String>, Option<u64>)>) -> nat
    decreases samples.len(),
{
    if samples.len() == 0 {
        0
    } else {
        successful_samples(samples.drop_last()) + if samples.last().0 is Ok {
            1nat
        } else {
            0nat
        }
    }
}

/// `revision + k`, stopping at `u64::MAX`.
pub open spec fn saturating_revision(revision: u64, k: nat) -> u64 {
    if revision + k < u64::MAX {
        (revision + k) as u64
    } else {
        u64::MAX
    }
}

/// Over any sequence of samples, the sampler being the only publisher: the
/// revision is the initial one raised by the number of successful samples,
/// stopping at `u64::MAX`; after a successful sample the snapshot holds a
/// system status; each published snapshot holds one and a higher revision
/// than the one before, until `u64::MAX`; failed samples change nothing.
pub proof fn lemma_revisions_count_samples(
    initial: DeviceStatus,
    samples: Seq<(Result<SystemStatus, String>, Option<u64>)>,
)
    ensures
        replay_samples(initial, samples).revision == saturating_revision(
            initial.revision,
            successful_samples(samples),
        ),
        successful_samples(samples) > 0 ==> replay_samples(initial, samples).system is Some,
        successful_samples(samples) == 0 ==> replay_samples(initial, samples) == initial,
        forall|previous: DeviceStatus, sample: (Result<SystemStatus, String>, Option<u64>)|
            #[trigger] spec_next_snapshot(previous, sample.0, sample.1) matches Some(next) ==> {
                &&& next.system is Some
                &&& previous.revision < u64::MAX ==> next.revision > previous.revision
                &&& previous.revision == u64::MAX ==> next.revision == u64::MAX
            },
    decreases samples.len(),
{
    if samples.len() > 0 {
        lemma_revisions_count_samples(initial, samples.drop_last());
    }
}

/// A successful sample publishes exactly what was just read, with the
/// timestamp just taken and the revision one above the previous one (staying at
/// `u64::MAX`), whatever the previous snapshot held; a failed sample publishes
/// nothing.
pub proof fn lemma_sample_publishes_fresh_reading(
    previous: DeviceStatus,
    reading: Result<SystemStatus, String>,
    collected_at_unix_ms: Option<u64>,
)
    ensures
        reading matches Ok(system) ==> spec_next_snapshot(
            previous,
            reading,
            collected_at_unix_ms,
        ) matches Some(next) && next.system == Some(system) && next.collected_at_unix_ms
            == collected_at_unix_ms && (previous.revision < u64::MAX ==> next.revision
            == previous.revision + 1) && (previous.revision == u64::MAX ==> next.revision
            == u64::MAX),
        reading is Err ==> spec_next_snapshot(previous, reading, collected_at_unix_ms) is None,
{
}

/// A clock reading in milliseconds becomes exactly that timestamp when it fits
/// in a `u64`, and no timestamp otherwise or when there is no reading.
pub proof fn lemma_timestamp_keeps_millis(millis: Option<u128>)
    ensures
        timestamp_of_millis(millis) is Some <==> (millis matches Some(ms) && ms <= u64::MAX),
        timestamp_of_millis(millis) matches Some(t) ==> millis == Some(t as u128),
{
}

/// Decides what a finished sample publishes; see `spec_next_snapshot`.
pub fn next_snapshot(
    previous: &DeviceStatus,
    reading: Result<SystemStatus, String>,
    collected_at_unix_ms: Option<u64>,
) -> (r: Option<DeviceStatus>)
    ensures
        r == spec_next_snapshot(*previous, reading, collected_at_unix_ms),
{
    match reading {
        Ok(system) => Some(previous.successor(collected_at_unix_ms, system)),
        Err(_) => None,
    }
}

/// The sampler's state: the sampling period in force, and whether the
/// configuration channel is still open.
pub struct Collector {
    sample_interval_seconds: u64,
    config_open: bool,
}

impl Collector {
    #[verifier::type_invariant]
    spec fn interval_is_positive(self) -> bool {
        self.sample_interval_seconds > 0
    }

    /// The sampling period in force, in seconds.
    pub closed spec fn spec_interval(self) -> u64 {
        self.sample_interval_seconds
    }

    /// Whether configuration changes are still being followed.
    pub closed spec fn spec_config_open(self) -> bool {
        self.config_open
    }

    /// Starts with the period of the current configuration, following its changes.
    pub fn new(config: &AppConfig) -> (r: Self)
        ensures
            r.spec_interval() == config.status.interval_seconds(),
            r.spec_config_open(),
    {
        Collector {
            sample_interval_seconds: config.status.sample_interval_seconds(),
            config_open: true,
        }
    }

    /// The sampling period in force; never zero.
    pub fn sample_interval_seconds(&self) -> (r: u64)
        ensures
            r == self.spec_interval(),
            r > 0,
    {
        proof {
            use_type_invariant(self);
        }
        self.sample_interval_seconds
    }

    /// Whether the runtime should still wait for configuration changes.
    pub fn listens_for_config(&self) -> (r: bool)
        ensures
            r == self.spec_config_open(),
    {
        self.config_open
    }

    /// Handles a change on the configuration channel: `Some(config)` is a new
    /// snapshot, `None` means the channel closed. Returns the new period, in
    /// seconds, when the timer must be restarted. A period that did not change
    /// keeps the running timer; after the channel closed, the last valid period
    /// stays in force and changes are no longer followed.
    pub fn on_config_changed(&mut self, next: Option<&AppConfig>) -> (restart: Option<u64>)
        ensures
            match next {
                Some(config) => {
                    &&& final(self).spec_interval() == config.status.interval_seconds()
                    &&& final(self).spec_config_open() == old(self).spec_config_open()
                    &&& if config.status.interval_seconds() != old(self).spec_interval() {
                        restart == Some(config.status.interval_seconds())
                    } else {
                        restart is None
                    }
                },
                None => {
                    &&& final(self).spec_interval() == old(self).spec_interval()
                    &&& !final(self).spec_config_open()
                    &&& restart is None
                },
            },
    {
        proof {
            use_type_invariant(&*self);
        }
        match next {
            Some(config) => {
                let next_interval = config.status.sample_interval_seconds();
                if next_interval != self.sample_interval_seconds {
                    self.sample_interval_seconds = next_interval;
                    Some(next_interval)
                } else {
                    None
                }
            },
            None => {
                self.config_open = false;
                None
            },
        }
    }
}

} // verus!
