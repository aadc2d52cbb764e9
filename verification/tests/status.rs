use std::time::{Duration, UNIX_EPOCH};
use shinning_trapezohedron::config::model::test_config;
use shinning_trapezohedron::status::linux::{
    next_snapshot, timestamp_at, timestamp_from_millis, unix_timestamp_ms, Collector,
};
use shinning_trapezohedron::status::model::{
    DeviceStatus, LoadAvg, MeminfoReading, MemoryStatus, SystemStatus,
};

fn reading(total: u64, free: u64, available: Option<u64>, buffers: u64, cached: u64) -> MeminfoReading {
    MeminfoReading { mem_total: total, mem_free: free, mem_available: available, buffers, cached }
}

fn sample_system() -> SystemStatus {
    SystemStatus::from_readings(
        60,
        LoadAvg { one_minute: 52, five_minutes: 58, fifteen_minutes: 59 },
        &reading(1000, 100, Some(400), 50, 150),
    )
}

#[test]
fn memory_uses_mem_available_when_present() {
    let memory = MemoryStatus::from_meminfo(&reading(1000, 100, Some(400), 50, 150));
    assert_eq!(
        memory,
        MemoryStatus { total_bytes: 1000, available_bytes: 400, used_bytes: 600 }
    );
}

#[test]
fn memory_falls_back_to_free_buffers_and_cache() {
    let memory = MemoryStatus::from_meminfo(&reading(1000, 100, None, 50, 150));
    assert_eq!(
        memory,
        MemoryStatus { total_bytes: 1000, available_bytes: 300, used_bytes: 700 }
    );
}

#[test]
fn available_memory_never_exceeds_total() {
    let memory = MemoryStatus::from_meminfo(&reading(1000, 900, None, 200, 300));
    assert_eq!(memory.available_bytes, 1000);
    assert_eq!(memory.used_bytes, 0);
    let memory = MemoryStatus::from_meminfo(&reading(1000, 0, Some(5000), 0, 0));
    assert_eq!(memory.available_bytes, 1000);
    let memory = MemoryStatus::from_meminfo(&reading(u64::MAX, u64::MAX, None, u64::MAX, 1));
    assert_eq!(memory.available_bytes, u64::MAX);
    assert_eq!(memory.used_bytes + memory.available_bytes, memory.total_bytes);
}

#[test]
fn system_status_is_assembled_from_readings() {
    let system = sample_system();
    assert_eq!(system.uptime_secs, 60);
    assert_eq!(system.load_avg.one_minute, 52);
    assert_eq!(system.memory.used_bytes, 600);
}

#[test]
fn default_status_has_no_sample() {
    let status = DeviceStatus::default();
    assert_eq!(status.revision, 0);
    assert_eq!(status.collected_at_unix_ms, None);
    assert_eq!(status.system, None);
}

#[test]
fn successful_sample_publishes_next_revision() {
    let previous = DeviceStatus::default();
    let next = next_snapshot(&previous, Ok(sample_system()), Some(42)).unwrap();
    assert_eq!(next.revision, 1);
    assert_eq!(next.collected_at_unix_ms, Some(42));
    assert_eq!(next.system, Some(sample_system()));
    let after = next_snapshot(&next, Ok(sample_system()), None).unwrap();
    assert_eq!(after.revision, 2);
    assert_eq!(after.collected_at_unix_ms, None);
}

#[test]
fn failed_sample_keeps_previous_snapshot() {
    let previous = DeviceStatus { revision: 7, collected_at_unix_ms: Some(1234), system: None };
    assert_eq!(next_snapshot(&previous, Err("no /proc".to_owned()), Some(99)), None);
}

#[test]
fn revision_saturates_at_maximum() {
    let previous = DeviceStatus { revision: u64::MAX, collected_at_unix_ms: None, system: None };
    assert_eq!(previous.successor(Some(1), sample_system()).revision, u64::MAX);
}

#[test]
fn collector_starts_with_configured_interval() {
    let collector = Collector::new(&test_config(60));
    assert_eq!(collector.sample_interval_seconds(), 60);
    assert!(collector.listens_for_config());
}

#[test]
fn collector_restarts_timer_only_when_interval_changes() {
    let mut collector = Collector::new(&test_config(60));
    assert_eq!(collector.on_config_changed(Some(&test_config(60))), None);
    assert_eq!(collector.on_config_changed(Some(&test_config(1))), Some(1));
    assert_eq!(collector.sample_interval_seconds(), 1);
    assert_eq!(collector.on_config_changed(Some(&test_config(1))), None);
}

#[test]
fn collector_keeps_interval_after_config_channel_closes() {
    let mut collector = Collector::new(&test_config(60));
    assert_eq!(collector.on_config_changed(None), None);
    assert!(!collector.listens_for_config());
    assert_eq!(collector.sample_interval_seconds(), 60);
}

#[test]
fn timestamps_must_fit_in_u64() {
    assert_eq!(timestamp_from_millis(Some(1234)), Some(1234));
    assert_eq!(timestamp_from_millis(Some(u64::MAX as u128)), Some(u64::MAX));
    assert_eq!(timestamp_from_millis(Some(u64::MAX as u128 + 1)), None);
    assert_eq!(timestamp_from_millis(None), None);
}

#[test]
fn current_unix_time_is_after_2020() {
    let now = unix_timestamp_ms().unwrap();
    assert!(now > 1_577_836_800_000);
}

#[test]
fn timestamp_of_a_time_counts_whole_milliseconds() {
    assert_eq!(timestamp_at(&UNIX_EPOCH), Some(0));
    assert_eq!(timestamp_at(&(UNIX_EPOCH + Duration::from_millis(1234))), Some(1234));
    assert_eq!(timestamp_at(&(UNIX_EPOCH + Duration::from_micros(1999))), Some(1));
    assert_eq!(timestamp_at(&(UNIX_EPOCH + Duration::from_secs(60))), Some(60_000));
    assert_eq!(timestamp_at(&(UNIX_EPOCH - Duration::from_secs(1))), None);
}

#[test]
fn revisions_count_successful_samples() {
    let mut current = DeviceStatus { revision: 5, collected_at_unix_ms: None, system: None };
    let readings = [Ok(sample_system()), Err("no /proc".to_owned()), Ok(sample_system())];
    for reading in readings {
        if let Some(next) = next_snapshot(&current, reading, Some(7)) {
            assert!(next.system.is_some());
            assert!(next.revision > current.revision);
            current = next;
        }
    }
    assert_eq!(current.revision, 7);
    assert!(current.system.is_some());
}
