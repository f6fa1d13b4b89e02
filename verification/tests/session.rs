use carbonlint::aggregate::{activity, aggregate, summarize_metrics, RunResources};
use carbonlint::clock::Moment;
use carbonlint::estimate::{EnergyResult, RunMetrics};
use carbonlint::manager::{SessionError, SessionManager, Toggled};
use carbonlint::sample::{mean, peak_memory, Reading, ResourceSample};
use carbonlint::session::{ProfilingSession, StartProfilingOptions};
use carbonlint::settings::AppSettings;

// 2024-05-01T12:00:00Z
const NOON: i64 = 1_714_564_800;

fn at(seconds: i64, nanos: u32) -> Moment {
    Moment::new(seconds, nanos).unwrap()
}

fn sample(cpu: u64, used_mb: u64, memory: u64, rates: [u64; 4]) -> ResourceSample {
    ResourceSample {
        timestamp_ms: NOON * 1000,
        cpu_utilization_micro_pct: cpu,
        memory_used_mb: used_mb,
        memory_micro_pct: memory,
        disk_read_per_sec: rates[0],
        disk_write_per_sec: rates[1],
        net_rx_per_sec: rates[2],
        net_tx_per_sec: rates[3],
    }
}

fn two_samples() -> Vec<ResourceSample> {
    vec![
        sample(40_000_000, 1000, 50_000_000, [1_000_000, 3_000_000, 500_000, 100_000]),
        sample(60_000_000, 3000, 70_000_000, [3_000_000, 5_000_000, 1_500_000, 300_000]),
    ]
}

#[test]
fn start_fills_in_the_defaults() {
    let mut manager = SessionManager::new();
    assert!(!manager.is_active());
    let receipt = manager.start_profiling(StartProfilingOptions::none(), at(NOON, 250_000_000)).unwrap();
    assert_eq!(receipt.session_id, "cl_1714564800250");
    assert_eq!(receipt.start_time, "2024-05-01T12:00:00.250+00:00");
    assert!(manager.is_active());
    let session = manager.session().unwrap();
    assert_eq!(session.id, "cl_1714564800250");
    assert_eq!(session.start_timestamp, "2024-05-01T12:00:00.250+00:00");
    assert_eq!(session.started.timestamp_millis(), 1_714_564_800_250);
    assert_eq!(session.command, "manual profiling");
    assert_eq!(session.project, "CarbonLint Dashboard");
    assert_eq!(session.branch, "main");
    assert_eq!(session.commit, "N/A");
    assert!(session.samples.is_empty());
}

#[test]
fn start_keeps_what_the_options_say() {
    let mut manager = SessionManager::new();
    let options = StartProfilingOptions {
        command: Some("cargo build".to_string()),
        project: None,
        branch: Some("feature/x".to_string()),
        commit: Some("abc123".to_string()),
    };
    manager.start_profiling(options, at(NOON, 0)).unwrap();
    let session = manager.session().unwrap();
    assert_eq!(session.command, "cargo build");
    assert_eq!(session.project, "CarbonLint Dashboard");
    assert_eq!(session.branch, "feature/x");
    assert_eq!(session.commit, "abc123");
    assert_eq!(session.start_timestamp, "2024-05-01T12:00:00+00:00");
}

#[test]
fn start_while_active_is_refused_and_changes_nothing() {
    let mut manager = SessionManager::new();
    manager.start_profiling(StartProfilingOptions::none(), at(NOON, 0)).unwrap();
    manager.record(sample(1, 2, 3, [4, 5, 6, 7]));
    let before = manager.session().unwrap().clone();
    let options = StartProfilingOptions {
        command: Some("other".to_string()),
        project: Some("other".to_string()),
        branch: None,
        commit: None,
    };
    assert_eq!(manager.start_profiling(options, at(NOON + 5, 0)), Err(SessionError::AlreadyActive));
    assert_eq!(manager.start_from_shortcut(at(NOON + 6, 0)), Err(SessionError::AlreadyActive));
    assert_eq!(manager.session().unwrap(), &before);
    assert_eq!(before.samples, vec![sample(1, 2, 3, [4, 5, 6, 7])]);
}

#[test]
fn stop_while_idle_is_refused_and_changes_nothing() {
    let mut manager = SessionManager::new();
    let settings = AppSettings::default();
    assert_eq!(manager.stop_profiling(at(NOON, 0), &settings), Err(SessionError::NoActiveSession));
    assert!(!manager.is_active());
    assert!(manager.session().is_none());
    // and the manager still works
    assert!(manager.start_profiling(StartProfilingOptions::none(), at(NOON, 0)).is_ok());
}

#[test]
fn at_most_one_session_over_any_sequence() {
    let mut manager = SessionManager::new();
    let settings = AppSettings::default();
    let mut active = false;
    let mut clock = NOON;
    // start, start, stop, stop, start, stop, ...
    for step in [true, true, false, false, true, false, true, true, true, false] {
        clock += 1;
        if step {
            assert_eq!(manager.start_profiling(StartProfilingOptions::none(), at(clock, 0)).is_ok(), !active);
            active = true;
        } else {
            assert_eq!(manager.stop_profiling(at(clock, 0), &settings).is_ok(), active);
            active = false;
        }
        assert_eq!(manager.is_active(), active);
        assert_eq!(manager.session().is_some(), active);
    }
}

#[test]
fn a_stopped_session_is_gone() {
    let mut manager = SessionManager::new();
    let settings = AppSettings::default();
    manager.start_profiling(StartProfilingOptions::none(), at(NOON, 0)).unwrap();
    assert!(manager.stop_profiling(at(NOON + 1, 0), &settings).is_ok());
    assert!(manager.session().is_none());
    assert_eq!(manager.stop_profiling(at(NOON + 2, 0), &settings), Err(SessionError::NoActiveSession));
    assert!(!manager.record(sample(1, 1, 1, [1, 1, 1, 1])));
}

#[test]
fn stop_without_samples_gives_zeros() {
    let mut manager = SessionManager::new();
    let settings = AppSettings::default();
    manager.start_profiling(StartProfilingOptions::none(), at(NOON, 0)).unwrap();
    let run = manager.stop_profiling(at(NOON, 0), &settings).unwrap();
    assert_eq!(run.sample_count, 0);
    assert_eq!(run.duration_ms, 0);
    assert_eq!(
        run.metrics,
        RunMetrics {
            cpu_utilization_micro_pct: 0,
            memory_usage_micro_pct: 0,
            gpu_utilization_micro_pct: 0,
            disk_activity_micro_pct: 0,
            network_activity_micro_pct: 0,
        }
    );
    assert_eq!(
        run.energy,
        EnergyResult {
            total_micro_wh: 0,
            cpu_micro_wh: 0,
            gpu_micro_wh: 0,
            memory_micro_wh: 0,
            disk_micro_wh: 0,
            network_micro_wh: 0,
        }
    );
    assert_eq!(run.carbon.total_micro_g, 0);
    assert_eq!(run.resources.memory_peak_mb, 0);
    assert_eq!(run.resources.cpu_utilization_micro_pct, 0);
    assert_eq!(run.resources.disk_read_micro_mb, 0);

    // the same after an hour without a sample
    manager.start_profiling(StartProfilingOptions::none(), at(NOON, 0)).unwrap();
    let run = manager.stop_profiling(at(NOON + 3600, 0), &settings).unwrap();
    assert_eq!(run.sample_count, 0);
    assert_eq!(run.duration_ms, 3_600_000);
    assert_eq!(run.resources.wall_time_ms, 3_600_000);
    assert_eq!(run.energy.total_micro_wh, 0);
    assert_eq!(run.carbon.total_micro_g, 0);
    assert_eq!(run.resources.cpu_time_user_ms, 0);
}

#[test]
fn stop_hands_back_the_record_of_the_session() {
    let mut manager = SessionManager::new();
    let settings = AppSettings::default();
    let options = StartProfilingOptions {
        command: Some("make".to_string()),
        project: Some("demo".to_string()),
        branch: Some("dev".to_string()),
        commit: Some("f00".to_string()),
    };
    manager.start_profiling(options, at(NOON, 500_000_000)).unwrap();
    for s in two_samples() {
        assert!(manager.record(s));
    }
    let run = manager.stop_profiling(at(NOON + 3600, 500_000_000), &settings).unwrap();
    assert!(!manager.is_active());
    assert_eq!(run.id, "cl_1714564800500");
    assert_eq!(run.timestamp, "2024-05-01T12:00:00.500+00:00");
    assert_eq!(run.command, "make");
    assert_eq!(run.project, "demo");
    assert_eq!(run.branch, "dev");
    assert_eq!(run.commit, "f00");
    assert_eq!(run.sample_count, 2);
    assert_eq!(run.duration_ms, 3_600_000);
    assert_eq!(
        run.metrics,
        RunMetrics {
            cpu_utilization_micro_pct: 50_000_000,
            memory_usage_micro_pct: 60_000_000,
            gpu_utilization_micro_pct: 0,
            disk_activity_micro_pct: 6_000_000,
            network_activity_micro_pct: 12_000_000,
        }
    );
    assert_eq!(
        run.resources,
        RunResources {
            wall_time_ms: 3_600_000,
            cpu_utilization_micro_pct: 50_000_000,
            cpu_time_user_ms: 1_260_000,
            cpu_time_system_ms: 540_000,
            memory_peak_mb: 3000,
            memory_avg_micro_pct: 60_000_000,
            disk_read_micro_mb: 6_866_455_078,
            disk_write_micro_mb: 13_732_910_156,
            net_recv_micro_mb: 3_433_227_539,
            net_sent_micro_mb: 686_645_507,
            gpu_utilization_micro_pct: 0,
        }
    );
    assert_eq!(
        run.energy,
        EnergyResult {
            total_micro_wh: 10_920_000,
            cpu_micro_wh: 7_500_000,
            gpu_micro_wh: 0,
            memory_micro_wh: 2_880_000,
            disk_micro_wh: 300_000,
            network_micro_wh: 240_000,
        }
    );
    assert_eq!(run.carbon.total_micro_g, 5_187_000);
    assert_eq!(run.carbon.region, "Mixed");
    assert_eq!(run.carbon.intensity_micro_g_per_kwh, 475_000_000);
    assert_eq!(run.carbon.pue_micros, 1_000_000);
}

#[test]
fn stop_uses_the_settings_it_is_given() {
    let mut manager = SessionManager::new();
    let mut settings = AppSettings::default();
    settings.region = "EU-NORTH".to_string();
    settings.hardware_profile = "server".to_string();
    settings.pue_micros = 2_000_000;
    manager.start_profiling(StartProfilingOptions::none(), at(NOON, 0)).unwrap();
    manager.record(sample(50_000_000, 0, 0, [0, 0, 0, 0]));
    let run = manager.stop_profiling(at(NOON + 3600, 0), &settings).unwrap();
    assert_eq!(run.energy.cpu_micro_wh, 75_000_000);
    assert_eq!(run.energy.total_micro_wh, 75_000_000);
    // 0.075 kWh * 2 * 25 g/kWh
    assert_eq!(run.carbon.total_micro_g, 3_750_000);
    assert_eq!(run.carbon.region, "Sweden");
}

#[test]
fn a_clock_that_went_back_gives_a_negative_duration() {
    let mut manager = SessionManager::new();
    let settings = AppSettings::default();
    manager.start_profiling(StartProfilingOptions::none(), at(NOON, 0)).unwrap();
    manager.record(sample(50_000_000, 0, 0, [0, 0, 0, 0]));
    let run = manager.stop_profiling(at(NOON - 3600, 0), &settings).unwrap();
    assert_eq!(run.duration_ms, -3_600_000);
    assert_eq!(run.energy.cpu_micro_wh, -7_500_000);
}

#[test]
fn status_reports_without_changing() {
    let mut manager = SessionManager::new();
    let idle = manager.get_profiling_status(at(NOON, 0));
    assert!(!idle.active);
    assert_eq!(idle.session_id, None);
    assert_eq!(idle.start_time, None);
    assert_eq!(idle.elapsed_ms, None);
    manager.start_profiling(StartProfilingOptions::none(), at(NOON, 0)).unwrap();
    let before = manager.session().unwrap().clone();
    let status = manager.get_profiling_status(at(NOON + 12, 345_000_000));
    assert!(status.active);
    assert_eq!(status.session_id.as_deref(), Some("cl_1714564800000"));
    assert_eq!(status.start_time.as_deref(), Some("2024-05-01T12:00:00+00:00"));
    assert_eq!(status.elapsed_ms, Some(12_345));
    assert_eq!(manager.session().unwrap(), &before);
}

#[test]
fn record_appends_in_order() {
    let mut manager = SessionManager::new();
    assert!(!manager.record(sample(9, 9, 9, [9, 9, 9, 9])));
    manager.start_profiling(StartProfilingOptions::none(), at(NOON, 0)).unwrap();
    let samples = two_samples();
    assert!(manager.record(samples[0]));
    assert!(manager.record(samples[1]));
    assert_eq!(manager.session().unwrap().samples, samples);
}

#[test]
fn toggle_starts_and_stops() {
    let mut manager = SessionManager::new();
    let settings = AppSettings::default();
    match manager.toggle(at(NOON, 0), &settings) {
        Toggled::Started(receipt) => {
            assert_eq!(receipt.session_id, "cl_1714564800000");
            assert_eq!(receipt.start_time, "2024-05-01T12:00:00+00:00");
        }
        Toggled::Stopped(_) => panic!("nothing was running"),
    }
    let session = manager.session().unwrap();
    assert_eq!(session.command, "Global Shortcut");
    assert_eq!(session.project, "CarbonLint Dashboard");
    assert_eq!(session.branch, "main");
    assert_eq!(session.commit, "N/A");
    match manager.toggle(at(NOON + 10, 0), &settings) {
        Toggled::Stopped(run) => {
            assert_eq!(run.id, "cl_1714564800000");
            assert_eq!(run.command, "Global Shortcut");
            assert_eq!(run.duration_ms, 10_000);
        }
        Toggled::Started(_) => panic!("a session was running"),
    }
    assert!(!manager.is_active());
}

#[test]
fn shortcut_and_request_give_the_same_record() {
    let settings = AppSettings::default();
    let mut by_request = SessionManager::new();
    by_request.start_profiling(StartProfilingOptions::shortcut(), at(NOON, 0)).unwrap();
    let mut by_shortcut = SessionManager::new();
    by_shortcut.start_from_shortcut(at(NOON, 0)).unwrap();
    for s in two_samples() {
        by_request.record(s);
        by_shortcut.record(s);
    }
    assert_eq!(by_request.session(), by_shortcut.session());
    let a = by_request.stop_profiling(at(NOON + 77, 0), &settings).unwrap();
    let b = match by_shortcut.toggle(at(NOON + 77, 0), &settings) {
        Toggled::Stopped(run) => run,
        Toggled::Started(_) => panic!("a session was running"),
    };
    assert_eq!(a, b);
}

#[test]
fn two_starts_at_the_same_moment_get_different_ids() {
    let mut manager = SessionManager::new();
    let settings = AppSettings::default();
    let now = at(NOON, 250_000_000);
    assert_eq!(manager.last_issued(), None);
    let first = manager.start_profiling(StartProfilingOptions::none(), now).unwrap();
    let first_run = manager.stop_profiling(now, &settings).unwrap();
    let second = manager.start_profiling(StartProfilingOptions::none(), now).unwrap();
    let second_run = manager.stop_profiling(now, &settings).unwrap();
    let third = manager.start_from_shortcut(now).unwrap();
    assert_eq!(first.session_id, "cl_1714564800250");
    assert_eq!(second.session_id, "cl_1714564800251");
    assert_eq!(third.session_id, "cl_1714564800252");
    assert_eq!(first_run.id, first.session_id);
    assert_eq!(second_run.id, second.session_id);
    assert_ne!(first_run.id, second_run.id);
    assert_eq!(manager.last_issued(), Some(1_714_564_800_252));
    // the start time is the clock's, whatever the id
    assert_eq!(second.start_time, "2024-05-01T12:00:00.250+00:00");
    assert_eq!(second_run.timestamp, "2024-05-01T12:00:00.250+00:00");
    assert_eq!(second_run.duration_ms, 0);
}

#[test]
fn ids_increase_whatever_the_clock_shows() {
    let mut manager = SessionManager::new();
    let settings = AppSettings::default();
    let mut numbers = Vec::new();
    // the clock stands still, goes on, and goes back
    for (seconds, nanos) in
        [(NOON, 0), (NOON, 999_999), (NOON, 1_000_000), (NOON + 1, 0), (NOON - 5, 0), (-1, 0), (NOON + 1, 3_000_000)]
    {
        assert!(manager.has_ids_left());
        manager.start_profiling(StartProfilingOptions::none(), at(seconds, nanos)).unwrap();
        numbers.push(manager.last_issued().unwrap());
        assert_eq!(manager.session().unwrap().id, format!("cl_{}", numbers[numbers.len() - 1]));
        manager.stop_profiling(at(seconds, nanos), &settings).unwrap();
    }
    let base = NOON * 1000;
    assert_eq!(
        numbers,
        vec![base, base + 1, base + 2, base + 1000, base + 1001, base + 1002, base + 1003]
    );
    for pair in numbers.windows(2) {
        assert!(pair[0] < pair[1]);
    }
}

#[test]
fn a_refused_start_issues_no_id() {
    let mut manager = SessionManager::new();
    manager.start_profiling(StartProfilingOptions::none(), at(NOON, 0)).unwrap();
    assert_eq!(
        manager.start_profiling(StartProfilingOptions::none(), at(NOON + 9, 0)),
        Err(SessionError::AlreadyActive)
    );
    assert_eq!(manager.last_issued(), Some(NOON * 1000));
    assert_eq!(manager.session().unwrap().id, "cl_1714564800000");
}

#[test]
fn toggles_at_the_same_moment_get_different_ids() {
    let mut manager = SessionManager::new();
    let settings = AppSettings::default();
    let now = at(NOON, 0);
    let mut ids = Vec::new();
    for _ in 0..3 {
        match manager.toggle(now, &settings) {
            Toggled::Started(receipt) => ids.push(receipt.session_id),
            Toggled::Stopped(_) => panic!("nothing was running"),
        }
        match manager.toggle(now, &settings) {
            Toggled::Stopped(run) => assert_eq!(&run.id, &ids[ids.len() - 1]),
            Toggled::Started(_) => panic!("a session was running"),
        }
    }
    assert_eq!(ids, vec!["cl_1714564800000", "cl_1714564800001", "cl_1714564800002"]);
}

#[test]
fn an_id_is_cl_and_its_number() {
    let id = |number: i64| {
        ProfilingSession::open(StartProfilingOptions::none(), at(NOON, 0), number).id
    };
    assert_eq!(id(10), "cl_10");
    assert_eq!(id(100), "cl_100");
    assert_eq!(id(0), "cl_0");
    assert_eq!(id(-1), "cl_-1");
    assert_eq!(id(i64::MAX), "cl_9223372036854775807");
    assert_ne!(id(1), id(-1));
    assert_ne!(id(10), id(100));
}

#[test]
fn error_messages() {
    assert_eq!(SessionError::AlreadyActive.message(), "Profiling session already in progress");
    assert_eq!(SessionError::NoActiveSession.message(), "No profiling session in progress");
}

#[test]
fn aggregate_takes_any_duration() {
    let session = ProfilingSession {
        id: "cl_1".to_string(),
        started: at(0, 1_000_000),
        start_timestamp: "1970-01-01T00:00:00.001+00:00".to_string(),
        command: "c".to_string(),
        project: "p".to_string(),
        branch: "b".to_string(),
        commit: "k".to_string(),
        samples: two_samples(),
    };
    let run = aggregate(session.clone(), 90_000, &AppSettings::default());
    assert_eq!(run.id, "cl_1");
    assert_eq!(run.timestamp, "1970-01-01T00:00:00.001+00:00");
    assert_eq!(run.duration_ms, 90_000);
    assert_eq!(run.resources.wall_time_ms, 90_000);
    // 15 W at 50 % for 90 s = 0.1875 Wh
    assert_eq!(run.energy.cpu_micro_wh, 187_500);
    assert_eq!(run.resources.cpu_time_user_ms, 31_500);
    assert_eq!(run.resources.cpu_time_system_ms, 13_500);
    assert_eq!(ProfilingSession::open(StartProfilingOptions::none(), at(0, 1_000_000), 1).id, "cl_1");
    assert_eq!(session.elapsed_ms(&at(90, 1_000_000)), 90_000);
}

#[test]
fn a_session_carries_the_text_it_is_given() {
    let options = StartProfilingOptions {
        command: None,
        project: Some("demo".to_string()),
        branch: None,
        commit: None,
    };
    let session =
        ProfilingSession::open_with(options, at(-2, 999_000_000), -1001, "then".to_string());
    assert_eq!(
        session,
        ProfilingSession {
            id: "cl_-1001".to_string(),
            started: at(-2, 999_000_000),
            start_timestamp: "then".to_string(),
            command: "manual profiling".to_string(),
            project: "demo".to_string(),
            branch: "main".to_string(),
            commit: "N/A".to_string(),
            samples: Vec::new(),
        }
    );
}

#[test]
fn means_round_down_and_are_zero_without_samples() {
    let none: Vec<ResourceSample> = Vec::new();
    for which in [
        Reading::CpuUtilization,
        Reading::MemoryPercent,
        Reading::DiskRead,
        Reading::DiskWrite,
        Reading::NetRx,
        Reading::NetTx,
    ] {
        assert_eq!(mean(&none, which), 0);
    }
    assert_eq!(peak_memory(&none), 0);
    let samples = vec![
        sample(1, 7, 10, [100, 200, 300, 400]),
        sample(2, 9, 20, [101, 201, 301, 401]),
        sample(2, 8, 31, [100, 200, 300, 400]),
    ];
    assert_eq!(mean(&samples, Reading::CpuUtilization), 1);
    assert_eq!(mean(&samples, Reading::MemoryPercent), 20);
    assert_eq!(mean(&samples, Reading::DiskRead), 100);
    assert_eq!(mean(&samples, Reading::DiskWrite), 200);
    assert_eq!(mean(&samples, Reading::NetRx), 300);
    assert_eq!(mean(&samples, Reading::NetTx), 400);
    assert_eq!(peak_memory(&samples), 9);
    assert_eq!(samples[1].get(Reading::NetTx), 401);
}

#[test]
fn means_of_the_largest_readings_do_not_overflow() {
    let samples = vec![sample(u64::MAX, u64::MAX, u64::MAX, [u64::MAX; 4]); 3];
    assert_eq!(mean(&samples, Reading::CpuUtilization), u64::MAX);
    assert_eq!(mean(&samples, Reading::DiskRead), u64::MAX);
    assert_eq!(peak_memory(&samples), u64::MAX);
    let metrics = summarize_metrics(&samples);
    assert_eq!(metrics.cpu_utilization_micro_pct, u64::MAX);
    assert_eq!(metrics.disk_activity_micro_pct, 100_000_000);
    assert_eq!(metrics.network_activity_micro_pct, 100_000_000);
}

#[test]
fn activity_is_a_share_of_the_ceiling_and_no_more() {
    assert_eq!(activity(0, 0, 100_000_000), 0);
    assert_eq!(activity(25_000_000, 25_000_000, 100_000_000), 50_000_000);
    assert_eq!(activity(100_000_000, 0, 100_000_000), 100_000_000);
    assert_eq!(activity(100_000_000, 1, 100_000_000), 100_000_000);
    assert_eq!(activity(u64::MAX, u64::MAX, 100_000_000), 100_000_000);
    assert_eq!(activity(1_000_000, 200_000, 10_000_000), 12_000_000);
    assert_eq!(activity(1, 0, 3), 33_333_333);
}
