use carbonlint::aggregate::{aggregate, RunResult};
use carbonlint::clock::Moment;
use carbonlint::sample::ResourceSample;
use carbonlint::session::{ProfilingSession, StartProfilingOptions};
use carbonlint::settings::AppSettings;
use carbonlint::store::{not_found_message, RunStore, StatsSummary, StoreError};

fn run(id: &str, carbon_micro_g: i64, energy_micro_wh: i64) -> RunResult {
    let mut session =
        ProfilingSession::open(StartProfilingOptions::none(), Moment::new(1_714_564_800, 0).unwrap(), 7);
    session.id = id.to_string();
    session.samples.push(ResourceSample {
        timestamp_ms: 1_714_564_800_000,
        cpu_utilization_micro_pct: 12_500_000,
        memory_used_mb: 2048,
        memory_micro_pct: 25_000_000,
        disk_read_per_sec: 1000,
        disk_write_per_sec: 2000,
        net_rx_per_sec: 3000,
        net_tx_per_sec: 4000,
    });
    let mut run = aggregate(session, 60_000, &AppSettings::default());
    run.carbon.total_micro_g = carbon_micro_g;
    run.energy.total_micro_wh = energy_micro_wh;
    run
}

fn store_of(carbons: &[i64]) -> RunStore {
    let mut store = RunStore::new();
    for (i, carbon) in carbons.iter().enumerate() {
        store.append(run(&format!("cl_{}", i), *carbon, 1000 * (i as i64 + 1)));
    }
    store
}

#[test]
fn a_run_is_read_back_as_it_was_written() {
    let mut store = store_of(&[1, 2, 3]);
    let written = run("cl_new", 42_000_000, 88_000_000);
    store.append(written.clone());
    assert_eq!(store.get_run("cl_new"), Some(&written));
    assert_eq!(store.get_runs().len(), 4);
    assert_eq!(store.get_runs()[3], written);
    // the others are where they were
    assert_eq!(store.get_run("cl_1"), Some(&run("cl_1", 2, 2000)));
}

#[test]
fn an_id_finds_the_first_run_that_has_it() {
    let mut store = RunStore::new();
    store.append(run("twice", 1, 1));
    store.append(run("once", 2, 2));
    store.append(run("twice", 3, 3));
    assert_eq!(store.get_run("twice").unwrap().carbon.total_micro_g, 1);
    assert_eq!(store.get_run("once").unwrap().carbon.total_micro_g, 2);
    assert_eq!(store.get_run("never"), None);
    assert_eq!(RunStore::new().get_run("twice"), None);
}

#[test]
fn runs_keep_the_order_in_which_they_came() {
    let store = store_of(&[5, 6, 7]);
    let ids: Vec<&str> = store.get_runs().iter().map(|r| r.id.as_str()).collect();
    assert_eq!(ids, vec!["cl_0", "cl_1", "cl_2"]);
    let again = RunStore::from_runs(store.get_runs().clone());
    assert_eq!(again, store);
}

#[test]
fn delete_takes_out_every_run_of_the_id() {
    let mut store = RunStore::new();
    store.append(run("a", 1, 1));
    store.append(run("b", 2, 2));
    store.append(run("a", 3, 3));
    store.append(run("c", 4, 4));
    store.append(run("a", 5, 5));
    assert_eq!(store.delete_run("a"), Ok(()));
    let left: Vec<i64> = store.get_runs().iter().map(|r| r.carbon.total_micro_g).collect();
    assert_eq!(left, vec![2, 4]);
    assert_eq!(store.get_run("a"), None);
    assert_eq!(store.delete_run("c"), Ok(()));
    assert_eq!(store.delete_run("b"), Ok(()));
    assert!(store.get_runs().is_empty());
}

#[test]
fn delete_of_an_unknown_id_fails_and_changes_nothing() {
    let mut store = store_of(&[1, 2, 3]);
    let before = store.clone();
    assert_eq!(store.delete_run("cl_9"), Err(StoreError::NotFound));
    assert_eq!(store, before);
    assert_eq!(store.delete_run(""), Err(StoreError::NotFound));
    assert_eq!(RunStore::new().delete_run("cl_0"), Err(StoreError::NotFound));
    assert_eq!(store.delete_run("cl_1"), Ok(()));
    assert_eq!(store.delete_run("cl_1"), Err(StoreError::NotFound));
    assert_eq!(not_found_message("cl_9"), "Run cl_9 not found");
}

#[test]
fn trend_compares_the_last_two_runs() {
    let two = store_of(&[100_000_000, 150_000_000]).get_stats_summary();
    assert_eq!(two.trend_micro_pct, 50_000_000);
    assert_eq!(two.trend_micro_pct as f64 / 1e6, 50.0);
    let one = store_of(&[100_000_000]).get_stats_summary();
    assert_eq!(one.trend_micro_pct, 0);
    assert_eq!(RunStore::new().get_stats_summary().trend_micro_pct, 0);
}

#[test]
fn trend_looks_at_no_earlier_run() {
    let summary = store_of(&[1, 999_999_999, 200_000_000, 150_000_000]).get_stats_summary();
    assert_eq!(summary.trend_micro_pct, -25_000_000);
}

#[test]
fn trend_is_zero_when_the_run_before_had_no_carbon() {
    assert_eq!(store_of(&[0, 150_000_000]).get_stats_summary().trend_micro_pct, 0);
    assert_eq!(store_of(&[-5, 150_000_000]).get_stats_summary().trend_micro_pct, 0);
    assert_eq!(store_of(&[3, 4]).get_stats_summary().trend_micro_pct, 33_333_333);
    assert_eq!(store_of(&[3, 2]).get_stats_summary().trend_micro_pct, -33_333_333);
    assert_eq!(store_of(&[1, i64::MAX]).get_stats_summary().trend_micro_pct, i64::MAX);
    assert_eq!(store_of(&[1, i64::MIN]).get_stats_summary().trend_micro_pct, i64::MIN);
}

#[test]
fn summary_adds_up_the_runs() {
    let summary = store_of(&[100_000_000, 150_000_000, 50_000_001]).get_stats_summary();
    assert_eq!(
        summary,
        StatsSummary {
            total_runs: 3,
            total_carbon_micro_g: 300_000_001,
            total_energy_micro_wh: 6000,
            avg_carbon_micro_g: 100_000_000,
            trend_micro_pct: -66_666_666,
        }
    );
}

#[test]
fn summary_of_no_runs_is_zero() {
    assert_eq!(
        RunStore::new().get_stats_summary(),
        StatsSummary {
            total_runs: 0,
            total_carbon_micro_g: 0,
            total_energy_micro_wh: 0,
            avg_carbon_micro_g: 0,
            trend_micro_pct: 0,
        }
    );
}

#[test]
fn summary_of_the_largest_runs_does_not_overflow() {
    let summary = store_of(&[i64::MAX, i64::MAX, i64::MAX]).get_stats_summary();
    assert_eq!(summary.total_carbon_micro_g, 3 * i64::MAX as i128);
    assert_eq!(summary.avg_carbon_micro_g, i64::MAX);
    assert_eq!(summary.trend_micro_pct, 0);
    let summary = store_of(&[i64::MIN, i64::MIN]).get_stats_summary();
    assert_eq!(summary.total_carbon_micro_g, 2 * i64::MIN as i128);
    assert_eq!(summary.avg_carbon_micro_g, i64::MIN);
    let summary = store_of(&[-3, -4]).get_stats_summary();
    assert_eq!(summary.avg_carbon_micro_g, -3);
}
