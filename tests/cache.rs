use collectra::checkin::{plan_checkin, CheckinPlan, RecordedDevice};
use collectra::entry::{CacheEntry, ComputeError, EntryConfig, RefreshOutcome, RefreshPolicy};
use collectra::scheduler::{RefreshScheduler, SchedulerAction};
use collectra::statistics::{count_script, count_text, Statistic, Statistics};
use collectra::store::{Artifact, CacheStore, StartError};

fn lazy(ttl: u64) -> EntryConfig {
    EntryConfig { ttl, policy: RefreshPolicy::Lazy }
}

fn eager(ttl: u64) -> EntryConfig {
    EntryConfig { ttl, policy: RefreshPolicy::Eager }
}

fn failure(text: &str) -> ComputeError {
    ComputeError { message: text.to_string() }
}

fn group(selector: &str, count: i64) -> Statistic {
    Statistic { selector: selector.to_string(), count }
}

fn sample_statistics() -> Statistics {
    Statistics {
        total_count: 3,
        by_ios_version: vec![group("11.3", 2), group("11.2", 1)],
        by_electra_version: vec![group("1.0.2", 3)],
        by_device_model: vec![group("iPhone10,3", 2), group("iPad7,5", 1)],
    }
}

fn started(count_config: EntryConfig, stats_config: EntryConfig, count: i64) -> CacheStore {
    CacheStore::start(count_config, stats_config, Ok(count), Ok(sample_statistics()), 0).unwrap()
}

#[test]
fn lazy_refresh_scenario() {
    let mut store = started(lazy(5), lazy(5), 10);
    let r = store.read_count();
    assert_eq!((r.count, r.updated_at), (10, 0));

    assert!(!store.on_read(Artifact::Count, 3));
    let r = store.read_count();
    assert_eq!((r.count, r.updated_at), (10, 0));
    assert!(!store.count_entry().is_refreshing());

    assert!(store.on_read(Artifact::Count, 6));
    let r = store.read_count();
    assert_eq!((r.count, r.updated_at), (10, 0));

    let outcome = store.finish_count(Ok(11), 6);
    assert!(matches!(outcome, RefreshOutcome::Completed));
    let r = store.read_count();
    assert_eq!((r.count, r.updated_at), (11, 6));
    assert_eq!(store.count_entry().generation(), 2);
}

#[test]
fn eager_failures_keep_bootstrap_value() {
    let mut store = started(eager(5), eager(300), 10);
    let before = store.read_statistics();
    let mut scheduler = RefreshScheduler::new(300, 0);
    let mut failures = 0;
    assert_eq!(scheduler.poll(0, true), SchedulerAction::Sleep(300));
    for now in [300u64, 600u64] {
        assert_eq!(scheduler.poll(now, true), SchedulerAction::Refresh);
        assert!(store.try_begin_refresh(Artifact::Statistics));
        match store.finish_statistics(Err(failure("connection reset")), now) {
            RefreshOutcome::Failed(e) => {
                assert_eq!(e.message, "connection reset");
                failures += 1;
            }
            RefreshOutcome::Completed => panic!("a failed computation completed"),
        }
        scheduler.record_attempt(now);
        assert_eq!(scheduler.poll(now, true), SchedulerAction::Sleep(300));
    }
    assert_eq!(failures, 2);
    let after = store.read_statistics();
    assert_eq!(after.updated_at, 0);
    assert_eq!(after.statistics.total_count, before.statistics.total_count);
    assert_eq!(after.statistics.by_ios_version.len(), 2);
    assert_eq!(after.statistics.by_ios_version[0].selector, "11.3");
    assert_eq!(store.statistics_entry().generation(), 1);
    assert!(!store.statistics_entry().is_refreshing());
}

#[test]
fn read_after_complete_returns_new_value() {
    let mut e = CacheEntry::new(1i64, 0, lazy(5));
    assert!(e.try_begin_refresh());
    e.complete_refresh(7, 4);
    assert_eq!(e.read(), (&7, 4));
    assert_eq!(e.generation(), 2);
    e.complete_refresh(8, 9);
    assert_eq!(e.read(), (&8, 9));
    assert_eq!(e.generation(), 3);
    assert!(!e.is_refreshing());
}

#[test]
fn single_flight_among_many_stale_reads() {
    let mut e = CacheEntry::new(10i64, 0, lazy(5));
    let started: Vec<bool> = (0..8).map(|_| e.on_read(20)).collect();
    assert_eq!(started.iter().filter(|s| **s).count(), 1);
    assert!(started[0]);
    assert!(e.is_refreshing());
    e.finish_refresh(Ok(11), 21);
    assert!(!e.on_read(22));
    assert!(e.on_read(27));
}

#[test]
fn eager_staleness_stays_within_ttl_and_compute_time() {
    let mut e = CacheEntry::new(1i64, 0, eager(5));
    let mut s = RefreshScheduler::new(5, 0);
    assert_eq!(s.next_due(), 5);
    assert!(!e.on_read(100));
    assert_eq!(s.poll(5, true), SchedulerAction::Refresh);
    assert!(e.try_begin_refresh());
    // The computation takes 2 units: a read at 7 still sees the value of time 0.
    assert!(e.computed_at() + 5 + 2 >= 7);
    e.finish_refresh(Ok(2), 7);
    s.record_attempt(7);
    assert_eq!(s.next_due(), 12);
    assert_eq!(e.computed_at() + 5, s.next_due());
}

#[test]
fn failed_refresh_restores_previous_state() {
    let mut e = CacheEntry::new(10i64, 3, lazy(5));
    assert!(e.on_read(9));
    let outcome = e.finish_refresh(Err(failure("timeout")), 12);
    assert!(matches!(outcome, RefreshOutcome::Failed(_)));
    assert_eq!(e.read(), (&10, 3));
    assert_eq!(e.generation(), 1);
    assert!(!e.is_refreshing());
    e.try_begin_refresh();
    e.abort_refresh();
    assert!(!e.is_refreshing());
    assert_eq!(e.read(), (&10, 3));
}

#[test]
fn start_fails_when_count_fails() {
    let r = CacheStore::start(lazy(5), eager(300), Err(failure("no db")), Ok(sample_statistics()), 0);
    match r {
        Err(StartError::Count(e)) => assert_eq!(e.message, "no db"),
        _ => panic!("start must fail on the count"),
    }
}

#[test]
fn start_fails_when_statistics_fail() {
    let r = CacheStore::start(lazy(5), eager(300), Ok(4), Err(failure("bad query")), 0);
    match r {
        Err(StartError::Statistics(e)) => assert_eq!(e.message, "bad query"),
        _ => panic!("start must fail on the statistics"),
    }
}

#[test]
fn start_bootstraps_every_entry() {
    let store = started(lazy(5), eager(300), 4);
    assert!(store.is_running());
    assert_eq!(store.count_entry().generation(), 1);
    assert_eq!(store.statistics_entry().generation(), 1);
    assert_eq!(store.count_entry().config(), lazy(5));
    assert_eq!(store.statistics_entry().config(), eager(300));
    let s = store.read_statistics();
    assert_eq!(s.statistics.by_device_model[1].selector, "iPad7,5");
    assert_eq!(s.statistics.by_device_model[1].count, 1);
}

#[test]
fn staleness_boundary() {
    let e = CacheEntry::new(0i64, 10, lazy(5));
    assert!(!e.is_stale(15));
    assert!(e.is_stale(16));
    assert!(!e.is_stale(2));
}

#[test]
fn eager_entry_reads_start_nothing() {
    let mut store = started(eager(5), eager(300), 1);
    assert!(!store.on_read(Artifact::Count, 1000));
    assert!(!store.count_entry().is_refreshing());
}

#[test]
fn stop_ends_scheduler_loops() {
    let mut store = started(eager(5), eager(300), 1);
    let s = RefreshScheduler::new(5, 0);
    assert_eq!(s.poll(2, store.is_running()), SchedulerAction::Sleep(3));
    store.stop();
    assert!(!store.is_running());
    assert_eq!(s.poll(2, store.is_running()), SchedulerAction::Exit);
}

#[test]
fn second_begin_is_refused() {
    let mut store = started(lazy(5), lazy(5), 1);
    assert!(store.try_begin_refresh(Artifact::Count));
    assert!(!store.try_begin_refresh(Artifact::Count));
    assert!(store.try_begin_refresh(Artifact::Statistics));
    store.abort_refresh(Artifact::Count);
    assert!(store.try_begin_refresh(Artifact::Count));
}

#[test]
fn count_texts() {
    assert_eq!(count_script(42), "window.num_devices=42;");
    assert_eq!(count_script(0), "window.num_devices=0;");
    assert_eq!(count_text(-7), "-7");
    assert_eq!(count_text(1234567), "1234567");
}

#[test]
fn checkin_plans() {
    let p = plan_checkin(None);
    assert_eq!(p, CheckinPlan::Insert { num_checkins: 1 });
    assert_eq!(p.status_code(), 201);
    assert_eq!(p.message(), "Added device");
    let p = plan_checkin(Some(RecordedDevice { id: 9, num_checkins: 4 }));
    assert_eq!(p, CheckinPlan::Update { id: 9, num_checkins: 5 });
    assert_eq!(p.status_code(), 202);
    assert_eq!(p.message(), "Updated");
}
