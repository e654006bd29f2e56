use statserver::cache::CacheError;
use statserver::config::BurstConfig;
use statserver::database::DatabaseError;
use statserver::stream::StreamEvent;
use statserver::updater::{
    record_flush, run_events, startup_state, step, FlushAction, ProcessorError, TimedEvent,
    RESTART_COOLDOWN_MILLIS, WATCHDOG_MILLIS,
};

fn cfg() -> BurstConfig {
    BurstConfig { sync_interval_millis: 200, expire_millis: 1000 }
}

fn update(value: usize, at: u64) -> TimedEvent {
    TimedEvent { event: StreamEvent::Database { resource: "total_emoji_count".to_string(), value }, at }
}

fn tick(at: u64) -> TimedEvent {
    TimedEvent { event: StreamEvent::Cache { resource: "total_emoji_count".to_string() }, at }
}

#[test]
fn startup_synchronises_cache_with_baseline() {
    let st = startup_state(42, 0);
    assert_eq!(st.current, 42);
    assert_eq!(st.flushed, 42);
    assert_eq!(st.last_update, 0);
    assert_eq!(st.last_activity, 0);
}

#[test]
fn empty_database_baseline_runs_at_zero() {
    let st = startup_state(0, 0);
    assert_eq!(st.current, 0);
    assert_eq!(st.flushed, 0);
}

#[test]
fn monotone_growth_reaches_cache_after_one_tick() {
    let c = cfg();
    let mut st = startup_state(0, 0);
    let events = vec![update(10, 50), update(11, 100), update(12, 150), tick(200)];
    let writes = run_events(&c, &mut st, &events);
    assert_eq!(writes, vec![12]);
    assert_eq!(st.current, 12);
    assert_eq!(st.flushed, 12);
}

#[test]
fn transient_dip_is_absorbed() {
    let c = cfg();
    let mut st = startup_state(100, 0);
    let events = vec![
        update(100, 50),
        update(97, 100),
        tick(200),
        update(100, 250),
        tick(300),
    ];
    let writes = run_events(&c, &mut st, &events);
    assert!(writes.iter().all(|w| *w >= 100));
    assert!(writes.is_empty());
    assert_eq!(st.current, 100);
}

#[test]
fn sustained_decrease_is_admitted_after_expiry() {
    let c = cfg();
    let mut st = startup_state(100, 0);
    let events = vec![update(100, 100), tick(200), update(90, 1400), tick(1600)];
    let writes = run_events(&c, &mut st, &events);
    assert_eq!(writes, vec![90]);
    assert_eq!(st.current, 90);
    assert_eq!(st.flushed, 90);
}

#[test]
fn lower_value_accepted_exactly_at_window_expiry() {
    let c = cfg();
    let mut st = startup_state(100, 0);
    let a = step(&c, &mut st, &StreamEvent::Database { resource: "r".to_string(), value: 40 }, 1000);
    assert_eq!(a, FlushAction::Idle);
    assert_eq!(st.current, 40);
}

#[test]
fn lower_value_suppressed_while_window_open() {
    let c = cfg();
    let mut st = startup_state(100, 0);
    let a = step(&c, &mut st, &StreamEvent::Database { resource: "r".to_string(), value: 40 }, 999);
    assert_eq!(a, FlushAction::Idle);
    assert_eq!(st.current, 100);
    assert_eq!(st.last_update, 999);
    assert_eq!(st.last_activity, 999);
}

#[test]
fn tie_keeps_current_and_refreshes_clock() {
    let c = cfg();
    let mut st = startup_state(100, 0);
    let a = step(&c, &mut st, &StreamEvent::Database { resource: "r".to_string(), value: 100 }, 500);
    assert_eq!(a, FlushAction::Idle);
    assert_eq!(st.current, 100);
    assert_eq!(st.last_update, 500);
}

#[test]
fn flush_only_when_value_changed() {
    let c = cfg();
    let mut st = startup_state(5, 0);
    let a = step(&c, &mut st, &StreamEvent::Cache { resource: "r".to_string() }, 200);
    assert_eq!(a, FlushAction::Idle);
    let a = step(&c, &mut st, &StreamEvent::Database { resource: "r".to_string(), value: 7 }, 250);
    assert_eq!(a, FlushAction::Idle);
    let a = step(&c, &mut st, &StreamEvent::Cache { resource: "r".to_string() }, 400);
    assert_eq!(a, FlushAction::Flush(7));
    record_flush(&mut st);
    assert_eq!(st.flushed, 7);
    let a = step(&c, &mut st, &StreamEvent::Cache { resource: "r".to_string() }, 600);
    assert_eq!(a, FlushAction::Idle);
}

#[test]
fn failed_flush_is_retried_on_next_tick() {
    let c = cfg();
    let mut st = startup_state(5, 0);
    let a = step(&c, &mut st, &StreamEvent::Database { resource: "r".to_string(), value: 9 }, 100);
    assert_eq!(a, FlushAction::Idle);
    let a = step(&c, &mut st, &StreamEvent::Cache { resource: "r".to_string() }, 200);
    assert_eq!(a, FlushAction::Flush(9));
    // the write failed: flushed stays, so the next tick asks again
    assert_eq!(st.flushed, 5);
    let a = step(&c, &mut st, &StreamEvent::Cache { resource: "r".to_string() }, 400);
    assert_eq!(a, FlushAction::Flush(9));
    record_flush(&mut st);
    let a = step(&c, &mut st, &StreamEvent::Cache { resource: "r".to_string() }, 600);
    assert_eq!(a, FlushAction::Idle);
}

#[test]
fn silent_stream_trips_watchdog_and_restart_resyncs() {
    let c = cfg();
    let mut st = startup_state(5, 0);
    // just inside the tolerance: no stall
    let a = step(&c, &mut st, &StreamEvent::Cache { resource: "r".to_string() }, WATCHDOG_MILLIS);
    assert_eq!(a, FlushAction::Idle);
    // just beyond: stall, state untouched
    let before = st.clone();
    let a = step(&c, &mut st, &StreamEvent::Cache { resource: "r".to_string() }, WATCHDOG_MILLIS + 1);
    assert_eq!(a, FlushAction::Stall);
    assert_eq!(st, before);
    // the supervisor restarts after its cooldown and re-reads the baseline
    assert_eq!(RESTART_COOLDOWN_MILLIS, 1000);
    let st = startup_state(11, 7000);
    assert_eq!(st.current, 11);
    assert_eq!(st.flushed, 11);
}

#[test]
fn stream_timeouts_request_restart() {
    let c = cfg();
    let mut st = startup_state(5, 0);
    let a = step(&c, &mut st, &StreamEvent::DatabaseTimeout, 100);
    assert_eq!(a, FlushAction::Stall);
    let a = step(&c, &mut st, &StreamEvent::CacheTimeout, 100);
    assert_eq!(a, FlushAction::Stall);
}

#[test]
fn processor_errors_name_their_source() {
    let e = ProcessorError::Cache(CacheError::Connection("refused".to_string()));
    assert_eq!(
        e.describe(),
        "failed to perform cache operation: failed to open connection to cache service: refused"
    );
    let e = ProcessorError::Database(DatabaseError::Command("bad query".to_string()));
    assert_eq!(
        e.describe(),
        "failed to perform database operation: failed to execute query: bad query"
    );
    let e = ProcessorError::AsyncJoin("panicked".to_string());
    assert_eq!(e.describe(), "failed to join multiple async tasks: panicked");
}

#[test]
fn burst_window_never_flushes_below_peak() {
    let c = cfg();
    let mut st = startup_state(50, 0);
    let events = vec![
        update(60, 50),
        tick(100),
        update(58, 150),
        tick(200),
        update(61, 250),
        update(59, 300),
        tick(350),
    ];
    let writes = run_events(&c, &mut st, &events);
    assert_eq!(writes, vec![60, 61]);
    assert_eq!(st.current, 61);
}
