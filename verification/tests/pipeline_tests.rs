use solar_sync::fetch::FetchError;
use solar_sync::pipeline::{RecordOutcome, RunOutcome, run_cycle};
use solar_sync::record::PerformanceData;
use solar_sync::store::SolarStore;

fn mem_uri(name: &str) -> String {
    format!("file:{name}?mode=memory&cache=shared")
}

fn raw(pv: Option<&str>, solar: Option<&str>, ts: &str) -> PerformanceData {
    PerformanceData {
        pv_solar: pv.map(|s| s.to_string()),
        solar: solar.map(|s| s.to_string()),
        timestamp: ts.to_string(),
    }
}

fn row_count(uri: &str) -> i64 {
    let probe = rusqlite::Connection::open(uri).unwrap();
    probe.query_row("SELECT COUNT(*) FROM solar", [], |row| row.get(0)).unwrap()
}

fn solar_value(uri: &str, ts: &str) -> f64 {
    let probe = rusqlite::Connection::open(uri).unwrap();
    probe
        .query_row("SELECT solar FROM solar WHERE timestamp = ?1", [ts], |row| row.get(0))
        .unwrap()
}

#[test]
fn empty_response_changes_nothing() {
    let uri = mem_uri("pipe_empty");
    let mut store = SolarStore::open(&uri).unwrap();
    let seed = run_cycle(
        &mut store,
        Ok(vec![raw(Some("1.5"), Some("2.5"), "2024-02-01T00:00:00-08:00")]),
    );
    assert_eq!(seed.outcome, RunOutcome::Completed);
    assert_eq!(row_count(&uri), 1);

    let report = run_cycle(&mut store, Ok(vec![]));
    assert_eq!(report.outcome, RunOutcome::Completed);
    assert_eq!(report.results.len(), 0);
    assert_eq!(row_count(&uri), 1);
}

#[test]
fn transport_failure_leaves_the_store_untouched() {
    let uri = mem_uri("pipe_transport");
    let mut store = SolarStore::open(&uri).unwrap();
    let seed = run_cycle(
        &mut store,
        Ok(vec![raw(Some("1.5"), Some("2.5"), "2024-02-02T00:00:00-08:00")]),
    );
    assert_eq!(seed.outcome, RunOutcome::Completed);

    let report = run_cycle(&mut store, Err(FetchError::Transport));
    assert_eq!(report.outcome, RunOutcome::Aborted(FetchError::Transport));
    assert_eq!(report.results.len(), 0);
    assert_eq!(row_count(&uri), 1);
}

#[test]
fn decode_failure_leaves_the_store_untouched() {
    let uri = mem_uri("pipe_decode");
    let mut store = SolarStore::open(&uri).unwrap();
    let report = run_cycle(&mut store, Err(FetchError::Decode));
    assert_eq!(report.outcome, RunOutcome::Aborted(FetchError::Decode));
    assert_eq!(report.results.len(), 0);
}

#[test]
fn mixed_batch_persists_every_valid_record() {
    let uri = mem_uri("pipe_mixed");
    let mut store = SolarStore::open(&uri).unwrap();
    let batch = vec![
        raw(Some("1.5"), Some("2.5"), "2024-03-01T00:00:00-08:00"),
        raw(None, Some("9.5"), "2024-03-01T00:01:00-08:00"),
        raw(Some("3.5"), Some("4.5"), "2024-03-01T00:02:00-08:00"),
        raw(Some("7.5"), Some("8.5"), "2024-03-01T00:00:00-08:00"),
    ];
    let report = run_cycle(&mut store, Ok(batch));
    assert_eq!(report.outcome, RunOutcome::Completed);
    assert_eq!(
        report.results,
        vec![
            RecordOutcome::Inserted,
            RecordOutcome::MissingField,
            RecordOutcome::Inserted,
            RecordOutcome::Duplicate,
        ],
    );
    assert_eq!(row_count(&uri), 2);
    assert_eq!(store.contains_timestamp("2024-03-01T00:00:00-08:00"), Some(true));
    assert_eq!(store.contains_timestamp("2024-03-01T00:02:00-08:00"), Some(true));
    assert_eq!(store.contains_timestamp("2024-03-01T00:01:00-08:00"), Some(false));
}

#[test]
fn same_timestamp_twice_keeps_the_first_write() {
    let uri = mem_uri("pipe_same_ts");
    let mut store = SolarStore::open(&uri).unwrap();
    let batch = vec![
        raw(Some("1.5"), Some("2.5"), "2024-04-01T00:00:00-08:00"),
        raw(Some("1.5"), Some("6.5"), "2024-04-01T00:00:00-08:00"),
    ];
    let report = run_cycle(&mut store, Ok(batch));
    assert_eq!(report.outcome, RunOutcome::Completed);
    assert_eq!(report.results, vec![RecordOutcome::Inserted, RecordOutcome::Duplicate]);
    assert_eq!(row_count(&uri), 1);
    assert_eq!(solar_value(&uri, "2024-04-01T00:00:00-08:00"), 2.5);
}

#[test]
fn rerun_with_overlapping_window_adds_only_new_timestamps() {
    let uri = mem_uri("pipe_rerun");
    let mut store = SolarStore::open(&uri).unwrap();
    let first = vec![
        raw(Some("1.5"), Some("2.5"), "2024-05-01T00:00:00-08:00"),
        raw(Some("3.5"), Some("4.5"), "2024-05-01T00:01:00-08:00"),
    ];
    let report = run_cycle(&mut store, Ok(first));
    assert_eq!(report.results, vec![RecordOutcome::Inserted, RecordOutcome::Inserted]);

    // The next run's window overlaps: one already-stored timestamp (now
    // reported with different readings) and one new timestamp.
    let second = vec![
        raw(Some("9.5"), Some("9.5"), "2024-05-01T00:01:00-08:00"),
        raw(Some("5.5"), Some("6.5"), "2024-05-01T00:02:00-08:00"),
    ];
    let report = run_cycle(&mut store, Ok(second));
    assert_eq!(report.results, vec![RecordOutcome::Duplicate, RecordOutcome::Inserted]);
    assert_eq!(row_count(&uri), 3);
    assert_eq!(solar_value(&uri, "2024-05-01T00:01:00-08:00"), 4.5);
    assert_eq!(solar_value(&uri, "2024-05-01T00:02:00-08:00"), 6.5);
}
