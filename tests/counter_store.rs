use muelsyse::counter::{reported_count, CounterState};
use muelsyse::store::{
    count_column, init_statement, init_step, initial_count, initialize_database, read_initial_value,
    read_stored_row, select_statement, update_statement, write_value, StoreError, COUNTER_ROW_ID,
    INIT_STATEMENT_COUNT,
};

fn fresh_store() -> sqlite::ConnectionThreadSafe {
    let conn = sqlite::Connection::open_thread_safe(":memory:").unwrap();
    initialize_database(&conn).unwrap();
    conn
}

#[test]
fn initialized_store_starts_at_zero() {
    let conn = fresh_store();
    assert_eq!(read_stored_row(&conn), Ok(Some(0)));
    assert_eq!(read_initial_value(&conn), Ok(0));
}

#[test]
fn written_value_is_read_back_after_restart() {
    let conn = fresh_store();
    assert!(write_value(&conn, 7));
    let restarted = CounterState::new(read_initial_value(&conn).unwrap());
    assert_eq!(restarted.read(), 7);
}

#[test]
fn reinitialization_drops_prior_value() {
    let conn = fresh_store();
    assert!(write_value(&conn, 42));
    initialize_database(&conn).unwrap();
    assert_eq!(read_initial_value(&conn), Ok(0));
}

#[test]
fn one_join_adds_exactly_one() {
    let conn = fresh_store();
    let mut counter = CounterState::new(read_initial_value(&conn).unwrap());
    let before = counter.read();
    assert_eq!(counter.increment_and_persist(&conn), before + 1);
    assert_eq!(counter.read(), before + 1);
    assert_eq!(read_initial_value(&conn), Ok(before + 1));
}

#[test]
fn hundred_joins_from_ten_callers_reach_hundred() {
    let conn = fresh_store();
    let mut counter = CounterState::new(read_initial_value(&conn).unwrap());
    let mut last_seen = counter.read();
    for _round in 0..10 {
        for _caller in 0..10 {
            let r = counter.increment_and_persist(&conn);
            assert!(r > last_seen);
            last_seen = r;
        }
    }
    assert_eq!(counter.read(), 100);
    assert_eq!(read_stored_row(&conn), Ok(Some(100)));
}

#[test]
fn failing_store_keeps_count_unchanged() {
    // No table was created, so every update is rejected.
    let conn = sqlite::Connection::open_thread_safe(":memory:").unwrap();
    let mut counter = CounterState::new(5);
    for _ in 0..3 {
        assert_eq!(counter.increment_and_persist(&conn), 5);
    }
    assert_eq!(counter.read(), 5);
    assert!(!write_value(&conn, 6));
}

#[test]
fn missing_table_is_a_read_error() {
    let conn = sqlite::Connection::open_thread_safe(":memory:").unwrap();
    assert_eq!(read_initial_value(&conn), Err(StoreError::Read));
}

#[test]
fn empty_table_counts_as_zero() {
    let conn = fresh_store();
    conn.execute("DELETE FROM count_save;").unwrap();
    assert_eq!(read_stored_row(&conn), Ok(None));
    assert_eq!(read_initial_value(&conn), Ok(0));
}

#[test]
fn negative_stored_value_is_corrupt() {
    let conn = fresh_store();
    assert!(write_value(&conn, -3));
    assert_eq!(read_initial_value(&conn), Err(StoreError::Corrupt));
    assert_eq!(initial_count(Some(-1)), Err(StoreError::Corrupt));
    assert_eq!(initial_count(Some(9)), Ok(9));
    assert_eq!(initial_count(None), Ok(0));
}

#[test]
fn read_only_store_fails_initialization() {
    let flags = sqlite::OpenFlags::new().with_read_only();
    let conn = sqlite::Connection::open_thread_safe_with_flags(":memory:", flags).unwrap();
    assert_eq!(initialize_database(&conn), Err(StoreError::Init));
}

#[test]
fn counter_at_largest_value_does_not_advance() {
    let conn = fresh_store();
    let mut counter = CounterState::new(i64::MAX);
    assert_eq!(counter.next_value(), None);
    assert_eq!(counter.increment_and_persist(&conn), i64::MAX);
    assert_eq!(read_stored_row(&conn), Ok(Some(0)));
}

#[test]
fn write_outcome_decides_the_step() {
    let mut counter = CounterState::new(3);
    assert_eq!(counter.next_value(), Some(4));
    assert_eq!(counter.apply_write_outcome(false), 3);
    assert_eq!(counter.apply_write_outcome(true), 4);
    assert_eq!(counter.apply_write_outcome(true), 5);
    assert_eq!(counter.read(), 5);
}

#[test]
fn lock_failure_reports_zero() {
    assert_eq!(reported_count(None), 0);
    assert_eq!(reported_count(Some(12)), 12);
}

#[test]
fn schema_statements_in_order() {
    assert_eq!(INIT_STATEMENT_COUNT, 3);
    assert_eq!(init_statement(0), "DROP TABLE IF EXISTS count_save;");
    assert_eq!(
        init_statement(1),
        "CREATE TABLE IF NOT EXISTS count_save (id INTEGER PRIMARY KEY UNIQUE, total_count INTEGER NOT null);"
    );
    assert_eq!(init_statement(2), "INSERT INTO count_save VALUES (1, 0);");
}

#[test]
fn schema_step_stops_at_first_rejection() {
    assert_eq!(init_step(0, true), Ok(true));
    assert_eq!(init_step(1, true), Ok(true));
    assert_eq!(init_step(2, true), Ok(false));
    assert_eq!(init_step(0, false), Err(StoreError::Init));
    assert_eq!(init_step(2, false), Err(StoreError::Init));
}

#[test]
fn lookup_and_update_statements() {
    assert_eq!(select_statement(), "SELECT total_count FROM count_save WHERE id = ?;");
    assert_eq!(update_statement(), "UPDATE count_save SET total_count = ? WHERE id = 1;");
    assert_eq!(count_column(), "total_count");
    assert_eq!(COUNTER_ROW_ID, 1);
}

#[test]
fn initializing_twice_succeeds_and_resets() {
    let conn = fresh_store();
    assert!(write_value(&conn, 7));
    assert_eq!(initialize_database(&conn), Ok(()));
    assert_eq!(initialize_database(&conn), Ok(()));
    assert_eq!(read_stored_row(&conn), Ok(Some(0)));
}
