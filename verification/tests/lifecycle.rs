use chdb_rust::boundary::{ConnectReply, Ledger, RawResult};
use chdb_rust::connection::Connection;
use chdb_rust::error::Error;
use chdb_rust::execute;
use chdb_rust::format::OutputFormat;

fn good_reply() -> ConnectReply {
    ConnectReply { outer_null: false, inner_null: false }
}

fn raw_ok_result(buf: &[u8], rows: u64) -> RawResult {
    RawResult {
        buf: buf.to_vec(),
        rows_read: rows,
        bytes_read: buf.len() as u64,
        elapsed_nanos: 1_000,
        error: None,
    }
}

#[test]
fn open_and_close_balance_the_ledger() {
    let mut l = Ledger::new();
    let conn = Connection::open_in_memory(&mut l, good_reply()).unwrap();
    assert_eq!((l.created, l.released), (1, 0));
    conn.close(&mut l);
    assert_eq!((l.created, l.released), (1, 1));
}

#[test]
fn null_outer_handle_fails_without_leak() {
    let mut l = Ledger::new();
    let r = Connection::open_in_memory(
        &mut l,
        ConnectReply { outer_null: true, inner_null: true },
    );
    assert_eq!(r.unwrap_err(), Error::ConnectionFailed);
    assert_eq!((l.created, l.released), (0, 0));
}

#[test]
fn null_inner_handle_fails_and_releases_the_partial_handle() {
    let mut l = Ledger::new();
    let r = Connection::open_in_memory(
        &mut l,
        ConnectReply { outer_null: false, inner_null: true },
    );
    assert_eq!(r.unwrap_err(), Error::ConnectionFailed);
    assert_eq!((l.created, l.released), (1, 1));
}

#[test]
fn terminator_in_path_fails_before_any_native_call() {
    let mut l = Ledger::new();
    let r = Connection::open_with_path(&mut l, "/tmp/\0data", good_reply());
    assert_eq!(r.unwrap_err(), Error::EncodingError);
    assert_eq!((l.created, l.released), (0, 0));
}

#[test]
fn terminator_in_argv_string_fails_before_any_native_call() {
    let mut l = Ledger::new();
    let args = vec!["clickhouse".to_string(), "--path=/tmp/\0x".to_string()];
    let r = Connection::open(&mut l, &args, good_reply());
    assert_eq!(r.unwrap_err(), Error::EncodingError);
    assert_eq!((l.created, l.released), (0, 0));
}

#[test]
fn null_result_pointer_is_no_result() {
    let mut l = Ledger::new();
    let conn = Connection::open_in_memory(&mut l, good_reply()).unwrap();
    let r = conn.query(&mut l, "SELECT 1", OutputFormat::TabSeparated, None);
    assert_eq!(r.unwrap_err(), Error::NoResult);
    conn.close(&mut l);
    assert_eq!((l.created, l.released), (1, 1));
}

#[test]
fn native_error_slot_surfaces_verbatim_and_releases_the_handle() {
    let mut l = Ledger::new();
    let conn = Connection::open_in_memory(&mut l, good_reply()).unwrap();
    let raw = RawResult {
        buf: Vec::new(),
        rows_read: 0,
        bytes_read: 0,
        elapsed_nanos: 0,
        error: Some("Syntax error: failed at position 15".to_string()),
    };
    let r = conn.query(&mut l, "SELECT * FROM WHERE invalid", OutputFormat::CSV, Some(raw));
    assert_eq!(
        r.unwrap_err(),
        Error::QueryError("Syntax error: failed at position 15".to_string())
    );
    // the result handle was created and released exactly once
    assert_eq!((l.created, l.released), (2, 1));
    conn.close(&mut l);
    assert_eq!((l.created, l.released), (2, 2));
}

#[test]
fn empty_error_slot_means_success() {
    let mut l = Ledger::new();
    let conn = Connection::open_in_memory(&mut l, good_reply()).unwrap();
    let mut raw = raw_ok_result(b"1\n", 1);
    raw.error = Some(String::new());
    let result = conn.query(&mut l, "SELECT 1", OutputFormat::TabSeparated, Some(raw)).unwrap();
    assert_eq!(result.rows_read(), 1);
    result.destroy(&mut l);
    conn.close(&mut l);
    assert_eq!((l.created, l.released), (2, 2));
}

#[test]
fn rows_read_is_reported_exactly() {
    let mut l = Ledger::new();
    let raw = raw_ok_result(b"", 100);
    let r = execute(
        &mut l,
        "SELECT number FROM numbers(100)",
        None,
        good_reply(),
        Some(raw),
    )
    .unwrap();
    assert_eq!(r.rows_read(), 100);
    r.destroy(&mut l);
}

#[test]
fn execute_success_path_balances_after_destroy() {
    let mut l = Ledger::new();
    let raw = raw_ok_result(b"2\n", 1);
    let r = execute(&mut l, "SELECT 1+1 AS sum", None, good_reply(), Some(raw)).unwrap();
    // the connection handle was closed inside execute; only the result is live
    assert_eq!((l.created, l.released), (2, 1));
    r.destroy(&mut l);
    assert_eq!((l.created, l.released), (2, 2));
}

#[test]
fn execute_failure_paths_balance_the_ledger() {
    // native-reported failure
    let mut l = Ledger::new();
    let raw = RawResult {
        buf: Vec::new(),
        rows_read: 0,
        bytes_read: 0,
        elapsed_nanos: 0,
        error: Some("Unknown table 't'".to_string()),
    };
    let r = execute(&mut l, "SELECT * FROM t", None, good_reply(), Some(raw));
    assert_eq!(r.unwrap_err(), Error::QueryError("Unknown table 't'".to_string()));
    assert_eq!(l.created, l.released);

    // encoding failure: no native query call happens
    let mut l2 = Ledger::new();
    let r2 = execute(&mut l2, "SELECT \0", None, good_reply(), None);
    assert_eq!(r2.unwrap_err(), Error::EncodingError);
    assert_eq!(l2.created, l2.released);

    // connect failure
    let mut l3 = Ledger::new();
    let r3 = execute(
        &mut l3,
        "SELECT 1",
        None,
        ConnectReply { outer_null: true, inner_null: false },
        None,
    );
    assert_eq!(r3.unwrap_err(), Error::ConnectionFailed);
    assert_eq!(l3.created, l3.released);
}
