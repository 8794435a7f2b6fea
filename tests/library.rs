use sqlite_raw::cstring::{encode_c_string, encode_passphrase, native_len};
use sqlite_raw::error::{ConnectionError, DatabaseErrorKind, QueryError};
use sqlite_raw::establish::{Establishment, NativeCall, Stage, BUSY_TIMEOUT};
use sqlite_raw::status::{close_outcome, ensure_status_code_ok, exec_result, CloseOutcome};
use sqlite_raw::table::dump_table;
use sqlite_raw::target::ConnectionTarget;
use sqlite_raw::SQLITE_OK;

fn cell(s: &str) -> Option<String> {
    Some(s.to_string())
}

#[test]
fn dump_table_renders_rows_and_nulls() {
    let cells = vec![cell("a"), cell("b"), cell("1"), cell("2"), None, cell("4")];
    assert_eq!(dump_table(&cells, 2, 2, ","), "1,2\nNULL,4");
}

#[test]
fn dump_table_keeps_empty_apart_from_null() {
    let cells = vec![cell("a"), cell("b"), cell(""), None];
    assert_eq!(dump_table(&cells, 1, 2, "|"), "|NULL");
}

#[test]
fn dump_table_without_rows_is_empty() {
    let cells = vec![cell("a"), cell("b")];
    assert_eq!(dump_table(&cells, 0, 2, ","), "");
}

#[test]
fn dump_table_multi_character_delimiter() {
    let cells = vec![cell("x"), cell("y"), cell("z"), cell("1"), cell("2"), cell("3")];
    assert_eq!(dump_table(&cells, 1, 3, " | "), "1 | 2 | 3");
}

#[test]
fn dump_table_single_column() {
    let cells = vec![cell("h"), None, cell("b"), cell("c")];
    assert_eq!(dump_table(&cells, 3, 1, ","), "NULL\nb\nc");
}

#[test]
fn encode_appends_terminator() {
    assert_eq!(encode_c_string("abc"), Ok(vec![97u8, 98, 99, 0]));
    assert_eq!(encode_c_string(""), Ok(vec![0u8]));
    assert_eq!(encode_c_string("é"), Ok(vec![0xc3u8, 0xa9, 0]));
}

#[test]
fn encode_refuses_embedded_terminator() {
    assert_eq!(encode_c_string("a\0b\0"), Err(1));
    assert_eq!(encode_c_string("é\0"), Err(2));
}

#[test]
fn passphrase_with_terminator_is_refused() {
    assert_eq!(encode_passphrase("se\0cret"), Err(QueryError::InvalidCString(2)));
    assert_eq!(encode_passphrase("secret"), Ok(b"secret\0".to_vec()));
}

#[test]
fn native_len_counts_terminator() {
    assert_eq!(native_len(&b"123\0".to_vec()), 4);
}

#[test]
fn parse_url_with_key() {
    let t = ConnectionTarget::parse("sqlite:db.db?key=123").unwrap();
    assert_eq!(t.scheme, "sqlite");
    assert_eq!(t.path, "db.db");
    assert_eq!(t.key(), Some("123"));
}

#[test]
fn parse_url_last_key_wins() {
    let t = ConnectionTarget::parse("sqlite:db.db?key=a&mode=ro&key=b").unwrap();
    assert_eq!(t.key(), Some("b"));
    let t = ConnectionTarget::parse("sqlite:db.db?mode=ro").unwrap();
    assert_eq!(t.key(), None);
}

#[test]
fn parse_url_wrong_scheme() {
    assert_eq!(
        ConnectionTarget::parse("postgres://localhost/db").err(),
        Some(ConnectionError::InvalidConnectionUrl("postgres://localhost/db".to_string()))
    );
}

#[test]
fn parse_url_not_a_url() {
    assert_eq!(
        ConnectionTarget::parse("db.db").err(),
        Some(ConnectionError::InvalidConnectionUrl("db.db".to_string()))
    );
}

#[test]
fn establish_wrong_scheme_fails_first() {
    assert_eq!(
        Establishment::for_url("mysql:db.db?key=a%00b").err(),
        Some(ConnectionError::InvalidConnectionUrl("mysql:db.db?key=a%00b".to_string()))
    );
}

#[test]
fn establish_without_key_applies_none() {
    let mut e = Establishment::for_url("sqlite:db.db").unwrap();
    assert_eq!(e.path, b"db.db\0".to_vec());
    assert!(e.passphrase.is_none());
    assert_eq!(e.stage, Stage::Opening);
    assert_eq!(e.next_call(), NativeCall::Open);
    e.record_status(SQLITE_OK);
    assert_eq!(e.next_call(), NativeCall::BusyTimeout(BUSY_TIMEOUT));
    assert_eq!(BUSY_TIMEOUT, 5000);
    e.record_status(SQLITE_OK);
    assert_eq!(e.stage, Stage::Ready);
    assert_eq!(e.next_call(), NativeCall::Done);
}

#[test]
fn establish_with_key_applies_it() {
    let mut e = Establishment::for_url("sqlite:db.db?key=123").unwrap();
    assert_eq!(e.passphrase, Some(b"123\0".to_vec()));
    e.record_status(SQLITE_OK);
    e.record_status(SQLITE_OK);
    assert_eq!(e.next_call(), NativeCall::Key);
    e.record_status(SQLITE_OK);
    assert_eq!(e.stage, Stage::Ready);
}

#[test]
fn establish_key_with_terminator_fails() {
    assert_eq!(
        Establishment::for_url("sqlite:db.db?key=a%00b").err(),
        Some(ConnectionError::InvalidCString(1))
    );
    assert_eq!(
        Establishment::for_path("db.db", Some("pass\0")).err(),
        Some(ConnectionError::InvalidCString(4))
    );
    assert_eq!(
        Establishment::for_path("d\0b", Some("pass\0")).err(),
        Some(ConnectionError::InvalidCString(1))
    );
}

#[test]
fn establish_failure_closes_once() {
    let mut e = Establishment::for_path("/no/such/dir/db", Some("k")).unwrap();
    e.record_status(SQLITE_OK);
    e.record_status(5);
    assert_eq!(e.stage, Stage::Closing(5));
    assert_eq!(e.next_call(), NativeCall::Close);
    e.record_status(SQLITE_OK);
    assert_eq!(e.stage, Stage::Failed(5));
    assert_eq!(e.next_call(), NativeCall::Done);
    e.record_status(SQLITE_OK);
    assert_eq!(e.next_call(), NativeCall::Done);
}

#[test]
fn open_failure_releases_handle() {
    let mut e = Establishment::for_path("db.db", None).unwrap();
    e.record_status(14);
    assert_eq!(e.next_call(), NativeCall::Close);
    e.record_status(SQLITE_OK);
    assert_eq!(e.stage, Stage::Failed(14));
}

#[test]
fn status_translation() {
    assert_eq!(ensure_status_code_ok(SQLITE_OK, "not an error"), Ok(()));
    assert_eq!(
        ensure_status_code_ok(14, "unable to open database file"),
        Err(ConnectionError::BadConnection("unable to open database file".to_string()))
    );
}

#[test]
fn exec_result_translation() {
    assert_eq!(exec_result(None), Ok(()));
    let msg = "near \"SELEC\": syntax error".to_string();
    assert_eq!(
        exec_result(Some(msg.clone())),
        Err(QueryError::DatabaseError(DatabaseErrorKind::Unknown, msg))
    );
}

#[test]
fn close_outcomes() {
    assert_eq!(close_outcome(SQLITE_OK, false), CloseOutcome::Closed);
    assert_eq!(close_outcome(SQLITE_OK, true), CloseOutcome::Closed);
    assert_eq!(close_outcome(5, false), CloseOutcome::Fatal(5));
    assert_eq!(close_outcome(5, true), CloseOutcome::Diagnostic(5));
}
