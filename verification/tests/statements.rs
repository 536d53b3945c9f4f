use coordinator::format_cell;
use coordinator::resolve_worker_count;
use coordinator::transaction_closes;
use coordinator::ErrorCode;
use coordinator::QueryError;
use coordinator::State;
use coordinator::Statements;

fn begin_batch() -> Statements {
    Statements::new("BEGIN;".to_string(), State::TxnOpened, State::TxnOpened)
}

fn commit_batch() -> Statements {
    Statements::new("COMMIT;".to_string(), State::Invalid, State::TxnClosed)
}

#[test]
fn state_transition_function() {
    let b = begin_batch();
    assert_eq!(b.state(State::Start), State::TxnOpened);
    assert_eq!(b.state(State::TxnOpened), State::TxnOpened);
    assert_eq!(b.state(State::TxnClosed), State::Invalid);
    assert_eq!(b.state(State::Invalid), State::Invalid);
    let c = commit_batch();
    assert_eq!(c.state(State::Start), State::Invalid);
    assert_eq!(c.state(State::TxnOpened), State::TxnClosed);
}

#[test]
fn closing_requires_success() {
    let c = commit_batch();
    assert!(transaction_closes(&c, true));
    assert!(!transaction_closes(&c, false));
    let b = begin_batch();
    assert!(!transaction_closes(&b, true));
    assert!(!transaction_closes(&b, false));
}

#[test]
fn worker_count_resolution() {
    assert_eq!(resolve_worker_count(3, 8), 3);
    assert_eq!(resolve_worker_count(1, 8), 1);
    assert_eq!(resolve_worker_count(0, 8), 8);
    assert_eq!(resolve_worker_count(0, 1), 1);
}

#[test]
fn cell_formatting() {
    let line = format_cell(&"x".to_string(), &"1".to_string());
    assert_eq!(line, "x = 1".to_string());
    let line = format_cell(&"name".to_string(), &"".to_string());
    assert_eq!(line, "name = ".to_string());
}

#[test]
fn query_error_fields() {
    let e = QueryError::new(ErrorCode::SQLError, "no such table".to_string());
    assert_eq!(e.code, ErrorCode::SQLError);
    assert_eq!(e.message(), &"no such table".to_string());
}
