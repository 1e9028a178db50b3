use common::error::ErrorKind;
use common::infra::event::{save_failed, search_failed, search_statement, INSERT_EVENT};

#[test]
fn search_without_filters_has_no_where() {
    let (text, params) = search_statement::<&str>(None, None, None, None);
    assert_eq!(text, "SELECT * FROM events ORDER BY timestamp ASC");
    assert!(params.is_empty());
}

#[test]
fn search_with_every_filter() {
    let (text, params) = search_statement(Some("t"), Some("c"), Some("from"), Some("to"));
    assert_eq!(
        text,
        "SELECT * FROM events WHERE topic = $1 AND code = $2 AND timestamp >= $3 \
         AND timestamp <= $4 ORDER BY timestamp ASC"
    );
    assert_eq!(params, vec!["t", "c", "from", "to"]);
}

#[test]
fn search_numbers_only_the_filters_that_apply() {
    let (text, params) = search_statement(Some(1), None, Some(3), None);
    assert_eq!(
        text,
        "SELECT * FROM events WHERE topic = $1 AND timestamp >= $2 ORDER BY timestamp ASC"
    );
    assert_eq!(params, vec![1, 3]);

    let (text, params) = search_statement(None, Some(2), None, Some(4));
    assert_eq!(
        text,
        "SELECT * FROM events WHERE code = $1 AND timestamp <= $2 ORDER BY timestamp ASC"
    );
    assert_eq!(params, vec![2, 4]);

    let (text, params) = search_statement(None, None, None, Some(4));
    assert_eq!(
        text,
        "SELECT * FROM events WHERE timestamp <= $1 ORDER BY timestamp ASC"
    );
    assert_eq!(params, vec![4]);
}

#[test]
fn insert_statement_binds_five_values() {
    assert_eq!(
        INSERT_EVENT,
        "INSERT INTO events (id, topic, code, timestamp, payload) VALUES ($1, $2, $3, $4, $5)"
    );
}

#[test]
fn search_failed_is_not_found_with_the_cause() {
    let err = search_failed("relation does not exist");
    assert_eq!(*err.kind(), ErrorKind::Application);
    assert_eq!(err.path(), "event");
    assert_eq!(err.code(), "not_found");
    assert_eq!(err.status(), Some(404));
    let cause = err.cause().unwrap();
    assert_eq!(cause.code(), "raw");
    assert_eq!(cause.message().unwrap(), "relation does not exist");
}

#[test]
fn save_failed_is_create_with_the_cause() {
    let err = save_failed("duplicate key");
    assert_eq!(*err.kind(), ErrorKind::Application);
    assert_eq!(err.path(), "event");
    assert_eq!(err.code(), "create");
    assert_eq!(err.status(), None);
    let cause = err.cause().unwrap();
    assert_eq!(*cause.kind(), ErrorKind::Internal);
    assert_eq!(cause.code(), "raw");
    assert_eq!(cause.message().unwrap(), "duplicate key");
}
