use common::error::foreign::{SmsFailure, SmsFailureCode};
use common::error::{Error, ErrorKind};

fn assert_wraps(err: &Error, kind: ErrorKind, path: &str, code: &str, text: &str) {
    assert_eq!(*err.kind(), kind);
    assert_eq!(err.path(), path);
    assert_eq!(err.code(), code);
    assert_eq!(err.status(), None);
    assert_eq!(err.message(), None);
    assert!(!err.has_context());
    let cause = err.cause().unwrap();
    assert_eq!(*cause.kind(), ErrorKind::Internal);
    assert_eq!(cause.path(), "");
    assert_eq!(cause.code(), "raw");
    assert_eq!(cause.status(), None);
    assert_eq!(cause.message().unwrap(), text);
    assert!(!cause.has_context());
    assert!(cause.cause().is_none());
}

#[test]
fn redis_pool_failure_is_internal_redis_pool() {
    let failure = deadpool_redis::PoolError::Closed;
    let text = failure.to_string();
    assert_eq!(text, "Pool has been closed");
    let err = Error::from(failure);
    assert_wraps(&err, ErrorKind::Internal, "redis", "pool", &text);
}

#[test]
fn redis_pool_failure_of_the_backend_keeps_its_text() {
    let backend = redis::RedisError::from((redis::ErrorKind::Io, "broken pipe"));
    let failure = deadpool_redis::PoolError::Backend(backend);
    let text = failure.to_string();
    assert!(text.contains("broken pipe"));
    let err = Error::from(failure);
    assert_wraps(&err, ErrorKind::Internal, "redis", "pool", &text);
}

#[test]
fn redis_failure_is_internal_redis_unknown() {
    let failure = redis::RedisError::from((redis::ErrorKind::Io, "broken pipe"));
    let text = failure.to_string();
    assert!(text.contains("broken pipe"));
    let err = Error::from(failure);
    assert_wraps(&err, ErrorKind::Internal, "redis", "unknown", &text);
}

#[test]
fn store_failure_is_internal_db_operation() {
    let failure = "host=localhost port=none"
        .parse::<tokio_postgres::Config>()
        .unwrap_err();
    let text = failure.to_string();
    assert!(!text.is_empty());
    let err = Error::from(failure);
    assert_wraps(&err, ErrorKind::Internal, "db", "operation", &text);
}

#[test]
fn store_pool_failure_is_internal_db_pool() {
    let failure = deadpool_postgres::PoolError::Timeout(deadpool_postgres::TimeoutType::Wait);
    let text = failure.to_string();
    assert_eq!(
        text,
        "Timeout occurred while waiting for a slot to become available"
    );
    let err = Error::from(failure);
    assert_wraps(&err, ErrorKind::Internal, "db", "pool", &text);
}

#[test]
fn json_failure_is_an_application_error() {
    let failure = serde_json::from_str::<serde_json::Value>("{\"a\": ").unwrap_err();
    let text = failure.to_string();
    assert!(text.contains("line 1"));
    let err = Error::from(failure);
    assert_wraps(&err, ErrorKind::Application, "json", "error", &text);
}

#[test]
fn question_mark_converts_a_json_failure() {
    fn parse(text: &str) -> Result<serde_json::Value, Error> {
        let value = serde_json::from_str::<serde_json::Value>(text)?;
        Ok(value)
    }
    assert!(parse("[1, 2]").is_ok());
    let err = parse("[1, 2").unwrap_err();
    assert_eq!(err.path(), "json");
    assert_eq!(err.code(), "error");
}

#[test]
fn refused_sms_input_is_an_application_error() {
    let err = Error::from(SmsFailure {
        code: SmsFailureCode::Invalid,
        status: 400,
        message: "phone number is malformed".to_owned(),
    });
    assert_eq!(*err.kind(), ErrorKind::Application);
    assert_eq!(err.path(), "sms");
    assert_eq!(err.code(), "invalid");
    assert_eq!(err.status(), Some(400));
    assert_eq!(err.message().unwrap(), "phone number is malformed");
    assert!(!err.has_context());
    assert!(err.cause().is_none());
}

#[test]
fn other_sms_failure_is_internal_with_the_providers_code() {
    let err = Error::from(SmsFailure {
        code: SmsFailureCode::Other("rate_limited".to_owned()),
        status: 429,
        message: "too many messages".to_owned(),
    });
    assert_eq!(*err.kind(), ErrorKind::Internal);
    assert_eq!(err.path(), "");
    assert_eq!(err.code(), "rate_limited");
    assert_eq!(err.status(), Some(429));
    assert_eq!(err.message().unwrap(), "too many messages");
    assert!(!err.has_context());
    assert!(err.cause().is_none());
}
