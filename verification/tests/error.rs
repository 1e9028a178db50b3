use common::error::{Error, ErrorKind};
use std::error;
use std::fmt;

#[test]
fn basic() {
    let err = Error::new("my.path", "code")
        .set_message("message")
        .set_status(404)
        .add_context("k1", "v1")
        .add_context("k2", "v2")
        .add_context("k2", "v3");
    assert_eq!(err.code(), "code");
    assert_eq!(err.message().unwrap(), "message");
    assert_eq!(err.path(), "my.path");
    assert_eq!(err.status().unwrap(), 404);
    assert_eq!(err.context().len(), 2);
    assert_eq!(err.context().get("k1").unwrap(), "v1");
    assert_eq!(err.context().get("k2").unwrap(), "v3");
}

#[derive(Debug, Clone)]
struct StringError {
    error: String,
}

impl fmt::Display for StringError {
    fn fmt(&self, f: &mut fmt::Formatter) -> fmt::Result {
        f.write_str(&self.error)
    }
}

impl error::Error for StringError {}

#[test]
fn wrap() {
    let raw_err = StringError {
        error: "raw_err".to_owned(),
    };
    let inner_err = Error::new("inner", "inner").wrap_raw(raw_err.clone());
    let outer_err = Error::new("outer", "outer")
        .set_code("outer")
        .wrap(inner_err.clone());

    assert_eq!(
        inner_err.cause().unwrap().message().unwrap(),
        &raw_err.error
    );
    assert_eq!(outer_err.cause().unwrap(), &inner_err);
}

#[test]
fn merge() {
    let mut err1 = Error::internal("err1", "err1");
    err1 = err1.add_context("e1-key1", "value1");
    err1 = err1.add_context("e1-key2", "value2");

    let mut err2 = Error::internal("err2", "err2");
    err2 = err2.add_context("e2-key", "value");
    err2 = err2.merge(err1);

    let mut err3 = Error::new("err3", "err3");
    err3 = err3.add_context("e1-key1", "value");
    err3 = err3.add_context("e3-key", "value");
    err3 = err3.merge(err2);

    assert_eq!(err3.context().len(), 6);
    assert_eq!(err3.context().get("err1"), Some(&"err1".to_owned()));
    assert_eq!(err3.context().get("err2"), Some(&"err2".to_owned()));
    assert_eq!(err3.context().get("e1-key1"), Some(&"value1".to_owned()));
    assert_eq!(err3.context().get("e1-key2"), Some(&"value2".to_owned()));
    assert_eq!(err3.context().get("e2-key"), Some(&"value".to_owned()));
    assert_eq!(err3.context().get("e3-key"), Some(&"value".to_owned()));
}

#[test]
fn kind_of_new_and_internal() {
    assert_eq!(*Error::new("p", "c").kind(), ErrorKind::Application);
    assert_eq!(*Error::internal("p", "c").kind(), ErrorKind::Internal);
}

#[test]
fn new_is_a_bare_application_error() {
    let err = Error::new("user", "locked");
    assert_eq!(*err.kind(), ErrorKind::Application);
    assert_eq!(err.path(), "user");
    assert_eq!(err.code(), "locked");
    assert_eq!(err.status(), None);
    assert_eq!(err.message(), None);
    assert_eq!(err.context().len(), 0);
    assert!(!err.has_context());
    assert!(err.cause().is_none());
}

#[test]
fn internal_is_a_bare_internal_error() {
    let err = Error::internal("db", "timeout");
    assert_eq!(*err.kind(), ErrorKind::Internal);
    assert_eq!(err.path(), "db");
    assert_eq!(err.code(), "timeout");
    assert_eq!(err.status(), None);
    assert_eq!(err.message(), None);
    assert!(!err.has_context());
    assert!(err.cause().is_none());
}

fn assert_factory(err: Error, path: &str, code: &str, status: u16) {
    assert_eq!(*err.kind(), ErrorKind::Application);
    assert_eq!(err.path(), path);
    assert_eq!(err.code(), code);
    assert_eq!(err.status(), Some(status));
    assert_eq!(err.message(), None);
    assert!(!err.has_context());
    assert!(err.cause().is_none());
}

#[test]
fn not_found_is_404() {
    assert_factory(Error::not_found("user"), "user", "not_found", 404);
}

#[test]
fn unauthorized_is_401_at_authorization() {
    assert_factory(Error::unauthorized(), "authorization", "unauthorized", 401);
}

#[test]
fn forbidden_is_403() {
    assert_factory(Error::forbidden("publication"), "publication", "forbidden", 403);
}

#[test]
fn bad_format_is_400() {
    assert_factory(Error::bad_format("email"), "email", "bad_format", 400);
}

#[test]
fn invalid_is_422() {
    assert_factory(Error::invalid("password"), "password", "invalid", 422);
}

#[test]
fn conflict_is_409() {
    assert_factory(Error::conflict("username"), "username", "conflict", 409);
}

#[test]
fn not_owner_is_401() {
    assert_factory(Error::not_owner("collection"), "collection", "not_owner", 401);
}

#[test]
fn setters_overwrite_their_field_only() {
    let err = Error::new("a", "b")
        .set_status(400)
        .set_message("first")
        .set_path("c")
        .set_code("d")
        .set_status(500)
        .set_message("second");
    assert_eq!(*err.kind(), ErrorKind::Application);
    assert_eq!(err.path(), "c");
    assert_eq!(err.code(), "d");
    assert_eq!(err.status(), Some(500));
    assert_eq!(err.message().unwrap(), "second");
    assert!(!err.has_context());
}

#[test]
fn add_context_with_one_key_twice_keeps_one_entry() {
    let err = Error::new("p", "c").add_context("k", "v1").add_context("k", "v2");
    assert!(err.has_context());
    assert_eq!(err.context().len(), 1);
    assert_eq!(err.context().get("k").unwrap(), "v2");
    assert_eq!(err.context().get("other"), None);
}

#[test]
fn equality_ignores_kind_message_context_and_cause() {
    let plain = Error::new("path", "code").set_status(404);
    let decorated = Error::internal("path", "code")
        .set_status(404)
        .set_message("message")
        .add_context("k", "v")
        .wrap(Error::new("inner", "inner"));
    assert_eq!(plain, decorated);
    assert_eq!(decorated, plain);
    assert_eq!(Error::new("path", "code"), Error::internal("path", "code"));
}

#[test]
fn equality_needs_code_path_and_status() {
    let err = Error::new("path", "code").set_status(404);
    assert_ne!(err, Error::new("path", "other").set_status(404));
    assert_ne!(err, Error::new("other", "code").set_status(404));
    assert_ne!(err, Error::new("path", "code").set_status(400));
    assert_ne!(err, Error::new("path", "code"));
    assert_ne!(Error::new("ab", "c"), Error::new("a", "bc"));
}

#[test]
fn wrap_raw_makes_a_minimal_internal_cause() {
    let raw_err = StringError {
        error: "connection refused".to_owned(),
    };
    let err = Error::new("outer", "failed")
        .set_status(500)
        .wrap_raw(raw_err.clone());
    assert_eq!(*err.kind(), ErrorKind::Application);
    assert_eq!(err.path(), "outer");
    assert_eq!(err.code(), "failed");
    assert_eq!(err.status(), Some(500));
    let cause = err.cause().unwrap();
    assert_eq!(*cause.kind(), ErrorKind::Internal);
    assert_eq!(cause.code(), "raw");
    assert_eq!(cause.path(), "");
    assert_eq!(cause.status(), None);
    assert_eq!(cause.message(), Some(&raw_err.to_string()));
    assert!(!cause.has_context());
    assert!(cause.cause().is_none());
}

#[test]
fn wrap_str_renders_what_it_is_given() {
    let from_slice = Error::new("p", "c").wrap_str("plain text");
    assert_eq!(from_slice.cause().unwrap().message().unwrap(), "plain text");
    let number: u32 = 1234;
    let from_number = Error::new("p", "c").wrap_str(&number);
    let cause = from_number.cause().unwrap();
    assert_eq!(cause.message().unwrap(), "1234");
    assert_eq!(*cause.kind(), ErrorKind::Internal);
    assert_eq!(cause.code(), "raw");
    assert_eq!(cause.path(), "");
    let owned = "owned text".to_owned();
    let from_string = Error::new("p", "c").wrap_str(&owned);
    assert_eq!(from_string.cause().unwrap().message().unwrap(), "owned text");
}

#[test]
fn wrap_replaces_an_earlier_cause() {
    let err = Error::new("outer", "outer")
        .wrap(Error::new("first", "first"))
        .wrap(Error::new("second", "second").wrap(Error::new("deep", "deep")));
    let cause = err.cause().unwrap();
    assert_eq!(cause.path(), "second");
    assert_eq!(cause.cause().unwrap().path(), "deep");
    assert!(cause.cause().unwrap().cause().is_none());
    let rewrapped = err.wrap_str("text");
    assert_eq!(rewrapped.cause().unwrap().code(), "raw");
    assert!(rewrapped.cause().unwrap().cause().is_none());
}

#[test]
fn merge_takes_breadcrumb_and_context_and_nothing_else() {
    let other = Error::internal("cache", "miss")
        .set_status(503)
        .set_message("gone")
        .add_context("shard", "7")
        .wrap(Error::new("deep", "deep"));
    let err = Error::new("user", "load")
        .set_status(404)
        .add_context("id", "42")
        .merge(other);
    assert_eq!(*err.kind(), ErrorKind::Application);
    assert_eq!(err.path(), "user");
    assert_eq!(err.code(), "load");
    assert_eq!(err.status(), Some(404));
    assert_eq!(err.message(), None);
    assert!(err.cause().is_none());
    assert_eq!(err.context().len(), 3);
    assert_eq!(err.context().get("id").unwrap(), "42");
    assert_eq!(err.context().get("cache").unwrap(), "miss");
    assert_eq!(err.context().get("shard").unwrap(), "7");
}

#[test]
fn merge_lets_the_merged_context_overwrite() {
    let other = Error::new("id", "taken").add_context("id", "from-context");
    let err = Error::new("user", "save")
        .add_context("id", "before")
        .merge(other);
    assert_eq!(err.context().len(), 1);
    assert_eq!(err.context().get("id").unwrap(), "from-context");

    let breadcrumb = Error::new("user", "save")
        .add_context("id", "before")
        .merge(Error::new("id", "taken"));
    assert_eq!(breadcrumb.context().len(), 1);
    assert_eq!(breadcrumb.context().get("id").unwrap(), "taken");
}

#[test]
fn clone_copies_the_whole_chain() {
    let err = Error::internal("a", "b")
        .set_status(500)
        .set_message("m")
        .add_context("k", "v")
        .wrap(Error::new("c", "d").add_context("x", "y").wrap_str("text"));
    let copy = err.clone();
    assert_eq!(*copy.kind(), ErrorKind::Internal);
    assert_eq!(copy.path(), "a");
    assert_eq!(copy.code(), "b");
    assert_eq!(copy.status(), Some(500));
    assert_eq!(copy.message().unwrap(), "m");
    assert_eq!(copy.context().get("k").unwrap(), "v");
    let cause = copy.cause().unwrap();
    assert_eq!(cause.path(), "c");
    assert_eq!(cause.context().get("x").unwrap(), "y");
    assert_eq!(cause.cause().unwrap().message().unwrap(), "text");
}

#[test]
fn error_kind_renders_in_lower_case() {
    assert_eq!(ErrorKind::Internal.to_string(), "internal");
    assert_eq!(ErrorKind::Application.to_string(), "application");
}

#[test]
fn debug_form_shows_every_field() {
    let text = format!("{:?}", Error::new("the-path", "the-code").set_status(418));
    assert!(text.contains("Application"));
    assert!(text.contains("the-path"));
    assert!(text.contains("the-code"));
    assert!(text.contains("418"));
}
