//! Conversions from the failures of the libraries that the services call.
//!
//! A foreign failure never travels upward as it is. Each conversion gives it
//! the uniform shape of an [`Error`] and keeps the text that the foreign value
//! renders, as the message of a raw cause.

use crate::error::{Error, ErrorKind, ErrorView};
use redis::RedisError;
use serde_json::Error as JsonError;
use tokio_postgres::Error as PgError;
use vstd::prelude::*;
use vstd::std_specs::convert::FromSpecImpl;

verus! {

/// `deadpool::managed::PoolError<E>`, the reason for which a pool handed out
/// no connection. Nothing is read from it but its rendering.
#[verifier::external_type_specification]
#[verifier::external_body]
#[verifier::reject_recursive_types(E)]
pub struct ExPoolError<E>(deadpool::managed::PoolError<E>);

/// `redis::RedisError`, a failed cache operation. Nothing is read from it but
/// its rendering.
#[verifier::external_type_specification]
#[verifier::external_body]
pub struct ExRedisError(RedisError);

/// The error type of `tokio_postgres`, a failed operation on the relational
/// store. Nothing is read from it but its rendering.
#[verifier::external_type_specification]
#[verifier::external_body]
pub struct ExPgError(PgError);

/// The error type of `serde_json`, a value that could not be written or
/// read. Nothing is read from it but its rendering.
#[verifier::external_type_specification]
#[verifier::external_body]
pub struct ExJsonError(JsonError);

/// No connection to the cache could be had from the pool: internal,
/// `redis`/`pool`, caused by the pool's failure.
impl From<deadpool_redis::PoolError> for Error {
    fn from(err: deadpool_redis::PoolError) -> (result: Error)
        ensures
            result@.wraps_rendering(ErrorView::internal("redis"@, "pool"@), &err),
    {
        Error::internal("redis", "pool").wrap_raw(err)
    }
}

/// What a foreign failure renders is no function of a value that the
/// verifier sees, so no spec function gives the converted error: `from` states
/// it in its own `ensures`.
impl FromSpecImpl<deadpool_redis::PoolError> for Error {
    open spec fn obeys_from_spec() -> bool {
        false
    }

    open spec fn from_spec(err: deadpool_redis::PoolError) -> Error {
        arbitrary()
    }
}

/// A cache operation failed: internal, `redis`/`unknown`, caused by the
/// cache's failure.
impl From<RedisError> for Error {
    fn from(err: RedisError) -> (result: Error)
        ensures
            result@.wraps_rendering(ErrorView::internal("redis"@, "unknown"@), &err),
    {
        Error::internal("redis", "unknown").wrap_raw(err)
    }
}

impl FromSpecImpl<RedisError> for Error {
    open spec fn obeys_from_spec() -> bool {
        false
    }

    open spec fn from_spec(err: RedisError) -> Error {
        arbitrary()
    }
}

/// An operation on the relational store failed: internal, `db`/`operation`,
/// caused by the store's failure.
impl From<PgError> for Error {
    fn from(err: PgError) -> (result: Error)
        ensures
            result@.wraps_rendering(ErrorView::internal("db"@, "operation"@), &err),
    {
        Error::internal("db", "operation").wrap_raw(err)
    }
}

impl FromSpecImpl<PgError> for Error {
    open spec fn obeys_from_spec() -> bool {
        false
    }

    open spec fn from_spec(err: PgError) -> Error {
        arbitrary()
    }
}

/// No connection to the relational store could be had from the pool:
/// internal, `db`/`pool`, caused by the pool's failure.
impl From<deadpool_postgres::PoolError> for Error {
    fn from(err: deadpool_postgres::PoolError) -> (result: Error)
        ensures
            result@.wraps_rendering(ErrorView::internal("db"@, "pool"@), &err),
    {
        Error::internal("db", "pool").wrap_raw(err)
    }
}

impl FromSpecImpl<deadpool_postgres::PoolError> for Error {
    open spec fn obeys_from_spec() -> bool {
        false
    }

    open spec fn from_spec(err: deadpool_postgres::PoolError) -> Error {
        arbitrary()
    }
}

/// A value could not be written as JSON or read from it: an application
/// error, `json`/`error`, caused by the serializer's failure.
impl From<JsonError> for Error {
    fn from(err: JsonError) -> (result: Error)
        ensures
            result@.wraps_rendering(ErrorView::new("json"@, "error"@), &err),
    {
        Error::new("json", "error").wrap_raw(err)
    }
}

impl FromSpecImpl<JsonError> for Error {
    open spec fn obeys_from_spec() -> bool {
        false
    }

    open spec fn from_spec(err: JsonError) -> Error {
        arbitrary()
    }
}

/// The code with which the messaging provider reports a failure.
#[derive(Debug)]
pub enum SmsFailureCode {
    /// The provider refused the input.
    Invalid,
    /// Any other code, in its textual form.
    Other(String),
}

/// A failure of the messaging provider, as the plain values that the
/// conversion reads: the provider's code, its status and its message.
#[derive(Debug)]
pub struct SmsFailure {
    pub code: SmsFailureCode,
    pub status: u16,
    pub message: String,
}

impl SmsFailure {
    /// The error that the failure becomes. Refused input is the caller's
    /// doing: an application error `sms`/`invalid`. Any other code is an
    /// internal error without a path, whose code is the provider's. Both carry
    /// the provider's status and message, and neither has context or cause.
    pub open spec fn to_error(self) -> ErrorView {
        match self.code {
            SmsFailureCode::Invalid => ErrorView::new("sms"@, "invalid"@).set_status(
                self.status,
            ).set_message(self.message@),
            SmsFailureCode::Other(code) => ErrorView::bare(
                ErrorKind::Internal,
                Seq::empty(),
                code@,
            ).set_status(self.status).set_message(self.message@),
        }
    }
}

impl From<SmsFailure> for Error {
    fn from(err: SmsFailure) -> (result: Error)
        ensures
            result@ == err.to_error(),
    {
        match err.code {
            SmsFailureCode::Invalid => Error::new("sms", "invalid").set_status(
                err.status,
            ).set_message(err.message.as_str()),
            SmsFailureCode::Other(code) => Error::bare(
                ErrorKind::Internal,
                String::new(),
                code,
            ).set_status(err.status).set_message(err.message.as_str()),
        }
    }
}

impl FromSpecImpl<SmsFailure> for Error {
    open spec fn obeys_from_spec() -> bool {
        false
    }

    open spec fn from_spec(err: SmsFailure) -> Error {
        arbitrary()
    }
}

} // verus!
