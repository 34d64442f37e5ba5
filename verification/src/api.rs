use vstd::prelude::*;
use crate::store::DbError;

verus! {

/// Failures at the request/response boundary: a request the service
/// cannot parse, or a lookup it could not serve.
#[derive(Clone, Copy, Debug, PartialEq, Eq, Structural)]
pub enum ApiServerError {
    BadRequest,
    InternalServerError,
}

/// How a store error surfaces to a caller of the query service: a key
/// that was not found after the service's own bounded wait — any of
/// the four not-found kinds, the slot-index miss included — is a
/// server-side failure (the data should eventually exist); any other
/// store error is treated as a bad request.
pub open spec fn api_error_of_db_spec(e: DbError) -> ApiServerError {
    match e {
        DbError::BlockNotFound => ApiServerError::InternalServerError,
        DbError::SlotNotFound => ApiServerError::InternalServerError,
        DbError::TransactionNotFound => ApiServerError::InternalServerError,
        DbError::AccountNotFound => ApiServerError::InternalServerError,
        _ => ApiServerError::BadRequest,
    }
}

impl From<DbError> for ApiServerError {
    fn from(error: DbError) -> (r: Self) {
        match error {
            DbError::BlockNotFound => ApiServerError::InternalServerError,
            DbError::SlotNotFound => ApiServerError::InternalServerError,
            DbError::TransactionNotFound => ApiServerError::InternalServerError,
            DbError::AccountNotFound => ApiServerError::InternalServerError,
            _ => ApiServerError::BadRequest,
        }
    }
}

impl vstd::std_specs::convert::FromSpecImpl<DbError> for ApiServerError {
    open spec fn obeys_from_spec() -> bool {
        true
    }

    open spec fn from_spec(e: DbError) -> Self {
        api_error_of_db_spec(e)
    }
}

impl ApiServerError {
    /// The status code of the failure response this error maps to.
    pub fn status_code(&self) -> (s: u16)
        ensures
            s == (match *self {
                ApiServerError::BadRequest => 400u16,
                ApiServerError::InternalServerError => 500u16,
            }),
    {
        match self {
            ApiServerError::BadRequest => 400,
            ApiServerError::InternalServerError => 500,
        }
    }

    /// The body text of the failure response this error maps to.
    pub fn message(&self) -> (m: &'static str)
        ensures
            m@ == (match *self {
                ApiServerError::BadRequest => "Bad Request"@,
                ApiServerError::InternalServerError => "Internal Server Error"@,
            }),
    {
        match self {
            ApiServerError::BadRequest => "Bad Request",
            ApiServerError::InternalServerError => "Internal Server Error",
        }
    }
}

} // verus!
