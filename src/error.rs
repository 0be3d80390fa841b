//! The store's error kinds, the two classes shown at the boundary, and the
//! translation of storage-native failures into the store's kinds.

use vstd::prelude::*;

verus! {

/// What a store operation can fail with.
#[derive(Clone, Debug, PartialEq, Eq)]
pub enum DbError {
    /// An identifier failed canonical-format validation; holds the raw text.
    InvalidIdentifier(String),
    /// The storage refused a write that breaks a data-integrity rule.
    ConstraintViolation(String),
    /// Any other storage failure; the detail is for logs only.
    StorageFailure(String),
}

/// What the orchestration layer reports to the boundary.
#[derive(Clone, Debug, PartialEq, Eq)]
pub enum HandlerError {
    BadRequest(String),
    InternalError(String),
}

/// The error rendered by the HTTP boundary: `BadRequest` as status 400,
/// `InternalError` as status 500.
#[derive(Clone, Debug, PartialEq, Eq)]
pub enum APIError {
    BadRequest(String),
    InternalError(String),
}

/// The fixed text of every internal error shown at the boundary; the
/// store's own detail stays behind it.
pub const INTERNAL_ERROR_MESSAGE: &'static str = "internal error";

/// `h` is what the boundary is shown for the store error `e`: an identifier
/// error as a bad request with the offending text, anything else as an
/// internal error with the fixed text.
pub open spec fn shown_as(e: DbError, h: HandlerError) -> bool {
    match e {
        DbError::InvalidIdentifier(s) => h == HandlerError::BadRequest(s),
        _ => h is InternalError && h->InternalError_0@ == INTERNAL_ERROR_MESSAGE@,
    }
}

pub open spec fn api_error_of(e: HandlerError) -> APIError {
    match e {
        HandlerError::BadRequest(s) => APIError::BadRequest(s),
        HandlerError::InternalError(s) => APIError::InternalError(s),
    }
}

impl HandlerError {
    /// Identifier errors are the caller's to fix; the others are internal,
    /// and their detail is not passed on.
    pub fn from_store(e: DbError) -> (r: HandlerError)
        ensures
            shown_as(e, r),
    {
        match e {
            DbError::InvalidIdentifier(s) => HandlerError::BadRequest(s),
            _ => HandlerError::InternalError(String::from_str(INTERNAL_ERROR_MESSAGE)),
        }
    }
}

impl From<HandlerError> for APIError {
    fn from(e: HandlerError) -> (r: APIError)
        ensures
            r == api_error_of(e),
    {
        match e {
            HandlerError::BadRequest(s) => APIError::BadRequest(s),
            HandlerError::InternalError(s) => APIError::InternalError(s),
        }
    }
}

impl vstd::std_specs::convert::FromSpecImpl<HandlerError> for APIError {
    open spec fn obeys_from_spec() -> bool {
        true
    }

    open spec fn from_spec(e: HandlerError) -> APIError {
        api_error_of(e)
    }
}

impl APIError {
    /// The transport status code of this error.
    pub fn status(&self) -> (r: u16)
        ensures
            self is BadRequest ==> r == 400,
            self is InternalError ==> r == 500,
    {
        match self {
            APIError::BadRequest(_) => 400,
            APIError::InternalError(_) => 500,
        }
    }
}

/// The engine's code for a foreign-key violation.
pub const FOREIGN_KEY_VIOLATION: &'static str = "23503";

/// Classifies a storage failure from the engine's error code, if it gave
/// one: a foreign-key violation is a constraint violation, anything else a
/// storage failure. The detail is kept either way.
pub fn classify_storage_error(code: Option<&str>, detail: String) -> (r: DbError)
    ensures
        (code is Some && code->0@ == FOREIGN_KEY_VIOLATION@) ==> r == DbError::ConstraintViolation(
            detail,
        ),
        !(code is Some && code->0@ == FOREIGN_KEY_VIOLATION@) ==> r == DbError::StorageFailure(
            detail,
        ),
{
    match code {
        Some(c) => {
            let fk = String::from_str(FOREIGN_KEY_VIOLATION);
            let cs = String::from_str(c);
            if cs == fk {
                DbError::ConstraintViolation(detail)
            } else {
                DbError::StorageFailure(detail)
            }
        },
        None => DbError::StorageFailure(detail),
    }
}

#[verifier::external_type_specification]
#[verifier::external_body]
pub struct ExSqlxError(sqlx::Error);

/// The SQLSTATE code that the engine reported for a failure, if the failure
/// came from the database.
pub uninterp spec fn sqlstate_of(e: sqlx::Error) -> Option<Seq<char>>;

/// Relies on sqlx's `Error::as_database_error` and `DatabaseError::code`:
/// the engine's error code when the failure came from the database; it
/// depends on the error value alone.
#[verifier::external_body]
fn database_code(e: &sqlx::Error) -> (r: Option<String>)
    ensures
        r is None <==> sqlstate_of(*e) is None,
        r is Some ==> r->0@ == sqlstate_of(*e)->0,
{
    e.as_database_error().and_then(|d| d.code()).map(|c| c.into_owned())
}

/// Relies on the `Display` of `sqlx::Error`: a description for logs.
#[verifier::external_body]
fn error_detail(e: &sqlx::Error) -> (r: String)
{
    e.to_string()
}

/// Translates a failure of the storage engine on a write that integrity
/// rules govern into the store's kinds. This is the one place that knows
/// the engine's error codes.
pub fn translate_storage_error(e: &sqlx::Error) -> (r: DbError)
    ensures
        (sqlstate_of(*e) is Some && sqlstate_of(*e)->0 == FOREIGN_KEY_VIOLATION@)
            ==> r is ConstraintViolation,
        !(sqlstate_of(*e) is Some && sqlstate_of(*e)->0 == FOREIGN_KEY_VIOLATION@)
            ==> r is StorageFailure,
{
    let code = database_code(e);
    let detail = error_detail(e);
    match code {
        Some(c) => classify_storage_error(Some(c.as_str()), detail),
        None => classify_storage_error(None, detail),
    }
}

/// A failure of the storage engine on an operation that no integrity rule
/// can refuse: always a storage failure, with the engine's description.
pub fn storage_failure(e: &sqlx::Error) -> (r: DbError)
    ensures
        r is StorageFailure,
{
    DbError::StorageFailure(error_detail(e))
}

} // verus!
