use vstd::prelude::*;
use crate::error::AppError;
use actix_web::error::BlockingError;
use diesel::result::Error as DieselError;

verus! {

/// diesel's `result::Error`, carried opaquely: its variants hold boxed trait
/// objects, so only the wrapper below looks inside.
#[verifier::external_type_specification]
#[verifier::external_body]
pub struct ExDieselError(DieselError);

/// actix-web's `error::BlockingError`, with its two variants as declared in
/// the pool's source: `Error(E)` and `Canceled`.
#[verifier::external_type_specification]
#[verifier::reject_recursive_types(E)]
pub struct ExBlockingError<E: std::fmt::Debug>(BlockingError<E>);

/// A failure reported by the persistence layer, reduced to what the service
/// decides on: whether a record was missing, or else what went wrong in the
/// backend's own words.
#[derive(Debug, Clone, PartialEq, Eq)]
pub enum DataAccessFailure {
    NotFound,
    Other(String),
}

/// The outcome of a computation run on a background pool that did not
/// produce a value: it failed with its own error, or it was cancelled.
#[derive(Debug, Clone, PartialEq, Eq)]
pub enum BlockingFailure<E> {
    Error(E),
    Canceled,
}

impl<E: std::fmt::Debug> BlockingFailure<E> {
    pub open spec fn from_actix_spec(e: BlockingError<E>) -> BlockingFailure<E> {
        match e {
            BlockingError::Error(inner) => BlockingFailure::Error(inner),
            BlockingError::Canceled => BlockingFailure::Canceled,
        }
    }

    /// The same outcome, as actix-web's blocking pool reports it.
    #[verifier::when_used_as_spec(from_actix_spec)]
    pub fn from_actix(e: BlockingError<E>) -> (r: BlockingFailure<E>)
        ensures
            r == Self::from_actix_spec(e),
    {
        match e {
            BlockingError::Error(inner) => BlockingFailure::Error(inner),
            BlockingError::Canceled => BlockingFailure::Canceled,
        }
    }
}

/// A value that the service knows how to report as one of its errors.
pub trait IntoAppError: Sized {
    spec fn app_error(&self) -> AppError;

    fn into_app_error(self) -> (r: AppError)
        ensures
            r == self.app_error(),
    ;
}

pub open spec fn data_access_error(e: DataAccessFailure) -> AppError {
    match e {
        DataAccessFailure::NotFound => AppError::NotFoundError,
        DataAccessFailure::Other(_) => AppError::InternalServiceError,
    }
}

pub open spec fn blocking_error<E: IntoAppError>(e: BlockingFailure<E>) -> AppError {
    match e {
        BlockingFailure::Error(inner) => inner.app_error(),
        BlockingFailure::Canceled => AppError::InternalServiceError,
    }
}

impl AppError {
    /// Only a missing record is told apart; every other backend failure
    /// becomes the generic internal error, whatever its text.
    pub fn from_data_access_failure(e: DataAccessFailure) -> (r: AppError)
        ensures
            r == data_access_error(e),
            e is NotFound ==> r == AppError::NotFoundError,
            e is Other ==> r == AppError::InternalServiceError,
    {
        match e {
            DataAccessFailure::NotFound => AppError::NotFoundError,
            DataAccessFailure::Other(_) => AppError::InternalServiceError,
        }
    }

    /// A failed background computation is reported as its own error would
    /// be; a cancelled one as the generic internal error.
    pub fn from_blocking_failure<E: IntoAppError>(e: BlockingFailure<E>) -> (r: AppError)
        ensures
            r == blocking_error(e),
            e is Canceled ==> r == AppError::InternalServiceError,
    {
        match e {
            BlockingFailure::Error(inner) => inner.into_app_error(),
            BlockingFailure::Canceled => AppError::InternalServiceError,
        }
    }
}

/// Whether a diesel error is its `NotFound` variant.
pub uninterp spec fn is_diesel_not_found(e: DieselError) -> bool;

/// Relies on diesel's `result::Error` enum: its `NotFound` variant is the
/// missing record; any other variant is carried as its `Debug` text.
#[verifier::external_body]
fn data_access_failure_of(e: &DieselError) -> (r: DataAccessFailure)
    ensures
        (r is NotFound) == is_diesel_not_found(*e),
{
    match e {
        DieselError::NotFound => DataAccessFailure::NotFound,
        other => DataAccessFailure::Other(format!("{:?}", other)),
    }
}

pub open spec fn diesel_error(e: DieselError) -> AppError {
    if is_diesel_not_found(e) {
        AppError::NotFoundError
    } else {
        AppError::InternalServiceError
    }
}

impl AppError {
    /// Converts a database failure: a missing record is reported as such,
    /// every other failure as the generic internal error.
    pub fn from_diesel_error(e: DieselError) -> (r: AppError)
        ensures
            r == diesel_error(e),
    {
        let failure = data_access_failure_of(&e);
        AppError::from_data_access_failure(failure)
    }

    /// Converts the failure of a computation run on actix-web's blocking pool.
    pub fn from_actix_blocking_error<E: std::fmt::Debug + IntoAppError>(
        e: BlockingError<E>,
    ) -> (r: AppError)
        ensures
            r == blocking_error(BlockingFailure::from_actix(e)),
            e is Canceled ==> r == AppError::InternalServiceError,
    {
        AppError::from_blocking_failure(BlockingFailure::from_actix(e))
    }
}

impl IntoAppError for AppError {
    open spec fn app_error(&self) -> AppError {
        *self
    }

    fn into_app_error(self) -> (r: AppError) {
        self
    }
}

impl IntoAppError for DataAccessFailure {
    open spec fn app_error(&self) -> AppError {
        data_access_error(*self)
    }

    fn into_app_error(self) -> (r: AppError) {
        AppError::from_data_access_failure(self)
    }
}

impl IntoAppError for DieselError {
    open spec fn app_error(&self) -> AppError {
        diesel_error(*self)
    }

    fn into_app_error(self) -> (r: AppError) {
        AppError::from_diesel_error(self)
    }
}

impl<E: IntoAppError> IntoAppError for BlockingFailure<E> {
    open spec fn app_error(&self) -> AppError {
        blocking_error(*self)
    }

    fn into_app_error(self) -> (r: AppError) {
        AppError::from_blocking_failure(self)
    }
}

} // verus!
