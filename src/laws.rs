use vstd::prelude::*;
use crate::conversion::{
    blocking_error, data_access_error, diesel_error, is_diesel_not_found, BlockingFailure, DataAccessFailure, IntoAppError,
};
use diesel::result::Error as DieselError;
use crate::error::{internal_message, response_of, status_of, AppError};

verus! {

/// Every error is sent with one of the four status codes 400, 401, 404 and
/// 500, and each kind always with the same one.
pub proof fn status_code_table(e: AppError)
    ensures
        status_of(e) == 400 || status_of(e) == 401 || status_of(e) == 404 || status_of(e) == 500,
        e == AppError::NotFoundError ==> status_of(e) == 404,
        e == AppError::UnathorizedError ==> status_of(e) == 401,
        e == AppError::InternalServiceError ==> status_of(e) == 500,
        e is BadRequest ==> status_of(e) == 400,
        e == AppError::JWKSFetchError ==> status_of(e) == 500,
{
}

/// Classification depends on the error alone: equal errors always get equal
/// status codes, names and messages.
pub proof fn classification_is_deterministic(a: AppError, b: AppError)
    requires
        a == b,
    ensures
        response_of(a) == response_of(b),
{
}

/// Every data-access failure is classified, as a missing record exactly when
/// it is one, and otherwise as the generic internal error.
pub proof fn data_access_classification_is_total(e: DataAccessFailure)
    ensures
        data_access_error(e) == AppError::NotFoundError <==> e is NotFound,
        data_access_error(e) == AppError::NotFoundError
            || data_access_error(e) == AppError::InternalServiceError,
{
}

/// Every diesel error is classified, as a missing record exactly when it is
/// diesel's `NotFound`, and otherwise as the generic internal error.
pub proof fn diesel_classification_is_total(e: DieselError)
    ensures
        diesel_error(e) == AppError::NotFoundError <==> is_diesel_not_found(e),
        diesel_error(e) == AppError::NotFoundError
            || diesel_error(e) == AppError::InternalServiceError,
{
}

/// A cancelled background computation is the generic internal error, and a
/// failed one is classified as its own error is.
pub proof fn blocking_classification<E: IntoAppError>(e: E)
    ensures
        blocking_error(BlockingFailure::<E>::Canceled) == AppError::InternalServiceError,
        blocking_error(BlockingFailure::Error(e)) == e.app_error(),
{
}

/// The body for a backend failure holds the fixed internal message whatever
/// text the backend reported, so none of that text reaches the client.
pub proof fn backend_text_is_never_sent(text: String)
    ensures
        response_of(data_access_error(DataAccessFailure::Other(text))) == response_of(
            AppError::InternalServiceError,
        ),
        response_of(data_access_error(DataAccessFailure::Other(text))).2 == internal_message(),
{
}

} // verus!
