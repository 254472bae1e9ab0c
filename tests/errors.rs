use actix_web::error::BlockingError;
use app_errors::{classify, AppError, BlockingFailure, DataAccessFailure};
use diesel::result::Error as DieselError;

const INTERNAL: &str = "Something went wrong on our side. Please, try again after some time";

fn all_kinds() -> Vec<AppError> {
    vec![
        AppError::NotFoundError,
        AppError::UnathorizedError,
        AppError::InternalServiceError,
        AppError::BadRequest(String::from("bad")),
        AppError::JWKSFetchError,
    ]
}

#[test]
fn status_codes_follow_the_table() {
    assert_eq!(AppError::NotFoundError.status_code(), 404);
    assert_eq!(AppError::UnathorizedError.status_code(), 401);
    assert_eq!(AppError::InternalServiceError.status_code(), 500);
    assert_eq!(AppError::BadRequest(String::from("x")).status_code(), 400);
    assert_eq!(AppError::JWKSFetchError.status_code(), 500);
}

#[test]
fn names_are_stable() {
    assert_eq!(AppError::NotFoundError.name(), "NotFoundError");
    assert_eq!(AppError::UnathorizedError.name(), "UnathorizedError");
    assert_eq!(AppError::InternalServiceError.name(), "InternalServiceError");
    assert_eq!(AppError::BadRequest(String::from("x")).name(), "BadRequest");
    assert_eq!(AppError::JWKSFetchError.name(), "JWKSFetchError");
}

#[test]
fn messages_are_canonical() {
    assert_eq!(AppError::NotFoundError.message(), "Requested resource not found");
    assert_eq!(AppError::UnathorizedError.message(), "Unauthorized");
    assert_eq!(AppError::InternalServiceError.message(), INTERNAL);
    assert_eq!(AppError::BadRequest(String::from("no such id")).message(), "no such id");
    assert_eq!(AppError::JWKSFetchError.message(), "Could not fetch JWKS");
}

#[test]
fn error_response_holds_status_name_and_message() {
    let r = AppError::UnathorizedError.error_response();
    assert_eq!(r.status_code, 401);
    assert_eq!(r.name, "UnathorizedError");
    assert_eq!(r.message, "Unauthorized");
}

#[test]
fn classify_is_deterministic() {
    for e in all_kinds() {
        let (c1, r1) = classify(&e);
        let (c2, r2) = classify(&e.clone());
        assert_eq!(c1, c2);
        assert_eq!(r1.status_code, r2.status_code);
        assert_eq!(r1.name, r2.name);
        assert_eq!(r1.message, r2.message);
        assert_eq!(c1, r1.status_code);
        assert!([400, 401, 404, 500].contains(&c1));
    }
}

#[test]
fn bad_request_end_to_end() {
    let (code, body) = classify(&AppError::BadRequest(String::from("email already taken")));
    assert_eq!(code, 400);
    assert_eq!(body.status_code, 400);
    assert_eq!(body.message, "email already taken");
}

#[test]
fn not_found_end_to_end() {
    let (code, body) = classify(&AppError::NotFoundError);
    assert_eq!(code, 404);
    assert_eq!(body.name, "NotFoundError");
    assert_eq!(body.message, "Requested resource not found");
}

#[test]
fn data_access_not_found_is_not_found() {
    assert_eq!(
        AppError::from_data_access_failure(DataAccessFailure::NotFound),
        AppError::NotFoundError
    );
}

#[test]
fn other_data_access_failures_are_internal() {
    let e = AppError::from_data_access_failure(DataAccessFailure::Other(String::from(
        "connection refused",
    )));
    assert_eq!(e, AppError::InternalServiceError);
}

#[test]
fn backend_text_stays_out_of_the_body() {
    let secret = "relation \"users\" does not exist at character 15";
    let e = AppError::from_data_access_failure(DataAccessFailure::Other(String::from(secret)));
    let (code, body) = classify(&e);
    assert_eq!(code, 500);
    assert_eq!(body.message, INTERNAL);
    assert!(!body.message.contains(secret));
    assert!(!body.name.contains(secret));
}

#[test]
fn diesel_not_found_is_not_found() {
    assert_eq!(AppError::from_diesel_error(DieselError::NotFound), AppError::NotFoundError);
}

#[test]
fn other_diesel_errors_are_internal() {
    assert_eq!(
        AppError::from_diesel_error(DieselError::RollbackTransaction),
        AppError::InternalServiceError
    );
    assert_eq!(
        AppError::from_diesel_error(DieselError::AlreadyInTransaction),
        AppError::InternalServiceError
    );
}

#[test]
fn cancelled_blocking_is_internal() {
    let f: BlockingFailure<AppError> = BlockingFailure::Canceled;
    assert_eq!(AppError::from_blocking_failure(f), AppError::InternalServiceError);
}

#[test]
fn failed_blocking_uses_inner_conversion() {
    let f = BlockingFailure::Error(AppError::UnathorizedError);
    assert_eq!(AppError::from_blocking_failure(f), AppError::UnathorizedError);
    let g = BlockingFailure::Error(DataAccessFailure::NotFound);
    assert_eq!(AppError::from_blocking_failure(g), AppError::NotFoundError);
    let h = BlockingFailure::Error(BlockingFailure::Error(DataAccessFailure::Other(
        String::from("timeout"),
    )));
    assert_eq!(AppError::from_blocking_failure(h), AppError::InternalServiceError);
}

#[test]
fn actix_blocking_errors_convert() {
    let e: BlockingError<AppError> = BlockingError::Error(AppError::JWKSFetchError);
    assert_eq!(AppError::from_actix_blocking_error(e), AppError::JWKSFetchError);
    let c: BlockingError<DataAccessFailure> = BlockingError::Canceled;
    assert_eq!(AppError::from_actix_blocking_error(c), AppError::InternalServiceError);
    let n: BlockingError<DataAccessFailure> = BlockingError::Error(DataAccessFailure::NotFound);
    assert_eq!(AppError::from_actix_blocking_error(n), AppError::NotFoundError);
}

#[test]
fn blocking_diesel_errors_convert() {
    let n: BlockingError<DieselError> = BlockingError::Error(DieselError::NotFound);
    assert_eq!(AppError::from_actix_blocking_error(n), AppError::NotFoundError);
    let r: BlockingError<DieselError> = BlockingError::Error(DieselError::RollbackTransaction);
    assert_eq!(AppError::from_actix_blocking_error(r), AppError::InternalServiceError);
    let c: BlockingError<DieselError> = BlockingError::Canceled;
    assert_eq!(AppError::from_actix_blocking_error(c), AppError::InternalServiceError);
    let f = BlockingFailure::Error(DieselError::NotFound);
    assert_eq!(AppError::from_blocking_failure(f), AppError::NotFoundError);
}
