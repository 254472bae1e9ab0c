//! A closed taxonomy of service errors, their HTTP status codes and the
//! bodies sent to clients, and the conversions from lower-layer failures.

pub mod conversion;
pub mod error;
pub mod laws;

pub use conversion::{BlockingFailure, DataAccessFailure, IntoAppError};
pub use error::{classify, AppError, ErrorResponse};
