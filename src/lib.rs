//! Resolution of the `X-Request-Id` header into a validated, time-ordered
//! (version 7) UUID correlation identifier.

pub mod normalize;
pub mod request_id;
pub mod uuid_form;

pub use request_id::{ExtractRequestId, RejectionReason, BAD_REQUEST, HEADER_X_REQUEST_ID};
