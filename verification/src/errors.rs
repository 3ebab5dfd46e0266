//! The closed error taxonomy of the service, and its mapping to HTTP
//! status codes at the gateway boundary.

use vstd::prelude::*;

verus! {

/// Every failure of the service is classified as exactly one of these
/// before it crosses the service boundary; raw collaborator errors never
/// leak to callers.
#[derive(Clone, Copy, Debug, PartialEq, Eq, Structural)]
pub enum UserError {
    /// Malformed input: a date of birth that does not parse, or a
    /// malformed user identifier.
    ValidationError,
    /// A uniqueness constraint was violated: username, email, mobile
    /// number or wallet address already taken.
    ConflictError,
    /// A lookup found no record.
    NotFoundError,
    /// A catastrophic internal fault, such as a credential-hashing
    /// failure.
    InternalError,
}

/// The gateway's translation of the error taxonomy into HTTP status codes.
pub fn http_status_of(e: &UserError) -> (code: u16)
    ensures
        code == match *e {
            UserError::ValidationError => 400u16,
            UserError::ConflictError => 409u16,
            UserError::NotFoundError => 404u16,
            UserError::InternalError => 500u16,
        },
{
    match e {
        UserError::ValidationError => 400,
        UserError::ConflictError => 409,
        UserError::NotFoundError => 404,
        UserError::InternalError => 500,
    }
}

} // verus!
