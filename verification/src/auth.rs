//! The request-authentication guard: classify an incoming request as
//! authenticated or anonymous from the session cookie it presents.
//!
//! Absence or invalidity of the credential is an expected case, not an
//! error: the guard never aborts request handling, it only says which branch
//! the surrounding route layer should take.

use vstd::prelude::*;
use crate::token::TokenService;
use crate::token::verify_model;

verus! {

/// The authenticated identity a valid credential carries.
pub struct ApiToken(pub String);

/// What the guard decided about a request.
pub enum AuthOutcome {
    /// The request carried an intact credential for this subject.
    Authenticated(ApiToken),
    /// No credential, or one that did not verify: treat the request as
    /// anonymous and route it to the fallback branch.
    Anonymous,
}

/// Classify a request from the value of its session cookie, if any.
///
/// The request is authenticated exactly when a cookie is present and its
/// token verifies under the service's key with a non-empty subject; every
/// other case is anonymous, never an error.
pub fn authenticate(service: &TokenService, cookie: Option<&str>) -> (r: AuthOutcome)
    ensures
        cookie is None ==> r is Anonymous,
        cookie matches Some(t) ==> {
            &&& r is Authenticated <==> verify_model(service.key(), t@) is Some
            &&& (r matches AuthOutcome::Authenticated(a) ==> Some(a.0@) == verify_model(
                service.key(),
                t@,
            ))
        },
{
    match cookie {
        None => AuthOutcome::Anonymous,
        Some(t) => match service.verify(t) {
            Ok(subject) => AuthOutcome::Authenticated(ApiToken(subject)),
            Err(_) => AuthOutcome::Anonymous,
        },
    }
}

} // verus!
