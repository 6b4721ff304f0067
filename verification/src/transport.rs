//! The types of the HTTP client and of the operating system that run through
//! the task, and the two calls into the HTTP client that the task makes
//! between its steps.

use vstd::prelude::*;

verus! {

/// `reqwest::Error`: a failure of the HTTP client. Carried, never opened.
#[verifier::external_type_specification]
#[verifier::external_body]
pub struct ExTransportError(reqwest::Error);

/// `reqwest::blocking::Response`: the answer to a request. Carried, never
/// opened; what the task needs of it is its status, see [`status_of`].
#[verifier::external_type_specification]
#[verifier::external_body]
pub struct ExResponse(reqwest::blocking::Response);

/// `std::io::Error`: a failure of the operating system. Carried, never opened.
#[verifier::external_type_specification]
#[verifier::external_body]
pub struct ExSystemError(std::io::Error);

/// The HTTP status code that a response carries, as a number: what
/// `reqwest::blocking::Response::status` reports of it.
pub uninterp spec fn status_of(response: reqwest::blocking::Response) -> u16;

/// The error that `reqwest::blocking::Response::error_for_status` makes of a
/// response whose status is an error status.
pub uninterp spec fn status_error_of(response: reqwest::blocking::Response) -> reqwest::Error;

/// A status is an error status when it is a client error (400 to 499) or a
/// server error (500 to 599).
pub open spec fn is_error_status(code: u16) -> bool {
    400 <= code <= 599
}

/// Calls `reqwest::blocking::Response::status`, and takes the number out of
/// the status code.
///
/// Trusted: the number is the status that the response carries.
#[verifier::external_body]
pub(crate) fn status(response: &reqwest::blocking::Response) -> (code: u16)
    ensures
        code == status_of(*response),
{
    response.status().as_u16()
}

/// Calls `reqwest::blocking::Response::error_for_status`.
///
/// Trusted: the call turns the response into an error exactly when its status
/// is an error status, and otherwise hands the same response back. The error
/// depends on the response alone.
#[verifier::external_body]
pub(crate) fn error_for_status(response: reqwest::blocking::Response) -> (checked: Result<
    reqwest::blocking::Response,
    reqwest::Error,
>)
    ensures
        checked is Err <==> is_error_status(status_of(response)),
        checked matches Ok(same) ==> same == response,
        checked matches Err(e) ==> e == status_error_of(response),
{
    response.error_for_status()
}

} // verus!
