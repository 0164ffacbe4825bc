use vstd::prelude::*;

verus! {

/// Every failure an operation of this library can produce. All variants are
/// terminal for the operation that raised them: nothing is retried, and each
/// carries enough context (URL, expected versus actual value) for the caller
/// to form a readable report.
#[derive(Debug)]
pub enum JobcanError {
    /// The login form was submitted but the server re-rendered the login page
    /// instead of landing on the employee page.
    AuthError,
    /// A network or HTTP-layer failure on some request, with the offending URL
    /// and the transport layer's own description of the fault.
    ReqwestError { message: String, url: String, raw_error: String },
    /// The response was well-formed HTTP but semantically wrong: a bad
    /// content-type, or a decoded body whose working status is not the one the
    /// submitted action must produce.
    UnexpectedResponseError { message: String },
    /// An expected HTML element or attribute was absent or malformed.
    ElementExtractError { message: String },
}

} // verus!
