//! Errors of the SDK and how a webhook endpoint reports them.

use vstd::prelude::*;

verus! {

/// Everything that can go wrong while serving a webhook or calling the open API.
#[derive(Debug)]
pub enum Error {
    /// The request signature did not match.
    InvalidSignature,
    /// A required header was absent; holds its name.
    MissingHeader(String),
    /// A header could not be read; holds a description.
    InvalidHeader(String),
    /// The signed timestamp was unusable; holds a description.
    InvalidTimestamp(String),
    /// A body was not the JSON that was expected; holds a description.
    Json(String),
    /// The HTTP exchange itself failed; holds a description.
    Http(String),
    /// The access token could not be obtained; holds a description.
    Token(String),
    /// No event name could be found in a payload.
    EventNameNotFound,
    /// Any other failure; holds a description.
    Other(String),
}

/// Result type of the SDK.
pub type Result<T> = core::result::Result<T, Error>;

/// The HTTP status that answers a failed webhook request.
pub open spec fn spec_status_for(err: Error) -> u16 {
    match err {
        Error::InvalidSignature | Error::MissingHeader(_) | Error::InvalidTimestamp(_) => 401,
        Error::Json(_) | Error::InvalidHeader(_) | Error::EventNameNotFound => 400,
        _ => 500,
    }
}

/// Maps an error to the HTTP status of the webhook's answer: authentication
/// failures give 401, malformed requests 400, and everything else 500.
pub fn status_for(err: &Error) -> (status: u16)
    ensures
        status == spec_status_for(*err),
{
    match err {
        Error::InvalidSignature | Error::MissingHeader(_) | Error::InvalidTimestamp(_) => 401,
        Error::Json(_) | Error::InvalidHeader(_) | Error::EventNameNotFound => 400,
        _ => 500,
    }
}

/// The redacted body text that stands for a failure with the given status.
pub open spec fn spec_redacted_body(status: u16) -> Seq<char> {
    if status == 401 {
        "unauthorized"@
    } else if status == 400 {
        "bad request"@
    } else {
        "internal server error"@
    }
}

/// The body that answers a failed webhook request when error details are not
/// exposed: a fixed text per status, so that nothing internal leaks.
pub fn redacted_body(status: u16) -> (body: String)
    ensures
        body@ == spec_redacted_body(status),
{
    if status == 401 {
        "unauthorized".to_string()
    } else if status == 400 {
        "bad request".to_string()
    } else {
        "internal server error".to_string()
    }
}

} // verus!
