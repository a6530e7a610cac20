//! The errors that calls to the API surface.
use vstd::prelude::*;

use crate::decimal::{decimal, to_decimal};
use reqwest::Error as HttpError;

verus! {

#[verifier::external_type_specification]
#[verifier::external_body]
pub struct ExHttpError(HttpError);

#[verifier::external_type_specification]
#[verifier::external_body]
pub struct ExParseError(url::ParseError);

/// Status code of a rate-limited response.
pub const TOO_MANY_REQUESTS: u16 = 429;

/// Why a call failed.
#[derive(Debug)]
pub enum Error {
    /// The API refused the call for now; it may be made again after
    /// `retry_after` seconds.
    Ratelimit { retry_after: u32 },
    /// The HTTP client failed, or the response had an error status.
    Reqwest(HttpError),
    /// An address could not be formed.
    Url(url::ParseError),
}

/// Relies on reqwest::Error::status: the status of the response that the
/// error stands for, if any. An `http::StatusCode` lies in 100..=999.
#[verifier::external_body]
fn reqwest_status(e: &HttpError) -> (r: Option<u16>)
    ensures
        r matches Some(code) ==> 100 <= code <= 999,
{
    e.status().map(|s| s.as_u16())
}

/// Relies on the `Display` impl of reqwest::Error, for its message.
#[verifier::external_body]
fn reqwest_message(e: &HttpError) -> String {
    e.to_string()
}

/// Relies on the `Display` impl of url::ParseError, for its message.
#[verifier::external_body]
fn parse_error_message(e: &url::ParseError) -> String {
    e.to_string()
}

/// The message of a rate-limit error.
pub open spec fn ratelimit_message(retry_after: u32) -> Seq<char> {
    "Ratelimit reached, retry after: "@ + decimal(retry_after as nat)
}

impl Error {
    pub fn is_ratelimit(&self) -> (r: bool)
        ensures
            r == (self is Ratelimit),
    {
        matches!(self, Error::Ratelimit { .. })
    }

    /// The status code of the response that caused the error, if any.
    pub fn status(&self) -> (r: Option<u16>)
        ensures
            match self {
                Error::Ratelimit { .. } => r == Some(TOO_MANY_REQUESTS),
                Error::Reqwest(_) => r matches Some(code) ==> 100 <= code <= 999,
                Error::Url(_) => r is None,
            },
    {
        match self {
            Error::Ratelimit { .. } => Some(TOO_MANY_REQUESTS),
            Error::Reqwest(e) => reqwest_status(e),
            Error::Url(_) => None,
        }
    }

    /// A message that describes the error.
    pub fn to_string(&self) -> (r: String)
        ensures
            self matches Error::Ratelimit { retry_after } ==> r@ == ratelimit_message(*retry_after),
    {
        match self {
            Error::Ratelimit { retry_after } => {
                let mut s = String::from_str("Ratelimit reached, retry after: ");
                s.append(to_decimal(*retry_after as u64).as_str());
                s
            },
            Error::Reqwest(e) => reqwest_message(e),
            Error::Url(e) => parse_error_message(e),
        }
    }
}

/// The error of a rate-limited response.
pub fn ratelimit(retry_after: u32) -> (r: Error)
    ensures
        r == (Error::Ratelimit { retry_after }),
{
    Error::Ratelimit { retry_after }
}

/// The error of a failed HTTP call.
pub fn from(e: HttpError) -> (r: Error)
    ensures
        r == Error::Reqwest(e),
{
    Error::Reqwest(e)
}

} // verus!
