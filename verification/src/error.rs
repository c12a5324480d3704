//! Failures of the pipeline.

use vstd::prelude::*;
use vstd::string::*;

use crate::status::canonical_reason;
use crate::status::canonical_reason_of;
use crate::status::INTERNAL_SERVER_ERROR;
use crate::status::TOO_MANY_REQUESTS;
use crate::text::decimal;
use crate::text::decimal_text;

verus! {

/// A failure of a request: the HTTP status to answer with, and a message
/// for the operator.
#[derive(Debug, Clone, PartialEq, Eq)]
pub struct RequestError {
    pub status: u16,
    pub description: String,
}

/// A failure as contracts see it.
pub struct Failure {
    pub status: u16,
    pub description: Seq<char>,
}

impl View for RequestError {
    type V = Failure;

    open spec fn view(&self) -> Failure {
        Failure { status: self.status, description: self.description@ }
    }
}

/// The failure with status 500 and the given message.
pub open spec fn internal_failure(description: Seq<char>) -> Failure {
    Failure { status: 500, description }
}

/// Whether a failure says that an upstream service limits the rate of
/// requests (status 429).
pub open spec fn rate_limited(failure: Failure) -> bool {
    failure.status == 429
}

/// A status as it is written out: the code, a space, and the registered
/// reason phrase or `<unknown status code>`.
pub open spec fn status_line(status: u16) -> Seq<char> {
    decimal(status as nat) + " "@ + match canonical_reason_of(status) {
        Some(reason) => reason,
        None => "<unknown status code>"@,
    }
}

/// A failure written out for the operator.
pub open spec fn failure_text(failure: Failure) -> Seq<char> {
    "RequestError with status "@ + status_line(failure.status) + " and message \""@
        + failure.description + "\""@
}

impl RequestError {
    /// A failure with the given status and message.
    pub fn new(status: u16, description: String) -> (error: RequestError)
        ensures
            error@ == (Failure { status, description: description@ }),
    {
        RequestError { status, description }
    }

    /// An internal failure (status 500) with the given message.
    pub fn new_internal(description: String) -> (error: RequestError)
        ensures
            error@ == internal_failure(description@),
    {
        RequestError::new(INTERNAL_SERVER_ERROR, description)
    }

    /// Writes the failure out for the operator:
    /// `RequestError with status <code> <reason> and message "<message>"`.
    pub fn to_text(&self) -> (text: String)
        ensures
            text@ == failure_text(self@),
    {
        let mut text = String::from_str("RequestError with status ");
        let mut line = decimal_text(self.status);
        line.append(" ");
        match canonical_reason(self.status) {
            Some(reason) => {
                line.append(reason.as_str());
            },
            None => {
                line.append("<unknown status code>");
            },
        }
        text.append(line.as_str());
        text.append(" and message \"");
        text.append(self.description.as_str());
        text.append("\"");
        text
    }

    /// Tells whether this failure is a rate limit (status 429).
    pub fn is_rate_limited(&self) -> (yes: bool)
        ensures
            yes == rate_limited(self@),
    {
        self.status == TOO_MANY_REQUESTS
    }
}

/// Turns the rendering of an unexpected error (of the transport, of a
/// parser) into an internal failure.
pub fn make_internal_error(rendering: String) -> (error: RequestError)
    ensures
        error@ == internal_failure(rendering@),
{
    RequestError::new_internal(rendering)
}

/// The outcome of a step that yields a text, as contracts see it.
pub open spec fn outcome_view(outcome: Result<String, RequestError>) -> Result<Seq<char>, Failure> {
    match outcome {
        Ok(text) => Ok(text@),
        Err(error) => Err(error@),
    }
}

} // verus!
