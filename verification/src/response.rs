//! What a request is answered with.

use vstd::prelude::*;
use vstd::string::*;

use crate::error::Failure;
use crate::error::RequestError;
use crate::status::canonical_reason;
use crate::status::canonical_reason_of;
use crate::text::decimal;
use crate::text::decimal_text;

verus! {

/// The answer to a successful request: the normalized name of the creature
/// and its description.
#[derive(Debug, Clone, PartialEq, Eq)]
pub struct PokemonInShakespeareseResponse {
    pub name: String,
    pub description: String,
}

/// An answer as contracts see it.
pub struct Answer {
    pub name: Seq<char>,
    pub description: Seq<char>,
}

impl View for PokemonInShakespeareseResponse {
    type V = Answer;

    open spec fn view(&self) -> Answer {
        Answer { name: self.name@, description: self.description@ }
    }
}

impl PokemonInShakespeareseResponse {
    /// The answer with the given name and description.
    pub fn new(name: String, description: String) -> (response: PokemonInShakespeareseResponse)
        ensures
            response@ == (Answer { name: name@, description: description@ }),
    {
        PokemonInShakespeareseResponse { name, description }
    }
}

/// The reason phrase shown for a status code: the registered one, or
/// `Unknown reason`.
pub open spec fn shown_reason(status: u16) -> Seq<char> {
    match canonical_reason_of(status) {
        Some(reason) => reason,
        None => "Unknown reason"@,
    }
}

/// The plain-text body that reports a failure: `Error <code>: <reason>`.
pub open spec fn error_body_of(failure: Failure) -> Seq<char> {
    "Error "@ + decimal(failure.status as nat) + ": "@ + shown_reason(failure.status)
}

/// Writes the plain-text body that reports a failure to the client:
/// `Error <code>: <reason phrase>`. The failure's own message is for the
/// operator and is not shown.
pub fn error_body(error: &RequestError) -> (body: String)
    ensures
        body@ == error_body_of(error@),
{
    let mut body = String::from_str("Error ");
    let code = decimal_text(error.status);
    body.append(code.as_str());
    body.append(": ");
    match canonical_reason(error.status) {
        Some(reason) => {
            body.append(reason.as_str());
        },
        None => {
            body.append("Unknown reason");
        },
    }
    body
}

} // verus!
