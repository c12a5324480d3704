//! Rewriting a text with the rewriting service.
//!
//! The functions here build the URL of the request and read the reply;
//! sending the request is the caller's part.

use vstd::prelude::*;
use vstd::string::*;

use crate::error::internal_failure;
use crate::error::outcome_view;
use crate::error::rate_limited;
use crate::error::Failure;
use crate::error::RequestError;
use crate::json::error_text;
use crate::json::json_error_text;
use crate::json::json_member;
use crate::json::json_of;
use crate::json::member;
use crate::json::parse;
use crate::json::text_member;
use crate::json::text_of_member;
use crate::status::is_success;
use crate::status::success;
use crate::upstream::HttpReply;
use crate::upstream::Reply;

verus! {

/// `url::ParseError`, which says why a text is no absolute URL.
#[verifier::external_type_specification]
#[verifier::external_body]
pub struct ExUrlParseError(url::ParseError);

/// What `url::Url::parse_with_params` makes of a base URL and one query
/// parameter: the URL with the parameter appended to its query, percent
/// encoded, or the error that says why the base is no absolute URL.
pub uninterp spec fn url_with_param(base: Seq<char>, key: Seq<char>, value: Seq<char>) -> Result<
    Seq<char>,
    url::ParseError,
>;

/// The `Debug` rendering of a URL parse error.
pub uninterp spec fn url_error_text(error: url::ParseError) -> Seq<char>;

/// Parses `base` and appends the query parameter `key=value` with
/// `url::Url::parse_with_params`. Trusted: the outcome is a function of the
/// three texts alone.
#[verifier::external_body]
pub(crate) fn parse_with_param(base: &str, key: &str, value: &str) -> (url: Result<
    String,
    url::ParseError,
>)
    ensures
        url matches Ok(text) ==> (url_with_param(base@, key@, value@) matches Ok(t) && t == text@),
        url matches Err(error) ==> (url_with_param(base@, key@, value@) matches Err(e) && e
            == error),
{
    url::Url::parse_with_params(base, &[(key, value)]).map(String::from)
}

/// Renders a URL parse error with its `Debug` impl. Trusted: the rendering
/// is a function of the error alone.
#[verifier::external_body]
pub(crate) fn url_error_rendering(error: &url::ParseError) -> (text: String)
    ensures
        text@ == url_error_text(*error),
{
    format!("{:?}", error)
}

// ---------------------------------------------------------------------
// The request
// ---------------------------------------------------------------------

/// The URL at which the rewriting of `text` is asked for: the endpoint of
/// the rewriting service with `text` as the query parameter `text`.
pub open spec fn translation_url(text: Seq<char>) -> Result<Seq<char>, Failure> {
    match url_with_param(
        "https://api.funtranslations.com/translate/shakespeare.json"@,
        "text"@,
        text,
    ) {
        Ok(url) => Ok(url),
        Err(error) => Err(internal_failure(url_error_text(error))),
    }
}

/// Builds the URL at which the rewriting of `input` is asked for. A URL
/// that cannot be built is an internal failure with the parser's message.
pub fn shakespeare_request(input: &str) -> (outcome: Result<String, RequestError>)
    ensures
        outcome_view(outcome) == translation_url(input@),
{
    match parse_with_param(
        "https://api.funtranslations.com/translate/shakespeare.json",
        "text",
        input,
    ) {
        Ok(url) => Ok(url),
        Err(error) => Err(RequestError::new_internal(url_error_rendering(&error))),
    }
}

// ---------------------------------------------------------------------
// The reply
// ---------------------------------------------------------------------

/// The failure reported when the rewriting service did not answer with
/// success: it carries the status of the answer, so that a rate limit
/// (status 429) can be told from every other failure.
pub open spec fn rewriting_unavailable(status: u16) -> Failure {
    Failure { status, description: "failed to query rewriting service"@ }
}

/// The failure reported for an answer that holds no rewritten text:
/// status 500.
pub open spec fn not_rewritten() -> Failure {
    internal_failure("failed to rewrite text"@)
}

/// The rewritten text in the body of an answer: the text at
/// `contents.translated`. A body that is no JSON fails with the parser's
/// message, one without that text with `not_rewritten`.
pub open spec fn translation_in(body: Seq<char>) -> Result<Seq<char>, Failure> {
    match json_of(body) {
        Err(error) => Err(internal_failure(json_error_text(error))),
        Ok(document) => match json_member(document, "contents"@) {
            Some(contents) => match text_member(contents, "translated"@) {
                Some(text) => Ok(text),
                None => Err(not_rewritten()),
            },
            None => Err(not_rewritten()),
        },
    }
}

/// What the reply of the rewriting service amounts to.
pub open spec fn translation_of(reply: Reply) -> Result<Seq<char>, Failure> {
    if !success(reply.status) {
        Err(rewriting_unavailable(reply.status))
    } else {
        translation_in(reply.body)
    }
}

fn not_rewritten_error() -> (error: RequestError)
    ensures
        error@ == not_rewritten(),
{
    RequestError::new_internal(String::from_str("failed to rewrite text"))
}

/// Reads the rewritten text out of the reply of the rewriting service.
///
/// A reply without success fails with the reply's status; a reply with
/// success but without a text at `contents.translated` fails with status
/// 500.
pub fn shakespearise(reply: &HttpReply) -> (outcome: Result<String, RequestError>)
    ensures
        outcome_view(outcome) == translation_of(reply@),
{
    if !is_success(reply.status) {
        return Err(
            RequestError::new(reply.status, String::from_str("failed to query rewriting service")),
        );
    }
    match parse(reply.body.as_str()) {
        Err(error) => Err(RequestError::new_internal(error_text(&error))),
        Ok(document) => match member(&document, "contents") {
            Some(contents) => match text_of_member(contents, "translated") {
                Some(text) => Ok(text),
                None => Err(not_rewritten_error()),
            },
            None => Err(not_rewritten_error()),
        },
    }
}

// ---------------------------------------------------------------------
// Degrading under a rate limit
// ---------------------------------------------------------------------

/// The outcome of a rewriting once a rate limit is forgiven: the text as it
/// was before the rewriting stands in for the rewritten one. Every other
/// outcome stays as it is.
pub open spec fn ignoring_rate_limit(outcome: Result<Seq<char>, Failure>, input: Seq<char>) -> Result<
    Seq<char>,
    Failure,
> {
    match outcome {
        Ok(text) => Ok(text),
        Err(failure) => if rate_limited(failure) {
            Ok(input)
        } else {
            Err(failure)
        },
    }
}

/// Forgives a rate limit: where the rewriting of `input_description` failed
/// with status 429, the outcome is `input_description` itself, unchanged.
/// A rewritten text and every other failure pass through unchanged.
pub fn shakespearise_ignore_rate_limit_error(
    outcome: Result<String, RequestError>,
    input_description: String,
) -> (settled: Result<String, RequestError>)
    ensures
        outcome_view(settled) == ignoring_rate_limit(outcome_view(outcome), input_description@),
        outcome matches Err(error) && error.status == 429 ==> (settled matches Ok(text) && text
            == input_description),
{
    match outcome {
        Ok(text) => Ok(text),
        Err(error) => {
            if error.is_rate_limited() {
                Ok(input_description)
            } else {
                Err(error)
            }
        },
    }
}

} // verus!
