//! The pipeline of one request, step by step.
//!
//! A request is answered in up to four GET requests to the upstream
//! services, and between two of them this library does not wait: it hands
//! out the URL to ask, together with the stage that the request has
//! reached, and is called again with the reply. The caller sends the
//! request in whatever way it likes and may serve other requests meanwhile;
//! the caches are only touched inside a step.
//!
//! ```text
//! start ─┬─ name cached ─────────────────────────────┐
//!        └─ Lookup ─┬──────────────── Species ───────┴─┬─ text cached ── Finish
//!                   └─ LookupRetry ──┘                 └─ Rewrite ────── Finish
//! ```
//!
//! Every stage may also end the request with a failure.

use vstd::prelude::*;

use crate::cache::Caches;
use crate::cache::ResponseCache;
use crate::cache::recorded;
use crate::describe::describe_pokemon;
use crate::describe::description_of;
use crate::describe::pokemon_not_found;
use crate::describe::pokemon_not_found_error;
use crate::describe::pokemon_url;
use crate::describe::pokemon_url_with_slash;
use crate::describe::query_pokemon_by_name;
use crate::describe::query_pokemon_with_trailing_slash;
use crate::describe::species_url;
use crate::describe::species_url_in;
use crate::error::Failure;
use crate::error::RequestError;
use crate::response::Answer;
use crate::response::PokemonInShakespeareseResponse;
use crate::shakespeare::ignoring_rate_limit;
use crate::shakespeare::shakespeare_request;
use crate::shakespeare::shakespearise;
use crate::shakespeare::shakespearise_ignore_rate_limit_error;
use crate::shakespeare::translation_of;
use crate::shakespeare::translation_url;
use crate::status::is_success;
use crate::status::success;
use crate::text::lowercase_of;
use crate::text::normalize;
use crate::upstream::HttpReply;
use crate::upstream::Reply;

verus! {

/// Where a request stands while it waits for a reply.
#[derive(Debug, Clone, PartialEq, Eq)]
pub enum Stage {
    /// The record of the creature `name` was asked for.
    Lookup { name: String },
    /// The record of the creature `name` was asked for a second time, with
    /// a trailing slash, after the first request was answered with
    /// `first_status`.
    LookupRetry { name: String, first_status: u16 },
    /// The record of the species of `name` was asked for at `url`.
    Species { name: String, url: String },
    /// The rewriting of `description`, the description of `name`, was
    /// asked for.
    Rewrite { name: String, description: String },
}

/// A stage as contracts see it.
pub enum Waiting {
    Lookup { name: Seq<char> },
    LookupRetry { name: Seq<char>, first_status: u16 },
    Species { name: Seq<char>, url: Seq<char> },
    Rewrite { name: Seq<char>, description: Seq<char> },
}

impl View for Stage {
    type V = Waiting;

    open spec fn view(&self) -> Waiting {
        match *self {
            Stage::Lookup { name } => Waiting::Lookup { name: name@ },
            Stage::LookupRetry { name, first_status } => Waiting::LookupRetry {
                name: name@,
                first_status,
            },
            Stage::Species { name, url } => Waiting::Species { name: name@, url: url@ },
            Stage::Rewrite { name, description } => Waiting::Rewrite {
                name: name@,
                description: description@,
            },
        }
    }
}

/// What is to be done next for a request.
#[derive(Debug, PartialEq, Eq)]
pub enum Step {
    /// Send a GET request to `url`, then call `resume` with `stage` and
    /// with what came back.
    Fetch { url: String, stage: Stage },
    /// The request is done: answer with this.
    Finish(Result<PokemonInShakespeareseResponse, RequestError>),
}

/// A step as contracts see it.
pub enum Next {
    Fetch { url: Seq<char>, stage: Waiting },
    Finish(Result<Answer, Failure>),
}

impl View for Step {
    type V = Next;

    open spec fn view(&self) -> Next {
        match *self {
            Step::Fetch { url, stage } => Next::Fetch { url: url@, stage: stage@ },
            Step::Finish(Ok(response)) => Next::Finish(Ok(response@)),
            Step::Finish(Err(error)) => Next::Finish(Err(error@)),
        }
    }
}

// ---------------------------------------------------------------------
// The pipeline as a function
// ---------------------------------------------------------------------

/// What a request is handed over as once its description is known: the
/// rewritten text from the cache, or else the request for the rewriting.
pub open spec fn rewriting(caches: Caches, name: Seq<char>, description: Seq<char>) -> Next {
    if caches.shakespearese.contains_key(description) {
        Next::Finish(Ok(Answer { name, description: caches.shakespearese[description] }))
    } else {
        match translation_url(description) {
            Ok(url) => Next::Fetch { url, stage: Waiting::Rewrite { name, description } },
            Err(failure) => Next::Finish(Err(failure)),
        }
    }
}

/// What follows the record of the creature `name`, given its body: the
/// request for the record of its species.
pub open spec fn species_request(name: Seq<char>, body: Seq<char>) -> Next {
    match species_url_in(body) {
        Ok(url) => Next::Fetch { url, stage: Waiting::Species { name, url } },
        Err(failure) => Next::Finish(Err(failure)),
    }
}

/// The first step of the request for `raw`. The caches do not change.
pub open spec fn started(caches: Caches, raw: Seq<char>) -> Next {
    let name = lowercase_of(raw);
    if caches.descriptions.contains_key(name) {
        rewriting(caches, name, caches.descriptions[name])
    } else {
        Next::Fetch { url: pokemon_url(name), stage: Waiting::Lookup { name } }
    }
}

/// What the reply to a request for a text amounts to, given how a reply is
/// read: a failure of the transport passes through.
pub open spec fn obtained(
    arrival: Result<Reply, Failure>,
    read: spec_fn(Reply) -> Result<Seq<char>, Failure>,
) -> Result<Seq<char>, Failure> {
    match arrival {
        Ok(reply) => read(reply),
        Err(failure) => Err(failure),
    }
}

/// The description that the arrival at the stage `Species` amounts to.
pub open spec fn description_obtained(
    name: Seq<char>,
    url: Seq<char>,
    arrival: Result<Reply, Failure>,
) -> Result<Seq<char>, Failure> {
    obtained(arrival, |reply: Reply| description_of(name, url, reply))
}

/// The rewritten text that the arrival at the stage `Rewrite` amounts to.
pub open spec fn translation_obtained(arrival: Result<Reply, Failure>) -> Result<
    Seq<char>,
    Failure,
> {
    obtained(arrival, |reply: Reply| translation_of(reply))
}

/// The caches after the step that follows an arrival. Only a description
/// that was read and a text that was rewritten are stored.
pub open spec fn caches_resumed(caches: Caches, stage: Waiting, arrival: Result<Reply, Failure>) -> Caches {
    match stage {
        Waiting::Lookup { name } => caches,
        Waiting::LookupRetry { name, first_status } => caches,
        Waiting::Species { name, url } => Caches {
            descriptions: recorded(
                caches.descriptions,
                name,
                description_obtained(name, url, arrival),
            ),
            shakespearese: caches.shakespearese,
        },
        Waiting::Rewrite { name, description } => Caches {
            descriptions: caches.descriptions,
            shakespearese: recorded(
                caches.shakespearese,
                description,
                translation_obtained(arrival),
            ),
        },
    }
}

/// The step that follows an arrival.
pub open spec fn resumed(caches: Caches, stage: Waiting, arrival: Result<Reply, Failure>) -> Next {
    match stage {
        Waiting::Lookup { name } => match arrival {
            Err(failure) => Next::Finish(Err(failure)),
            Ok(reply) => if success(reply.status) {
                species_request(name, reply.body)
            } else {
                Next::Fetch {
                    url: pokemon_url_with_slash(name),
                    stage: Waiting::LookupRetry { name, first_status: reply.status },
                }
            },
        },
        Waiting::LookupRetry { name, first_status } => match arrival {
            Err(failure) => Next::Finish(Err(failure)),
            Ok(reply) => if success(reply.status) {
                species_request(name, reply.body)
            } else {
                Next::Finish(Err(pokemon_not_found(name, first_status)))
            },
        },
        Waiting::Species { name, url } => match description_obtained(name, url, arrival) {
            Ok(description) => rewriting(
                caches_resumed(caches, stage, arrival),
                name,
                description,
            ),
            Err(failure) => Next::Finish(Err(failure)),
        },
        Waiting::Rewrite { name, description } => match ignoring_rate_limit(
            translation_obtained(arrival),
            description,
        ) {
            Ok(text) => Next::Finish(Ok(Answer { name, description: text })),
            Err(failure) => Next::Finish(Err(failure)),
        },
    }
}

// ---------------------------------------------------------------------
// The steps
// ---------------------------------------------------------------------

fn rewrite_step(cache: &ResponseCache, name: String, description: String) -> (step: Step)
    ensures
        step@ == rewriting(cache@, name@, description@),
{
    match ResponseCache::get_cached_value(&cache.shakespearese, description.as_str()) {
        Some(text) => Step::Finish(Ok(PokemonInShakespeareseResponse::new(name, text))),
        None => match shakespeare_request(description.as_str()) {
            Ok(url) => Step::Fetch { url, stage: Stage::Rewrite { name, description } },
            Err(error) => Step::Finish(Err(error)),
        },
    }
}

fn species_step(name: String, body: &str) -> (step: Step)
    ensures
        step@ == species_request(name@, body@),
{
    match species_url(body) {
        Ok(url) => {
            let asked = url.clone();
            Step::Fetch { url: asked, stage: Stage::Species { name, url } }
        },
        Err(error) => Step::Finish(Err(error)),
    }
}

/// Starts the request for the creature `pokemon_name`.
///
/// The name is put in lower case. Where its description is cached, and the
/// rewritten form of that description too, the request is done at once,
/// without any request to an upstream service. Where only the description
/// is cached, the rewriting is asked for. Otherwise the record of the
/// creature is asked for. The caches are read, not changed.
pub fn respond_with_pokemon_in_shakespearese(cache: &ResponseCache, pokemon_name: &str) -> (step:
    Step)
    ensures
        step@ == started(cache@, pokemon_name@),
{
    let name = normalize(pokemon_name);
    match ResponseCache::get_cached_value(&cache.descriptions, name.as_str()) {
        Some(description) => rewrite_step(cache, name, description),
        None => {
            let url = query_pokemon_by_name(name.as_str());
            Step::Fetch { url, stage: Stage::Lookup { name } }
        },
    }
}

/// Goes on with a request that waited at `stage`, now that `arrival` came
/// back: the reply, or the failure of the transport.
///
/// A failure of the transport ends the request. The record of a creature
/// that was not answered with success is asked for once more, with a
/// trailing slash; if that fails too, the request ends with the status of
/// the first answer. A description that was read is cached under the name
/// and a rewritten text under the description; a failure is never cached.
/// Where the rewriting service limits the rate (status 429), the request
/// ends with the description as it is, and nothing is cached for it.
pub fn resume(cache: &mut ResponseCache, stage: Stage, arrival: Result<HttpReply, RequestError>) -> (step:
    Step)
    ensures
        step@ == resumed(old(cache)@, stage@, crate::upstream::arrival_view(arrival)),
        final(cache)@ == caches_resumed(
            old(cache)@,
            stage@,
            crate::upstream::arrival_view(arrival),
        ),
{
    match stage {
        Stage::Lookup { name } => match arrival {
            Err(error) => Step::Finish(Err(error)),
            Ok(reply) => {
                if is_success(reply.status) {
                    species_step(name, reply.body.as_str())
                } else {
                    let url = query_pokemon_with_trailing_slash(name.as_str());
                    Step::Fetch {
                        url,
                        stage: Stage::LookupRetry { name, first_status: reply.status },
                    }
                }
            },
        },
        Stage::LookupRetry { name, first_status } => match arrival {
            Err(error) => Step::Finish(Err(error)),
            Ok(reply) => {
                if is_success(reply.status) {
                    species_step(name, reply.body.as_str())
                } else {
                    Step::Finish(Err(pokemon_not_found_error(name.as_str(), first_status)))
                }
            },
        },
        Stage::Species { name, url } => {
            let outcome = match arrival {
                Ok(reply) => describe_pokemon(name.as_str(), url.as_str(), &reply),
                Err(error) => Err(error),
            };
            ResponseCache::record(&mut cache.descriptions, name.as_str(), &outcome);
            match outcome {
                Ok(description) => rewrite_step(cache, name, description),
                Err(error) => Step::Finish(Err(error)),
            }
        },
        Stage::Rewrite { name, description } => {
            let outcome = match arrival {
                Ok(reply) => shakespearise(&reply),
                Err(error) => Err(error),
            };
            ResponseCache::record(&mut cache.shakespearese, description.as_str(), &outcome);
            match shakespearise_ignore_rate_limit_error(outcome, description) {
                Ok(text) => Step::Finish(Ok(PokemonInShakespeareseResponse::new(name, text))),
                Err(error) => Step::Finish(Err(error)),
            }
        },
    }
}

} // verus!
