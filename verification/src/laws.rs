//! What holds of the pipeline whatever the upstream services answer.

use vstd::prelude::*;

use crate::cache::recorded;
use crate::cache::Caches;
use crate::describe::chosen;
use crate::describe::chosen_at;
use crate::describe::description_of;
use crate::describe::first_ruby_at;
use crate::describe::has_ruby;
use crate::describe::lemma_choice_needs_english;
use crate::describe::Entry;
use crate::error::rate_limited;
use crate::error::Failure;
use crate::pipeline::caches_resumed;
use crate::pipeline::description_obtained;
use crate::pipeline::resumed;
use crate::pipeline::rewriting;
use crate::pipeline::started;
use crate::pipeline::translation_obtained;
use crate::pipeline::Next;
use crate::pipeline::Waiting;
use crate::response::Answer;
use crate::text::lowercase_of;
use crate::upstream::Reply;

verus! {

// ---------------------------------------------------------------------
// Whole requests
// ---------------------------------------------------------------------

/// How far a request came: the caches as it left them, its outcome if it
/// came to an end, and whether a rate limit of the rewriting service was
/// forgiven on the way.
pub struct Run {
    pub caches: Caches,
    pub outcome: Option<Result<Answer, Failure>>,
    pub degraded: bool,
}

/// Whether the arrival at `stage` is a rate limit that the pipeline
/// forgives.
pub open spec fn forgiven(stage: Waiting, arrival: Result<Reply, Failure>) -> bool {
    &&& stage is Rewrite
    &&& translation_obtained(arrival) matches Err(failure)
    &&& rate_limited(failure)
}

/// A request that stands at `step`, carried on with the arrivals in their
/// order, one for each request sent. It has no outcome where the arrivals
/// run out before it is done.
pub open spec fn driven(caches: Caches, step: Next, arrivals: Seq<Result<Reply, Failure>>) -> Run
    decreases arrivals.len(),
{
    match step {
        Next::Finish(outcome) => Run { caches, outcome: Some(outcome), degraded: false },
        Next::Fetch { url, stage } => if arrivals.len() == 0 {
            Run { caches, outcome: None, degraded: false }
        } else {
            let rest = driven(
                caches_resumed(caches, stage, arrivals[0]),
                resumed(caches, stage, arrivals[0]),
                arrivals.drop_first(),
            );
            Run {
                caches: rest.caches,
                outcome: rest.outcome,
                degraded: rest.degraded || forgiven(stage, arrivals[0]),
            }
        },
    }
}

/// The request for `raw`, from its start, with no other request in
/// between.
pub open spec fn handled(caches: Caches, raw: Seq<char>, arrivals: Seq<Result<Reply, Failure>>) -> Run {
    driven(caches, started(caches, raw), arrivals)
}

/// Whether the caches hold the description of `name`.
pub open spec fn described(caches: Caches, name: Seq<char>) -> bool {
    caches.descriptions.contains_key(name)
}

/// Whether the caches hold `answer` in full: the description of its name,
/// and under that description the text that the answer shows.
pub open spec fn remembered(caches: Caches, answer: Answer) -> bool {
    &&& described(caches, answer.name)
    &&& caches.shakespearese.contains_key(caches.descriptions[answer.name])
    &&& caches.shakespearese[caches.descriptions[answer.name]] == answer.description
}

spec fn on_track(caches: Caches, step: Next, name: Seq<char>, degraded: bool) -> bool {
    match step {
        Next::Fetch { url, stage } => match stage {
            Waiting::Lookup { name: n } => n == name,
            Waiting::LookupRetry { name: n, first_status } => n == name,
            Waiting::Species { name: n, url: u } => n == name,
            Waiting::Rewrite { name: n, description } => {
                &&& n == name
                &&& described(caches, name)
                &&& caches.descriptions[name] == description
            },
        },
        Next::Finish(Ok(answer)) => {
            &&& answer.name == name
            &&& described(caches, name)
            &&& degraded || remembered(caches, answer)
        },
        Next::Finish(Err(failure)) => true,
    }
}

proof fn lemma_start_is_on_track(caches: Caches, raw: Seq<char>)
    ensures
        on_track(caches, started(caches, raw), lowercase_of(raw), false),
{
}

proof fn lemma_step_stays_on_track(
    caches: Caches,
    stage: Waiting,
    arrival: Result<Reply, Failure>,
    name: Seq<char>,
    degraded: bool,
)
    requires
        on_track(caches, Next::Fetch { url: Seq::empty(), stage }, name, degraded),
    ensures
        on_track(
            caches_resumed(caches, stage, arrival),
            resumed(caches, stage, arrival),
            name,
            degraded || forgiven(stage, arrival),
        ),
{
    let after = caches_resumed(caches, stage, arrival);
    match stage {
        Waiting::Lookup { name: n } => {},
        Waiting::LookupRetry { name: n, first_status } => {},
        Waiting::Species { name: n, url: u } => {
            match description_obtained(n, u, arrival) {
                Ok(description) => {
                    assert(after.descriptions == caches.descriptions.insert(name, description));
                    assert(after.descriptions[name] == description);
                },
                Err(failure) => {},
            }
        },
        Waiting::Rewrite { name: n, description } => {
            match translation_obtained(arrival) {
                Ok(text) => {
                    assert(after.shakespearese == caches.shakespearese.insert(description, text));
                    assert(after.shakespearese[description] == text);
                },
                Err(failure) => {},
            }
        },
    }
}

proof fn lemma_run_stays_on_track(
    caches: Caches,
    step: Next,
    arrivals: Seq<Result<Reply, Failure>>,
    name: Seq<char>,
    degraded: bool,
)
    requires
        on_track(caches, step, name, degraded),
    ensures
        driven(caches, step, arrivals).outcome matches Some(Ok(answer)) ==> {
            &&& answer.name == name
            &&& described(driven(caches, step, arrivals).caches, name)
            &&& degraded || driven(caches, step, arrivals).degraded || remembered(
                driven(caches, step, arrivals).caches,
                answer,
            )
        },
    decreases arrivals.len(),
{
    match step {
        Next::Finish(outcome) => {},
        Next::Fetch { url, stage } => {
            if arrivals.len() > 0 {
                lemma_step_stays_on_track(caches, stage, arrivals[0], name, degraded);
                lemma_run_stays_on_track(
                    caches_resumed(caches, stage, arrivals[0]),
                    resumed(caches, stage, arrivals[0]),
                    arrivals.drop_first(),
                    name,
                    degraded || forgiven(stage, arrivals[0]),
                );
            }
        },
    }
}

/// Names that differ only in letter case are one name: the request for the
/// one starts as the request for the other does.
pub proof fn law_letter_case_is_ignored(caches: Caches, one: Seq<char>, other: Seq<char>)
    requires
        lowercase_of(one) == lowercase_of(other),
    ensures
        started(caches, one) == started(caches, other),
{
}

/// The answer of a request carries the name in lower case, whatever the
/// upstream services answered.
pub proof fn law_answer_carries_the_key(
    caches: Caches,
    raw: Seq<char>,
    arrivals: Seq<Result<Reply, Failure>>,
)
    ensures
        handled(caches, raw, arrivals).outcome matches Some(Ok(answer)) ==> answer.name
            == lowercase_of(raw),
{
    lemma_start_is_on_track(caches, raw);
    lemma_run_stays_on_track(caches, started(caches, raw), arrivals, lowercase_of(raw), false);
}

/// A request that succeeded without a forgiven rate limit is remembered:
/// the next request for the same name, in whatever letter case, is done at
/// its first step, with the same answer, and sends no request to either
/// upstream service.
pub proof fn law_second_request_is_answered_from_cache(
    caches: Caches,
    raw: Seq<char>,
    arrivals: Seq<Result<Reply, Failure>>,
    again: Seq<char>,
)
    requires
        handled(caches, raw, arrivals).outcome matches Some(Ok(answer)),
        !handled(caches, raw, arrivals).degraded,
        lowercase_of(again) == lowercase_of(raw),
    ensures
        started(handled(caches, raw, arrivals).caches, again) == Next::Finish(
            handled(caches, raw, arrivals).outcome->0,
        ),
{
    lemma_start_is_on_track(caches, raw);
    lemma_run_stays_on_track(caches, started(caches, raw), arrivals, lowercase_of(raw), false);
}

/// A request that succeeded leaves the description cached even where a
/// rate limit was forgiven: the next request for the same name does not
/// ask the lookup service again. It goes straight to the rewriting.
pub proof fn law_description_is_fetched_once(
    caches: Caches,
    raw: Seq<char>,
    arrivals: Seq<Result<Reply, Failure>>,
    again: Seq<char>,
)
    requires
        handled(caches, raw, arrivals).outcome matches Some(Ok(answer)),
        lowercase_of(again) == lowercase_of(raw),
    ensures
        described(handled(caches, raw, arrivals).caches, lowercase_of(raw)),
        started(handled(caches, raw, arrivals).caches, again) == rewriting(
            handled(caches, raw, arrivals).caches,
            lowercase_of(raw),
            handled(caches, raw, arrivals).caches.descriptions[lowercase_of(raw)],
        ),
{
    lemma_start_is_on_track(caches, raw);
    lemma_run_stays_on_track(caches, started(caches, raw), arrivals, lowercase_of(raw), false);
}

// ---------------------------------------------------------------------
// Failures are not cached
// ---------------------------------------------------------------------

/// Whether the arrival at `stage` leaves the stage without what it asked
/// for: no record of the creature, no description, no rewritten text.
pub open spec fn fruitless(caches: Caches, stage: Waiting, arrival: Result<Reply, Failure>) -> bool {
    match stage {
        Waiting::Lookup { name } => resumed(caches, stage, arrival) is Finish,
        Waiting::LookupRetry { name, first_status } => resumed(caches, stage, arrival) is Finish,
        Waiting::Species { name, url } => description_obtained(name, url, arrival) is Err,
        Waiting::Rewrite { name, description } => translation_obtained(arrival) is Err,
    }
}

/// A step that did not get what it asked for stores nothing: both caches
/// are as they were. This holds for a forgiven rate limit too.
pub proof fn law_failure_is_not_cached(
    caches: Caches,
    stage: Waiting,
    arrival: Result<Reply, Failure>,
)
    requires
        fruitless(caches, stage, arrival),
    ensures
        caches_resumed(caches, stage, arrival) == caches,
{
}

/// A step that ends the request with a failure stores at most the
/// description that it read itself; it never stores a rewritten text.
pub proof fn law_failed_step_stores_no_text(
    caches: Caches,
    stage: Waiting,
    arrival: Result<Reply, Failure>,
)
    requires
        resumed(caches, stage, arrival) matches Next::Finish(Err(failure)),
    ensures
        caches_resumed(caches, stage, arrival).shakespearese == caches.shakespearese,
        !(stage is Species) ==> caches_resumed(caches, stage, arrival) == caches,
{
}

/// After a step that did not get what it asked for, the same stage with a
/// later arrival goes on exactly as if the earlier arrival had never come:
/// the second attempt alone decides.
pub proof fn law_second_attempt_decides(
    caches: Caches,
    stage: Waiting,
    failing: Result<Reply, Failure>,
    later: Result<Reply, Failure>,
)
    requires
        fruitless(caches, stage, failing),
    ensures
        resumed(caches_resumed(caches, stage, failing), stage, later) == resumed(
            caches,
            stage,
            later,
        ),
        caches_resumed(caches_resumed(caches, stage, failing), stage, later) == caches_resumed(
            caches,
            stage,
            later,
        ),
{
}

/// A request for a name without a cached description that ends in a
/// failure before a description was read leaves both caches as they were,
/// so that the next request for that name starts from scratch and its own
/// arrivals alone decide its outcome.
pub proof fn law_failed_request_is_tried_again(
    caches: Caches,
    raw: Seq<char>,
    failing: Seq<Result<Reply, Failure>>,
    later: Seq<Result<Reply, Failure>>,
)
    requires
        handled(caches, raw, failing).outcome matches Some(Err(failure)),
        !described(handled(caches, raw, failing).caches, lowercase_of(raw)),
    ensures
        handled(caches, raw, failing).caches == caches,
        handled(handled(caches, raw, failing).caches, raw, later) == handled(caches, raw, later),
{
    lemma_start_is_on_track(caches, raw);
    lemma_undescribed_run_stores_nothing(caches, started(caches, raw), failing, lowercase_of(raw));
}

spec fn before_description(step: Next, name: Seq<char>) -> bool {
    match step {
        Next::Fetch { url, stage } => match stage {
            Waiting::Lookup { name: n } => n == name,
            Waiting::LookupRetry { name: n, first_status } => n == name,
            Waiting::Species { name: n, url: u } => n == name,
            Waiting::Rewrite { name: n, description } => false,
        },
        Next::Finish(Ok(answer)) => false,
        Next::Finish(Err(failure)) => true,
    }
}

proof fn lemma_descriptions_only_grow(
    caches: Caches,
    step: Next,
    arrivals: Seq<Result<Reply, Failure>>,
    name: Seq<char>,
)
    requires
        described(caches, name),
    ensures
        described(driven(caches, step, arrivals).caches, name),
    decreases arrivals.len(),
{
    match step {
        Next::Finish(outcome) => {},
        Next::Fetch { url, stage } => {
            if arrivals.len() > 0 {
                lemma_descriptions_only_grow(
                    caches_resumed(caches, stage, arrivals[0]),
                    resumed(caches, stage, arrivals[0]),
                    arrivals.drop_first(),
                    name,
                );
            }
        },
    }
}

proof fn lemma_undescribed_run_stores_nothing(
    caches: Caches,
    step: Next,
    arrivals: Seq<Result<Reply, Failure>>,
    name: Seq<char>,
)
    requires
        before_description(step, name) || described(caches, name),
        !described(driven(caches, step, arrivals).caches, name),
    ensures
        driven(caches, step, arrivals).caches == caches,
    decreases arrivals.len(),
{
    if described(caches, name) {
        lemma_descriptions_only_grow(caches, step, arrivals, name);
    } else {
        match step {
            Next::Finish(outcome) => {},
            Next::Fetch { url, stage } => {
                if arrivals.len() > 0 {
                    let after = caches_resumed(caches, stage, arrivals[0]);
                    let next = resumed(caches, stage, arrivals[0]);
                    match stage {
                        Waiting::Species { name: n, url: u } => {
                            match description_obtained(n, u, arrivals[0]) {
                                Ok(description) => {
                                    assert(after.descriptions == caches.descriptions.insert(
                                        name,
                                        description,
                                    ));
                                    assert(described(after, name));
                                },
                                Err(failure) => {},
                            }
                        },
                        _ => {},
                    }
                    lemma_undescribed_run_stores_nothing(
                        after,
                        next,
                        arrivals.drop_first(),
                        name,
                    );
                }
            },
        }
    }
}

// ---------------------------------------------------------------------
// The rate limit
// ---------------------------------------------------------------------

/// Where the rewriting service answers with status 429, the request
/// succeeds with the description exactly as it was fetched, under the name
/// it was asked for, and neither cache changes.
pub proof fn law_rate_limit_falls_back(
    caches: Caches,
    name: Seq<char>,
    description: Seq<char>,
    reply: Reply,
)
    requires
        reply.status == 429,
    ensures
        resumed(caches, Waiting::Rewrite { name, description }, Ok(reply)) == Next::Finish(
            Ok(Answer { name, description }),
        ),
        caches_resumed(caches, Waiting::Rewrite { name, description }, Ok(reply)) == caches,
{
}

// ---------------------------------------------------------------------
// The description
// ---------------------------------------------------------------------

/// Where a list holds an English description from the release `ruby`, the
/// first such description is the one shown, however long the others are.
pub proof fn law_ruby_is_preferred(entries: Seq<Entry>, i: int)
    requires
        first_ruby_at(entries, i),
    ensures
        chosen(entries) == Some(i),
{
    assert(has_ruby(entries));
    assert(chosen_at(entries, i));
    lemma_choice_needs_english(entries, i);
}

/// A description that the lookup yields is on one line: it holds no
/// newline character.
pub proof fn law_description_is_one_line(name: Seq<char>, url: Seq<char>, reply: Reply)
    ensures
        description_of(name, url, reply) matches Ok(text) ==> !text.contains('\n'),
{
}

} // verus!
