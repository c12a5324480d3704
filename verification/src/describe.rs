//! Fetching the description of a creature from the lookup service.
//!
//! The lookup takes two requests: the record of the creature names its
//! species, and the record of the species holds the descriptions, one for
//! each language and release of the game. The functions here build the
//! URLs and read the replies; sending the requests is the caller's part.

use vstd::prelude::*;
use vstd::string::*;

use crate::error::internal_failure;
use crate::error::outcome_view;
use crate::error::Failure;
use crate::error::RequestError;
use crate::json::error_text;
use crate::json::json_error_text;
use crate::json::json_items;
use crate::json::json_member;
use crate::json::json_of;
use crate::json::member;
use crate::json::parse;
use crate::json::text_member;
use crate::json::text_of_member;
use crate::status::is_success;
use crate::status::success;
use crate::status::UNPROCESSABLE_ENTITY;
use crate::text::single_line;
use crate::text::spaced;
use crate::upstream::HttpReply;
use crate::upstream::Reply;

verus! {

/// One description of a species: the release of the game that it is from,
/// its text and its language.
#[derive(Debug, Clone, PartialEq, Eq)]
pub struct PokeApiPokemonDescription {
    pub version: String,
    pub flavor_text: String,
    pub language: String,
}

/// A description as contracts see it.
pub struct Entry {
    pub version: Seq<char>,
    pub flavor_text: Seq<char>,
    pub language: Seq<char>,
}

impl View for PokeApiPokemonDescription {
    type V = Entry;

    open spec fn view(&self) -> Entry {
        Entry {
            version: self.version@,
            flavor_text: self.flavor_text@,
            language: self.language@,
        }
    }
}

/// A list of descriptions as contracts see it.
pub open spec fn entries_view(list: Seq<PokeApiPokemonDescription>) -> Seq<Entry> {
    list.map_values(|entry: PokeApiPokemonDescription| entry@)
}

// ---------------------------------------------------------------------
// The two requests
// ---------------------------------------------------------------------

/// The URL of a creature's record.
pub open spec fn pokemon_url(name: Seq<char>) -> Seq<char> {
    "https://pokeapi.co/api/v2/pokemon/"@ + name
}

/// The same URL with a trailing slash: the lookup service answers some
/// names only in this form.
pub open spec fn pokemon_url_with_slash(name: Seq<char>) -> Seq<char> {
    pokemon_url(name) + "/"@
}

/// Builds the URL at which the record of `pokemon_name` is asked for first.
pub fn query_pokemon_by_name(pokemon_name: &str) -> (url: String)
    ensures
        url@ == pokemon_url(pokemon_name@),
{
    let mut url = String::from_str("https://pokeapi.co/api/v2/pokemon/");
    url.append(pokemon_name);
    url
}

/// Builds the URL at which the record of `pokemon_name` is asked for a
/// second time, after the first request was answered without success.
pub fn query_pokemon_with_trailing_slash(pokemon_name: &str) -> (url: String)
    ensures
        url@ == pokemon_url_with_slash(pokemon_name@),
{
    let mut url = query_pokemon_by_name(pokemon_name);
    url.append("/");
    url
}

/// The failure reported when neither form of the URL was answered with
/// success: it carries the status of the first answer and names the
/// creature and the URL that was asked first.
pub open spec fn pokemon_not_found(name: Seq<char>, status: u16) -> Failure {
    Failure {
        status,
        description: "Failed to find a pokemon "@ + name + " by url "@ + pokemon_url(name),
    }
}

/// Makes the failure reported when neither form of the URL was answered
/// with success.
pub fn pokemon_not_found_error(pokemon_name: &str, status: u16) -> (error: RequestError)
    ensures
        error@ == pokemon_not_found(pokemon_name@, status),
{
    let mut description = String::from_str("Failed to find a pokemon ");
    description.append(pokemon_name);
    description.append(" by url ");
    let url = query_pokemon_by_name(pokemon_name);
    description.append(url.as_str());
    RequestError::new(status, description)
}

// ---------------------------------------------------------------------
// Reading the record of a creature
// ---------------------------------------------------------------------

/// The failure reported for a record that is JSON but names no species.
pub open spec fn no_species_reference() -> Failure {
    internal_failure("The record of the pokemon holds no species url"@)
}

/// The URL of the species that the body of a creature's record names: the
/// text at `species.url`. A body that is no JSON fails with the parser's
/// message, one without that text with `no_species_reference`.
pub open spec fn species_url_in(body: Seq<char>) -> Result<Seq<char>, Failure> {
    match json_of(body) {
        Err(error) => Err(internal_failure(json_error_text(error))),
        Ok(document) => match json_member(document, "species"@) {
            Some(species) => match text_member(species, "url"@) {
                Some(url) => Ok(url),
                None => Err(no_species_reference()),
            },
            None => Err(no_species_reference()),
        },
    }
}

fn no_species_reference_error() -> (error: RequestError)
    ensures
        error@ == no_species_reference(),
{
    RequestError::new_internal(String::from_str("The record of the pokemon holds no species url"))
}

/// Reads the URL of the species out of the body of a creature's record.
pub fn species_url(body: &str) -> (outcome: Result<String, RequestError>)
    ensures
        outcome_view(outcome) == species_url_in(body@),
{
    match parse(body) {
        Err(error) => Err(RequestError::new_internal(error_text(&error))),
        Ok(document) => match member(&document, "species") {
            Some(species) => match text_of_member(species, "url") {
                Some(url) => Ok(url),
                None => Err(no_species_reference_error()),
            },
            None => Err(no_species_reference_error()),
        },
    }
}

// ---------------------------------------------------------------------
// Reading the record of a species
// ---------------------------------------------------------------------

/// The text at `<key>.name` of a JSON object.
pub open spec fn name_under(value: serde_json::Value, key: Seq<char>) -> Option<Seq<char>> {
    match json_member(value, key) {
        Some(inner) => text_member(inner, "name"@),
        None => None,
    }
}

/// The description that a JSON value stands for: an object with the texts
/// `flavor_text`, `language.name` and `version.name`. Other members are
/// ignored; a value that lacks one of the three is no description.
pub open spec fn entry_of(value: serde_json::Value) -> Option<Entry> {
    match text_member(value, "flavor_text"@) {
        Some(flavor_text) => match name_under(value, "language"@) {
            Some(language) => match name_under(value, "version"@) {
                Some(version) => Some(Entry { version, flavor_text, language }),
                None => None,
            },
            None => None,
        },
        None => None,
    }
}

/// The descriptions that a list of JSON values stands for, in the list's
/// order; `None` where one of the values is no description.
pub open spec fn entries_of(items: Seq<serde_json::Value>) -> Option<Seq<Entry>> {
    if forall|i: int| 0 <= i < items.len() ==> (#[trigger] entry_of(items[i])) is Some {
        Some(Seq::new(items.len(), |i: int| entry_of(items[i])->0))
    } else {
        None
    }
}

/// The failure reported for a record that is JSON but holds no list of
/// descriptions of the expected shape.
pub open spec fn no_description_list() -> Failure {
    internal_failure("The record of the species holds no list of descriptions"@)
}

/// The descriptions in the body of a species' record: the list at
/// `flavor_text_entries`. A body that is no JSON fails with the parser's
/// message, one without such a list with `no_description_list`.
pub open spec fn descriptions_in(body: Seq<char>) -> Result<Seq<Entry>, Failure> {
    match json_of(body) {
        Err(error) => Err(internal_failure(json_error_text(error))),
        Ok(document) => match json_member(document, "flavor_text_entries"@) {
            Some(list) => match json_items(list) {
                Some(items) => match entries_of(items) {
                    Some(entries) => Ok(entries),
                    None => Err(no_description_list()),
                },
                None => Err(no_description_list()),
            },
            None => Err(no_description_list()),
        },
    }
}

fn read_name_under(value: &serde_json::Value, key: &str) -> (name: Option<String>)
    ensures
        name is Some <==> name_under(*value, key@) is Some,
        name matches Some(text) ==> name_under(*value, key@) == Some(text@),
{
    match member(value, key) {
        Some(inner) => text_of_member(inner, "name"),
        None => None,
    }
}

fn read_entry(value: &serde_json::Value) -> (entry: Option<PokeApiPokemonDescription>)
    ensures
        entry is Some <==> entry_of(*value) is Some,
        entry matches Some(e) ==> entry_of(*value) == Some(e@),
{
    match text_of_member(value, "flavor_text") {
        Some(flavor_text) => match read_name_under(value, "language") {
            Some(language) => match read_name_under(value, "version") {
                Some(version) => Some(PokeApiPokemonDescription { version, flavor_text, language }),
                None => None,
            },
            None => None,
        },
        None => None,
    }
}

fn read_entries(items: &Vec<serde_json::Value>) -> (entries: Option<Vec<PokeApiPokemonDescription>>)
    ensures
        entries is Some <==> entries_of(items@) is Some,
        entries matches Some(list) ==> entries_of(items@) == Some(entries_view(list@)),
{
    let mut list: Vec<PokeApiPokemonDescription> = Vec::new();
    let mut i: usize = 0;
    while i < items.len()
        invariant
            i <= items.len(),
            list.len() == i,
            forall|j: int| 0 <= j < i ==> (#[trigger] entry_of(items@[j])) == Some(list@[j]@),
        decreases items.len() - i,
    {
        match read_entry(&items[i]) {
            Some(entry) => {
                list.push(entry);
            },
            None => {
                assert(entry_of(items@[i as int]) is None);
                return None;
            },
        }
        i += 1;
    }
    assert(entries_view(list@) =~= Seq::new(items@.len(), |i: int| entry_of(items@[i])->0));
    Some(list)
}

fn no_description_list_error() -> (error: RequestError)
    ensures
        error@ == no_description_list(),
{
    RequestError::new_internal(
        String::from_str("The record of the species holds no list of descriptions"),
    )
}

/// The outcome of reading a list of descriptions, as contracts see it.
pub open spec fn listing_view(outcome: Result<Vec<PokeApiPokemonDescription>, RequestError>) -> Result<
    Seq<Entry>,
    Failure,
> {
    match outcome {
        Ok(list) => Ok(entries_view(list@)),
        Err(error) => Err(error@),
    }
}

/// Reads the descriptions out of the body of a species' record.
pub fn descriptions(body: &str) -> (outcome: Result<Vec<PokeApiPokemonDescription>, RequestError>)
    ensures
        listing_view(outcome) == descriptions_in(body@),
{
    match parse(body) {
        Err(error) => Err(RequestError::new_internal(error_text(&error))),
        Ok(document) => match member(&document, "flavor_text_entries") {
            Some(list) => match list.as_array() {
                Some(items) => match read_entries(items) {
                    Some(entries) => Ok(entries),
                    None => Err(no_description_list_error()),
                },
                None => Err(no_description_list_error()),
            },
            None => Err(no_description_list_error()),
        },
    }
}

// ---------------------------------------------------------------------
// Choosing one description
// ---------------------------------------------------------------------

/// Whether a description is in English.
pub open spec fn is_english(entry: Entry) -> bool {
    entry.language == "en"@
}

/// Whether a description is in English and from the release `ruby`.
pub open spec fn is_ruby(entry: Entry) -> bool {
    is_english(entry) && entry.version == "ruby"@
}

/// The length of a text in bytes, in UTF-8.
pub open spec fn byte_len(text: Seq<char>) -> nat {
    vstd::utf8::encode_utf8(text).len()
}

/// Whether a list holds a description in English.
pub open spec fn has_english(entries: Seq<Entry>) -> bool {
    exists|i: int| 0 <= i < entries.len() && is_english(#[trigger] entries[i])
}

/// Whether a list holds a description in English from the release `ruby`.
pub open spec fn has_ruby(entries: Seq<Entry>) -> bool {
    exists|i: int| 0 <= i < entries.len() && is_ruby(#[trigger] entries[i])
}

/// Whether `i` is the place of the first English description from the
/// release `ruby`.
pub open spec fn first_ruby_at(entries: Seq<Entry>, i: int) -> bool {
    &&& 0 <= i < entries.len()
    &&& is_ruby(entries[i])
    &&& forall|j: int| 0 <= j < i ==> !is_ruby(#[trigger] entries[j])
}

/// Whether `i` is the place of the longest English description, counted in
/// bytes; of several that are equally long, the last one.
pub open spec fn longest_at(entries: Seq<Entry>, i: int) -> bool {
    &&& 0 <= i < entries.len()
    &&& is_english(entries[i])
    &&& forall|j: int|
        0 <= j < entries.len() && is_english(#[trigger] entries[j]) ==> byte_len(
            entries[j].flavor_text,
        ) <= byte_len(entries[i].flavor_text)
    &&& forall|j: int|
        i < j < entries.len() && is_english(#[trigger] entries[j]) ==> byte_len(
            entries[j].flavor_text,
        ) < byte_len(entries[i].flavor_text)
}

/// Whether `i` is the place of the description to show: the first English
/// one from the release `ruby`, whatever its length; where there is none,
/// the longest English one.
pub open spec fn chosen_at(entries: Seq<Entry>, i: int) -> bool {
    if has_ruby(entries) {
        first_ruby_at(entries, i)
    } else {
        longest_at(entries, i)
    }
}

/// The place of the description to show; `None` where the list holds no
/// English description.
pub open spec fn chosen(entries: Seq<Entry>) -> Option<int> {
    if exists|i: int| chosen_at(entries, i) {
        Some(choose|i: int| chosen_at(entries, i))
    } else {
        None
    }
}

/// At most one place is chosen.
pub proof fn lemma_choice_is_unique(entries: Seq<Entry>, i: int, j: int)
    requires
        chosen_at(entries, i),
        chosen_at(entries, j),
    ensures
        i == j,
{
    if has_ruby(entries) {
        if i < j {
            assert(!is_ruby(entries[i]));
        } else if j < i {
            assert(!is_ruby(entries[j]));
        }
    } else {
        if i < j {
            assert(byte_len(entries[j].flavor_text) < byte_len(entries[i].flavor_text));
            assert(byte_len(entries[i].flavor_text) <= byte_len(entries[j].flavor_text));
        } else if j < i {
            assert(byte_len(entries[i].flavor_text) < byte_len(entries[j].flavor_text));
            assert(byte_len(entries[j].flavor_text) <= byte_len(entries[i].flavor_text));
        }
    }
}

/// A place is chosen exactly where the list holds an English description.
pub proof fn lemma_choice_needs_english(entries: Seq<Entry>, i: int)
    requires
        chosen_at(entries, i),
    ensures
        has_english(entries),
        chosen(entries) == Some(i),
{
    assert(is_english(entries[i]));
    let picked = choose|k: int| chosen_at(entries, k);
    lemma_choice_is_unique(entries, i, picked);
}

/// Chooses the description to show: the first English one from the release
/// `ruby`, whatever its length; where there is none, the longest English
/// one (of several that are equally long, the last); `None` where no
/// description is in English.
pub fn select_description(entries: &Vec<PokeApiPokemonDescription>) -> (choice: Option<usize>)
    ensures
        choice is Some <==> has_english(entries_view(entries@)),
        choice matches Some(i) ==> chosen_at(entries_view(entries@), i as int),
        choice matches Some(i) ==> chosen(entries_view(entries@)) == Some(i as int),
        choice is None ==> chosen(entries_view(entries@)) is None,
{
    let en = String::from_str("en");
    let ruby_name = String::from_str("ruby");
    let mut ruby: Option<usize> = None;
    let mut longest: Option<usize> = None;
    let mut longest_len: usize = 0;
    let mut i: usize = 0;
    while i < entries.len()
        invariant
            i <= entries.len(),
            en@ == "en"@,
            ruby_name@ == "ruby"@,
            ruby matches Some(r) ==> first_ruby_at(entries_view(entries@), r as int),
            ruby is None ==> forall|j: int|
                0 <= j < i ==> !is_ruby(#[trigger] entries_view(entries@)[j]),
            longest matches Some(l) ==> {
                &&& l < i
                &&& is_english(entries_view(entries@)[l as int])
                &&& longest_len == byte_len(entries_view(entries@)[l as int].flavor_text)
                &&& forall|j: int|
                    0 <= j < i && is_english(#[trigger] entries_view(entries@)[j]) ==> byte_len(
                        entries_view(entries@)[j].flavor_text,
                    ) <= longest_len
                &&& forall|j: int|
                    l < j < i && is_english(#[trigger] entries_view(entries@)[j]) ==> byte_len(
                        entries_view(entries@)[j].flavor_text,
                    ) < longest_len
            },
            longest is None ==> forall|j: int|
                0 <= j < i ==> !is_english(#[trigger] entries_view(entries@)[j]),
        decreases entries.len() - i,
    {
        let entry = &entries[i];
        assert(entries_view(entries@)[i as int] == entry@);
        if entry.language == en {
            if ruby.is_none() && entry.version == ruby_name {
                ruby = Some(i);
            }
            let len = entry.flavor_text.as_str().as_bytes().len();
            if longest.is_none() || len >= longest_len {
                longest = Some(i);
                longest_len = len;
            }
        }
        i += 1;
    }
    let choice = if ruby.is_some() {
        ruby
    } else {
        longest
    };
    proof {
        let view = entries_view(entries@);
        assert(view.len() == entries@.len());
        match choice {
            Some(c) => {
                if ruby is Some {
                    assert(is_ruby(view[c as int]));
                    assert(has_ruby(view));
                } else {
                    assert(!has_ruby(view));
                }
                assert(chosen_at(view, c as int));
                lemma_choice_needs_english(view, c as int);
            },
            None => {
                assert(!has_english(view));
                assert forall|k: int| !chosen_at(view, k) by {
                    if chosen_at(view, k) {
                        lemma_choice_needs_english(view, k);
                    }
                }
            },
        }
    }
    choice
}

// ---------------------------------------------------------------------
// From the record of a species to the description
// ---------------------------------------------------------------------

/// The failure reported when the record of a species was not answered with
/// success: it carries the status of the answer.
pub open spec fn description_unavailable(name: Seq<char>, url: Seq<char>, status: u16) -> Failure {
    Failure {
        status,
        description: "failed to get description for "@ + name + " at "@ + url,
    }
}

/// The failure reported when a species has no description in English:
/// status 422.
pub open spec fn no_english_description(name: Seq<char>) -> Failure {
    Failure { status: 422, description: "no English description for "@ + name }
}

/// The text shown for a list of descriptions: the chosen one, on a single
/// line.
pub open spec fn shown_description(entries: Seq<Entry>) -> Option<Seq<char>> {
    match chosen(entries) {
        Some(i) => Some(spaced(entries[i].flavor_text)),
        None => None,
    }
}

/// What the reply to the request for a species' record amounts to, for the
/// creature `name` whose species is at `url`.
pub open spec fn description_of(name: Seq<char>, url: Seq<char>, reply: Reply) -> Result<
    Seq<char>,
    Failure,
> {
    if !success(reply.status) {
        Err(description_unavailable(name, url, reply.status))
    } else {
        match descriptions_in(reply.body) {
            Err(failure) => Err(failure),
            Ok(entries) => match shown_description(entries) {
                Some(text) => Ok(text),
                None => Err(no_english_description(name)),
            },
        }
    }
}

/// Reads the description of `pokemon_name` out of the reply to the request
/// for its species' record at `species_url`.
///
/// A reply without success fails with the reply's status. A body that holds
/// no list of descriptions fails with status 500. Of the descriptions in
/// English the one from the release `ruby` is taken, else the longest; its
/// newlines become spaces. Where none is in English the outcome is a
/// failure with status 422.
pub fn describe_pokemon(pokemon_name: &str, species_url: &str, reply: &HttpReply) -> (outcome:
    Result<String, RequestError>)
    ensures
        outcome_view(outcome) == description_of(pokemon_name@, species_url@, reply@),
{
    if !is_success(reply.status) {
        let mut description = String::from_str("failed to get description for ");
        description.append(pokemon_name);
        description.append(" at ");
        description.append(species_url);
        return Err(RequestError::new(reply.status, description));
    }
    match descriptions(reply.body.as_str()) {
        Err(error) => Err(error),
        Ok(entries) => match select_description(&entries) {
            Some(i) => Ok(single_line(entries[i].flavor_text.as_str())),
            None => {
                let mut description = String::from_str("no English description for ");
                description.append(pokemon_name);
                Err(RequestError::new(UNPROCESSABLE_ENTITY, description))
            },
        },
    }
}

} // verus!
