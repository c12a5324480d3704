//! The two caches of the pipeline: descriptions by name, and rewritten
//! texts by description.
//!
//! Both are filled on demand and never emptied. Only a success is stored: a
//! failure leaves the cache as it was, so that the next request tries
//! again.

use vstd::prelude::*;

use crate::error::outcome_view;
use crate::error::Failure;
use crate::error::RequestError;

verus! {

/// `chashmap::CHashMap`, a hash map of the `chashmap` crate. It stays
/// opaque: what it holds is named by `cached`.
#[verifier::external_type_specification]
#[verifier::external_body]
#[verifier::reject_recursive_types(K)]
#[verifier::reject_recursive_types(V)]
pub struct ExCHashMap<K, V>(chashmap::CHashMap<K, V>);

/// One cache: a map from a text to a text.
pub type ResponseCacheMap = chashmap::CHashMap<String, String>;

/// The entries that a cache map holds. This library changes a map only
/// through an exclusive reference, so that the entries of a map that is
/// merely read stay the same.
pub uninterp spec fn cached(map: chashmap::CHashMap<String, String>) -> Map<Seq<char>, Seq<char>>;

/// The map without entries.
pub open spec fn no_entries() -> Map<Seq<char>, Seq<char>> {
    Map::empty()
}

/// Makes an empty map with `chashmap::CHashMap::with_capacity`. Trusted: the
/// new map holds no entry. The capacity is bounded because the crate
/// allocates four buckets for each entry asked for, at once, and the table
/// has to fit the address space of a 32-bit machine too.
#[verifier::external_body]
pub(crate) fn empty_map(capacity: usize) -> (made: ResponseCacheMap)
    requires
        capacity <= 0x10_0000,
    ensures
        cached(made) == no_entries(),
{
    chashmap::CHashMap::with_capacity(capacity)
}

/// Looks a key up with `chashmap::CHashMap::get` and copies the value out
/// of the guard. Trusted: the result is the value stored under `key`, and
/// `None` where there is none.
#[verifier::external_body]
pub(crate) fn lookup(map: &ResponseCacheMap, key: &str) -> (value: Option<String>)
    ensures
        value is Some <==> cached(*map).contains_key(key@),
        value matches Some(v) ==> cached(*map)[key@] == v@,
{
    map.get(key).map(|guard| guard.to_string())
}

/// Stores an entry with `chashmap::CHashMap::insert`. Trusted: afterwards
/// the map holds `value` under `key`, in the place of what the key had
/// before, if anything, and every other entry as before.
#[verifier::external_body]
pub(crate) fn store(map: &mut ResponseCacheMap, key: String, value: String)
    ensures
        cached(*final(map)) == cached(*old(map)).insert(key@, value@),
{
    map.insert(key, value);
}

/// The caches of the pipeline.
pub struct ResponseCache {
    /// The description of each creature that was looked up, by its name.
    pub descriptions: ResponseCacheMap,
    /// The rewritten form of each description that was rewritten.
    pub shakespearese: ResponseCacheMap,
}

/// The caches as contracts see them.
pub struct Caches {
    pub descriptions: Map<Seq<char>, Seq<char>>,
    pub shakespearese: Map<Seq<char>, Seq<char>>,
}

impl View for ResponseCache {
    type V = Caches;

    open spec fn view(&self) -> Caches {
        Caches {
            descriptions: cached(self.descriptions),
            shakespearese: cached(self.shakespearese),
        }
    }
}

/// A map after the outcome of a computation for `key` has been recorded:
/// a success is stored under the key, a failure changes nothing.
pub open spec fn recorded(
    map: Map<Seq<char>, Seq<char>>,
    key: Seq<char>,
    outcome: Result<Seq<char>, Failure>,
) -> Map<Seq<char>, Seq<char>> {
    match outcome {
        Ok(value) => map.insert(key, value),
        Err(_) => map,
    }
}

impl ResponseCache {
    /// Two empty caches.
    pub fn new() -> (cache: ResponseCache)
        ensures
            cache@.descriptions == no_entries(),
            cache@.shakespearese == no_entries(),
    {
        ResponseCache { descriptions: empty_map(1200), shakespearese: empty_map(1200) }
    }

    /// The value cached under `key`, if there is one.
    pub fn get_cached_value(cache: &ResponseCacheMap, key: &str) -> (value: Option<String>)
        ensures
            value is Some <==> cached(*cache).contains_key(key@),
            value matches Some(v) ==> cached(*cache)[key@] == v@,
    {
        lookup(cache, key)
    }

    /// Caches `value` under `key`. A value that the key had before is
    /// replaced: the last write wins.
    pub fn put_value_in_cache(cache: &mut ResponseCacheMap, key: String, value: String)
        ensures
            cached(*final(cache)) == cached(*old(cache)).insert(key@, value@),
    {
        store(cache, key, value)
    }

    /// Records the outcome of a computation for `key`: a success is cached,
    /// a failure is not.
    pub fn record(cache: &mut ResponseCacheMap, key: &str, outcome: &Result<String, RequestError>)
        ensures
            cached(*final(cache)) == recorded(cached(*old(cache)), key@, outcome_view(*outcome)),
    {
        match outcome {
            Ok(value) => {
                store(cache, key.to_owned(), value.clone());
            },
            Err(_) => {},
        }
    }

    /// Answers from the cache, or computes and remembers.
    ///
    /// Where `cache_map` holds a value under `input`, that value is the
    /// outcome and `obtain_value` is not called. Otherwise the outcome is
    /// what `obtain_value` returns for `input`: a success is cached under
    /// `input`, a failure is handed on and leaves the cache unchanged.
    pub fn call_with_cache<F: Fn(&str) -> Result<String, RequestError>>(
        cache_map: &mut ResponseCacheMap,
        input: &str,
        obtain_value: F,
    ) -> (outcome: Result<String, RequestError>)
        requires
            !cached(*old(cache_map)).contains_key(input@) ==> call_requires(
                obtain_value,
                (input,),
            ),
        ensures
            cached(*old(cache_map)).contains_key(input@) ==> {
                &&& outcome matches Ok(value)
                &&& value@ == cached(*old(cache_map))[input@]
                &&& cached(*final(cache_map)) == cached(*old(cache_map))
            },
            !cached(*old(cache_map)).contains_key(input@) ==> {
                &&& call_ensures(obtain_value, (input,), outcome)
                &&& cached(*final(cache_map)) == recorded(
                    cached(*old(cache_map)),
                    input@,
                    outcome_view(outcome),
                )
            },
            outcome is Err ==> cached(*final(cache_map)) == cached(*old(cache_map)),
    {
        match ResponseCache::get_cached_value(cache_map, input) {
            Some(value) => Ok(value),
            None => {
                let outcome = obtain_value(input);
                ResponseCache::record(cache_map, input, &outcome);
                outcome
            },
        }
    }

    /// The description of `pokemon_name` from the cache of descriptions, or
    /// else from `obtain`, whose success is cached. The cache of rewritten
    /// texts is not touched.
    pub fn describe_pokemon<F: Fn(&str) -> Result<String, RequestError>>(
        &mut self,
        pokemon_name: &str,
        obtain: F,
    ) -> (outcome: Result<String, RequestError>)
        requires
            !old(self)@.descriptions.contains_key(pokemon_name@) ==> call_requires(
                obtain,
                (pokemon_name,),
            ),
        ensures
            final(self)@.shakespearese == old(self)@.shakespearese,
            old(self)@.descriptions.contains_key(pokemon_name@) ==> {
                &&& outcome matches Ok(value)
                &&& value@ == old(self)@.descriptions[pokemon_name@]
                &&& final(self)@.descriptions == old(self)@.descriptions
            },
            !old(self)@.descriptions.contains_key(pokemon_name@) ==> {
                &&& call_ensures(obtain, (pokemon_name,), outcome)
                &&& final(self)@.descriptions == recorded(
                    old(self)@.descriptions,
                    pokemon_name@,
                    outcome_view(outcome),
                )
            },
    {
        ResponseCache::call_with_cache(&mut self.descriptions, pokemon_name, obtain)
    }

    /// The rewritten form of `input_text` from the cache of rewritten
    /// texts, or else from `obtain`, whose success is cached. The cache of
    /// descriptions is not touched.
    pub fn shakespearise<F: Fn(&str) -> Result<String, RequestError>>(
        &mut self,
        input_text: &str,
        obtain: F,
    ) -> (outcome: Result<String, RequestError>)
        requires
            !old(self)@.shakespearese.contains_key(input_text@) ==> call_requires(
                obtain,
                (input_text,),
            ),
        ensures
            final(self)@.descriptions == old(self)@.descriptions,
            old(self)@.shakespearese.contains_key(input_text@) ==> {
                &&& outcome matches Ok(value)
                &&& value@ == old(self)@.shakespearese[input_text@]
                &&& final(self)@.shakespearese == old(self)@.shakespearese
            },
            !old(self)@.shakespearese.contains_key(input_text@) ==> {
                &&& call_ensures(obtain, (input_text,), outcome)
                &&& final(self)@.shakespearese == recorded(
                    old(self)@.shakespearese,
                    input_text@,
                    outcome_view(outcome),
                )
            },
    {
        ResponseCache::call_with_cache(&mut self.shakespearese, input_text, obtain)
    }
}

} // verus!
