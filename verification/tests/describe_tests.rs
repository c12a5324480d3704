use pokespeare::describe::describe_pokemon;
use pokespeare::describe::descriptions;
use pokespeare::describe::pokemon_not_found_error;
use pokespeare::describe::query_pokemon_by_name;
use pokespeare::describe::query_pokemon_with_trailing_slash;
use pokespeare::describe::select_description;
use pokespeare::describe::species_url;
use pokespeare::describe::PokeApiPokemonDescription;
use pokespeare::upstream::HttpReply;

fn entry(version: &str, text: &str, language: &str) -> PokeApiPokemonDescription {
    PokeApiPokemonDescription {
        version: version.to_string(),
        flavor_text: text.to_string(),
        language: language.to_string(),
    }
}

fn entry_json(version: &str, text: &str, language: &str) -> String {
    let mut flavor = serde_json::Map::new();
    let mut named_language = serde_json::Map::new();
    named_language.insert("name".to_string(), serde_json::Value::String(language.to_string()));
    named_language.insert(
        "url".to_string(),
        serde_json::Value::String("https://pokeapi.co/api/v2/language/9/".to_string()),
    );
    let mut named_version = serde_json::Map::new();
    named_version.insert("name".to_string(), serde_json::Value::String(version.to_string()));
    flavor.insert("flavor_text".to_string(), serde_json::Value::String(text.to_string()));
    flavor.insert("language".to_string(), serde_json::Value::Object(named_language));
    flavor.insert("version".to_string(), serde_json::Value::Object(named_version));
    serde_json::Value::Object(flavor).to_string()
}

fn species_body(entries: &[String]) -> String {
    format!("{{\"id\":6,\"flavor_text_entries\":[{}],\"name\":\"charizard\"}}", entries.join(","))
}

const SPECIES_URL: &str = "https://pokeapi.co/api/v2/pokemon-species/6/";

#[test]
fn query_url_is_the_endpoint_followed_by_the_name() {
    assert_eq!(query_pokemon_by_name("charizard"), "https://pokeapi.co/api/v2/pokemon/charizard");
    assert_eq!(query_pokemon_by_name(""), "https://pokeapi.co/api/v2/pokemon/");
    assert_eq!(query_pokemon_by_name("6"), "https://pokeapi.co/api/v2/pokemon/6");
}

#[test]
fn retry_url_has_a_trailing_slash() {
    assert_eq!(
        query_pokemon_with_trailing_slash("klink"),
        "https://pokeapi.co/api/v2/pokemon/klink/"
    );
    assert_eq!(query_pokemon_with_trailing_slash(""), "https://pokeapi.co/api/v2/pokemon//");
}

#[test]
fn not_found_error_names_the_creature_and_the_first_url() {
    let error = pokemon_not_found_error("banana", 404);
    assert_eq!(error.status, 404);
    assert_eq!(
        error.description,
        "Failed to find a pokemon banana by url https://pokeapi.co/api/v2/pokemon/banana"
    );
    assert_eq!(pokemon_not_found_error("x", 503).status, 503);
}

#[test]
fn species_url_is_read_from_the_record() {
    let body = "{\"id\":6,\"name\":\"charizard\",\"species\":{\"name\":\"charizard\",\
                \"url\":\"https://pokeapi.co/api/v2/pokemon-species/6/\"},\"weight\":905}";
    assert_eq!(species_url(body).unwrap(), SPECIES_URL);
}

#[test]
fn species_url_fails_on_text_that_is_no_json() {
    let error = species_url("Not Found").unwrap_err();
    assert_eq!(error.status, 500);
    assert!(error.description.contains("line: 1"));
    let error = species_url("").unwrap_err();
    assert_eq!(error.status, 500);
    assert!(error.description.contains("EOF"));
}

#[test]
fn species_url_fails_on_a_record_without_species() {
    for body in [
        "{\"count\":1302,\"results\":[]}",
        "{\"species\":\"charizard\"}",
        "{\"species\":{\"name\":\"charizard\"}}",
        "{\"species\":{\"url\":6}}",
        "{\"species\":null}",
        "[]",
        "null",
        "\"species\"",
    ] {
        let error = species_url(body).unwrap_err();
        assert_eq!(error.status, 500);
        assert_eq!(error.description, "The record of the pokemon holds no species url");
    }
}

#[test]
fn descriptions_are_read_in_their_order() {
    let body = species_body(&[
        entry_json("red", "Spits fire.", "en"),
        entry_json("red", "Crache du feu.", "fr"),
        entry_json("ruby", "It flies\naround.", "en"),
    ]);
    let list = descriptions(&body).unwrap();
    assert_eq!(
        list,
        vec![
            entry("red", "Spits fire.", "en"),
            entry("red", "Crache du feu.", "fr"),
            entry("ruby", "It flies\naround.", "en"),
        ]
    );
}

#[test]
fn descriptions_of_an_empty_list_are_none() {
    assert_eq!(descriptions("{\"flavor_text_entries\":[]}").unwrap(), vec![]);
}

#[test]
fn descriptions_fail_on_text_that_is_no_json() {
    let error = descriptions("{\"flavor_text_entries\":[").unwrap_err();
    assert_eq!(error.status, 500);
    assert!(error.description.contains("EOF"));
}

#[test]
fn descriptions_fail_on_an_unexpected_shape() {
    let good = entry_json("red", "Spits fire.", "en");
    for body in [
        "{}".to_string(),
        "{\"flavor_text_entries\":{}}".to_string(),
        "{\"flavor_text_entries\":\"none\"}".to_string(),
        "{\"flavor_text_entries\":[1]}".to_string(),
        format!("{{\"flavor_text_entries\":[{},{{}}]}}", good),
        "{\"flavor_text_entries\":[{\"flavor_text\":\"x\",\"language\":{\"name\":\"en\"}}]}"
            .to_string(),
        "{\"flavor_text_entries\":[{\"flavor_text\":\"x\",\"language\":{\"name\":\"en\"},\
         \"version\":{\"name\":7}}]}"
            .to_string(),
        "{\"flavor_text_entries\":[{\"flavor_text\":\"x\",\"language\":\"en\",\
         \"version\":{\"name\":\"red\"}}]}"
            .to_string(),
        "{\"flavor_text_entries\":[{\"flavor_text\":null,\"language\":{\"name\":\"en\"},\
         \"version\":{\"name\":\"red\"}}]}"
            .to_string(),
    ] {
        let error = descriptions(&body).unwrap_err();
        assert_eq!(error.status, 500);
        assert_eq!(error.description, "The record of the species holds no list of descriptions");
    }
}

#[test]
fn selection_prefers_ruby_whatever_the_lengths() {
    let entries = vec![
        entry("gold", "short", "en"),
        entry("ruby", "medium length one", "en"),
        entry("emerald", "this is the longest of all the entries", "en"),
    ];
    assert_eq!(select_description(&entries), Some(1));
    assert_eq!(entries[select_description(&entries).unwrap()].flavor_text, "medium length one");
}

#[test]
fn selection_takes_the_first_of_several_ruby_entries() {
    let entries = vec![
        entry("gold", "a long text that is not chosen", "en"),
        entry("ruby", "one", "en"),
        entry("ruby", "another, longer", "en"),
    ];
    assert_eq!(select_description(&entries), Some(1));
}

#[test]
fn selection_ignores_ruby_in_another_language() {
    let entries = vec![
        entry("ruby", "Un texte en français, assez long", "fr"),
        entry("gold", "short", "en"),
        entry("silver", "a bit longer", "en"),
    ];
    assert_eq!(select_description(&entries), Some(2));
}

#[test]
fn selection_without_ruby_takes_the_longest() {
    let entries = vec![
        entry("gold", "short", "en"),
        entry("emerald", "this is the longest of all the entries", "en"),
        entry("silver", "medium length one", "en"),
    ];
    assert_eq!(select_description(&entries), Some(1));
}

#[test]
fn selection_takes_the_last_of_equally_long_entries() {
    let entries = vec![
        entry("gold", "abcd", "en"),
        entry("silver", "efgh", "en"),
        entry("crystal", "abc", "en"),
        entry("yellow", "ijkl", "en"),
        entry("red", "mnopqrstuvw", "de"),
    ];
    assert_eq!(select_description(&entries), Some(3));
}

#[test]
fn selection_measures_length_in_bytes() {
    let entries = vec![entry("gold", "abc", "en"), entry("silver", "éé", "en")];
    assert_eq!(select_description(&entries), Some(1));
    let entries = vec![entry("gold", "éé", "en"), entry("silver", "abc", "en")];
    assert_eq!(select_description(&entries), Some(0));
}

#[test]
fn selection_of_nothing_in_english_is_none() {
    assert_eq!(select_description(&vec![]), None);
    let entries = vec![entry("ruby", "Feuer", "de"), entry("gold", "feu", "fr")];
    assert_eq!(select_description(&entries), None);
    let entries = vec![entry("ruby", "close", "EN"), entry("ruby", "closer", "en-US")];
    assert_eq!(select_description(&entries), None);
}

#[test]
fn selection_takes_an_english_entry_with_an_empty_text() {
    let entries = vec![entry("gold", "", "en")];
    assert_eq!(select_description(&entries), Some(0));
}

#[test]
fn describe_takes_ruby_and_replaces_newlines() {
    let body = species_body(&[
        entry_json("red", "Spits fire that is hot enough to melt boulders.", "en"),
        entry_json("ruby", "CHARIZARD flies around\nthe sky in search of\npowerful opponents.", "en"),
        entry_json("ruby", "Ce POKéMON vole.", "fr"),
    ]);
    let outcome = describe_pokemon("charizard", SPECIES_URL, &HttpReply::new(200, body));
    assert_eq!(
        outcome.unwrap(),
        "CHARIZARD flies around the sky in search of powerful opponents."
    );
}

#[test]
fn describe_without_ruby_takes_the_longest_english_text() {
    let body = species_body(&[
        entry_json("red", "Short.", "en"),
        entry_json("sword", "A long text\u{c}that goes\non and on.", "en"),
        entry_json("sword", "Ein sehr langer Text, der nicht gewählt wird, weil er deutsch ist.", "de"),
    ]);
    let outcome = describe_pokemon("eternatus", SPECIES_URL, &HttpReply::new(200, body));
    assert_eq!(outcome.unwrap(), "A long text\u{c}that goes on and on.");
}

#[test]
fn describe_fails_with_the_status_of_the_reply() {
    let reply = HttpReply::new(503, "Service Unavailable".to_string());
    let error = describe_pokemon("charizard", SPECIES_URL, &reply).unwrap_err();
    assert_eq!(error.status, 503);
    assert_eq!(
        error.description,
        "failed to get description for charizard at https://pokeapi.co/api/v2/pokemon-species/6/"
    );
    let error = describe_pokemon("x", "u", &HttpReply::new(404, String::new())).unwrap_err();
    assert_eq!(error.status, 404);
    assert_eq!(error.description, "failed to get description for x at u");
}

#[test]
fn describe_does_not_read_the_body_of_a_reply_without_success() {
    let body = species_body(&[entry_json("ruby", "It flies.", "en")]);
    let error = describe_pokemon("charizard", SPECIES_URL, &HttpReply::new(301, body)).unwrap_err();
    assert_eq!(error.status, 301);
}

#[test]
fn describe_without_english_fails_with_422() {
    let body = species_body(&[entry_json("ruby", "Ce POKéMON vole.", "fr")]);
    let error = describe_pokemon("charizard", SPECIES_URL, &HttpReply::new(200, body)).unwrap_err();
    assert_eq!(error.status, 422);
    assert_eq!(error.description, "no English description for charizard");
    let error = describe_pokemon(
        "missingno",
        SPECIES_URL,
        &HttpReply::new(200, "{\"flavor_text_entries\":[]}".to_string()),
    )
    .unwrap_err();
    assert_eq!(error.status, 422);
    assert_eq!(error.description, "no English description for missingno");
}

#[test]
fn describe_fails_with_500_on_a_body_it_cannot_read() {
    let error =
        describe_pokemon("charizard", SPECIES_URL, &HttpReply::new(200, "<html>".to_string()))
            .unwrap_err();
    assert_eq!(error.status, 500);
    let error = describe_pokemon("charizard", SPECIES_URL, &HttpReply::new(200, "{}".to_string()))
        .unwrap_err();
    assert_eq!(error.status, 500);
    assert_eq!(error.description, "The record of the species holds no list of descriptions");
}

#[test]
fn describe_accepts_every_status_of_the_success_class() {
    let body = species_body(&[entry_json("ruby", "It flies.", "en")]);
    assert_eq!(
        describe_pokemon("c", SPECIES_URL, &HttpReply::new(299, body.clone())).unwrap(),
        "It flies."
    );
    assert_eq!(
        describe_pokemon("c", SPECIES_URL, &HttpReply::new(203, body)).unwrap(),
        "It flies."
    );
}
