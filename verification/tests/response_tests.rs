use pokespeare::error::make_internal_error;
use pokespeare::error::RequestError;
use pokespeare::response::error_body;
use pokespeare::response::PokemonInShakespeareseResponse;
use pokespeare::status::INTERNAL_SERVER_ERROR;
use pokespeare::status::OK;
use pokespeare::status::TOO_MANY_REQUESTS;
use pokespeare::status::UNPROCESSABLE_ENTITY;

#[test]
fn status_constants_have_their_numbers() {
    assert_eq!(OK, 200);
    assert_eq!(UNPROCESSABLE_ENTITY, 422);
    assert_eq!(TOO_MANY_REQUESTS, 429);
    assert_eq!(INTERNAL_SERVER_ERROR, 500);
}

#[test]
fn new_error_keeps_status_and_message() {
    let error = RequestError::new(404, "nothing here".to_string());
    assert_eq!(error.status, 404);
    assert_eq!(error.description, "nothing here");
}

#[test]
fn new_internal_error_has_status_500() {
    let error = RequestError::new_internal("broken".to_string());
    assert_eq!(error.status, 500);
    assert_eq!(error.description, "broken");
}

#[test]
fn make_internal_error_has_status_500_and_the_rendering() {
    let error = make_internal_error("Error(\"EOF\", line: 1, column: 0)".to_string());
    assert_eq!(error.status, 500);
    assert_eq!(error.description, "Error(\"EOF\", line: 1, column: 0)");
}

#[test]
fn only_status_429_is_a_rate_limit() {
    assert!(RequestError::new(429, String::new()).is_rate_limited());
    assert!(!RequestError::new(428, String::new()).is_rate_limited());
    assert!(!RequestError::new(430, String::new()).is_rate_limited());
    assert!(!RequestError::new(500, String::new()).is_rate_limited());
    assert!(!RequestError::new(200, String::new()).is_rate_limited());
}

#[test]
fn new_response_keeps_name_and_description() {
    let response =
        PokemonInShakespeareseResponse::new("ditto".to_string(), "It doth change".to_string());
    assert_eq!(response.name, "ditto");
    assert_eq!(response.description, "It doth change");
}

#[test]
fn error_body_shows_code_and_reason_phrase() {
    assert_eq!(error_body(&RequestError::new(404, "secret".to_string())), "Error 404: Not Found");
    assert_eq!(
        error_body(&RequestError::new(422, String::new())),
        "Error 422: Unprocessable Entity"
    );
    assert_eq!(
        error_body(&RequestError::new(429, String::new())),
        "Error 429: Too Many Requests"
    );
    assert_eq!(
        error_body(&RequestError::new_internal("whatever".to_string())),
        "Error 500: Internal Server Error"
    );
}

#[test]
fn error_body_of_an_unregistered_code_has_no_reason() {
    assert_eq!(error_body(&RequestError::new(599, String::new())), "Error 599: Unknown reason");
    assert_eq!(error_body(&RequestError::new(999, String::new())), "Error 999: Unknown reason");
}

#[test]
fn error_body_of_a_number_that_is_no_status_code_has_no_reason() {
    assert_eq!(error_body(&RequestError::new(0, String::new())), "Error 0: Unknown reason");
    assert_eq!(error_body(&RequestError::new(99, String::new())), "Error 99: Unknown reason");
    assert_eq!(error_body(&RequestError::new(1000, String::new())), "Error 1000: Unknown reason");
}

#[test]
fn error_body_does_not_show_the_message() {
    let body = error_body(&RequestError::new(404, "Failed to find a pokemon".to_string()));
    assert!(!body.contains("Failed"));
}

#[test]
fn to_text_writes_status_line_and_message() {
    assert_eq!(
        RequestError::new(404, "no banana".to_string()).to_text(),
        "RequestError with status 404 Not Found and message \"no banana\""
    );
    assert_eq!(
        RequestError::new_internal(String::new()).to_text(),
        "RequestError with status 500 Internal Server Error and message \"\""
    );
    assert_eq!(
        RequestError::new(799, "odd".to_string()).to_text(),
        "RequestError with status 799 <unknown status code> and message \"odd\""
    );
}

#[test]
fn to_text_agrees_with_the_status_code_of_the_http_crate() {
    for code in [200u16, 404, 418, 429, 500, 503, 600] {
        let status = http::StatusCode::from_u16(code).unwrap();
        assert_eq!(
            RequestError::new(code, "m".to_string()).to_text(),
            format!("RequestError with status {} and message \"m\"", status)
        );
    }
}
