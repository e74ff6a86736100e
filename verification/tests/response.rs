use fixtures::response::respond;

#[test]
fn response_is_200_with_the_message_as_body() {
    let response = respond("[\"hello\", \"world\"]");
    assert_eq!(response.status, 200);
    assert_eq!(response.body, "[\"hello\", \"world\"]");
}

#[test]
fn response_allows_every_origin() {
    let response = respond("[]");
    let found = response
        .headers
        .iter()
        .any(|h| h.name == "Access-Control-Allow-Origin" && h.value == "*");
    assert!(found);
}

#[test]
fn response_carries_no_other_header() {
    let response = respond("anything");
    assert_eq!(response.headers.len(), 1);
    assert_eq!(response.headers[0].name, "Access-Control-Allow-Origin");
    assert_eq!(response.headers[0].value, "*");
}

#[test]
fn empty_message_gives_empty_body() {
    let response = respond("");
    assert_eq!(response.status, 200);
    assert_eq!(response.body, "");
    assert_eq!(response.headers.len(), 1);
}

#[test]
fn body_keeps_every_character() {
    let text = "[\"a\\\"b\", \"\u{e9}\u{4e16}\"]";
    let response = respond(text);
    assert_eq!(response.body, text);
}
