//! The one response that the responder gives to every request.

use vstd::prelude::*;

verus! {

/// One header line of a response.
#[derive(Debug)]
pub struct Header {
    pub name: String,
    pub value: String,
}

impl View for Header {
    type V = (Seq<char>, Seq<char>);

    open spec fn view(&self) -> (Seq<char>, Seq<char>) {
        (self.name@, self.value@)
    }
}

/// An HTTP response as plain values: what the host writes to the network.
#[derive(Debug)]
pub struct Response {
    pub status: u16,
    pub headers: Vec<Header>,
    pub body: String,
}

/// The mathematical value of a [`Response`].
pub struct ResponseView {
    pub status: u16,
    pub headers: Seq<(Seq<char>, Seq<char>)>,
    pub body: Seq<char>,
}

impl ResponseView {
    /// Whether some header line has this name and this value.
    pub open spec fn has_header(self, name: Seq<char>, value: Seq<char>) -> bool {
        exists|i: int| 0 <= i < self.headers.len() && #[trigger] self.headers[i] == (name, value)
    }
}

impl View for Response {
    type V = ResponseView;

    open spec fn view(&self) -> ResponseView {
        ResponseView {
            status: self.status,
            headers: self.headers@.map_values(|h: Header| h@),
            body: self.body@,
        }
    }
}

/// The response owed to a request when the startup message is `message`:
/// status 200, the single header that allows every origin, and the message
/// as the body, character for character.
pub open spec fn served_response(message: Seq<char>) -> ResponseView {
    ResponseView {
        status: 200,
        headers: seq![("Access-Control-Allow-Origin"@, "*"@)],
        body: message,
    }
}

/// Builds the response to a request. The request itself is no input: method,
/// path, headers and body change nothing, and a malformed request is answered
/// like any other.
pub fn respond(message: &str) -> (response: Response)
    ensures
        response@ == served_response(message@),
        response@.status == 200,
        response@.body == message@,
        response@.has_header("Access-Control-Allow-Origin"@, "*"@),
{
    let mut headers: Vec<Header> = Vec::new();
    headers.push(
        Header { name: String::from_str("Access-Control-Allow-Origin"), value: String::from_str("*") },
    );
    let response = Response { status: 200, headers, body: String::from_str(message) };
    proof {
        assert(response@.headers =~= served_response(message@).headers);
        assert(response@.headers[0] == ("Access-Control-Allow-Origin"@, "*"@));
    }
    response
}

/// Every served response allows every origin: whatever the message, the
/// header `Access-Control-Allow-Origin` is there and its value is `*`.
pub proof fn lemma_served_response_allows_every_origin(message: Seq<char>)
    ensures
        served_response(message).has_header("Access-Control-Allow-Origin"@, "*"@),
        served_response(message).status == 200,
        served_response(message).body == message,
{
    assert(served_response(message).headers[0] == ("Access-Control-Allow-Origin"@, "*"@));
}

} // verus!
