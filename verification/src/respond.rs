//! Response builders: pure mappings from a decoded (and, where required,
//! verified) event to the outbound payload.
//!
//! The greeting and mention responses carry a JSON object with a single
//! templated message field; the handshake response carries the challenge
//! string verbatim, unquoted, as the platform's handshake contract demands.
//! Every success path answers with status 200 and a fixed custom header.
use vstd::prelude::*;

verus! {

/// The headers of an outbound response.
#[derive(Debug, Clone)]
pub struct OutHeaders {
    pub x_custom_header: String,
}

/// An outbound response: status code, headers and body text.
#[derive(Debug, Clone)]
pub struct OutgoingResponse {
    pub status_code: i32,
    pub headers: OutHeaders,
    pub body: String,
}

/// The mathematical shape of an outbound response.
pub struct ResponseShape {
    pub status_code: int,
    pub x_custom_header: Seq<char>,
    pub body: Seq<char>,
}

impl View for OutgoingResponse {
    type V = ResponseShape;

    open spec fn view(&self) -> ResponseShape {
        ResponseShape {
            status_code: self.status_code as int,
            x_custom_header: self.headers.x_custom_header@,
            body: self.body@,
        }
    }
}

/// The fixed value of the custom header set on every response.
pub open spec fn custom_header_value() -> Seq<char> {
    "my custom header value"@
}

/// The JSON string literal that encodes `s`: opening and closing quotes with
/// the escaped characters of `s` between them. Left uninterpreted: the
/// encoding is computed by `serde_json` and depends on its argument alone.
pub uninterp spec fn json_string_encoding(s: Seq<char>) -> Seq<char>;

/// Relies on `serde_json::to_string` on a `&str`: returns the JSON string
/// literal encoding `s`. Serializing a string cannot fail.
#[verifier::external_body]
fn encode_json_string(s: &str) -> (r: String)
    ensures
        r@ == json_string_encoding(s@),
{
    serde_json::to_string(s).expect("serializing a string cannot fail")
}

/// The greeting message templated with `name`.
pub open spec fn greeting_message(name: Seq<char>) -> Seq<char> {
    "Hello, "@ + name + ". Ready for a chat?"@
}

/// The body of a greeting response: a JSON object whose single `message`
/// field holds the templated greeting.
pub open spec fn greeting_body(name: Seq<char>) -> Seq<char> {
    "{\"message\":"@ + json_string_encoding(greeting_message(name)) + "}"@
}

/// The canned reply templated with the mentioned `user`.
pub open spec fn mention_message(user: Seq<char>) -> Seq<char> {
    "Hi, "@ + user + ". Thanks for the mention!"@
}

/// The body of a mention response: a JSON object whose single `message`
/// field holds the canned reply.
pub open spec fn mention_body(user: Seq<char>) -> Seq<char> {
    "{\"message\":"@ + json_string_encoding(mention_message(user)) + "}"@
}

/// The full response for a given body: status 200 with the fixed custom
/// header on every success path.
pub open spec fn response_shape(body: Seq<char>) -> ResponseShape {
    ResponseShape { status_code: 200, x_custom_header: custom_header_value(), body: body }
}

/// Builds the fixed header set.
fn build_headers() -> (r: OutHeaders)
    ensures
        r.x_custom_header@ == custom_header_value(),
{
    OutHeaders { x_custom_header: String::from_str("my custom header value") }
}

/// Wraps a message string into the single-field JSON object the templated
/// responses carry.
fn build_message_body(message: &str) -> (r: String)
    ensures
        r@ == "{\"message\":"@ + json_string_encoding(message@) + "}"@,
{
    let mut body = String::from_str("{\"message\":");
    let encoded = encode_json_string(message);
    body.append(encoded.as_str());
    body.append("}");
    proof {
        assert(body@ =~= "{\"message\":"@ + json_string_encoding(message@) + "}"@);
    }
    body
}

/// Builds the greeting response for `name`: a templated JSON greeting,
/// status 200, the fixed custom header.
pub fn greeting_response(name: &str) -> (r: OutgoingResponse)
    ensures
        r@ == response_shape(greeting_body(name@)),
{
    let mut message = String::from_str("Hello, ");
    message.append(name);
    message.append(". Ready for a chat?");
    proof {
        assert(message@ =~= greeting_message(name@));
    }
    let body = build_message_body(message.as_str());
    OutgoingResponse { status_code: 200, headers: build_headers(), body }
}

/// Builds the handshake response: the challenge echoed back verbatim as the
/// whole body, status 200, the fixed custom header.
pub fn challenge_response(challenge: &str) -> (r: OutgoingResponse)
    ensures
        r@ == response_shape(challenge@),
{
    OutgoingResponse {
        status_code: 200,
        headers: build_headers(),
        body: String::from_str(challenge),
    }
}

/// Builds the mention response for `user`: a canned JSON reply naming the
/// user, status 200, the fixed custom header.
pub fn mention_response(user: &str) -> (r: OutgoingResponse)
    ensures
        r@ == response_shape(mention_body(user@)),
{
    let mut message = String::from_str("Hi, ");
    message.append(user);
    message.append(". Thanks for the mention!");
    proof {
        assert(message@ =~= mention_message(user@));
    }
    let body = build_message_body(message.as_str());
    OutgoingResponse { status_code: 200, headers: build_headers(), body }
}

} // verus!
