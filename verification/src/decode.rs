//! Structural decoding of a raw request body into an event variant.
//!
//! The body is untyped JSON text. It is matched against the known event
//! shapes in a fixed priority order — `Greeting`, then `ChallengeHandshake`,
//! then `Mention` — and the first shape whose required fields are all present
//! and string-typed is selected. Fields belonging to other shapes are
//! ignored, not rejected. The raw body itself is never altered: the exact
//! bytes stay available for signature verification.
use vstd::prelude::*;

verus! {

/// The string value of the top-level field `key` of the JSON object encoded
/// by `body`: `Some` exactly when `body` parses as JSON, the parse result
/// holds a field named `key`, and that field's value is a JSON string.
/// Left uninterpreted: the answer is computed by `serde_json` and depends on
/// its arguments alone.
pub uninterp spec fn json_str_field(body: Seq<char>, key: Seq<char>) -> Option<Seq<char>>;

/// The string value of field `inner` inside the object-valued top-level
/// field `outer` of the JSON object encoded by `body`, `None` whenever that
/// path does not lead to a JSON string. Left uninterpreted, as
/// `json_str_field` is.
pub uninterp spec fn json_nested_str_field(
    body: Seq<char>,
    outer: Seq<char>,
    inner: Seq<char>,
) -> Option<Seq<char>>;

/// Relies on `serde_json::from_str::<Value>`, `Value::get` and
/// `Value::as_str`: extracts the string value of top-level field `key`, and
/// returns `None` when the body is not valid JSON, the field is absent, or
/// its value is not a string.
#[verifier::external_body]
fn get_str_field(body: &str, key: &str) -> (r: Option<String>)
    ensures
        r.deep_view() == json_str_field(body@, key@),
{
    match serde_json::from_str::<serde_json::Value>(body) {
        Ok(v) => match v.get(key) {
            Some(f) => f.as_str().map(|s| s.to_string()),
            None => None,
        },
        Err(_) => None,
    }
}

/// Relies on `serde_json::from_str::<Value>`, `Value::get` and
/// `Value::as_str`: extracts the string value of field `inner` inside the
/// top-level field `outer`, and returns `None` when that path does not lead
/// to a JSON string.
#[verifier::external_body]
fn get_nested_str_field(body: &str, outer: &str, inner: &str) -> (r: Option<String>)
    ensures
        r.deep_view() == json_nested_str_field(body@, outer@, inner@),
{
    match serde_json::from_str::<serde_json::Value>(body) {
        Ok(v) => match v.get(outer) {
            Some(o) => match o.get(inner) {
                Some(f) => f.as_str().map(|s| s.to_string()),
                None => None,
            },
            None => None,
        },
        Err(_) => None,
    }
}

/// A decoded event: one member of the closed set of shapes the platform can
/// send to this endpoint.
#[derive(Debug, Clone)]
pub enum EventVariant {
    /// A custom greeting event. Needs no signature.
    Greeting { name: String },
    /// The platform's endpoint-ownership handshake: `challenge` must be
    /// echoed back verbatim once the signature checks out.
    ChallengeHandshake { token: String, challenge: String, kind: String },
    /// A user mentioned the bot; answered with a canned reply once the
    /// signature checks out.
    Mention { event_kind: String, text: String, user: String },
}

/// The mathematical shape of a decoded event.
pub enum EventShape {
    Greeting { name: Seq<char> },
    ChallengeHandshake { token: Seq<char>, challenge: Seq<char>, kind: Seq<char> },
    Mention { event_kind: Seq<char>, text: Seq<char>, user: Seq<char> },
}

impl View for EventVariant {
    type V = EventShape;

    open spec fn view(&self) -> EventShape {
        match self {
            EventVariant::Greeting { name } => EventShape::Greeting { name: name@ },
            EventVariant::ChallengeHandshake { token, challenge, kind } => {
                EventShape::ChallengeHandshake {
                    token: token@,
                    challenge: challenge@,
                    kind: kind@,
                }
            },
            EventVariant::Mention { event_kind, text, user } => {
                EventShape::Mention { event_kind: event_kind@, text: text@, user: user@ }
            },
        }
    }
}

/// The payload failed to decode.
#[derive(Debug, Clone, Copy, PartialEq, Eq, Structural)]
pub enum DecodeError {
    /// No variant's required fields are satisfiable from the input.
    NoVariantMatched,
}

/// Whether `body` satisfies `Greeting`'s required fields.
pub open spec fn matches_greeting(body: Seq<char>) -> bool {
    json_str_field(body, "firstName"@) is Some
}

/// Whether `body` satisfies `ChallengeHandshake`'s required fields.
pub open spec fn matches_challenge(body: Seq<char>) -> bool {
    &&& json_str_field(body, "token"@) is Some
    &&& json_str_field(body, "challenge"@) is Some
    &&& json_str_field(body, "type"@) is Some
}

/// Whether `body` satisfies `Mention`'s required fields.
pub open spec fn matches_mention(body: Seq<char>) -> bool {
    &&& json_nested_str_field(body, "event"@, "type"@) is Some
    &&& json_nested_str_field(body, "event"@, "text"@) is Some
    &&& json_nested_str_field(body, "event"@, "user"@) is Some
}

/// The decoded shape of `body`: the first variant, in priority order
/// `Greeting`, `ChallengeHandshake`, `Mention`, whose required fields are
/// all present and string-typed; `None` when no variant matches.
pub open spec fn decode_spec(body: Seq<char>) -> Option<EventShape> {
    if matches_greeting(body) {
        Some(EventShape::Greeting { name: json_str_field(body, "firstName"@)->Some_0 })
    } else if matches_challenge(body) {
        Some(
            EventShape::ChallengeHandshake {
                token: json_str_field(body, "token"@)->Some_0,
                challenge: json_str_field(body, "challenge"@)->Some_0,
                kind: json_str_field(body, "type"@)->Some_0,
            },
        )
    } else if matches_mention(body) {
        Some(
            EventShape::Mention {
                event_kind: json_nested_str_field(body, "event"@, "type"@)->Some_0,
                text: json_nested_str_field(body, "event"@, "text"@)->Some_0,
                user: json_nested_str_field(body, "event"@, "user"@)->Some_0,
            },
        )
    } else {
        None
    }
}

/// What `decode` returns, as a value of the mathematical model.
pub open spec fn decode_result_spec(body: Seq<char>) -> Result<EventShape, DecodeError> {
    match decode_spec(body) {
        Some(shape) => Ok(shape),
        None => Err(DecodeError::NoVariantMatched),
    }
}

/// View of a decode result.
pub open spec fn decode_result_view(
    r: Result<EventVariant, DecodeError>,
) -> Result<EventShape, DecodeError> {
    match r {
        Ok(ev) => Ok(ev@),
        Err(e) => Err(e),
    }
}

/// Decodes `raw_body` into the first structurally compatible event variant,
/// in the fixed priority order, without altering the body.
pub fn decode(raw_body: &str) -> (r: Result<EventVariant, DecodeError>)
    ensures
        decode_result_view(r) == decode_result_spec(raw_body@),
{
    if let Some(name) = get_str_field(raw_body, "firstName") {
        Ok(EventVariant::Greeting { name })
    } else {
        let token = get_str_field(raw_body, "token");
        let challenge = get_str_field(raw_body, "challenge");
        let kind = get_str_field(raw_body, "type");
        if token.is_some() && challenge.is_some() && kind.is_some() {
            Ok(
                EventVariant::ChallengeHandshake {
                    token: token.unwrap(),
                    challenge: challenge.unwrap(),
                    kind: kind.unwrap(),
                },
            )
        } else {
            let event_kind = get_nested_str_field(raw_body, "event", "type");
            let text = get_nested_str_field(raw_body, "event", "text");
            let user = get_nested_str_field(raw_body, "event", "user");
            if event_kind.is_some() && text.is_some() && user.is_some() {
                Ok(
                    EventVariant::Mention {
                        event_kind: event_kind.unwrap(),
                        text: text.unwrap(),
                        user: user.unwrap(),
                    },
                )
            } else {
                Err(DecodeError::NoVariantMatched)
            }
        }
    }
}

/// Law: decoding is deterministic. Any two results that meet `decode`'s
/// contract for the same raw body have the same decoded shape.
pub proof fn lemma_decode_deterministic(
    body: Seq<char>,
    r1: Result<EventVariant, DecodeError>,
    r2: Result<EventVariant, DecodeError>,
)
    requires
        decode_result_view(r1) == decode_result_spec(body),
        decode_result_view(r2) == decode_result_spec(body),
    ensures
        decode_result_view(r1) == decode_result_view(r2),
{
}

/// Law: variant priority. A body that satisfies both `Greeting`'s and
/// `Mention`'s required fields decodes as `Greeting`, never as `Mention`.
pub proof fn lemma_greeting_priority(body: Seq<char>)
    requires
        matches_greeting(body),
        matches_mention(body),
    ensures
        decode_spec(body) == Some(
            EventShape::Greeting { name: json_str_field(body, "firstName"@)->Some_0 },
        ),
{
}

} // verus!
