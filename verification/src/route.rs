//! Routing a decoded event to its response builder.
//!
//! Each request makes exactly one terminal transition: a greeting is
//! answered directly, while a handshake or a mention first passes signature
//! verification. On `Rejected` or `MissingCredentials` the router fails with
//! an authentication error and builds no variant-specific content.
use vstd::prelude::*;

use crate::decode::{decode, decode_spec, DecodeError, EventShape, EventVariant};
use crate::respond::{
    challenge_response, greeting_response, mention_response, response_shape, greeting_body,
    mention_body, OutgoingResponse, ResponseShape,
};
use crate::signature::{spec_verify, verify, VerificationResult};

verus! {

/// The request-scoped signature material: the claimed signature and
/// timestamp headers, either of which may be absent, and the process-wide
/// shared secret.
#[derive(Debug, Clone)]
pub struct SignatureContext {
    pub claimed_signature: Option<Vec<u8>>,
    pub timestamp: Option<String>,
    pub secret: String,
}

/// The mathematical shape of the signature material.
pub struct SignatureContextShape {
    pub claimed_signature: Option<Seq<u8>>,
    pub timestamp: Option<Seq<char>>,
    pub secret: Seq<char>,
}

impl View for SignatureContext {
    type V = SignatureContextShape;

    open spec fn view(&self) -> SignatureContextShape {
        SignatureContextShape {
            claimed_signature: match self.claimed_signature {
                Some(c) => Some(c@),
                None => None,
            },
            timestamp: match self.timestamp {
                Some(t) => Some(t@),
                None => None,
            },
            secret: self.secret@,
        }
    }
}

/// Routing failed; no response was built.
#[derive(Debug, Clone, Copy, PartialEq, Eq, Structural)]
pub enum RouteError {
    /// Signature verification did not succeed. The outcome says whether the
    /// signature mismatched or the credentials were absent.
    AuthenticationError { outcome: VerificationResult },
}

/// The verification outcome the router observes for a request.
pub open spec fn routed_verification(body: Seq<char>, ctx: SignatureContextShape) -> VerificationResult {
    spec_verify(body, ctx.timestamp, ctx.claimed_signature, ctx.secret)
}

/// What `respond` returns: a greeting is answered without verification; a
/// handshake or mention is answered only on `Verified`, and otherwise fails
/// with an authentication error carrying the verification outcome.
pub open spec fn respond_spec(
    event: EventShape,
    body: Seq<char>,
    ctx: SignatureContextShape,
) -> Result<ResponseShape, RouteError> {
    match event {
        EventShape::Greeting { name } => Ok(response_shape(greeting_body(name))),
        EventShape::ChallengeHandshake { challenge, .. } => {
            if routed_verification(body, ctx) == VerificationResult::Verified {
                Ok(response_shape(challenge))
            } else {
                Err(RouteError::AuthenticationError { outcome: routed_verification(body, ctx) })
            }
        },
        EventShape::Mention { user, .. } => {
            if routed_verification(body, ctx) == VerificationResult::Verified {
                Ok(response_shape(mention_body(user)))
            } else {
                Err(RouteError::AuthenticationError { outcome: routed_verification(body, ctx) })
            }
        },
    }
}

/// View of a routing result.
pub open spec fn respond_result_view(
    r: Result<OutgoingResponse, RouteError>,
) -> Result<ResponseShape, RouteError> {
    match r {
        Ok(resp) => Ok(resp@),
        Err(e) => Err(e),
    }
}

/// Routes a decoded event to its response builder, verifying the signature
/// over the raw body first for every variant except the greeting.
pub fn respond(event: &EventVariant, raw_body: &str, ctx: &SignatureContext) -> (r: Result<
    OutgoingResponse,
    RouteError,
>)
    ensures
        respond_result_view(r) == respond_spec(event@, raw_body@, ctx@),
{
    match event {
        EventVariant::Greeting { name } => Ok(greeting_response(name.as_str())),
        EventVariant::ChallengeHandshake { token: _, challenge, kind: _ } => {
            let outcome = verify(
                raw_body,
                ctx.timestamp.as_ref(),
                ctx.claimed_signature.as_ref(),
                ctx.secret.as_str(),
            );
            if outcome == VerificationResult::Verified {
                Ok(challenge_response(challenge.as_str()))
            } else {
                Err(RouteError::AuthenticationError { outcome })
            }
        },
        EventVariant::Mention { event_kind: _, text: _, user } => {
            let outcome = verify(
                raw_body,
                ctx.timestamp.as_ref(),
                ctx.claimed_signature.as_ref(),
                ctx.secret.as_str(),
            );
            if outcome == VerificationResult::Verified {
                Ok(mention_response(user.as_str()))
            } else {
                Err(RouteError::AuthenticationError { outcome })
            }
        },
    }
}

/// Law: a greeting is answered for every signature context — the router
/// performs no verification for it, so no claimed signature, absent or
/// wrong, can fail it.
pub proof fn lemma_greeting_needs_no_verification(
    name: Seq<char>,
    body: Seq<char>,
    ctx: SignatureContextShape,
)
    ensures
        respond_spec(EventShape::Greeting { name }, body, ctx) matches Ok(resp)
            && resp == response_shape(greeting_body(name)),
{
}

/// Handling a request failed before a response was built.
#[derive(Debug, Clone, Copy, PartialEq, Eq, Structural)]
pub enum HandleError {
    /// The body matched no known event shape.
    Decode(DecodeError),
    /// The event demanded verification and verification did not succeed.
    Route(RouteError),
}

/// What `handle` returns: decode, then route.
pub open spec fn handle_spec(
    body: Seq<char>,
    ctx: SignatureContextShape,
) -> Result<ResponseShape, HandleError> {
    match decode_spec(body) {
        Some(event) => match respond_spec(event, body, ctx) {
            Ok(resp) => Ok(resp),
            Err(e) => Err(HandleError::Route(e)),
        },
        None => Err(HandleError::Decode(DecodeError::NoVariantMatched)),
    }
}

/// View of a handling result.
pub open spec fn handle_result_view(
    r: Result<OutgoingResponse, HandleError>,
) -> Result<ResponseShape, HandleError> {
    match r {
        Ok(resp) => Ok(resp@),
        Err(e) => Err(e),
    }
}

/// Handles one raw request: decodes the body into an event variant and
/// routes it, leaving the raw body untouched for verification.
pub fn handle(raw_body: &str, ctx: &SignatureContext) -> (r: Result<OutgoingResponse, HandleError>)
    ensures
        handle_result_view(r) == handle_spec(raw_body@, ctx@),
{
    match decode(raw_body) {
        Ok(event) => match respond(&event, raw_body, ctx) {
            Ok(resp) => Ok(resp),
            Err(e) => Err(HandleError::Route(e)),
        },
        Err(e) => Err(HandleError::Decode(e)),
    }
}

} // verus!
