use slack_webhook::decode::{decode, DecodeError, EventVariant};
use slack_webhook::route::{handle, respond, HandleError, RouteError, SignatureContext};
use slack_webhook::signature::{compute_signature, verify, VerificationResult};

fn ctx_without_headers(secret: &str) -> SignatureContext {
    SignatureContext {
        claimed_signature: None,
        timestamp: None,
        secret: secret.to_string(),
    }
}

fn ctx_signed(secret: &str, timestamp: &str, body: &str) -> SignatureContext {
    SignatureContext {
        claimed_signature: Some(compute_signature(secret, timestamp, body)),
        timestamp: Some(timestamp.to_string()),
        secret: secret.to_string(),
    }
}

#[test]
fn computed_signature_verifies() {
    let secret = "S";
    let timestamp = "1531420618";
    let body = "{\"token\":\"t\",\"challenge\":\"abc123\",\"type\":\"url_verification\"}";
    let sig = compute_signature(secret, timestamp, body);
    assert_eq!(sig.len(), 32);
    assert_eq!(
        verify(body, Some(&timestamp.to_string()), Some(&sig), secret),
        VerificationResult::Verified
    );
}

#[test]
fn signature_matches_independent_hmac() {
    let secret = "another secret";
    let timestamp = "1600000000";
    let body = "{\"foo\":\"bar\"}";
    let sig = compute_signature(secret, timestamp, body);

    let signing = format!("v0:{}:{}", timestamp, body);
    let mut mac = <hmac::Hmac<sha2::Sha256> as hmac::KeyInit>::new_from_slice(secret.as_bytes())
        .expect("HMAC accepts keys of any length");
    hmac::Mac::update(&mut mac, signing.as_bytes());
    let expected = hmac::Mac::finalize(mac).into_bytes().to_vec();
    assert_eq!(sig, expected);
}

#[test]
fn tampered_signature_is_rejected() {
    let secret = "S";
    let timestamp = "1531420618";
    let body = "{\"token\":\"t\",\"challenge\":\"abc123\",\"type\":\"url_verification\"}";
    let mut sig = compute_signature(secret, timestamp, body);
    sig[0] ^= 1;
    assert_eq!(
        verify(body, Some(&timestamp.to_string()), Some(&sig), secret),
        VerificationResult::Rejected
    );
}

#[test]
fn truncated_signature_is_rejected() {
    let secret = "S";
    let timestamp = "1531420618";
    let body = "{}";
    let mut sig = compute_signature(secret, timestamp, body);
    sig.pop();
    assert_eq!(
        verify(body, Some(&timestamp.to_string()), Some(&sig), secret),
        VerificationResult::Rejected
    );
}

#[test]
fn wrong_secret_is_rejected() {
    let timestamp = "1531420618";
    let body = "{}";
    let sig = compute_signature("S", timestamp, body);
    assert_eq!(
        verify(body, Some(&timestamp.to_string()), Some(&sig), "not S"),
        VerificationResult::Rejected
    );
}

#[test]
fn absent_headers_are_missing_credentials() {
    let secret = "S";
    let timestamp = "1531420618";
    let body = "{}";
    let sig = compute_signature(secret, timestamp, body);
    assert_eq!(
        verify(body, None, Some(&sig), secret),
        VerificationResult::MissingCredentials
    );
    assert_eq!(
        verify(body, Some(&timestamp.to_string()), None, secret),
        VerificationResult::MissingCredentials
    );
    assert_eq!(
        verify(body, None, None, secret),
        VerificationResult::MissingCredentials
    );
}

#[test]
fn decode_is_deterministic() {
    let body = "{\"token\":\"t\",\"challenge\":\"abc123\",\"type\":\"url_verification\"}";
    let first = decode(body);
    let second = decode(body);
    match (first, second) {
        (
            Ok(EventVariant::ChallengeHandshake {
                token: t1,
                challenge: c1,
                kind: k1,
            }),
            Ok(EventVariant::ChallengeHandshake {
                token: t2,
                challenge: c2,
                kind: k2,
            }),
        ) => {
            assert_eq!(t1, t2);
            assert_eq!(c1, c2);
            assert_eq!(k1, k2);
        }
        _ => panic!("expected the challenge handshake twice"),
    }
}

#[test]
fn greeting_takes_priority_over_mention() {
    let body = "{\"firstName\":\"Ada\",\"event\":{\"type\":\"app_mention\",\"text\":\"hi\",\"user\":\"U1\"}}";
    match decode(body) {
        Ok(EventVariant::Greeting { name }) => assert_eq!(name, "Ada"),
        _ => panic!("expected the greeting variant"),
    }
}

#[test]
fn challenge_takes_priority_over_mention() {
    let body = "{\"token\":\"t\",\"challenge\":\"c\",\"type\":\"url_verification\",\"event\":{\"type\":\"app_mention\",\"text\":\"hi\",\"user\":\"U1\"}}";
    match decode(body) {
        Ok(EventVariant::ChallengeHandshake { challenge, .. }) => assert_eq!(challenge, "c"),
        _ => panic!("expected the challenge handshake variant"),
    }
}

#[test]
fn mention_fields_are_extracted() {
    let body = "{\"event\":{\"type\":\"app_mention\",\"text\":\"hello bot\",\"user\":\"U42\"}}";
    match decode(body) {
        Ok(EventVariant::Mention {
            event_kind,
            text,
            user,
        }) => {
            assert_eq!(event_kind, "app_mention");
            assert_eq!(text, "hello bot");
            assert_eq!(user, "U42");
        }
        _ => panic!("expected the mention variant"),
    }
}

#[test]
fn incomplete_challenge_does_not_match() {
    let body = "{\"token\":\"t\",\"type\":\"url_verification\"}";
    assert!(matches!(decode(body), Err(DecodeError::NoVariantMatched)));
}

#[test]
fn non_string_field_does_not_match() {
    let body = "{\"firstName\":42}";
    assert!(matches!(decode(body), Err(DecodeError::NoVariantMatched)));
}

#[test]
fn empty_body_does_not_match() {
    assert!(matches!(decode(""), Err(DecodeError::NoVariantMatched)));
}

#[test]
fn greeting_scenario() {
    let body = "{\"firstName\":\"Ada\"}";
    let ctx = ctx_without_headers("S");
    let resp = handle(body, &ctx).expect("the greeting needs no verification");
    assert_eq!(resp.status_code, 200);
    assert_eq!(resp.headers.x_custom_header, "my custom header value");
    assert_eq!(
        resp.body,
        "{\"message\":\"Hello, Ada. Ready for a chat?\"}"
    );
}

#[test]
fn greeting_body_is_valid_json_naming_ada() {
    let body = "{\"firstName\":\"Ada\"}";
    let ctx = ctx_without_headers("S");
    let resp = handle(body, &ctx).expect("the greeting needs no verification");
    let parsed: serde_json::Value =
        serde_json::from_str(&resp.body).expect("the response body is JSON");
    let message = parsed
        .get("message")
        .and_then(|m| m.as_str())
        .expect("the response holds a message field");
    assert!(message.contains("Ada"));
}

#[test]
fn greeting_escapes_quotes_in_name() {
    let body = "{\"firstName\":\"A\\\"da\"}";
    let ctx = ctx_without_headers("S");
    let resp = handle(body, &ctx).expect("the greeting needs no verification");
    let parsed: serde_json::Value =
        serde_json::from_str(&resp.body).expect("the response body stays valid JSON");
    let message = parsed
        .get("message")
        .and_then(|m| m.as_str())
        .expect("the response holds a message field");
    assert_eq!(message, "Hello, A\"da. Ready for a chat?");
}

#[test]
fn challenge_scenario_with_correct_signature() {
    let secret = "S";
    let timestamp = "1531420618";
    let body = "{\"token\":\"t\",\"challenge\":\"abc123\",\"type\":\"url_verification\"}";
    let ctx = ctx_signed(secret, timestamp, body);
    let resp = handle(body, &ctx).expect("a correctly signed handshake is answered");
    assert_eq!(resp.status_code, 200);
    assert_eq!(resp.body, "abc123");
}

#[test]
fn challenge_scenario_with_incorrect_signature() {
    let secret = "S";
    let timestamp = "1531420618";
    let body = "{\"token\":\"t\",\"challenge\":\"abc123\",\"type\":\"url_verification\"}";
    let mut ctx = ctx_signed(secret, timestamp, body);
    if let Some(sig) = ctx.claimed_signature.as_mut() {
        sig[5] ^= 0xff;
    }
    let err = handle(body, &ctx).err().expect("a bad signature must fail");
    assert_eq!(
        err,
        HandleError::Route(RouteError::AuthenticationError {
            outcome: VerificationResult::Rejected
        })
    );
}

#[test]
fn challenge_without_headers_is_missing_credentials() {
    let body = "{\"token\":\"t\",\"challenge\":\"abc123\",\"type\":\"url_verification\"}";
    let ctx = ctx_without_headers("S");
    let err = handle(body, &ctx).err().expect("absent headers must fail");
    assert_eq!(
        err,
        HandleError::Route(RouteError::AuthenticationError {
            outcome: VerificationResult::MissingCredentials
        })
    );
}

#[test]
fn mention_scenario_with_correct_signature() {
    let secret = "S";
    let timestamp = "1531420618";
    let body = "{\"event\":{\"type\":\"app_mention\",\"text\":\"hi bot\",\"user\":\"ringo\"}}";
    let ctx = ctx_signed(secret, timestamp, body);
    let resp = handle(body, &ctx).expect("a correctly signed mention is answered");
    assert_eq!(resp.status_code, 200);
    assert_eq!(
        resp.body,
        "{\"message\":\"Hi, ringo. Thanks for the mention!\"}"
    );
}

#[test]
fn mention_with_bad_signature_leaks_nothing() {
    let secret = "S";
    let timestamp = "1531420618";
    let body = "{\"event\":{\"type\":\"app_mention\",\"text\":\"hi bot\",\"user\":\"ringo\"}}";
    let mut ctx = ctx_signed(secret, timestamp, body);
    if let Some(sig) = ctx.claimed_signature.as_mut() {
        sig[0] = sig[0].wrapping_add(1);
    }
    let err = handle(body, &ctx).err().expect("a bad signature must fail");
    assert_eq!(
        err,
        HandleError::Route(RouteError::AuthenticationError {
            outcome: VerificationResult::Rejected
        })
    );
}

#[test]
fn unmatched_body_is_a_decode_error() {
    let body = "{\"foo\":\"bar\"}";
    let ctx = ctx_without_headers("S");
    let err = handle(body, &ctx).err().expect("an unknown shape must fail");
    assert_eq!(err, HandleError::Decode(DecodeError::NoVariantMatched));
}

#[test]
fn respond_routes_greeting_without_verification() {
    let event = EventVariant::Greeting {
        name: "Grace".to_string(),
    };
    let ctx = ctx_without_headers("S");
    let resp = respond(&event, "{\"firstName\":\"Grace\"}", &ctx)
        .expect("the greeting needs no verification");
    assert_eq!(resp.status_code, 200);
    assert_eq!(
        resp.body,
        "{\"message\":\"Hello, Grace. Ready for a chat?\"}"
    );
}
