//! Keyed-signature computation and verification.
//!
//! The platform signs each request by applying HMAC-SHA-256, keyed with a
//! shared secret, to the signing string `"v0:" + timestamp + ":" + body`.
//! Verification recomputes that digest and compares it against the claimed
//! signature in constant time.
use vstd::prelude::*;

verus! {

/// Outcome of checking a request's claimed signature.
#[derive(Clone, Copy, Debug, PartialEq, Eq, Structural)]
pub enum VerificationResult {
    /// The claimed signature equals the recomputed digest.
    Verified,
    /// A claimed signature and timestamp were present but the digest differs.
    Rejected,
    /// The claimed signature or the timestamp was absent from the request.
    MissingCredentials,
}

/// The HMAC-SHA-256 digest of `msg` keyed with `key`, both taken as UTF-8
/// bytes of the given character sequences. Left uninterpreted: the digest is
/// computed by the `hmac` crate and depends on its arguments alone.
pub uninterp spec fn hmac_sha256(key: Seq<char>, msg: Seq<char>) -> Seq<u8>;

/// The canonical signing string: `"v0:" + timestamp + ":" + body`.
pub open spec fn signing_string(timestamp: Seq<char>, body: Seq<char>) -> Seq<char> {
    "v0:"@ + timestamp + ":"@ + body
}

/// The expected signature for a body and timestamp under a secret.
pub open spec fn spec_signature(secret: Seq<char>, timestamp: Seq<char>, body: Seq<char>) -> Seq<u8> {
    hmac_sha256(secret, signing_string(timestamp, body))
}

/// Relies on `hmac::Hmac::<sha2::Sha256>` (`new_from_slice`, `update`,
/// `finalize`): returns the 32-byte HMAC-SHA-256 digest of `msg` under `key`.
/// `new_from_slice` accepts keys of any length for an HMAC, so the call
/// cannot fail.
#[verifier::external_body]
fn hmac_sha256_exec(key: &str, msg: &str) -> (r: Vec<u8>)
    ensures
        r@ == hmac_sha256(key@, msg@),
        r@.len() == 32,
{
    let mut mac = <hmac::Hmac<sha2::Sha256> as hmac::KeyInit>::new_from_slice(key.as_bytes())
        .expect("HMAC accepts keys of any length");
    hmac::Mac::update(&mut mac, msg.as_bytes());
    hmac::Mac::finalize(mac).into_bytes().to_vec()
}

/// Relies on `hmac::Mac::verify_slice`: returns `Ok` exactly when `claimed`
/// equals the HMAC-SHA-256 digest of `msg` under `key`, compared in constant
/// time (a length mismatch is an `Err` as well).
#[verifier::external_body]
fn hmac_sha256_matches(key: &str, msg: &str, claimed: &[u8]) -> (r: bool)
    ensures
        r == (claimed@ == hmac_sha256(key@, msg@)),
{
    let mut mac = <hmac::Hmac<sha2::Sha256> as hmac::KeyInit>::new_from_slice(key.as_bytes())
        .expect("HMAC accepts keys of any length");
    hmac::Mac::update(&mut mac, msg.as_bytes());
    hmac::Mac::verify_slice(mac, claimed).is_ok()
}

/// Builds the canonical signing string for a timestamp and raw body.
fn build_signing_string(timestamp: &str, body: &str) -> (r: String)
    ensures
        r@ == signing_string(timestamp@, body@),
{
    let mut s = String::from_str("v0:");
    s.append(timestamp);
    s.append(":");
    s.append(body);
    proof {
        assert(s@ =~= signing_string(timestamp@, body@));
    }
    s
}

/// Computes the expected signature for `body` and `timestamp` under `secret`.
pub fn compute_signature(secret: &str, timestamp: &str, body: &str) -> (r: Vec<u8>)
    ensures
        r@ == spec_signature(secret@, timestamp@, body@),
        r@.len() == 32,
{
    let signing = build_signing_string(timestamp, body);
    hmac_sha256_exec(secret, signing.as_str())
}

/// What `verify` returns: `MissingCredentials` when either header is absent,
/// otherwise `Verified` exactly when the claimed signature equals the
/// recomputed digest.
pub open spec fn spec_verify(
    body: Seq<char>,
    timestamp: Option<Seq<char>>,
    claimed_signature: Option<Seq<u8>>,
    secret: Seq<char>,
) -> VerificationResult {
    match (timestamp, claimed_signature) {
        (Some(t), Some(c)) => {
            if c == spec_signature(secret, t, body) {
                VerificationResult::Verified
            } else {
                VerificationResult::Rejected
            }
        },
        _ => VerificationResult::MissingCredentials,
    }
}

/// View of an optional borrowed timestamp header.
pub open spec fn opt_string_view(o: Option<&String>) -> Option<Seq<char>> {
    match o {
        Some(s) => Some(s@),
        None => None,
    }
}

/// View of an optional borrowed claimed signature.
pub open spec fn opt_bytes_view(o: Option<&Vec<u8>>) -> Option<Seq<u8>> {
    match o {
        Some(b) => Some(b@),
        None => None,
    }
}

/// Recomputes the expected signature over `body` and `timestamp` and compares
/// it with `claimed_signature` in constant time. A mismatch is an ordinary
/// outcome, not a panic; absent credentials are reported as their own
/// outcome, distinct from a cryptographic mismatch.
pub fn verify(
    body: &str,
    timestamp: Option<&String>,
    claimed_signature: Option<&Vec<u8>>,
    secret: &str,
) -> (r: VerificationResult)
    ensures
        r == spec_verify(body@, opt_string_view(timestamp), opt_bytes_view(claimed_signature), secret@),
{
    match (timestamp, claimed_signature) {
        (Some(t), Some(c)) => {
            let signing = build_signing_string(t.as_str(), body);
            if hmac_sha256_matches(secret, signing.as_str(), c.as_slice()) {
                VerificationResult::Verified
            } else {
                VerificationResult::Rejected
            }
        },
        _ => VerificationResult::MissingCredentials,
    }
}

/// Law: a signature computed with `spec_signature` for the same secret,
/// timestamp and body always verifies.
pub proof fn lemma_verify_accepts_computed(secret: Seq<char>, timestamp: Seq<char>, body: Seq<char>)
    ensures
        spec_verify(
            body,
            Some(timestamp),
            Some(spec_signature(secret, timestamp, body)),
            secret,
        ) == VerificationResult::Verified,
{
}

/// Law: a claimed signature that differs from the computed one in at least
/// one byte is rejected, never verified.
pub proof fn lemma_verify_rejects_mismatch(
    secret: Seq<char>,
    timestamp: Seq<char>,
    body: Seq<char>,
    claimed: Seq<u8>,
)
    requires
        claimed != spec_signature(secret, timestamp, body),
    ensures
        spec_verify(body, Some(timestamp), Some(claimed), secret) == VerificationResult::Rejected,
{
}

} // verus!
