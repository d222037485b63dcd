//! Authentication and dispatch for inbound chat-platform webhooks.
//!
//! A request arrives as a raw JSON body plus optional signature headers.
//! The library decodes the body into one of a closed set of event variants,
//! verifies the keyed signature where the variant demands it, and builds the
//! outbound response. Signature verification and variant selection are the
//! security-relevant logic and carry full contracts.
pub mod decode;
pub mod respond;
pub mod route;
pub mod signature;
