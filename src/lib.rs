//! A CAPTCHA-gated redirect gateway: it validates a submission, acts on the
//! answer of a CAPTCHA verification service, signs the caller's request
//! token with Ed25519 and composes the redirect that carries the signature.
pub mod config;
pub mod gateway;
pub mod redirect;
pub mod signer;
pub mod submission;
