//! Verified X.509 certificate-chain validation.
//!
//! The heart of the crate is [`chain::verify_chain`], which walks an ordered
//! sequence of certificates and checks that it forms a single, temporally
//! valid, cryptographically linked trust path from a self-issued root down to
//! a leaf. Parsing and signature verification over raw DER bytes are delegated
//! to the `x509-signature` crate behind a small trusted boundary in [`cert`];
//! everything layered on top of that boundary is verified.

pub mod cert;
pub mod chain;
pub mod key;
pub mod responder_id;
pub mod sequencer;
pub mod units;
