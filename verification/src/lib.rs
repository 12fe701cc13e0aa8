//! Core of an IBC attestor: it checks that a height is final, validates packet
//! commitments against what the chain reports, and packages the attested bytes
//! with a domain tag and a signature.
//!
//! The chain and the signer are collaborators behind the traits
//! [`adapter::AttestationAdapter`] and [`signer::Signer`]. Every decision taken
//! on what they return is a function of this crate that takes their answer as
//! an argument, so it holds whatever they answer.

pub mod adapter;
pub mod attestation;
pub mod attestation_payload;
pub mod digest;
pub mod error;
pub mod msgs;
pub mod packet;
pub mod rpc;
pub mod signer;
pub mod text;
