//! The two hash functions the attestor relies on.
//!
//! Neither is computed here: both results are named, and the functions below
//! hand the computation to the crates that implement them.

use sha2::{Digest, Sha256};
use vstd::prelude::*;

verus! {

/// The SHA-256 digest of `data`.
pub uninterp spec fn sha256(data: Seq<u8>) -> Seq<u8>;

/// The Keccak-256 digest of `data`.
pub uninterp spec fn keccak256(data: Seq<u8>) -> Seq<u8>;

/// Calls `sha2::Sha256::digest`. Trusted: the 32 bytes returned are the
/// SHA-256 digest of `data`, a function of `data` alone.
#[verifier::external_body]
pub(crate) fn sha256_digest(data: &[u8]) -> (out: [u8; 32])
    ensures
        out@ == sha256(data@),
{
    Sha256::digest(data).into()
}

/// Calls `alloy_primitives::keccak256`. Trusted: the 32 bytes returned are the
/// Keccak-256 digest of `data`, a function of `data` alone.
#[verifier::external_body]
pub(crate) fn keccak256_digest(data: &[u8]) -> (out: [u8; 32])
    ensures
        out@ == keccak256(data@),
{
    alloy_primitives::keccak256(data).0
}

} // verus!
