//! What an adapter for an EVM chain decides between its calls to the node.

use crate::adapter::{AttestationAdapterError, AttestationAdapterErrorView};
use crate::digest;
use vstd::prelude::*;

verus! {

/// The block an adapter asks for to learn the finalized height.
#[derive(Debug, Clone, Copy, PartialEq, Eq, Structural)]
pub enum BlockTag {
    /// The latest block of the chain.
    Latest,
    /// The block the chain itself reports as finalized.
    Finalized,
}

/// The block that finality is read from: the latest one where a finality
/// offset is configured, else the one the chain reports as finalized.
pub open spec fn finality_tag_of(finality_offset: Option<u64>) -> BlockTag {
    match finality_offset {
        Some(_) => BlockTag::Latest,
        None => BlockTag::Finalized,
    }
}

/// Chooses the block that finality is read from.
pub fn finality_tag(finality_offset: Option<u64>) -> (tag: BlockTag)
    ensures
        tag == finality_tag_of(finality_offset),
{
    match finality_offset {
        Some(_) => BlockTag::Latest,
        None => BlockTag::Finalized,
    }
}

/// The finalized height for the number of the block that was asked for: with
/// a finality offset the number less the offset, but not below zero; without
/// one the number itself. No block means that nothing is finalized yet.
pub open spec fn finalized_height_of(
    finality_offset: Option<u64>,
    block_number: Option<u64>,
) -> Result<u64, AttestationAdapterErrorView> {
    match block_number {
        None => Err(AttestationAdapterErrorView::BlockNotFinalized),
        Some(number) => match finality_offset {
            Some(offset) => if number >= offset {
                Ok((number - offset) as u64)
            } else {
                Ok(0)
            },
            None => Ok(number),
        },
    }
}

/// Computes the finalized height from the number of the block that was asked
/// for, `None` where the node had no such block.
pub fn finalized_height(finality_offset: Option<u64>, block_number: Option<u64>) -> (out: Result<
    u64,
    AttestationAdapterError,
>)
    ensures
        crate::adapter::number_view(out) == finalized_height_of(finality_offset, block_number),
        out is Ok <==> block_number is Some,
{
    match block_number {
        None => Err(AttestationAdapterError::BlockNotFinalized),
        Some(number) => match finality_offset {
            Some(offset) => Ok(number.saturating_sub(offset)),
            None => Ok(number),
        },
    }
}

/// The timestamp of a block that was asked for by its height, `None` where
/// the node had no such block: then the block is not finalized.
pub fn block_timestamp(timestamp: Option<u64>) -> (out: Result<u64, AttestationAdapterError>)
    ensures
        match timestamp {
            Some(timestamp) => out == Ok::<u64, AttestationAdapterError>(timestamp),
            None => out matches Err(error) && error@
                == AttestationAdapterErrorView::BlockNotFinalized,
        },
{
    match timestamp {
        Some(timestamp) => Ok(timestamp),
        None => Err(AttestationAdapterError::BlockNotFinalized),
    }
}

/// The key under which the router contract stores a commitment: the
/// Keccak-256 digest of the commitment path.
pub fn commitment_key(commitment_path: &[u8]) -> (key: [u8; 32])
    ensures
        key@ == digest::keccak256(commitment_path@),
{
    digest::keccak256_digest(commitment_path)
}

/// Reads what the router contract returned for a commitment key. The
/// contract answers all zero bytes for a key it does not hold, so a zero word
/// means that there is no commitment.
pub fn commitment_from_word(word: [u8; 32]) -> (commitment: Option<[u8; 32]>)
    ensures
        match commitment {
            None => forall|i: int| 0 <= i < 32 ==> word@[i] == 0,
            Some(found) => found == word && exists|i: int| 0 <= i < 32 && word@[i] != 0,
        },
{
    let mut i: usize = 0;
    while i < 32
        invariant
            i <= 32,
            forall|j: int| 0 <= j < i ==> word@[j] == 0,
        decreases 32 - i,
    {
        if word[i] != 0 {
            return Some(word);
        }
        i = i + 1;
    }
    None
}

} // verus!
