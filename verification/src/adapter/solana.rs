//! What an adapter for a Solana chain decides between its calls to the node.

use crate::adapter::{AttestationAdapterError, AttestationAdapterErrorView};
use crate::text;
use vstd::prelude::*;

verus! {

/// The length of the discriminator that leads the data of an account.
pub const ANCHOR_DISCRIMINATOR_LEN: usize = 8;

/// The length of a commitment.
pub const COMMITMENT_LEN: usize = 32;

/// Configuration for the Solana blockchain client adapter.
#[derive(Clone, Debug)]
pub struct SolanaAdapterConfig {
    /// RPC endpoint URL for the Solana chain.
    pub url: String,
    /// The router program ID (Solana program address).
    pub router_program_id: String,
}

/// Why account data too short for a commitment is refused.
pub open spec fn short_data_detail(len: nat) -> Seq<char> {
    "Invalid commitment account data length: got "@ + text::decimal(len)
        + " bytes, expected at least 40"@
}

/// The commitment in the data of a commitment account: the 32 bytes after
/// the 8-byte discriminator. Data shorter than 40 bytes is a retrieval
/// error; data with anything after the commitment is a commitment error.
pub open spec fn commitment_in(data: Seq<u8>) -> Result<Seq<u8>, AttestationAdapterErrorView> {
    if data.len() < 40 {
        Err(AttestationAdapterErrorView::RetrievalError(short_data_detail(data.len())))
    } else if data.len() > 40 {
        Err(AttestationAdapterErrorView::CommitmentError("Commitment length mismatch"@))
    } else {
        Ok(data.subrange(8, 40))
    }
}

/// What reading a commitment out of account data came to.
pub open spec fn word_view(out: Result<[u8; 32], AttestationAdapterError>) -> Result<
    Seq<u8>,
    AttestationAdapterErrorView,
> {
    match out {
        Ok(word) => Ok(word@),
        Err(error) => Err(error@),
    }
}

/// Reads the commitment out of the data of a commitment account.
pub fn commitment_from_account_data(data: &[u8]) -> (out: Result<
    [u8; 32],
    AttestationAdapterError,
>)
    ensures
        word_view(out) == commitment_in(data@),
        out is Ok <==> data@.len() == 40,
{
    let len: usize = data.len();
    if len < ANCHOR_DISCRIMINATOR_LEN + COMMITMENT_LEN {
        let mut detail = text::prefixed(
            "Invalid commitment account data length: got ",
            text::decimal_string(len as u64).as_str(),
        );
        detail.append(" bytes, expected at least 40");
        return Err(AttestationAdapterError::RetrievalError(detail));
    }
    if len > ANCHOR_DISCRIMINATOR_LEN + COMMITMENT_LEN {
        return Err(
            AttestationAdapterError::CommitmentError(
                String::from_str("Commitment length mismatch"),
            ),
        );
    }
    let mut word: [u8; 32] = [0u8;32];
    let mut i: usize = 0;
    while i < 32
        invariant
            i <= 32,
            data@.len() == 40,
            forall|j: int| 0 <= j < i ==> word@[j] == data@[8 + j],
        decreases 32 - i,
    {
        word[i] = data[ANCHOR_DISCRIMINATOR_LEN + i];
        i = i + 1;
    }
    assert(word@ =~= data@.subrange(8, 40));
    Ok(word)
}

/// Why the account of a commitment could not be fetched.
pub open spec fn account_failure_detail(
    client_id: Seq<char>,
    sequence: u64,
    slot: u64,
    cause: Seq<char>,
) -> Seq<char> {
    "Failed to get commitment account for client_id="@ + client_id + ", sequence="@
        + text::decimal(sequence as nat) + ", slot="@ + text::decimal(slot as nat) + ": "@ + cause
}

/// The retrieval error for a commitment account that could not be fetched,
/// with what was asked for and the node's own words.
pub fn account_failure(client_id: &str, sequence: u64, slot: u64, cause: &str) -> (error:
    AttestationAdapterError)
    ensures
        error@ == AttestationAdapterErrorView::RetrievalError(
            account_failure_detail(client_id@, sequence, slot, cause@),
        ),
{
    let mut detail = text::prefixed("Failed to get commitment account for client_id=", client_id);
    detail.append(", sequence=");
    detail.append(text::decimal_string(sequence).as_str());
    detail.append(", slot=");
    detail.append(text::decimal_string(slot).as_str());
    detail.append(": ");
    detail.append(cause);
    AttestationAdapterError::RetrievalError(detail)
}

} // verus!
