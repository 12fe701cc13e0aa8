//! What an adapter for a Cosmos chain decides between its calls to the node.

use crate::adapter::{AttestationAdapterError, AttestationAdapterErrorView};
use crate::text;
use vstd::prelude::*;

verus! {

/// Reads the bytes of a packet or acknowledgement commitment as the node
/// returned them: empty bytes mean that there is none.
pub fn present(commitment: Vec<u8>) -> (out: Option<Vec<u8>>)
    ensures
        match out {
            None => commitment@.len() == 0,
            Some(found) => found@ == commitment@ && commitment@.len() > 0,
        },
{
    if commitment.len() == 0 {
        None
    } else {
        Some(commitment)
    }
}

/// Why a packet that has arrived cannot be attested as timed out.
pub open spec fn received_detail(sequence: u64) -> Seq<char> {
    "Packet seq="@ + text::decimal(sequence as nat) + " was already received, cannot timeout"@
}

/// Reads the node's answer on a receipt. A packet that was received cannot
/// time out, which is a commitment error; one that was not has no receipt.
pub fn receipt_commitment(received: bool, sequence: u64) -> (out: Result<
    Option<Vec<u8>>,
    AttestationAdapterError,
>)
    ensures
        match out {
            Ok(commitment) => !received && commitment is None,
            Err(error) => received && error@ == AttestationAdapterErrorView::CommitmentError(
                received_detail(sequence),
            ),
        },
{
    if received {
        let mut detail = text::prefixed("Packet seq=", text::decimal_string(sequence).as_str());
        detail.append(" was already received, cannot timeout");
        Err(AttestationAdapterError::CommitmentError(detail))
    } else {
        Ok(None)
    }
}

/// Turns the bytes of a commitment into the 32 bytes the attestor works
/// with. No commitment stays none; one of another length is a commitment
/// error.
pub fn commitment_from_bytes(commitment: Option<Vec<u8>>) -> (out: Result<
    Option<[u8; 32]>,
    AttestationAdapterError,
>)
    ensures
        match commitment {
            None => out matches Ok(None),
            Some(bytes) => if bytes@.len() == 32 {
                out matches Ok(Some(word)) && word@ == bytes@
            } else {
                out matches Err(error) && error@ == AttestationAdapterErrorView::CommitmentError(
                    "Commitment length mismatch"@,
                )
            },
        },
{
    match commitment {
        None => Ok(None),
        Some(bytes) => {
            if bytes.len() != 32 {
                return Err(
                    AttestationAdapterError::CommitmentError(
                        String::from_str("Commitment length mismatch"),
                    ),
                );
            }
            let mut word: [u8; 32] = [0u8;32];
            let mut i: usize = 0;
            while i < 32
                invariant
                    i <= 32,
                    bytes@.len() == 32,
                    forall|j: int| 0 <= j < i ==> word@[j] == bytes@[j],
                decreases 32 - i,
            {
                word[i] = bytes[i];
                i = i + 1;
            }
            Ok(Some(word))
        },
    }
}

} // verus!
