//! The commitment policies: for each kind of commitment, which client and
//! path the chain is asked about, and which answers are accepted.
//!
//! Every answer of the chain adapter is judged by a function of this module
//! that takes the answer as an argument. The functions that do the asking say
//! which query they made and hand the answer on.

use crate::adapter::{
    AttestationAdapter, AttestationAdapterError, AttestationAdapterErrorView, CommitmentType,
};
use crate::error::{AttestorError, AttestorErrorView};
use crate::msgs::{PacketCompact, PacketCompactView};
use crate::packet::{Packet, PacketView};
use crate::{digest, text};
use vstd::prelude::*;

verus! {

/// What the validation of one packet came to.
pub open spec fn compact_view(out: Result<PacketCompact, AttestorError>) -> Result<
    PacketCompactView,
    AttestorErrorView,
> {
    match out {
        Ok(compact) => Ok(compact@),
        Err(error) => Err(error@),
    }
}

/// The client whose state is queried: the sender's for a packet commitment,
/// the receiver's for an acknowledgement or a receipt.
pub open spec fn query_client(packet: PacketView, commitment_type: CommitmentType) -> Seq<char> {
    match commitment_type {
        CommitmentType::Packet => packet.source_client,
        CommitmentType::Ack => packet.dest_client,
        CommitmentType::Receipt => packet.dest_client,
    }
}

/// The commitment path that is queried.
pub open spec fn query_path(packet: PacketView, commitment_type: CommitmentType) -> Seq<u8> {
    match commitment_type {
        CommitmentType::Packet => packet.commitment_path,
        CommitmentType::Ack => packet.ack_commitment_path,
        CommitmentType::Receipt => packet.receipt_commitment_path,
    }
}

/// Thirty-two zero bytes: what stands for a receipt that is not there.
pub open spec fn zero_commitment() -> Seq<u8> {
    Seq::new(32, |i: int| 0u8)
}

/// Why a packet commitment that differs from the expected one is refused.
pub open spec fn mismatch_reason(
    client_id: Seq<char>,
    sequence: u64,
    expected: Seq<u8>,
    actual: Seq<u8>,
) -> Seq<char> {
    "Packet commitment mismatch for client_id="@ + client_id + " seq="@ + text::decimal(
        sequence as nat,
    ) + ": expected 0x"@ + text::hex_lower(expected) + ", got 0x"@ + text::hex_lower(actual)
}

/// Why a receipt that is there is refused.
pub open spec fn nonzero_reason(client_id: Seq<char>, sequence: u64, actual: Seq<u8>) -> Seq<
    char,
> {
    "Receipt commitment should be zero for client_id="@ + client_id + " seq="@ + text::decimal(
        sequence as nat,
    ) + ": got 0x"@ + text::hex_lower(actual)
}

/// An attested commitment: the Keccak-256 digest of its path, and the
/// commitment itself.
pub open spec fn attested(path: Seq<u8>, commitment: Seq<u8>) -> PacketCompactView {
    PacketCompactView { path: digest::keccak256(path), commitment }
}

/// The policy for packet commitments: the commitment must be on chain and
/// must equal the one computed from the packet.
pub open spec fn packet_commitment_check(
    packet: PacketView,
    height: u64,
    found: Result<Option<Seq<u8>>, AttestationAdapterErrorView>,
) -> Result<PacketCompactView, AttestorErrorView> {
    match found {
        Err(error) => Err(AttestorErrorView::AdapterError(error)),
        Ok(None) => Err(
            AttestorErrorView::CommitmentNotFound {
                client_id: packet.source_client,
                sequence: packet.sequence,
                height,
            },
        ),
        Ok(Some(commitment)) => if packet.commitment == commitment {
            Ok(attested(packet.commitment_path, commitment))
        } else {
            Err(
                AttestorErrorView::InvalidCommitment {
                    reason: mismatch_reason(
                        packet.source_client,
                        packet.sequence,
                        packet.commitment,
                        commitment,
                    ),
                },
            )
        },
    }
}

/// The policy for acknowledgement commitments: the commitment must be on
/// chain, and is taken as it is.
pub open spec fn ack_commitment_check(
    packet: PacketView,
    height: u64,
    found: Result<Option<Seq<u8>>, AttestationAdapterErrorView>,
) -> Result<PacketCompactView, AttestorErrorView> {
    match found {
        Err(error) => Err(AttestorErrorView::AdapterError(error)),
        Ok(None) => Err(
            AttestorErrorView::CommitmentNotFound {
                client_id: packet.dest_client,
                sequence: packet.sequence,
                height,
            },
        ),
        Ok(Some(commitment)) => Ok(attested(packet.ack_commitment_path, commitment)),
    }
}

/// The policy for receipts: there must be none. An absent receipt counts as
/// thirty-two zero bytes, and only zero bytes are accepted.
pub open spec fn receipt_commitment_check(
    packet: PacketView,
    found: Result<Option<Seq<u8>>, AttestationAdapterErrorView>,
) -> Result<PacketCompactView, AttestorErrorView> {
    match found {
        Err(error) => Err(AttestorErrorView::AdapterError(error)),
        Ok(None) => Ok(attested(packet.receipt_commitment_path, zero_commitment())),
        Ok(Some(commitment)) => if commitment == zero_commitment() {
            Ok(attested(packet.receipt_commitment_path, commitment))
        } else {
            Err(
                AttestorErrorView::InvalidCommitment {
                    reason: nonzero_reason(packet.dest_client, packet.sequence, commitment),
                },
            )
        },
    }
}

/// The policy that applies to a commitment type.
pub open spec fn commitment_check(
    packet: PacketView,
    height: u64,
    commitment_type: CommitmentType,
    found: Result<Option<Seq<u8>>, AttestationAdapterErrorView>,
) -> Result<PacketCompactView, AttestorErrorView> {
    match commitment_type {
        CommitmentType::Packet => packet_commitment_check(packet, height, found),
        CommitmentType::Ack => ack_commitment_check(packet, height, found),
        CommitmentType::Receipt => receipt_commitment_check(packet, found),
    }
}

/// Whether two byte strings are the same.
fn same_bytes(left: &[u8], right: &[u8]) -> (same: bool)
    ensures
        same == (left@ == right@),
{
    if left.len() != right.len() {
        return false;
    }
    let mut i: usize = 0;
    while i < left.len()
        invariant
            i <= left@.len(),
            left@.len() == right@.len(),
            left@.subrange(0, i as int) == right@.subrange(0, i as int),
        decreases left@.len() - i,
    {
        if left[i] != right[i] {
            return false;
        }
        i = i + 1;
    }
    assert(left@.subrange(0, i as int) == left@);
    assert(right@.subrange(0, i as int) == right@);
    true
}

/// Whether a commitment is all zero bytes.
fn is_zero(commitment: &[u8; 32]) -> (zero: bool)
    ensures
        zero == (commitment@ == zero_commitment()),
{
    let mut i: usize = 0;
    while i < 32
        invariant
            i <= 32,
            forall|j: int| 0 <= j < i ==> commitment@[j] == 0,
        decreases 32 - i,
    {
        if commitment[i] != 0 {
            return false;
        }
        i = i + 1;
    }
    assert(commitment@ =~= zero_commitment());
    true
}

/// The attested commitment for a path and the commitment found under it.
fn attest(path: &[u8], commitment: [u8; 32]) -> (compact: PacketCompact)
    ensures
        compact@ == attested(path@, commitment@),
{
    PacketCompact { path: digest::keccak256_digest(path), commitment }
}

/// Judges what the adapter found for a packet commitment.
///
/// Succeeds exactly when the adapter found a commitment and it equals the
/// packet's expected one. A different value is `InvalidCommitment`, an absent
/// one `CommitmentNotFound` for the source client, an adapter failure
/// `AdapterError`.
pub fn validate_packet_commitment(
    packet: &Packet,
    height: u64,
    found: Result<Option<[u8; 32]>, AttestationAdapterError>,
) -> (out: Result<PacketCompact, AttestorError>)
    ensures
        compact_view(out) == packet_commitment_check(
            packet@,
            height,
            crate::adapter::commitment_view(found),
        ),
        out is Ok <==> (found matches Ok(Some(commitment)) && commitment@ == packet@.commitment),
{
    match found {
        Err(error) => Err(AttestorError::AdapterError(error)),
        Ok(None) => Err(
            AttestorError::CommitmentNotFound {
                client_id: String::from_str(packet.source_client()),
                sequence: packet.sequence(),
                height,
            },
        ),
        Ok(Some(commitment)) => {
            if same_bytes(packet.commitment(), commitment.as_slice()) {
                Ok(attest(packet.commitment_path(), commitment))
            } else {
                let mut reason = text::prefixed(
                    "Packet commitment mismatch for client_id=",
                    packet.source_client(),
                );
                reason.append(" seq=");
                reason.append(text::decimal_string(packet.sequence()).as_str());
                reason.append(": expected 0x");
                reason.append(text::hex_encode(packet.commitment()).as_str());
                reason.append(", got 0x");
                reason.append(text::hex_encode(commitment.as_slice()).as_str());
                Err(AttestorError::InvalidCommitment { reason })
            }
        },
    }
}

/// Judges what the adapter found for an acknowledgement commitment.
///
/// Succeeds exactly when the adapter found a commitment; its value is taken
/// as it is. An absent one is `CommitmentNotFound` for the destination
/// client, an adapter failure `AdapterError`.
pub fn validate_ack_commitment(
    packet: &Packet,
    height: u64,
    found: Result<Option<[u8; 32]>, AttestationAdapterError>,
) -> (out: Result<PacketCompact, AttestorError>)
    ensures
        compact_view(out) == ack_commitment_check(
            packet@,
            height,
            crate::adapter::commitment_view(found),
        ),
        out is Ok <==> found matches Ok(Some(_)),
{
    match found {
        Err(error) => Err(AttestorError::AdapterError(error)),
        Ok(None) => Err(
            AttestorError::CommitmentNotFound {
                client_id: String::from_str(packet.dest_client()),
                sequence: packet.sequence(),
                height,
            },
        ),
        Ok(Some(commitment)) => Ok(attest(packet.ack_commitment_path(), commitment)),
    }
}

/// Judges what the adapter found for a receipt.
///
/// Succeeds exactly when the adapter found nothing or thirty-two zero
/// bytes, and attests the zero commitment. Any other value is
/// `InvalidCommitment`, an adapter failure `AdapterError`.
pub fn validate_receipt_commitment(
    packet: &Packet,
    found: Result<Option<[u8; 32]>, AttestationAdapterError>,
) -> (out: Result<PacketCompact, AttestorError>)
    ensures
        compact_view(out) == receipt_commitment_check(
            packet@,
            crate::adapter::commitment_view(found),
        ),
        out is Ok <==> (found matches Ok(answer) && (answer matches Some(commitment)
            ==> commitment@ == zero_commitment())),
        out matches Ok(compact) ==> compact@.commitment == zero_commitment(),
{
    match found {
        Err(error) => Err(AttestorError::AdapterError(error)),
        Ok(None) => {
            let commitment: [u8; 32] = [0u8;32];
            assert(commitment@ =~= zero_commitment());
            Ok(attest(packet.receipt_commitment_path(), commitment))
        },
        Ok(Some(commitment)) => {
            if is_zero(&commitment) {
                Ok(attest(packet.receipt_commitment_path(), commitment))
            } else {
                let mut reason = text::prefixed(
                    "Receipt commitment should be zero for client_id=",
                    packet.dest_client(),
                );
                reason.append(" seq=");
                reason.append(text::decimal_string(packet.sequence()).as_str());
                reason.append(": got 0x");
                reason.append(text::hex_encode(commitment.as_slice()).as_str());
                Err(AttestorError::InvalidCommitment { reason })
            }
        },
    }
}

/// Judges what the adapter found, by the policy of the commitment type.
pub fn validate_commitment(
    packet: &Packet,
    height: u64,
    commitment_type: CommitmentType,
    found: Result<Option<[u8; 32]>, AttestationAdapterError>,
) -> (out: Result<PacketCompact, AttestorError>)
    ensures
        compact_view(out) == commitment_check(
            packet@,
            height,
            commitment_type,
            crate::adapter::commitment_view(found),
        ),
{
    match commitment_type {
        CommitmentType::Packet => validate_packet_commitment(packet, height, found),
        CommitmentType::Ack => validate_ack_commitment(packet, height, found),
        CommitmentType::Receipt => validate_receipt_commitment(packet, found),
    }
}

/// Whether asking `adapter` about `packet` and judging the answer may come to
/// `out`. The client and the path asked about, and the policy applied, are
/// those of `policy`; the adapter is told that the commitment is of type
/// `asked`.
pub open spec fn may_handle<A: AttestationAdapter>(
    adapter: &A,
    height: u64,
    packet: PacketView,
    policy: CommitmentType,
    asked: CommitmentType,
    out: Result<PacketCompactView, AttestorErrorView>,
) -> bool {
    exists|found: Result<Option<Seq<u8>>, AttestationAdapterErrorView>|
        {
            &&& #[trigger] adapter.may_report_commitment(
                query_client(packet, policy),
                height,
                packet.sequence,
                query_path(packet, policy),
                asked,
                found,
            )
            &&& out == commitment_check(packet, height, policy, found)
        }
}

/// Validates the packet commitment of one packet: asks the adapter for the
/// commitment under the packet's commitment path, on the source client, and
/// judges the answer with [`validate_packet_commitment`].
pub fn handle_packet_commitment<A: AttestationAdapter>(
    adapter: &A,
    height: u64,
    packet: &Packet,
    commitment_type: CommitmentType,
) -> (out: Result<PacketCompact, AttestorError>)
    ensures
        may_handle(
            adapter,
            height,
            packet@,
            CommitmentType::Packet,
            commitment_type,
            compact_view(out),
        ),
{
    let found = adapter.get_commitment(
        String::from_str(packet.source_client()),
        height,
        packet.sequence(),
        packet.commitment_path(),
        commitment_type,
    );
    assert(adapter.may_report_commitment(
        query_client(packet@, CommitmentType::Packet),
        height,
        packet@.sequence,
        query_path(packet@, CommitmentType::Packet),
        commitment_type,
        crate::adapter::commitment_view(found),
    ));
    validate_packet_commitment(packet, height, found)
}

/// Validates the acknowledgement commitment of one packet: asks the adapter
/// for the commitment under the packet's acknowledgement path, on the
/// destination client, and judges the answer with
/// [`validate_ack_commitment`].
pub fn handle_ack_commitment<A: AttestationAdapter>(
    adapter: &A,
    height: u64,
    packet: &Packet,
    commitment_type: CommitmentType,
) -> (out: Result<PacketCompact, AttestorError>)
    ensures
        may_handle(
            adapter,
            height,
            packet@,
            CommitmentType::Ack,
            commitment_type,
            compact_view(out),
        ),
{
    let found = adapter.get_commitment(
        String::from_str(packet.dest_client()),
        height,
        packet.sequence(),
        packet.ack_commitment_path(),
        commitment_type,
    );
    assert(adapter.may_report_commitment(
        query_client(packet@, CommitmentType::Ack),
        height,
        packet@.sequence,
        query_path(packet@, CommitmentType::Ack),
        commitment_type,
        crate::adapter::commitment_view(found),
    ));
    validate_ack_commitment(packet, height, found)
}

/// Validates the absence of a receipt for one packet: asks the adapter for
/// the commitment under the packet's receipt path, on the destination client,
/// and judges the answer with [`validate_receipt_commitment`].
pub fn handle_receipt_commitment<A: AttestationAdapter>(
    adapter: &A,
    height: u64,
    packet: &Packet,
    commitment_type: CommitmentType,
) -> (out: Result<PacketCompact, AttestorError>)
    ensures
        may_handle(
            adapter,
            height,
            packet@,
            CommitmentType::Receipt,
            commitment_type,
            compact_view(out),
        ),
{
    let found = adapter.get_commitment(
        String::from_str(packet.dest_client()),
        height,
        packet.sequence(),
        packet.receipt_commitment_path(),
        commitment_type,
    );
    assert(adapter.may_report_commitment(
        query_client(packet@, CommitmentType::Receipt),
        height,
        packet@.sequence,
        query_path(packet@, CommitmentType::Receipt),
        commitment_type,
        crate::adapter::commitment_view(found),
    ));
    validate_receipt_commitment(packet, found)
}

/// Creates the unsigned attestation of one packet, by the policy of the
/// commitment type.
pub fn create_single_packet_attestation<A: AttestationAdapter>(
    adapter: &A,
    height: u64,
    packet: &Packet,
    commitment_type: CommitmentType,
) -> (out: Result<PacketCompact, AttestorError>)
    ensures
        may_handle(adapter, height, packet@, commitment_type, commitment_type, compact_view(out)),
{
    match commitment_type {
        CommitmentType::Packet => handle_packet_commitment(
            adapter,
            height,
            packet,
            commitment_type,
        ),
        CommitmentType::Ack => handle_ack_commitment(adapter, height, packet, commitment_type),
        CommitmentType::Receipt => handle_receipt_commitment(
            adapter,
            height,
            packet,
            commitment_type,
        ),
    }
}

} // verus!
