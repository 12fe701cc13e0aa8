//! The attestation service: the flows from a request to a signed
//! attestation.

use crate::adapter::{AttestationAdapter, AttestationAdapterErrorView, CommitmentType};
use crate::attestation::{SignedAttestation, SignedAttestationView};
use crate::attestation_payload::{AttestationPayload, AttestationPayloadView, AttestationType};
use crate::error::{AttestorError, AttestorErrorView};
use crate::msgs::{PacketAttestationView, PacketCompactView, StateAttestation};
use crate::packet::{PacketView, Packets};
use crate::rpc::{batch, commitment, finality};
use crate::signer::Signer;
use vstd::prelude::*;

verus! {

/// What a query for the latest height came to.
pub open spec fn height_view(out: Result<u64, AttestorError>) -> Result<u64, AttestorErrorView> {
    match out {
        Ok(height) => Ok(height),
        Err(error) => Err(error@),
    }
}

/// The payload of a state attestation.
pub open spec fn state_payload(height: u64, timestamp: u64) -> AttestationPayloadView {
    AttestationPayloadView {
        attestation_type: AttestationType::State,
        data: crate::msgs::state_attestation_encoding(height, timestamp),
    }
}

/// The payload of a packet attestation.
pub open spec fn packet_payload(attestation: PacketAttestationView) -> AttestationPayloadView {
    AttestationPayloadView {
        attestation_type: AttestationType::Packet,
        data: crate::msgs::packet_attestation_encoding(attestation.height, attestation.packets),
    }
}

/// What the adapter's answer to a query for the latest height makes.
pub open spec fn latest_height_of(
    finalized: Result<u64, AttestationAdapterErrorView>,
) -> Result<u64, AttestorErrorView> {
    match finalized {
        Ok(height) => Ok(height),
        Err(error) => Err(AttestorErrorView::AdapterError(error)),
    }
}

/// Whether a query for the latest height may come to `out`.
pub open spec fn may_report_latest_height<A: AttestationAdapter>(
    adapter: &A,
    out: Result<u64, AttestorErrorView>,
) -> bool {
    exists|finalized: Result<u64, AttestationAdapterErrorView>|
        {
            &&& #[trigger] adapter.may_report_finalized_height(finalized)
            &&& out == latest_height_of(finalized)
        }
}

/// Whether attesting the state at a height that is final may come to
/// `out`: the adapter was asked for the timestamp of the block, and on its
/// answer the encoded height and timestamp were signed as a state
/// attestation.
pub open spec fn may_attest_timestamp<A: AttestationAdapter, S: Signer>(
    adapter: &A,
    signer: &S,
    height: u64,
    out: Result<SignedAttestationView, AttestorErrorView>,
) -> bool {
    exists|timestamp: Result<u64, AttestationAdapterErrorView>|
        {
            &&& #[trigger] adapter.may_report_block_timestamp(height, timestamp)
            &&& match timestamp {
                Err(error) => out == Err::<SignedAttestationView, AttestorErrorView>(
                    AttestorErrorView::AdapterError(error),
                ),
                Ok(timestamp) => crate::attestation::may_attest(
                    signer,
                    height,
                    Some(timestamp),
                    state_payload(height, timestamp),
                    out,
                ),
            }
        }
}

/// Whether a state attestation request may come to `out`: the finality check
/// comes first, and nothing else is done for a height that does not pass it.
pub open spec fn may_attest_state<A: AttestationAdapter, S: Signer>(
    adapter: &A,
    signer: &S,
    height: u64,
    out: Result<SignedAttestationView, AttestorErrorView>,
) -> bool {
    exists|finality: Result<(), AttestorErrorView>|
        {
            &&& #[trigger] finality::may_validate_height(adapter, height, finality)
            &&& match finality {
                Err(error) => out == Err::<SignedAttestationView, AttestorErrorView>(error),
                Ok(()) => may_attest_timestamp(adapter, signer, height, out),
            }
        }
}

/// Whether attesting a batch at a height that is final may come to
/// `out`: the batch was validated, and when all of it was valid its encoding
/// was signed as a packet attestation, without a timestamp.
pub open spec fn may_attest_batch<A: AttestationAdapter, S: Signer>(
    adapter: &A,
    signer: &S,
    packets: Seq<PacketView>,
    height: u64,
    commitment_type: CommitmentType,
    out: Result<SignedAttestationView, AttestorErrorView>,
) -> bool {
    exists|batch: Result<PacketAttestationView, AttestorErrorView>|
        {
            &&& #[trigger] batch::may_attest_packets(
                adapter,
                packets,
                height,
                commitment_type,
                batch,
            )
            &&& match batch {
                Err(error) => out == Err::<SignedAttestationView, AttestorErrorView>(error),
                Ok(attestation) => crate::attestation::may_attest(
                    signer,
                    height,
                    None,
                    packet_payload(attestation),
                    out,
                ),
            }
        }
}

/// Whether a packet attestation request may come to `out`: the finality
/// check comes first, and no packet is looked at for a height that does not
/// pass it.
pub open spec fn may_attest_packet_request<A: AttestationAdapter, S: Signer>(
    adapter: &A,
    signer: &S,
    packets: Seq<PacketView>,
    height: u64,
    commitment_type: CommitmentType,
    out: Result<SignedAttestationView, AttestorErrorView>,
) -> bool {
    exists|finality: Result<(), AttestorErrorView>|
        {
            &&& #[trigger] finality::may_validate_height(adapter, height, finality)
            &&& match finality {
                Err(error) => out == Err::<SignedAttestationView, AttestorErrorView>(error),
                Ok(()) => may_attest_batch(adapter, signer, packets, height, commitment_type, out),
            }
        }
}

/// The commitment type of a request: the one it names, or `Packet` when it
/// names none that is known.
pub open spec fn requested_type(commitment_type: Option<CommitmentType>) -> CommitmentType {
    match commitment_type {
        Some(commitment_type) => commitment_type,
        None => CommitmentType::Packet,
    }
}

/// What an [`AttestorService`] holds.
pub struct AttestorServiceView<A, S> {
    pub adapter: A,
    pub adapter_name: Seq<char>,
    pub signer: S,
    pub signer_name: Seq<char>,
}

/// Service implementation for attestation requests.
///
/// This service provides endpoints for:
/// - getting the latest finalized height,
/// - generating state attestations,
/// - generating packet attestations.
pub struct AttestorService<A, S> {
    adapter: A,
    adapter_name: &'static str,
    signer: S,
    signer_name: &'static str,
}

impl<A, S> View for AttestorService<A, S> {
    type V = AttestorServiceView<A, S>;

    closed spec fn view(&self) -> AttestorServiceView<A, S> {
        AttestorServiceView {
            adapter: self.adapter,
            adapter_name: self.adapter_name@,
            signer: self.signer,
            signer_name: self.signer_name@,
        }
    }
}

impl<A, S> AttestorService<A, S> {
    /// A service over an adapter and a signer, each with its name.
    pub fn new(
        adapter: A,
        adapter_name: &'static str,
        signer: S,
        signer_name: &'static str,
    ) -> (service: Self)
        ensures
            service@ == (AttestorServiceView {
                adapter,
                adapter_name: adapter_name@,
                signer,
                signer_name: signer_name@,
            }),
    {
        Self { adapter, adapter_name, signer, signer_name }
    }

    /// The name of the adapter.
    pub fn adapter_name(&self) -> (name: &'static str)
        ensures
            name@ == self@.adapter_name,
    {
        self.adapter_name
    }

    /// The name of the signer.
    pub fn signer_name(&self) -> (name: &'static str)
        ensures
            name@ == self@.signer_name,
    {
        self.signer_name
    }
}

impl<A: AttestationAdapter, S: Signer> AttestorService<A, S> {
    /// The last finalized height, as the adapter reports it.
    pub fn latest_height(&self) -> (out: Result<u64, AttestorError>)
        ensures
            may_report_latest_height(&self@.adapter, height_view(out)),
    {
        match self.adapter.get_last_finalized_height() {
            Ok(height) => Ok(height),
            Err(error) => Err(AttestorError::AdapterError(error)),
        }
    }

    /// Attests the state of the chain at `height`.
    ///
    /// The finality check comes first. Then the adapter is asked for the
    /// timestamp of the block, the pair is encoded, and the encoding is
    /// signed as a state attestation that carries the timestamp.
    pub fn state_attestation(&self, height: u64) -> (out: Result<SignedAttestation, AttestorError>)
        ensures
            may_attest_state(
                &self@.adapter,
                &self@.signer,
                height,
                crate::attestation::result_view(out),
            ),
            out matches Ok(attestation) ==> {
                &&& attestation.height == height
                &&& attestation.timestamp is Some
                &&& attestation.attested_data@ == crate::msgs::state_attestation_encoding(
                    height,
                    attestation.timestamp->Some_0,
                )
                &&& attestation.signature@.len() == 65
            },
    {
        let finality = finality::validate_height(&self.adapter, height);
        if let Err(error) = finality {
            return Err(error);
        }
        let answer = self.adapter.get_block_timestamp(height);
        let timestamp: u64 = match answer {
            Ok(timestamp) => timestamp,
            Err(error) => {
                return Err(AttestorError::AdapterError(error));
            },
        };
        let unsigned_attestation = StateAttestation { height, timestamp };
        let attested_data = unsigned_attestation.abi_encode();
        let payload = AttestationPayload::new(attested_data, AttestationType::State);
        let out = crate::attestation::sign_attestation(
            height,
            Some(timestamp),
            payload,
            &self.signer,
        );
        out
    }

    /// Attests the commitments of `packets` at `height`.
    ///
    /// The finality check comes first. Then every packet is validated by the
    /// policy of the commitment type, `Packet` where the request names none.
    /// One packet that fails, fails the request. When all are valid the
    /// batch is encoded and the encoding is signed as a packet attestation,
    /// which carries no timestamp.
    pub fn packet_attestation(
        &self,
        packets: Packets,
        height: u64,
        commitment_type: Option<CommitmentType>,
    ) -> (out: Result<SignedAttestation, AttestorError>)
        ensures
            may_attest_packet_request(
                &self@.adapter,
                &self@.signer,
                packets@,
                height,
                requested_type(commitment_type),
                crate::attestation::result_view(out),
            ),
            out matches Ok(attestation) ==> {
                &&& attestation.height == height
                &&& attestation.timestamp is None
                &&& attestation.attested_data@.len() == 128 + 64 * packets@.len()
                &&& attestation.signature@.len() == 65
            },
    {
        let commitment_type = match commitment_type {
            Some(commitment_type) => commitment_type,
            None => CommitmentType::Packet,
        };
        let finality = finality::validate_height(&self.adapter, height);
        if let Err(error) = finality {
            return Err(error);
        }
        let batch = batch::create_packets_attestation(
            &self.adapter,
            &packets,
            height,
            commitment_type,
        );
        let unsigned_attestation = match batch {
            Ok(attestation) => attestation,
            Err(error) => {
                return Err(error);
            },
        };
        let attested_data = unsigned_attestation.abi_encode();
        let payload = AttestationPayload::new(attested_data, AttestationType::Packet);
        let out = crate::attestation::sign_attestation(height, None, payload, &self.signer);
        proof {
            lemma_batch_holds_every_packet(
                &self@.adapter,
                packets@,
                height,
                commitment_type,
                unsigned_attestation@,
            );
        }
        out
    }
}

/// A batch that was attested holds one commitment for each packet.
proof fn lemma_batch_holds_every_packet<A: AttestationAdapter>(
    adapter: &A,
    packets: Seq<PacketView>,
    height: u64,
    commitment_type: CommitmentType,
    attestation: PacketAttestationView,
)
    requires
        batch::may_attest_packets(
            adapter,
            packets,
            height,
            commitment_type,
            Ok::<PacketAttestationView, AttestorErrorView>(attestation),
        ),
    ensures
        attestation.packets.len() == packets.len(),
        attestation.height == height,
{
    let validations = choose|validations: Seq<Result<PacketCompactView, AttestorErrorView>>|
        {
            &&& validations.len() == packets.len()
            &&& forall|i: int|
                0 <= i < packets.len() ==> commitment::may_handle(
                    adapter,
                    height,
                    packets[i],
                    commitment_type,
                    commitment_type,
                    #[trigger] validations[i],
                )
            &&& #[trigger] batch::aggregate(height, validations) == Ok::<
                PacketAttestationView,
                AttestorErrorView,
            >(attestation)
        };
    batch::lemma_aggregate_all_or_nothing(height, validations);
}

/// No state attestation is made for a height that is not final: whenever
/// a request comes to an attestation, the adapter reported a finalized height
/// that is not below the height attested.
pub proof fn lemma_state_attestation_needs_finality<A: AttestationAdapter, S: Signer>(
    adapter: &A,
    signer: &S,
    height: u64,
    out: Result<SignedAttestationView, AttestorErrorView>,
)
    requires
        may_attest_state(adapter, signer, height, out),
        out is Ok,
    ensures
        exists|finalized: u64|
            height <= finalized && #[trigger] adapter.may_report_finalized_height(
                Ok::<u64, AttestationAdapterErrorView>(finalized),
            ),
{
    let checked = choose|finality: Result<(), AttestorErrorView>|
        {
            &&& #[trigger] finality::may_validate_height(adapter, height, finality)
            &&& match finality {
                Err(error) => out == Err::<SignedAttestationView, AttestorErrorView>(error),
                Ok(()) => may_attest_timestamp(adapter, signer, height, out),
            }
        };
    lemma_passed_check_needs_finality(adapter, height, checked);
}

/// A state attestation carries the timestamp that the adapter reported for
/// the height: whenever a request comes to an attestation, the attested data
/// is the encoding of the height and of that timestamp.
pub proof fn lemma_state_attestation_carries_the_reported_timestamp<
    A: AttestationAdapter,
    S: Signer,
>(
    adapter: &A,
    signer: &S,
    height: u64,
    out: Result<SignedAttestationView, AttestorErrorView>,
)
    requires
        may_attest_state(adapter, signer, height, out),
        out is Ok,
    ensures
        out->Ok_0.height == height,
        exists|timestamp: u64|
            {
                &&& #[trigger] adapter.may_report_block_timestamp(
                    height,
                    Ok::<u64, AttestationAdapterErrorView>(timestamp),
                )
                &&& out->Ok_0.timestamp == Some(timestamp)
                &&& out->Ok_0.attested_data == crate::msgs::state_attestation_encoding(
                    height,
                    timestamp,
                )
            },
{
}

/// No packet attestation is made for a height that is not final: whenever
/// a request comes to an attestation, the adapter reported a finalized height
/// that is not below the height attested.
pub proof fn lemma_packet_attestation_needs_finality<A: AttestationAdapter, S: Signer>(
    adapter: &A,
    signer: &S,
    packets: Seq<PacketView>,
    height: u64,
    commitment_type: CommitmentType,
    out: Result<SignedAttestationView, AttestorErrorView>,
)
    requires
        may_attest_packet_request(adapter, signer, packets, height, commitment_type, out),
        out is Ok,
    ensures
        exists|finalized: u64|
            height <= finalized && #[trigger] adapter.may_report_finalized_height(
                Ok::<u64, AttestationAdapterErrorView>(finalized),
            ),
{
    let checked = choose|finality: Result<(), AttestorErrorView>|
        {
            &&& #[trigger] finality::may_validate_height(adapter, height, finality)
            &&& match finality {
                Err(error) => out == Err::<SignedAttestationView, AttestorErrorView>(error),
                Ok(()) => may_attest_batch(adapter, signer, packets, height, commitment_type, out),
            }
        };
    lemma_passed_check_needs_finality(adapter, height, checked);
}

/// A height passes the finality check only on a report of a finalized height
/// that is not below it.
proof fn lemma_passed_check_needs_finality<A: AttestationAdapter>(
    adapter: &A,
    height: u64,
    checked: Result<(), AttestorErrorView>,
)
    requires
        finality::may_validate_height(adapter, height, checked),
        checked is Ok,
    ensures
        exists|finalized: u64|
            height <= finalized && #[trigger] adapter.may_report_finalized_height(
                Ok::<u64, AttestationAdapterErrorView>(finalized),
            ),
{
}

/// A packet attestation covers every packet of its request: whenever a
/// request comes to an attestation, each packet was judged valid on an answer
/// of the adapter, and the attested data is the encoding of the height and of
/// all their commitments, in the order of the request.
pub proof fn lemma_packet_attestation_covers_every_packet<A: AttestationAdapter, S: Signer>(
    adapter: &A,
    signer: &S,
    packets: Seq<PacketView>,
    height: u64,
    commitment_type: CommitmentType,
    out: Result<SignedAttestationView, AttestorErrorView>,
)
    requires
        may_attest_packet_request(adapter, signer, packets, height, commitment_type, out),
        out is Ok,
    ensures
        out->Ok_0.height == height,
        out->Ok_0.timestamp is None,
        exists|attested: Seq<PacketCompactView>|
            {
                &&& attested.len() == packets.len()
                &&& forall|i: int|
                    0 <= i < packets.len() ==> commitment::may_handle(
                        adapter,
                        height,
                        packets[i],
                        commitment_type,
                        commitment_type,
                        Ok::<PacketCompactView, AttestorErrorView>(#[trigger] attested[i]),
                    )
                &&& out->Ok_0.attested_data == #[trigger] crate::msgs::packet_attestation_encoding(
                    height,
                    attested,
                )
            },
{
    let checked = choose|finality: Result<(), AttestorErrorView>|
        {
            &&& #[trigger] finality::may_validate_height(adapter, height, finality)
            &&& match finality {
                Err(error) => out == Err::<SignedAttestationView, AttestorErrorView>(error),
                Ok(()) => may_attest_batch(adapter, signer, packets, height, commitment_type, out),
            }
        };
    let batch = choose|batch: Result<PacketAttestationView, AttestorErrorView>|
        {
            &&& #[trigger] batch::may_attest_packets(
                adapter,
                packets,
                height,
                commitment_type,
                batch,
            )
            &&& match batch {
                Err(error) => out == Err::<SignedAttestationView, AttestorErrorView>(error),
                Ok(attestation) => crate::attestation::may_attest(
                    signer,
                    height,
                    None,
                    packet_payload(attestation),
                    out,
                ),
            }
        };
    let validations = choose|validations: Seq<Result<PacketCompactView, AttestorErrorView>>|
        {
            &&& validations.len() == packets.len()
            &&& forall|i: int|
                0 <= i < packets.len() ==> commitment::may_handle(
                    adapter,
                    height,
                    packets[i],
                    commitment_type,
                    commitment_type,
                    #[trigger] validations[i],
                )
            &&& batch == #[trigger] batch::aggregate(height, validations)
        };
    batch::lemma_aggregate_all_or_nothing(height, validations);
    let attested = batch->Ok_0.packets;
    assert forall|i: int| 0 <= i < packets.len() implies commitment::may_handle(
        adapter,
        height,
        packets[i],
        commitment_type,
        commitment_type,
        Ok::<PacketCompactView, AttestorErrorView>(#[trigger] attested[i]),
    ) by {
        assert(validations[i] == Ok::<PacketCompactView, AttestorErrorView>(attested[i]));
    }
}

} // verus!
