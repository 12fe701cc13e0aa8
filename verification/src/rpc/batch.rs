//! Batches of packets: every packet is validated, and the batch is attested
//! all or nothing, in the order of the request.

use crate::adapter::{AttestationAdapter, CommitmentType};
use crate::error::{AttestorError, AttestorErrorView};
use crate::msgs::{PacketAttestation, PacketAttestationView, PacketCompact, PacketCompactView};
use crate::packet::{PacketView, Packets};
use crate::rpc::commitment;
use vstd::prelude::*;

verus! {

/// What the validation of a batch came to.
pub open spec fn batch_view(out: Result<PacketAttestation, AttestorError>) -> Result<
    PacketAttestationView,
    AttestorErrorView,
> {
    match out {
        Ok(attestation) => Ok(attestation@),
        Err(error) => Err(error@),
    }
}

/// What the validations of a batch came to, in the order of the request.
pub open spec fn validation_views(
    validations: Seq<Result<PacketCompact, AttestorError>>,
) -> Seq<Result<PacketCompactView, AttestorErrorView>> {
    validations.map_values(
        |validation: Result<PacketCompact, AttestorError>| commitment::compact_view(validation),
    )
}

/// The attestation of a batch: all commitments in the order of the request
/// when every validation succeeded, else the error of the first packet, in
/// that order, whose validation failed.
pub open spec fn aggregate(
    height: u64,
    validations: Seq<Result<PacketCompactView, AttestorErrorView>>,
) -> Result<PacketAttestationView, AttestorErrorView>
    decreases validations.len(),
{
    if validations.len() == 0 {
        Ok(PacketAttestationView { height, packets: Seq::empty() })
    } else {
        match aggregate(height, validations.drop_last()) {
            Err(error) => Err(error),
            Ok(attestation) => match validations.last() {
                Err(error) => Err(error),
                Ok(compact) => Ok(
                    PacketAttestationView { height, packets: attestation.packets.push(compact) },
                ),
            },
        }
    }
}

/// A batch is all or nothing. It succeeds exactly when every validation
/// did, and then holds one commitment for each packet, in the order of the
/// request. Otherwise it is the error of the first failed validation, and no
/// commitment is kept.
pub proof fn lemma_aggregate_all_or_nothing(
    height: u64,
    validations: Seq<Result<PacketCompactView, AttestorErrorView>>,
)
    ensures
        match aggregate(height, validations) {
            Ok(attestation) => {
                &&& attestation.height == height
                &&& attestation.packets.len() == validations.len()
                &&& forall|i: int|
                    0 <= i < validations.len() ==> #[trigger] validations[i] == Ok::<
                        PacketCompactView,
                        AttestorErrorView,
                    >(attestation.packets[i])
            },
            Err(error) => exists|first: int|
                {
                    &&& 0 <= first < validations.len()
                    &&& #[trigger] validations[first] == Err::<
                        PacketCompactView,
                        AttestorErrorView,
                    >(error)
                    &&& forall|j: int| 0 <= j < first ==> (#[trigger] validations[j]) is Ok
                },
        },
    decreases validations.len(),
{
    if validations.len() > 0 {
        let rest = validations.drop_last();
        lemma_aggregate_all_or_nothing(height, rest);
        match aggregate(height, rest) {
            Err(error) => {
                let first = choose|first: int|
                    {
                        &&& 0 <= first < rest.len()
                        &&& #[trigger] rest[first] == Err::<PacketCompactView, AttestorErrorView>(
                            error,
                        )
                        &&& forall|j: int| 0 <= j < first ==> (#[trigger] rest[j]) is Ok
                    };
                assert forall|j: int| 0 <= j < first implies (#[trigger] validations[j]) is Ok by {
                    assert(validations[j] == rest[j]);
                }
            },
            Ok(attestation) => match validations.last() {
                Err(error) => {
                    let first = validations.len() - 1;
                    assert forall|j: int| 0 <= j < first implies (#[trigger] validations[j])
                        is Ok by {
                        assert(validations[j] == rest[j]);
                    }
                },
                Ok(compact) => {
                    let packets = attestation.packets.push(compact);
                    assert forall|i: int|
                        0 <= i < validations.len() implies #[trigger] validations[i] == Ok::<
                        PacketCompactView,
                        AttestorErrorView,
                    >(packets[i]) by {
                        if i < rest.len() {
                            assert(validations[i] == rest[i]);
                        }
                    }
                },
            },
        }
    }
}

/// Once the validations up to some packet have come to an error, the whole
/// batch comes to that error.
proof fn lemma_aggregate_keeps_error(
    height: u64,
    validations: Seq<Result<PacketCompactView, AttestorErrorView>>,
    upto: int,
)
    requires
        0 <= upto <= validations.len(),
        aggregate(height, validations.subrange(0, upto)) is Err,
    ensures
        aggregate(height, validations) == aggregate(height, validations.subrange(0, upto)),
    decreases validations.len(),
{
    if upto == validations.len() {
        assert(validations.subrange(0, upto) == validations);
    } else {
        let rest = validations.drop_last();
        assert(rest.subrange(0, upto) == validations.subrange(0, upto));
        lemma_aggregate_keeps_error(height, rest, upto);
    }
}

/// Puts the validations of a batch together, all or nothing.
///
/// Returns the attestation exactly when every validation succeeded: one
/// commitment for each packet, in the order given. Otherwise returns the
/// error of the first failed validation in that order, and no commitment.
pub fn aggregate_validations(
    height: u64,
    validations: Vec<Result<PacketCompact, AttestorError>>,
) -> (out: Result<PacketAttestation, AttestorError>)
    ensures
        batch_view(out) == aggregate(height, validation_views(validations@)),
        out is Ok <==> forall|i: int|
            0 <= i < validations@.len() ==> (#[trigger] validations@[i]) is Ok,
        out matches Ok(attestation) ==> attestation.packets@.len() == validations@.len(),
{
    let ghost all = validations@;
    let ghost views = validation_views(all);
    let mut packets: Vec<PacketCompact> = Vec::new();
    assert(crate::msgs::compact_views(packets@) == Seq::<PacketCompactView>::empty());
    for validation in iter: validations
        invariant
            iter.seq() == all,
            views == validation_views(all),
            packets@.len() == iter.index(),
            forall|i: int| 0 <= i < iter.index() ==> (#[trigger] all[i]) is Ok,
            aggregate(height, views.subrange(0, iter.index() as int)) == Ok::<
                PacketAttestationView,
                AttestorErrorView,
            >(
                PacketAttestationView { height, packets: crate::msgs::compact_views(packets@) },
            ),
    {
        let ghost index = iter.index() as int;
        let ghost done = views.subrange(0, index);
        let ghost next = views.subrange(0, index + 1);
        assert(next.drop_last() == done);
        match validation {
            Ok(compact) => {
                let ghost before = crate::msgs::compact_views(packets@);
                packets.push(compact);
                assert(crate::msgs::compact_views(packets@) == before.push(compact@));
            },
            Err(error) => {
                proof {
                    lemma_aggregate_keeps_error(height, views, index + 1);
                }
                return Err(error);
            },
        }
    }
    assert(views.subrange(0, all.len() as int) == views);
    Ok(PacketAttestation { height, packets })
}

/// Whether validating `packets` against `adapter` may come to `out`: each
/// packet was asked about once, by the policy of `commitment_type`, and `out`
/// puts the judgements together, all or nothing, in the order of the request.
pub open spec fn may_attest_packets<A: AttestationAdapter>(
    adapter: &A,
    packets: Seq<PacketView>,
    height: u64,
    commitment_type: CommitmentType,
    out: Result<PacketAttestationView, AttestorErrorView>,
) -> bool {
    exists|validations: Seq<Result<PacketCompactView, AttestorErrorView>>|
        {
            &&& validations.len() == packets.len()
            &&& forall|i: int|
                0 <= i < packets.len() ==> commitment::may_handle(
                    adapter,
                    height,
                    packets[i],
                    commitment_type,
                    commitment_type,
                    #[trigger] validations[i],
                )
            &&& out == #[trigger] aggregate(height, validations)
        }
}

/// Creates the unsigned attestation of a batch of packets.
///
/// Every packet is validated, then the outcomes are put together by
/// [`aggregate_validations`]: one failed packet fails the batch.
pub fn create_packets_attestation<A: AttestationAdapter>(
    adapter: &A,
    packets: &Packets,
    height: u64,
    commitment_type: CommitmentType,
) -> (out: Result<PacketAttestation, AttestorError>)
    ensures
        may_attest_packets(adapter, packets@, height, commitment_type, batch_view(out)),
{
    let mut validations: Vec<Result<PacketCompact, AttestorError>> = Vec::new();
    let mut i: usize = 0;
    while i < packets.len()
        invariant
            i <= packets@.len(),
            validations@.len() == i,
            forall|j: int|
                0 <= j < i ==> commitment::may_handle(
                    adapter,
                    height,
                    packets@[j],
                    commitment_type,
                    commitment_type,
                    commitment::compact_view(#[trigger] validations@[j]),
                ),
        decreases packets@.len() - i,
    {
        let validation = commitment::create_single_packet_attestation(
            adapter,
            height,
            packets.get(i),
            commitment_type,
        );
        validations.push(validation);
        i = i + 1;
    }
    aggregate_validations(height, validations)
}

} // verus!
