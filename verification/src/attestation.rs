//! Signing: from a payload and a signer to a signed attestation.

use crate::attestation_payload::{AttestationPayload, AttestationPayloadView};
use crate::error::{AttestorError, AttestorErrorView};
use crate::signer::{Signature, Signer, SignerError, SignerErrorView};
use vstd::prelude::*;

verus! {

/// Signed attestation containing blockchain state data and cryptographic
/// signature.
#[derive(Debug, Clone, PartialEq, Eq)]
pub struct SignedAttestation {
    /// Block height being attested.
    pub height: u64,
    /// Optional block timestamp (for state attestations).
    pub timestamp: Option<u64>,
    /// Encoded attestation data, without its tag.
    pub attested_data: Vec<u8>,
    /// 65-byte ECDSA signature (r: 32, s: 32, v: 1).
    pub signature: Vec<u8>,
}

/// What a [`SignedAttestation`] holds.
pub struct SignedAttestationView {
    pub height: u64,
    pub timestamp: Option<u64>,
    pub attested_data: Seq<u8>,
    pub signature: Seq<u8>,
}

impl View for SignedAttestation {
    type V = SignedAttestationView;

    open spec fn view(&self) -> SignedAttestationView {
        SignedAttestationView {
            height: self.height,
            timestamp: self.timestamp,
            attested_data: self.attested_data@,
            signature: self.signature@,
        }
    }
}

/// What an attestation request came to.
pub open spec fn result_view(out: Result<SignedAttestation, AttestorError>) -> Result<
    SignedAttestationView,
    AttestorErrorView,
> {
    match out {
        Ok(attestation) => Ok(attestation@),
        Err(error) => Err(error@),
    }
}

/// The attestation that a signer's answer makes: the record with its
/// signature, or a signer error carrying the signer's own message.
pub open spec fn signed(
    height: u64,
    timestamp: Option<u64>,
    data: Seq<u8>,
    outcome: Result<Seq<u8>, SignerErrorView>,
) -> Result<SignedAttestationView, AttestorErrorView> {
    match outcome {
        Ok(signature) => Ok(
            SignedAttestationView { height, timestamp, attested_data: data, signature },
        ),
        Err(error) => Err(AttestorErrorView::SignerError(error.message())),
    }
}

/// Whether signing `payload` with `signer` may come to `out`: the signer was
/// asked for the tagged input of the payload and nothing else, and `out` is
/// what its answer makes.
pub open spec fn may_attest<S: Signer>(
    signer: &S,
    height: u64,
    timestamp: Option<u64>,
    payload: AttestationPayloadView,
    out: Result<SignedAttestationView, AttestorErrorView>,
) -> bool {
    exists|outcome: Result<Seq<u8>, SignerErrorView>|
        {
            &&& #[trigger] signer.may_sign(
                crate::attestation_payload::tagged_input(payload.attestation_type, payload.data),
                outcome,
            )
            &&& out == signed(height, timestamp, payload.data, outcome)
        }
}

impl SignedAttestation {
    /// Packages what a signer answered for `payload`.
    ///
    /// A signature gives the signed record, which carries the payload's data
    /// without its tag. A failure gives `SignerError` with the signer's
    /// message.
    pub fn from_signing(
        height: u64,
        timestamp: Option<u64>,
        payload: AttestationPayload,
        outcome: Result<Signature, SignerError>,
    ) -> (out: Result<Self, AttestorError>)
        ensures
            result_view(out) == signed(
                height,
                timestamp,
                payload@.data,
                crate::signer::outcome_view(outcome),
            ),
            out is Ok <==> outcome is Ok,
            out matches Ok(attestation) ==> attestation.signature@.len() == 65,
    {
        match outcome {
            Ok(signature) => {
                proof {
                    signature.lemma_len();
                }
                Ok(
                    SignedAttestation {
                        height,
                        timestamp,
                        attested_data: payload.into_data(),
                        signature: signature.to_vec(),
                    },
                )
            },
            Err(error) => Err(AttestorError::SignerError(error.message())),
        }
    }
}

/// Signs attestation data with the provided signer.
///
/// The signer is asked once, for the tagged signing input of `payload`. What
/// it answers is packaged by [`SignedAttestation::from_signing`].
pub fn sign_attestation<S: Signer>(
    height: u64,
    timestamp: Option<u64>,
    payload: AttestationPayload,
    signer: &S,
) -> (out: Result<SignedAttestation, AttestorError>)
    ensures
        may_attest(signer, height, timestamp, payload@, result_view(out)),
        out matches Ok(attestation) ==> attestation.signature@.len() == 65,
{
    let tagged = payload.tagged_signing_input();
    let outcome = signer.sign(tagged.as_slice());
    SignedAttestation::from_signing(height, timestamp, payload, outcome)
}

/// With a signer that answers one message in one way only, signing the same
/// height, timestamp and payload twice gives the same result.
pub proof fn lemma_deterministic_signing<S: Signer>(
    signer: &S,
    height: u64,
    timestamp: Option<u64>,
    payload: AttestationPayloadView,
    first: Result<SignedAttestationView, AttestorErrorView>,
    second: Result<SignedAttestationView, AttestorErrorView>,
)
    requires
        crate::signer::is_deterministic(signer),
        may_attest(signer, height, timestamp, payload, first),
        may_attest(signer, height, timestamp, payload, second),
    ensures
        first == second,
{
}

/// A signed attestation carries the data it was made for and the signature
/// the signer gave for the tagged input of that data: the tag is part of what
/// was signed, and is not part of what is carried.
pub proof fn lemma_signature_covers_the_tagged_input<S: Signer>(
    signer: &S,
    height: u64,
    timestamp: Option<u64>,
    payload: AttestationPayloadView,
    out: Result<SignedAttestationView, AttestorErrorView>,
)
    requires
        may_attest(signer, height, timestamp, payload, out),
        out is Ok,
    ensures
        out->Ok_0.height == height,
        out->Ok_0.timestamp == timestamp,
        out->Ok_0.attested_data == payload.data,
        signer.may_sign(
            crate::attestation_payload::tagged_input(payload.attestation_type, payload.data),
            Ok::<Seq<u8>, SignerErrorView>(out->Ok_0.signature),
        ),
{
}

} // verus!
