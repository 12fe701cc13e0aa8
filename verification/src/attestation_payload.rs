//! Attested bytes bound to the kind of attestation they belong to.
//!
//! What is signed is never the raw data but `tag || sha256(data)`, so that a
//! signature over a state attestation cannot pass for one over a packet
//! attestation of the same bytes.

use crate::digest;
use vstd::prelude::*;

verus! {

/// The kind of an attestation. Each kind has its own tag byte in the signing
/// scheme.
#[derive(Debug, Clone, Copy, PartialEq, Eq, Structural)]
pub enum AttestationType {
    /// State attestations (height and timestamp).
    State,
    /// Packet attestations (height and packet commitments).
    Packet,
}

impl AttestationType {
    /// The tag byte of this kind on the wire.
    pub open spec fn tag(self) -> u8 {
        match self {
            AttestationType::State => 0x01,
            AttestationType::Packet => 0x02,
        }
    }

    /// Returns the single-byte wire representation.
    #[must_use]
    pub fn as_byte(self) -> (byte: u8)
        ensures
            byte == self.tag(),
    {
        match self {
            AttestationType::State => 0x01,
            AttestationType::Packet => 0x02,
        }
    }
}

/// The message handed to a signer for `data` attested as `attestation_type`:
/// the tag byte followed by the SHA-256 digest of the data.
pub open spec fn tagged_input(attestation_type: AttestationType, data: Seq<u8>) -> Seq<u8> {
    seq![attestation_type.tag()] + digest::sha256(data)
}

/// What an [`AttestationPayload`] holds.
pub struct AttestationPayloadView {
    pub attestation_type: AttestationType,
    pub data: Seq<u8>,
}

/// Encoded attestation data bound to a specific [`AttestationType`].
///
/// The two travel together from construction to signing, so the tag can be
/// neither forgotten nor swapped.
pub struct AttestationPayload {
    attestation_type: AttestationType,
    data: Vec<u8>,
}

impl View for AttestationPayload {
    type V = AttestationPayloadView;

    closed spec fn view(&self) -> AttestationPayloadView {
        AttestationPayloadView { attestation_type: self.attestation_type, data: self.data@ }
    }
}

impl AttestationPayload {
    /// Binds encoded `data` to the given [`AttestationType`].
    #[must_use]
    pub fn new(data: Vec<u8>, attestation_type: AttestationType) -> (payload: Self)
        ensures
            payload@.data == data@,
            payload@.attestation_type == attestation_type,
    {
        Self { attestation_type, data }
    }

    /// Builds the 33-byte tagged message: `type_tag || sha256(data)`.
    #[must_use]
    pub fn tagged_signing_input(&self) -> (tagged: Vec<u8>)
        ensures
            tagged@ == tagged_input(self@.attestation_type, self@.data),
            tagged@.len() == 33,
            tagged@[0] == self@.attestation_type.tag(),
            tagged@.subrange(1, 33) == digest::sha256(self@.data),
    {
        let inner_hash = digest::sha256_digest(self.data.as_slice());
        let mut tagged: Vec<u8> = Vec::with_capacity(33);
        tagged.push(self.attestation_type.as_byte());
        let mut i: usize = 0;
        while i < 32
            invariant
                i <= 32,
                inner_hash@.len() == 32,
                tagged@ == seq![self@.attestation_type.tag()] + inner_hash@.subrange(0, i as int),
            decreases 32 - i,
        {
            tagged.push(inner_hash[i]);
            i = i + 1;
        }
        tagged
    }

    /// Returns a reference to the raw encoded data.
    #[must_use]
    pub fn data(&self) -> (data: &[u8])
        ensures
            data@ == self@.data,
    {
        self.data.as_slice()
    }

    /// Consumes `self` and returns the raw encoded data.
    #[must_use]
    pub fn into_data(self) -> (data: Vec<u8>)
        ensures
            data@ == self@.data,
    {
        self.data
    }

    /// Returns the [`AttestationType`] this payload is bound to.
    #[must_use]
    pub fn attestation_type(&self) -> (attestation_type: AttestationType)
        ensures
            attestation_type == self@.attestation_type,
    {
        self.attestation_type
    }
}

/// Inputs tagged for different attestation types never coincide, whatever the
/// data on either side: the first byte already tells them apart.
pub proof fn lemma_types_are_separated(
    type1: AttestationType,
    type2: AttestationType,
    data1: Seq<u8>,
    data2: Seq<u8>,
)
    requires
        type1 != type2,
    ensures
        tagged_input(type1, data1) != tagged_input(type2, data2),
{
    assert(tagged_input(type2, data2)[0] == type2.tag());
}

/// For one attestation type, two tagged inputs are equal exactly when the
/// digests of their data are.
pub proof fn lemma_tagged_inputs_follow_digests(
    attestation_type: AttestationType,
    data1: Seq<u8>,
    data2: Seq<u8>,
)
    ensures
        tagged_input(attestation_type, data1) == tagged_input(attestation_type, data2)
            <==> digest::sha256(data1) == digest::sha256(data2),
{
    let t1 = tagged_input(attestation_type, data1);
    let t2 = tagged_input(attestation_type, data2);
    if t1 == t2 {
        assert(t1.subrange(1, t1.len() as int) == digest::sha256(data1));
        assert(t2.subrange(1, t2.len() as int) == digest::sha256(data2));
    }
}

/// Different data gives different tagged inputs under one attestation type,
/// for every pair of inputs whose SHA-256 digests differ.
pub proof fn lemma_data_is_separated(
    attestation_type: AttestationType,
    data1: Seq<u8>,
    data2: Seq<u8>,
)
    requires
        data1 != data2,
        digest::sha256(data1) != digest::sha256(data2),
    ensures
        tagged_input(attestation_type, data1) != tagged_input(attestation_type, data2),
{
    lemma_tagged_inputs_follow_digests(attestation_type, data1, data2);
}

} // verus!
