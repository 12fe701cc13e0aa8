use alloy_primitives::B256;
use ibc_attestor::attestation_payload::{AttestationPayload, AttestationType};
use sha2::{Digest, Sha256};

#[test]
fn as_byte_returns_expected_values() {
    assert_eq!(AttestationType::State.as_byte(), 0x01);
    assert_eq!(AttestationType::Packet.as_byte(), 0x02);
}

#[test]
fn tagged_signing_input_is_33_bytes() {
    let tagged =
        AttestationPayload::new(b"some attestation data".to_vec(), AttestationType::State);
    let msg = tagged.tagged_signing_input();
    assert_eq!(msg.len(), 33);
    assert_eq!(msg[0], AttestationType::State.as_byte());
}

#[test]
fn tagged_signing_input_starts_with_domain_byte() {
    assert_eq!(
        AttestationPayload::new(b"data".to_vec(), AttestationType::State).tagged_signing_input()[0],
        0x01
    );
    assert_eq!(
        AttestationPayload::new(b"data".to_vec(), AttestationType::Packet)
            .tagged_signing_input()[0],
        0x02
    );
}

#[test]
fn tagged_signing_input_suffix_is_sha256_of_data() {
    let data = b"test data";
    let expected_hash = Sha256::digest(data);
    let msg =
        AttestationPayload::new(data.to_vec(), AttestationType::State).tagged_signing_input();
    assert_eq!(&msg[1..], expected_hash.as_slice());
}

#[test]
fn different_domains_produce_different_tagged_signing_inputs() {
    let data = b"identical data".to_vec();
    let state_msg =
        AttestationPayload::new(data.clone(), AttestationType::State).tagged_signing_input();
    let packet_msg = AttestationPayload::new(data, AttestationType::Packet).tagged_signing_input();
    assert_ne!(state_msg, packet_msg);
}

#[test]
fn same_domain_same_data_is_deterministic() {
    let a = AttestationPayload::new(b"deterministic check".to_vec(), AttestationType::State)
        .tagged_signing_input();
    let b = AttestationPayload::new(b"deterministic check".to_vec(), AttestationType::State)
        .tagged_signing_input();
    assert_eq!(a, b);
}

#[test]
fn different_data_produces_different_tagged_signing_inputs() {
    let a =
        AttestationPayload::new(b"data-a".to_vec(), AttestationType::State).tagged_signing_input();
    let b =
        AttestationPayload::new(b"data-b".to_vec(), AttestationType::State).tagged_signing_input();
    assert_ne!(a, b);
}

#[test]
fn domain_accessor_returns_correct_variant() {
    assert_eq!(
        AttestationPayload::new(vec![], AttestationType::State).attestation_type(),
        AttestationType::State
    );
    assert_eq!(
        AttestationPayload::new(vec![], AttestationType::Packet).attestation_type(),
        AttestationType::Packet
    );
}

#[test]
fn data_accessor_returns_original_bytes() {
    let raw = b"original bytes".to_vec();
    let tagged = AttestationPayload::new(raw.clone(), AttestationType::State);
    assert_eq!(tagged.data(), raw.as_slice());
    assert_eq!(tagged.into_data(), raw);
}

#[test]
fn domain_tagged_digest_matches_manual_computation() {
    let data = b"verify digest";
    let tagged = AttestationPayload::new(data.to_vec(), AttestationType::State);
    let msg = tagged.tagged_signing_input();

    // The signer computes sha256(msg), which is sha256(0x01 || sha256(data)).
    let inner = Sha256::digest(data);
    let mut expected_input = vec![AttestationType::State.as_byte()];
    expected_input.extend_from_slice(&inner);
    let expected_digest = B256::from_slice(&Sha256::digest(&expected_input));

    let actual_digest = B256::from_slice(&Sha256::digest(&msg));
    assert_eq!(actual_digest, expected_digest);
}

#[test]
fn tagged_signing_input_of_empty_data_is_the_known_digest() {
    // SHA-256 of the empty string.
    let digest: [u8; 32] = [
        0xe3, 0xb0, 0xc4, 0x42, 0x98, 0xfc, 0x1c, 0x14, 0x9a, 0xfb, 0xf4, 0xc8, 0x99, 0x6f, 0xb9,
        0x24, 0x27, 0xae, 0x41, 0xe4, 0x64, 0x9b, 0x93, 0x4c, 0xa4, 0x95, 0x99, 0x1b, 0x78, 0x52,
        0xb8, 0x55,
    ];
    let msg = AttestationPayload::new(vec![], AttestationType::Packet).tagged_signing_input();
    assert_eq!(msg.len(), 33);
    assert_eq!(msg[0], 0x02);
    assert_eq!(&msg[1..], &digest[..]);
}

#[test]
fn tagged_signing_input_of_long_data_is_33_bytes() {
    let data = vec![0xabu8; 4096];
    let msg = AttestationPayload::new(data.clone(), AttestationType::State).tagged_signing_input();
    assert_eq!(msg.len(), 33);
    assert_eq!(msg[0], 0x01);
    assert_eq!(&msg[1..], Sha256::digest(&data).as_slice());
}
