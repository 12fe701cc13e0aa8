use alloy_primitives::B256;
use alloy_sol_types::SolValue;
use ibc_attestor::msgs::{PacketAttestation, PacketCompact, StateAttestation};

fn word(value: u64) -> Vec<u8> {
    let mut word = vec![0u8; 24];
    word.extend_from_slice(&value.to_be_bytes());
    word
}

#[test]
fn state_attestation_is_two_words() {
    let encoded = StateAttestation { height: 100, timestamp: 1234567890 }.abi_encode();
    let mut expected = word(100);
    expected.extend_from_slice(&word(1234567890));
    assert_eq!(encoded.len(), 64);
    assert_eq!(encoded, expected);
    assert_eq!(
        alloy_primitives::hex::encode(&encoded),
        "0000000000000000000000000000000000000000000000000000000000000064\
         00000000000000000000000000000000000000000000000000000000499602d2"
    );
}

#[test]
fn state_attestation_agrees_with_the_abi_encoding_of_the_pair() {
    for (height, timestamp) in
        [(0u64, 0u64), (1, 2), (100, 1234567890), (u64::MAX, u64::MAX), (0x0102030405060708, 255)]
    {
        let encoded = StateAttestation { height, timestamp }.abi_encode();
        assert_eq!(encoded, (height, timestamp).abi_encode());
    }
}

#[test]
fn every_byte_of_a_height_lands_in_its_place() {
    let encoded = StateAttestation { height: 0x0102030405060708, timestamp: 0 }.abi_encode();
    assert_eq!(&encoded[..24], &[0u8; 24][..]);
    assert_eq!(&encoded[24..32], &[1, 2, 3, 4, 5, 6, 7, 8][..]);
    assert_eq!(&encoded[32..], &[0u8; 32][..]);
}

#[test]
fn empty_packet_attestation_is_its_header() {
    let encoded = PacketAttestation { height: 7, packets: vec![] }.abi_encode();
    let mut expected = word(32);
    expected.extend_from_slice(&word(7));
    expected.extend_from_slice(&word(64));
    expected.extend_from_slice(&word(0));
    assert_eq!(encoded, expected);
}

#[test]
fn packet_attestation_lists_its_commitments_in_order() {
    let first = PacketCompact { path: [0x11; 32], commitment: [0x22; 32] };
    let second = PacketCompact { path: [0x33; 32], commitment: [0x44; 32] };
    let encoded = PacketAttestation { height: 100, packets: vec![first, second] }.abi_encode();
    let mut expected = word(32);
    expected.extend_from_slice(&word(100));
    expected.extend_from_slice(&word(64));
    expected.extend_from_slice(&word(2));
    expected.extend_from_slice(&[0x11; 32]);
    expected.extend_from_slice(&[0x22; 32]);
    expected.extend_from_slice(&[0x33; 32]);
    expected.extend_from_slice(&[0x44; 32]);
    assert_eq!(encoded.len(), 128 + 2 * 64);
    assert_eq!(encoded, expected);
}

#[test]
fn packet_attestation_agrees_with_the_abi_encoding_of_the_struct() {
    for count in [0usize, 1, 2, 5] {
        let packets: Vec<PacketCompact> = (0..count)
            .map(|i| PacketCompact { path: [i as u8; 32], commitment: [0xf0 + i as u8; 32] })
            .collect();
        let as_tuples: Vec<(B256, B256)> =
            packets.iter().map(|p| (B256::from(p.path), B256::from(p.commitment))).collect();
        let height = 1000 + count as u64;
        let encoded = PacketAttestation { height, packets }.abi_encode();
        assert_eq!(encoded, (height, as_tuples).abi_encode());
    }
}
