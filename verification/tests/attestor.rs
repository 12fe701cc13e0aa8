use std::collections::HashMap;
use std::sync::{Arc, Mutex};

use alloy_primitives::keccak256;
use ibc_attestor::adapter::{AttestationAdapter, AttestationAdapterError, CommitmentType};
use ibc_attestor::attestation::SignedAttestation;
use ibc_attestor::error::{AttestorError, StatusCode};
use ibc_attestor::packet::{Packet, Packets};
use ibc_attestor::rpc::attestor::AttestorService;
use ibc_attestor::rpc::batch::create_packets_attestation;
use ibc_attestor::rpc::commitment::{
    create_single_packet_attestation, handle_ack_commitment, handle_packet_commitment,
    handle_receipt_commitment,
};
use ibc_attestor::rpc::finality::validate_height;
use ibc_attestor::signer::{Signature, Signer, SignerError};
use sha2::{Digest, Sha256};

/// Mock adapter for testing with configurable commitment responses.
struct MockAdapter {
    finalized_height: u64,
    block_timestamps: Mutex<HashMap<u64, u64>>,
    commitments: Mutex<HashMap<CommitmentKey, Option<[u8; 32]>>>,
    queries: Mutex<Vec<(String, u64, u64, Vec<u8>, CommitmentType)>>,
}

#[derive(Debug, Clone, Hash, Eq, PartialEq)]
struct CommitmentKey {
    client_id: String,
    height: u64,
    sequence: u64,
    commitment_type: i32,
}

fn type_number(commitment_type: CommitmentType) -> i32 {
    match commitment_type {
        CommitmentType::Packet => 0,
        CommitmentType::Ack => 1,
        CommitmentType::Receipt => 2,
    }
}

impl MockAdapter {
    fn new(finalized_height: u64) -> Self {
        Self {
            finalized_height,
            block_timestamps: Mutex::new(HashMap::new()),
            commitments: Mutex::new(HashMap::new()),
            queries: Mutex::new(Vec::new()),
        }
    }

    fn set_block_timestamp(&self, height: u64, timestamp: u64) {
        self.block_timestamps.lock().unwrap().insert(height, timestamp);
    }

    fn set_commitment(
        &self,
        client_id: String,
        height: u64,
        sequence: u64,
        commitment_type: CommitmentType,
        commitment: Option<[u8; 32]>,
    ) {
        let key = CommitmentKey {
            client_id,
            height,
            sequence,
            commitment_type: type_number(commitment_type),
        };
        self.commitments.lock().unwrap().insert(key, commitment);
    }
}

impl AttestationAdapter for MockAdapter {
    fn get_last_finalized_height(&self) -> Result<u64, AttestationAdapterError> {
        Ok(self.finalized_height)
    }

    fn get_block_timestamp(&self, height: u64) -> Result<u64, AttestationAdapterError> {
        self.block_timestamps.lock().unwrap().get(&height).copied().ok_or_else(|| {
            AttestationAdapterError::RetrievalError(format!(
                "Timestamp not found for height {}",
                height
            ))
        })
    }

    fn get_commitment(
        &self,
        client_id: String,
        height: u64,
        sequence: u64,
        commitment_path: &[u8],
        commitment_type: CommitmentType,
    ) -> Result<Option<[u8; 32]>, AttestationAdapterError> {
        self.queries.lock().unwrap().push((
            client_id.clone(),
            height,
            sequence,
            commitment_path.to_vec(),
            commitment_type,
        ));
        let key = CommitmentKey {
            client_id,
            height,
            sequence,
            commitment_type: type_number(commitment_type),
        };
        Ok(self.commitments.lock().unwrap().get(&key).copied().flatten())
    }
}

/// Mock signer that returns a dummy signature.
struct MockSigner;

fn dummy_signature() -> [u8; 65] {
    // 65 bytes: r = 32, s = 32, v = 1
    let mut bytes = [0u8; 65];
    bytes[..32].copy_from_slice(&[0x11u8; 32]);
    bytes[32..64].copy_from_slice(&[0x22u8; 32]);
    bytes[64] = 27;
    bytes
}

impl Signer for MockSigner {
    fn sign(&self, _message: &[u8]) -> Result<Signature, SignerError> {
        Ok(Signature::from_bytes(dummy_signature()))
    }
}

fn path_of(client: &str, kind: u8, sequence: u64) -> Vec<u8> {
    let mut path = client.as_bytes().to_vec();
    path.push(kind);
    path.extend_from_slice(&sequence.to_be_bytes());
    path
}

/// Helper to create a test packet: no payloads, timeout 1_000_000.
fn create_test_packet(source_client: &str, dest_client: &str, sequence: u64) -> Packet {
    let mut preimage = vec![2u8];
    preimage.extend_from_slice(&Sha256::digest(dest_client.as_bytes()));
    preimage.extend_from_slice(&Sha256::digest(1_000_000_u64.to_be_bytes()));
    preimage.extend_from_slice(&Sha256::digest(b""));
    Packet::new(
        source_client.to_string(),
        dest_client.to_string(),
        sequence,
        path_of(source_client, 1, sequence),
        path_of(dest_client, 3, sequence),
        path_of(dest_client, 2, sequence),
        Sha256::digest(&preimage).to_vec(),
    )
}

fn expected_commitment(packet: &Packet) -> [u8; 32] {
    packet.commitment().try_into().unwrap()
}

fn attestation_of(result: Result<SignedAttestation, AttestorError>) -> SignedAttestation {
    result.unwrap()
}

#[test]
fn test_latest_height() {
    let adapter = MockAdapter::new(100);
    let signer = MockSigner;
    let service = AttestorService::new(adapter, "mock", signer, "mock");

    let height = service.latest_height().unwrap();

    assert_eq!(height, 100);
}

#[test]
fn test_state_attestation_success() {
    let adapter = MockAdapter::new(100);
    adapter.set_block_timestamp(100, 1234567890);
    let signer = MockSigner;
    let service = AttestorService::new(adapter, "mock", signer, "mock");

    let attestation = attestation_of(service.state_attestation(100));

    assert_eq!(attestation.height, 100);
    assert_eq!(attestation.timestamp, Some(1234567890));
    assert!(!attestation.signature.is_empty());
    assert_eq!(attestation.signature.len(), 65);
    assert_eq!(attestation.signature, dummy_signature().to_vec());
    let mut expected_data = vec![0u8; 64];
    expected_data[24..32].copy_from_slice(&100u64.to_be_bytes());
    expected_data[56..64].copy_from_slice(&1234567890u64.to_be_bytes());
    assert_eq!(attestation.attested_data, expected_data);
}

#[test]
fn test_state_attestation_block_not_finalized() {
    let adapter = MockAdapter::new(100);
    let signer = MockSigner;
    let service = AttestorService::new(adapter, "mock", signer, "mock");

    let result = service.state_attestation(101);

    assert!(result.is_err());
    let status = result.unwrap_err();
    assert_eq!(status.status_code(), StatusCode::FailedPrecondition);
    assert!(status.message().contains("not finalized"));
    assert_eq!(status, AttestorError::BlockNotFinalized);
}

#[test]
fn test_packet_commitment_valid() {
    let adapter = MockAdapter::new(100);
    let signer = MockSigner;

    let packet = create_test_packet("client-1", "client-2", 1);
    let expected_commitment = expected_commitment(&packet);

    // Set up the mock to return the expected commitment
    adapter.set_commitment(
        "client-1".to_string(),
        100,
        1,
        CommitmentType::Packet,
        Some(expected_commitment),
    );

    let service = AttestorService::new(adapter, "mock", signer, "mock");

    let packets = Packets::new(vec![packet.clone()]);
    let attestation =
        attestation_of(service.packet_attestation(packets, 100, Some(CommitmentType::Packet)));

    assert_eq!(attestation.height, 100);
    assert_eq!(attestation.timestamp, None);
    assert!(!attestation.signature.is_empty());
    // offset, height, offset of the list, length of the list, one commitment
    assert_eq!(attestation.attested_data.len(), 128 + 64);
    assert_eq!(&attestation.attested_data[128..160], keccak256(packet.commitment_path()).as_slice());
    assert_eq!(&attestation.attested_data[160..192], &expected_commitment[..]);
}

#[test]
fn test_packet_commitment_mismatch() {
    let adapter = MockAdapter::new(100);
    let signer = MockSigner;

    let packet = create_test_packet("client-1", "client-2", 1);
    let wrong_commitment = [0xffu8; 32];

    // Set up the mock to return a wrong commitment
    adapter.set_commitment(
        "client-1".to_string(),
        100,
        1,
        CommitmentType::Packet,
        Some(wrong_commitment),
    );

    let service = AttestorService::new(adapter, "mock", signer, "mock");

    let packets = Packets::new(vec![packet]);
    let result = service.packet_attestation(packets, 100, Some(CommitmentType::Packet));

    assert!(result.is_err());
    let status = result.unwrap_err();
    assert_eq!(status.status_code(), StatusCode::InvalidArgument);
    assert!(status.message().contains("mismatch"));
}

#[test]
fn test_packet_commitment_not_found() {
    let adapter = MockAdapter::new(100);
    let signer = MockSigner;

    let packet = create_test_packet("client-1", "client-2", 1);

    // Don't set any commitment - it will be None
    let service = AttestorService::new(adapter, "mock", signer, "mock");

    let packets = Packets::new(vec![packet]);
    let result = service.packet_attestation(packets, 100, Some(CommitmentType::Packet));

    assert!(result.is_err());
    let status = result.unwrap_err();
    assert_eq!(status.status_code(), StatusCode::NotFound);
    assert!(status.message().contains("not found"));
    assert_eq!(
        status,
        AttestorError::CommitmentNotFound {
            client_id: "client-1".to_string(),
            sequence: 1,
            height: 100
        }
    );
}

#[test]
fn test_ack_commitment_valid() {
    let adapter = MockAdapter::new(100);
    let signer = MockSigner;

    let packet = create_test_packet("client-1", "client-2", 1);
    let ack_commitment = keccak256(b"test-ack").0;

    // Set up the mock to return an ack commitment
    adapter.set_commitment(
        "client-2".to_string(), // Note: destClient for ack
        100,
        1,
        CommitmentType::Ack,
        Some(ack_commitment),
    );

    let service = AttestorService::new(adapter, "mock", signer, "mock");

    let packets = Packets::new(vec![packet.clone()]);
    let attestation =
        attestation_of(service.packet_attestation(packets, 100, Some(CommitmentType::Ack)));

    assert_eq!(attestation.height, 100);
    assert!(!attestation.signature.is_empty());
    assert_eq!(
        &attestation.attested_data[128..160],
        keccak256(packet.ack_commitment_path()).as_slice()
    );
    assert_eq!(&attestation.attested_data[160..192], &ack_commitment[..]);
}

#[test]
fn test_ack_commitment_not_found() {
    let adapter = MockAdapter::new(100);
    let signer = MockSigner;

    let packet = create_test_packet("client-1", "client-2", 1);

    // Don't set any ack commitment
    let service = AttestorService::new(adapter, "mock", signer, "mock");

    let packets = Packets::new(vec![packet]);
    let result = service.packet_attestation(packets, 100, Some(CommitmentType::Ack));

    assert!(result.is_err());
    let status = result.unwrap_err();
    assert_eq!(status.status_code(), StatusCode::NotFound);
    assert_eq!(
        status,
        AttestorError::CommitmentNotFound {
            client_id: "client-2".to_string(),
            sequence: 1,
            height: 100
        }
    );
}

#[test]
fn test_receipt_commitment_zero_valid() {
    let adapter = MockAdapter::new(100);
    let signer = MockSigner;

    let packet = create_test_packet("client-1", "client-2", 1);

    // Set up the mock to return None (which becomes zero commitment)
    adapter.set_commitment(
        "client-2".to_string(), // Note: destClient for receipt
        100,
        1,
        CommitmentType::Receipt,
        None,
    );

    let service = AttestorService::new(adapter, "mock", signer, "mock");

    let packets = Packets::new(vec![packet.clone()]);
    let attestation =
        attestation_of(service.packet_attestation(packets, 100, Some(CommitmentType::Receipt)));

    assert_eq!(attestation.height, 100);
    assert!(!attestation.signature.is_empty());
    assert_eq!(
        &attestation.attested_data[128..160],
        keccak256(packet.receipt_commitment_path()).as_slice()
    );
    assert_eq!(&attestation.attested_data[160..192], &[0u8; 32][..]);
}

#[test]
fn test_receipt_commitment_non_zero_invalid() {
    let adapter = MockAdapter::new(100);
    let signer = MockSigner;

    let packet = create_test_packet("client-1", "client-2", 1);
    let non_zero_commitment = [0x01u8; 32];

    // Set up the mock to return a non-zero commitment (should fail)
    adapter.set_commitment(
        "client-2".to_string(),
        100,
        1,
        CommitmentType::Receipt,
        Some(non_zero_commitment),
    );

    let service = AttestorService::new(adapter, "mock", signer, "mock");

    let packets = Packets::new(vec![packet]);
    let result = service.packet_attestation(packets, 100, Some(CommitmentType::Receipt));

    assert!(result.is_err());
    let status = result.unwrap_err();
    assert_eq!(status.status_code(), StatusCode::InvalidArgument);
    assert!(status.message().contains("should be zero"));
}

#[test]
fn test_multiple_packets_all_valid() {
    let adapter = MockAdapter::new(100);
    let signer = MockSigner;

    let packet1 = create_test_packet("client-1", "client-2", 1);
    let packet2 = create_test_packet("client-1", "client-2", 2);
    let packet3 = create_test_packet("client-3", "client-4", 1);

    let commitment1 = expected_commitment(&packet1);
    let commitment2 = expected_commitment(&packet2);
    let commitment3 = expected_commitment(&packet3);

    adapter.set_commitment(
        "client-1".to_string(),
        100,
        1,
        CommitmentType::Packet,
        Some(commitment1),
    );
    adapter.set_commitment(
        "client-1".to_string(),
        100,
        2,
        CommitmentType::Packet,
        Some(commitment2),
    );
    adapter.set_commitment(
        "client-3".to_string(),
        100,
        1,
        CommitmentType::Packet,
        Some(commitment3),
    );

    let service = AttestorService::new(adapter, "mock", signer, "mock");

    let packets = Packets::new(vec![packet1.clone(), packet2.clone(), packet3.clone()]);
    let attestation =
        attestation_of(service.packet_attestation(packets, 100, Some(CommitmentType::Packet)));

    assert_eq!(attestation.height, 100);
    assert!(!attestation.signature.is_empty());
    // The commitments come in the order of the request.
    assert_eq!(attestation.attested_data.len(), 128 + 3 * 64);
    assert_eq!(
        &attestation.attested_data[128..160],
        keccak256(packet1.commitment_path()).as_slice()
    );
    assert_eq!(
        &attestation.attested_data[192..224],
        keccak256(packet2.commitment_path()).as_slice()
    );
    assert_eq!(
        &attestation.attested_data[256..288],
        keccak256(packet3.commitment_path()).as_slice()
    );
}

#[test]
fn test_multiple_packets_one_invalid() {
    let adapter = MockAdapter::new(100);
    let signer = MockSigner;

    let packet1 = create_test_packet("client-1", "client-2", 1);
    let packet2 = create_test_packet("client-1", "client-2", 2);

    let commitment1 = expected_commitment(&packet1);
    let wrong_commitment = [0xffu8; 32];

    adapter.set_commitment(
        "client-1".to_string(),
        100,
        1,
        CommitmentType::Packet,
        Some(commitment1),
    );
    adapter.set_commitment(
        "client-1".to_string(),
        100,
        2,
        CommitmentType::Packet,
        Some(wrong_commitment), // Wrong commitment for packet2
    );

    let service = AttestorService::new(adapter, "mock", signer, "mock");

    let packets = Packets::new(vec![packet1, packet2]);
    let result = service.packet_attestation(packets, 100, Some(CommitmentType::Packet));

    assert!(result.is_err());
    let status = result.unwrap_err();
    assert_eq!(status.status_code(), StatusCode::InvalidArgument);
}

#[test]
fn test_packet_attestation_height_not_finalized() {
    let adapter = MockAdapter::new(100);
    let signer = MockSigner;

    let packet = create_test_packet("client-1", "client-2", 1);

    let service = AttestorService::new(adapter, "mock", signer, "mock");

    let packets = Packets::new(vec![packet]);
    // Beyond finalized height
    let result = service.packet_attestation(packets, 101, Some(CommitmentType::Packet));

    assert!(result.is_err());
    let status = result.unwrap_err();
    assert_eq!(status.status_code(), StatusCode::FailedPrecondition);
    assert!(status.message().contains("not finalized"));
}

#[test]
fn test_mixed_commitment_types_across_packets() {
    // The commitment type of the request applies to every packet.
    let adapter = MockAdapter::new(100);
    let signer = MockSigner;

    let packet1 = create_test_packet("client-1", "client-2", 1);
    let packet2 = create_test_packet("client-1", "client-2", 2);

    // Set packet commitments for both
    let commitment1 = expected_commitment(&packet1);
    let commitment2 = expected_commitment(&packet2);

    adapter.set_commitment(
        "client-1".to_string(),
        100,
        1,
        CommitmentType::Packet,
        Some(commitment1),
    );
    adapter.set_commitment(
        "client-1".to_string(),
        100,
        2,
        CommitmentType::Packet,
        Some(commitment2),
    );

    let service = AttestorService::new(adapter, "mock", signer, "mock");

    let packets = Packets::new(vec![packet1, packet2]);
    // Should succeed as all packets use the same commitment type
    let result = service.packet_attestation(packets, 100, Some(CommitmentType::Packet));
    assert!(result.is_ok());
}

#[test]
fn service_keeps_the_names_it_was_given() {
    let service = AttestorService::new(MockAdapter::new(1), "evm", MockSigner, "local");
    assert_eq!(service.adapter_name(), "evm");
    assert_eq!(service.signer_name(), "local");
}

#[test]
fn unnamed_commitment_type_is_packet() {
    let adapter = MockAdapter::new(100);
    let packet = create_test_packet("client-1", "client-2", 7);
    adapter.set_commitment(
        "client-1".to_string(),
        100,
        7,
        CommitmentType::Packet,
        Some(expected_commitment(&packet)),
    );
    let service = AttestorService::new(adapter, "mock", MockSigner, "mock");
    let result = service.packet_attestation(Packets::new(vec![packet]), 100, None);
    assert!(result.is_ok());
}

#[test]
fn state_attestation_hands_on_the_adapter_error_for_a_missing_timestamp() {
    let adapter = MockAdapter::new(100);
    let service = AttestorService::new(adapter, "mock", MockSigner, "mock");
    let error = service.state_attestation(100).unwrap_err();
    assert_eq!(
        error,
        AttestorError::AdapterError(AttestationAdapterError::RetrievalError(
            "Timestamp not found for height 100".to_string()
        ))
    );
    assert_eq!(error.status_code(), StatusCode::Internal);
    assert_eq!(
        error.message(),
        "AdapterError: Error while retrieving data: Timestamp not found for height 100"
    );
}

#[test]
fn empty_batch_is_attested_with_no_commitment() {
    let service = AttestorService::new(MockAdapter::new(100), "mock", MockSigner, "mock");
    let attestation =
        attestation_of(service.packet_attestation(Packets::new(vec![]), 5, None));
    assert_eq!(attestation.height, 5);
    assert_eq!(attestation.timestamp, None);
    let mut expected = vec![0u8; 128];
    expected[31] = 32;
    expected[63] = 5;
    expected[95] = 64;
    assert_eq!(attestation.attested_data, expected);
}

#[test]
fn three_packet_batch_with_a_bad_second_packet_gives_one_error_and_nothing_else() {
    let adapter = MockAdapter::new(100);
    let packet1 = create_test_packet("client-1", "client-2", 1);
    let packet2 = create_test_packet("client-1", "client-2", 2);
    let packet3 = create_test_packet("client-1", "client-2", 3);
    adapter.set_commitment(
        "client-1".to_string(),
        100,
        1,
        CommitmentType::Packet,
        Some(expected_commitment(&packet1)),
    );
    // Nothing is on chain for the second packet.
    adapter.set_commitment(
        "client-1".to_string(),
        100,
        3,
        CommitmentType::Packet,
        Some(expected_commitment(&packet3)),
    );
    let service = AttestorService::new(adapter, "mock", MockSigner, "mock");
    let result = service.packet_attestation(
        Packets::new(vec![packet1, packet2, packet3]),
        100,
        Some(CommitmentType::Packet),
    );
    assert_eq!(
        result,
        Err(AttestorError::CommitmentNotFound {
            client_id: "client-1".to_string(),
            sequence: 2,
            height: 100
        })
    );
}

#[test]
fn validate_height_asks_the_adapter_for_the_finalized_height() {
    let adapter = MockAdapter::new(100);
    assert_eq!(validate_height(&adapter, 100), Ok(()));
    assert_eq!(validate_height(&adapter, 99), Ok(()));
    assert_eq!(validate_height(&adapter, 101), Err(AttestorError::BlockNotFinalized));
}

#[test]
fn each_policy_asks_about_its_own_client_and_path() {
    let adapter = MockAdapter::new(100);
    let packet = create_test_packet("client-1", "client-2", 5);

    let _ = handle_packet_commitment(&adapter, 100, &packet, CommitmentType::Packet);
    let _ = handle_ack_commitment(&adapter, 100, &packet, CommitmentType::Ack);
    let _ = handle_receipt_commitment(&adapter, 100, &packet, CommitmentType::Receipt);

    let queries = adapter.queries.lock().unwrap().clone();
    assert_eq!(
        queries,
        vec![
            (
                "client-1".to_string(),
                100,
                5,
                packet.commitment_path().to_vec(),
                CommitmentType::Packet
            ),
            (
                "client-2".to_string(),
                100,
                5,
                packet.ack_commitment_path().to_vec(),
                CommitmentType::Ack
            ),
            (
                "client-2".to_string(),
                100,
                5,
                packet.receipt_commitment_path().to_vec(),
                CommitmentType::Receipt
            ),
        ]
    );
}

#[test]
fn single_packet_is_judged_by_the_policy_of_the_commitment_type() {
    let adapter = MockAdapter::new(100);
    let packet = create_test_packet("client-1", "client-2", 5);
    adapter.set_commitment(
        "client-1".to_string(),
        100,
        5,
        CommitmentType::Packet,
        Some(expected_commitment(&packet)),
    );

    let attested =
        create_single_packet_attestation(&adapter, 100, &packet, CommitmentType::Packet).unwrap();
    assert_eq!(attested.path, keccak256(packet.commitment_path()).0);
    assert_eq!(attested.commitment, expected_commitment(&packet));

    // Nothing is stored for the acknowledgement, and nothing for the receipt.
    assert_eq!(
        create_single_packet_attestation(&adapter, 100, &packet, CommitmentType::Ack),
        Err(AttestorError::CommitmentNotFound {
            client_id: "client-2".to_string(),
            sequence: 5,
            height: 100
        })
    );
    let receipt =
        create_single_packet_attestation(&adapter, 100, &packet, CommitmentType::Receipt).unwrap();
    assert_eq!(receipt.path, keccak256(packet.receipt_commitment_path()).0);
    assert_eq!(receipt.commitment, [0u8; 32]);
}

#[test]
fn batch_asks_about_every_packet_in_the_order_of_the_request() {
    let adapter = MockAdapter::new(100);
    let packets: Vec<Packet> =
        (1..=4).map(|sequence| create_test_packet("client-1", "client-2", sequence)).collect();
    for packet in &packets {
        adapter.set_commitment(
            "client-1".to_string(),
            100,
            packet.sequence(),
            CommitmentType::Packet,
            Some(expected_commitment(packet)),
        );
    }

    let attestation = create_packets_attestation(
        &adapter,
        &Packets::new(packets.clone()),
        100,
        CommitmentType::Packet,
    )
    .unwrap();

    assert_eq!(attestation.height, 100);
    assert_eq!(attestation.packets.len(), 4);
    for (attested, packet) in attestation.packets.iter().zip(&packets) {
        assert_eq!(attested.path, keccak256(packet.commitment_path()).0);
        assert_eq!(attested.commitment, expected_commitment(packet));
    }
    let asked: Vec<u64> = adapter.queries.lock().unwrap().iter().map(|q| q.2).collect();
    assert_eq!(asked, vec![1, 2, 3, 4]);
}

#[test]
fn nothing_is_signed_when_a_packet_fails() {
    struct CountingSigner {
        calls: Arc<Mutex<u32>>,
    }
    impl Signer for CountingSigner {
        fn sign(&self, _message: &[u8]) -> Result<Signature, SignerError> {
            *self.calls.lock().unwrap() += 1;
            Ok(Signature::from_bytes(dummy_signature()))
        }
    }

    let adapter = MockAdapter::new(100);
    let good = create_test_packet("client-1", "client-2", 1);
    let bad = create_test_packet("client-1", "client-2", 2);
    adapter.set_commitment(
        "client-1".to_string(),
        100,
        1,
        CommitmentType::Packet,
        Some(expected_commitment(&good)),
    );
    let calls = Arc::new(Mutex::new(0));
    let signer = CountingSigner { calls: calls.clone() };
    let service = AttestorService::new(adapter, "mock", signer, "mock");

    let failed = service.packet_attestation(Packets::new(vec![good.clone(), bad]), 100, None);
    assert!(failed.is_err());
    assert_eq!(*calls.lock().unwrap(), 0);

    let not_final = service.packet_attestation(Packets::new(vec![good.clone()]), 101, None);
    assert_eq!(not_final, Err(AttestorError::BlockNotFinalized));
    assert_eq!(service.state_attestation(101), Err(AttestorError::BlockNotFinalized));
    assert_eq!(*calls.lock().unwrap(), 0);

    let passed = service.packet_attestation(Packets::new(vec![good]), 100, None);
    assert!(passed.is_ok());
    assert_eq!(*calls.lock().unwrap(), 1);
}
