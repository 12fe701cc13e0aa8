use ibc_attestor::adapter::{
    AdapterBuilder, AttestationAdapter, AttestationAdapterError, CommitmentType,
};
use ibc_attestor::error::AttestorError;
use ibc_attestor::rpc::attestor::AttestorService;
use ibc_attestor::signer::{Signature, Signer, SignerBuilder, SignerError};

/// An adapter for a chain that stands still at one height.
struct StillChain {
    height: u64,
}

#[derive(Clone)]
struct StillChainConfig {
    height: Option<u64>,
}

struct StillChainBuilder;

impl AttestationAdapter for StillChain {
    fn get_last_finalized_height(&self) -> Result<u64, AttestationAdapterError> {
        Ok(self.height)
    }

    fn get_block_timestamp(&self, height: u64) -> Result<u64, AttestationAdapterError> {
        Ok(1_700_000_000 + height)
    }

    fn get_commitment(
        &self,
        _client_id: String,
        _height: u64,
        _sequence: u64,
        _commitment_path: &[u8],
        _commitment_type: CommitmentType,
    ) -> Result<Option<[u8; 32]>, AttestationAdapterError> {
        Ok(None)
    }
}

impl AdapterBuilder for StillChainBuilder {
    type Config = StillChainConfig;
    type Adapter = StillChain;

    fn adapter_name() -> &'static str {
        "still"
    }

    fn build(config: Self::Config) -> Result<Self::Adapter, AttestationAdapterError> {
        match config.height {
            Some(height) => Ok(StillChain { height }),
            None => Err(AttestationAdapterError::ConfigError("no height".to_string())),
        }
    }
}

/// A signer that answers every message with the signature it was built with.
struct StampSigner {
    stamp: u8,
}

impl Signer for StampSigner {
    fn sign(&self, _message: &[u8]) -> Result<Signature, SignerError> {
        Ok(Signature::from_bytes([self.stamp; 65]))
    }
}

impl SignerBuilder for StampSigner {
    type Config = u8;
    type Signer = Self;

    fn signer_name() -> &'static str {
        "stamp"
    }

    fn build(config: Self::Config) -> Result<Self::Signer, SignerError> {
        if config == 0 {
            Err(SignerError::ConfigError("no stamp".to_string()))
        } else {
            Ok(StampSigner { stamp: config })
        }
    }
}

fn service_of<B: AdapterBuilder, S: SignerBuilder>(
    adapter: B::Config,
    signer: S::Config,
) -> Result<AttestorService<B::Adapter, S::Signer>, AttestorError> {
    let adapter = B::build(adapter)?;
    let signer = S::build(signer)?;
    Ok(AttestorService::new(adapter, B::adapter_name(), signer, S::signer_name()))
}

#[test]
fn service_is_built_from_an_adapter_and_a_signer() {
    let service =
        service_of::<StillChainBuilder, StampSigner>(StillChainConfig { height: Some(100) }, 9)
            .unwrap();
    assert_eq!(service.adapter_name(), "still");
    assert_eq!(service.signer_name(), "stamp");
    assert_eq!(service.latest_height(), Ok(100));

    let attestation = service.state_attestation(100).unwrap();
    assert_eq!(attestation.height, 100);
    assert_eq!(attestation.timestamp, Some(1_700_000_100));
    assert_eq!(attestation.signature, vec![9u8; 65]);
}

#[test]
fn builder_failures_become_attestor_errors() {
    let no_adapter =
        service_of::<StillChainBuilder, StampSigner>(StillChainConfig { height: None }, 9);
    assert_eq!(
        no_adapter.err(),
        Some(AttestorError::AdapterError(AttestationAdapterError::ConfigError(
            "no height".to_string()
        )))
    );
    let no_signer =
        service_of::<StillChainBuilder, StampSigner>(StillChainConfig { height: Some(1) }, 0);
    assert_eq!(
        no_signer.err(),
        Some(AttestorError::SignerInitError(SignerError::ConfigError("no stamp".to_string())))
    );
}
