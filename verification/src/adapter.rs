//! The chain adapter collaborator: the three queries the attestor makes of a
//! chain, and how an adapter's failures read.

use crate::text;
use vstd::prelude::*;

pub mod cosmos;
pub mod evm;
pub mod solana;

verus! {

/// The kind of commitment a packet attestation is about.
#[derive(Debug, Clone, Copy, PartialEq, Eq, Structural)]
pub enum CommitmentType {
    /// The commitment the sending chain stores for a packet.
    Packet,
    /// The commitment the receiving chain stores for an acknowledgement.
    Ack,
    /// The receipt the receiving chain stores once a packet has arrived.
    Receipt,
}

/// Errors that can occur while working with an attestation adapter.
#[derive(Debug, Clone, PartialEq, Eq)]
pub enum AttestationAdapterError {
    /// Cannot build adapter.
    ConfigError(String),
    /// Bad height.
    InvalidHeight,
    /// Requested block is not finalized.
    BlockNotFinalized,
    /// Unable to read chain state.
    RetrievalError(String),
    /// Malformed commitment.
    CommitmentError(String),
}

/// What an [`AttestationAdapterError`] holds.
pub enum AttestationAdapterErrorView {
    ConfigError(Seq<char>),
    InvalidHeight,
    BlockNotFinalized,
    RetrievalError(Seq<char>),
    CommitmentError(Seq<char>),
}

impl AttestationAdapterErrorView {
    /// The text of the error.
    pub open spec fn message(self) -> Seq<char> {
        match self {
            AttestationAdapterErrorView::ConfigError(detail) => {
                "Failed to build attestor adapter due to: "@ + detail
            },
            AttestationAdapterErrorView::InvalidHeight => "Invalid height used"@,
            AttestationAdapterErrorView::BlockNotFinalized => "Block not finalized"@,
            AttestationAdapterErrorView::RetrievalError(detail) => {
                "Error while retrieving data: "@ + detail
            },
            AttestationAdapterErrorView::CommitmentError(detail) => "Commitment error: "@ + detail,
        }
    }
}

impl View for AttestationAdapterError {
    type V = AttestationAdapterErrorView;

    open spec fn view(&self) -> AttestationAdapterErrorView {
        match self {
            AttestationAdapterError::ConfigError(detail) => {
                AttestationAdapterErrorView::ConfigError(detail@)
            },
            AttestationAdapterError::InvalidHeight => AttestationAdapterErrorView::InvalidHeight,
            AttestationAdapterError::BlockNotFinalized => {
                AttestationAdapterErrorView::BlockNotFinalized
            },
            AttestationAdapterError::RetrievalError(detail) => {
                AttestationAdapterErrorView::RetrievalError(detail@)
            },
            AttestationAdapterError::CommitmentError(detail) => {
                AttestationAdapterErrorView::CommitmentError(detail@)
            },
        }
    }
}

impl AttestationAdapterError {
    /// The text of the error.
    pub fn message(&self) -> (message: String)
        ensures
            message@ == self@.message(),
    {
        match self {
            AttestationAdapterError::ConfigError(detail) => text::prefixed(
                "Failed to build attestor adapter due to: ",
                detail.as_str(),
            ),
            AttestationAdapterError::InvalidHeight => String::from_str("Invalid height used"),
            AttestationAdapterError::BlockNotFinalized => String::from_str("Block not finalized"),
            AttestationAdapterError::RetrievalError(detail) => text::prefixed(
                "Error while retrieving data: ",
                detail.as_str(),
            ),
            AttestationAdapterError::CommitmentError(detail) => text::prefixed(
                "Commitment error: ",
                detail.as_str(),
            ),
        }
    }
}

/// What a query for a height or a timestamp came to.
pub open spec fn number_view(outcome: Result<u64, AttestationAdapterError>) -> Result<
    u64,
    AttestationAdapterErrorView,
> {
    match outcome {
        Ok(number) => Ok(number),
        Err(error) => Err(error@),
    }
}

/// What a query for a commitment came to: the 32 bytes found, `None` where
/// the chain provably holds nothing, or the adapter's error.
pub open spec fn commitment_view(
    outcome: Result<Option<[u8; 32]>, AttestationAdapterError>,
) -> Result<Option<Seq<u8>>, AttestationAdapterErrorView> {
    match outcome {
        Ok(Some(commitment)) => Ok(Some(commitment@)),
        Ok(None) => Ok(None),
        Err(error) => Err(error@),
    }
}

/// The queries an attestor makes of a chain.
///
/// The three `may_` functions say which answers an adapter can give. They are
/// for each adapter to define, and one that defines none is taken to be
/// capable of every answer. The attestor uses them only to state which
/// queries it made.
pub trait AttestationAdapter: Sync + Send + 'static {
    /// Whether a query for the last finalized height may come to `outcome`.
    open spec fn may_report_finalized_height(
        &self,
        outcome: Result<u64, AttestationAdapterErrorView>,
    ) -> bool {
        true
    }

    /// Whether a query for the timestamp of the block at `height` may come to
    /// `outcome`.
    open spec fn may_report_block_timestamp(
        &self,
        height: u64,
        outcome: Result<u64, AttestationAdapterErrorView>,
    ) -> bool {
        true
    }

    /// Whether a query for a commitment may come to `outcome`.
    open spec fn may_report_commitment(
        &self,
        client_id: Seq<char>,
        height: u64,
        sequence: u64,
        commitment_path: Seq<u8>,
        commitment_type: CommitmentType,
        outcome: Result<Option<Seq<u8>>, AttestationAdapterErrorView>,
    ) -> bool {
        true
    }

    /// Fetches the height of the last finalized block. If there is no
    /// finalized block yet, it returns an error.
    fn get_last_finalized_height(&self) -> (outcome: Result<u64, AttestationAdapterError>)
        ensures
            self.may_report_finalized_height(number_view(outcome)),
    ;

    /// Returns a UNIX timestamp in seconds for the provided block height.
    fn get_block_timestamp(&self, height: u64) -> (outcome: Result<
        u64,
        AttestationAdapterError,
    >)
        ensures
            self.may_report_block_timestamp(height, number_view(outcome)),
    ;

    /// Gets the commitment at some block height.
    ///
    /// Returns `Ok(None)` if the commitment was not found.
    fn get_commitment(
        &self,
        client_id: String,
        height: u64,
        sequence: u64,
        commitment_path: &[u8],
        commitment_type: CommitmentType,
    ) -> (outcome: Result<Option<[u8; 32]>, AttestationAdapterError>)
        ensures
            self.may_report_commitment(
                client_id@,
                height,
                sequence,
                commitment_path@,
                commitment_type,
                commitment_view(outcome),
            ),
    ;
}

/// Builds an [`AttestationAdapter`] from its configuration.
pub trait AdapterBuilder {
    /// Configuration of the adapter.
    type Config: Clone;

    /// Adapter to be created.
    type Adapter: AttestationAdapter;

    /// Returns the name of the adapter for logging and observability purposes.
    fn adapter_name() -> &'static str;

    /// Builds the adapter.
    fn build(config: Self::Config) -> Result<Self::Adapter, AttestationAdapterError>;
}

/// What a block time in signed seconds is as a UNIX timestamp: itself when it
/// is not negative, else a retrieval error.
pub open spec fn timestamp_of(seconds: i64) -> Result<u64, AttestationAdapterErrorView> {
    if seconds >= 0 {
        Ok(seconds as u64)
    } else {
        Err(
            AttestationAdapterErrorView::RetrievalError(
                "out of range integral type conversion attempted"@,
            ),
        )
    }
}

/// Turns a block time in signed seconds into a UNIX timestamp.
///
/// Chains report block times as signed numbers. A negative one cannot be a
/// timestamp and is a retrieval error.
pub fn unix_timestamp(seconds: i64) -> (out: Result<u64, AttestationAdapterError>)
    ensures
        number_view(out) == timestamp_of(seconds),
        out is Ok <==> seconds >= 0,
{
    if seconds >= 0 {
        Ok(seconds as u64)
    } else {
        Err(
            AttestationAdapterError::RetrievalError(
                String::from_str("out of range integral type conversion attempted"),
            ),
        )
    }
}

} // verus!
