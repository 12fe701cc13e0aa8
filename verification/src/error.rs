//! The attestor's own errors and the class each falls under.

use crate::adapter::{AttestationAdapterError, AttestationAdapterErrorView};
use crate::signer::{SignerError, SignerErrorView};
use crate::text;
use vstd::prelude::*;

verus! {

/// Errors that can occur while working with the attestor.
#[derive(Debug, Clone, PartialEq, Eq)]
pub enum AttestorError {
    /// Requested block is not finalized.
    BlockNotFinalized,
    /// A commitment is on chain but is not the one required.
    InvalidCommitment {
        /// Why the commitment is bad.
        reason: String,
    },
    /// Missing commitment.
    CommitmentNotFound {
        /// Client id.
        client_id: String,
        /// Sequence number.
        sequence: u64,
        /// Block height.
        height: u64,
    },
    /// Failed to sign data.
    SignerError(String),
    /// Failed to initialize signer.
    SignerInitError(SignerError),
    /// Failed to decode a packet.
    AbiError(String),
    /// Failed to retrieve data from adapter.
    AdapterError(AttestationAdapterError),
}

/// What an [`AttestorError`] holds.
pub enum AttestorErrorView {
    BlockNotFinalized,
    InvalidCommitment { reason: Seq<char> },
    CommitmentNotFound { client_id: Seq<char>, sequence: u64, height: u64 },
    SignerError(Seq<char>),
    SignerInitError(SignerErrorView),
    AbiError(Seq<char>),
    AdapterError(AttestationAdapterErrorView),
}

/// The class of an error, by which a transport picks its response code.
#[derive(Debug, Clone, Copy, PartialEq, Eq, Structural)]
pub enum StatusCode {
    /// The request cannot be served in the chain's present state.
    FailedPrecondition,
    /// What was asked about is not on chain.
    NotFound,
    /// What is on chain contradicts the request.
    InvalidArgument,
    /// A collaborator failed, or the input could not be decoded.
    Internal,
}

impl AttestorErrorView {
    /// The text of the error.
    pub open spec fn message(self) -> Seq<char> {
        match self {
            AttestorErrorView::BlockNotFinalized => "Block is not finalized"@,
            AttestorErrorView::InvalidCommitment { reason } => {
                "Packet commitment found but invalid due to: "@ + reason
            },
            AttestorErrorView::CommitmentNotFound { client_id, sequence, height } => {
                "Commitment not found client_id="@ + client_id + ", sequence="@ + text::decimal(
                    sequence as nat,
                ) + " at height="@ + text::decimal(height as nat)
            },
            AttestorErrorView::SignerError(detail) => "Failed to sign attestation due to: "@
                + detail,
            AttestorErrorView::SignerInitError(error) => "Signer initialization failed: "@
                + error.message(),
            AttestorErrorView::AbiError(detail) => "AbiError: "@ + detail,
            AttestorErrorView::AdapterError(error) => "AdapterError: "@ + error.message(),
        }
    }

    /// The class of the error.
    pub open spec fn status_code(self) -> StatusCode {
        match self {
            AttestorErrorView::BlockNotFinalized => StatusCode::FailedPrecondition,
            AttestorErrorView::CommitmentNotFound { .. } => StatusCode::NotFound,
            AttestorErrorView::InvalidCommitment { .. } => StatusCode::InvalidArgument,
            _ => StatusCode::Internal,
        }
    }
}

impl View for AttestorError {
    type V = AttestorErrorView;

    open spec fn view(&self) -> AttestorErrorView {
        match self {
            AttestorError::BlockNotFinalized => AttestorErrorView::BlockNotFinalized,
            AttestorError::InvalidCommitment { reason } => AttestorErrorView::InvalidCommitment {
                reason: reason@,
            },
            AttestorError::CommitmentNotFound {
                client_id,
                sequence,
                height,
            } => AttestorErrorView::CommitmentNotFound {
                client_id: client_id@,
                sequence: *sequence,
                height: *height,
            },
            AttestorError::SignerError(detail) => AttestorErrorView::SignerError(detail@),
            AttestorError::SignerInitError(error) => AttestorErrorView::SignerInitError(error@),
            AttestorError::AbiError(detail) => AttestorErrorView::AbiError(detail@),
            AttestorError::AdapterError(error) => AttestorErrorView::AdapterError(error@),
        }
    }
}

impl AttestorError {
    /// The text of the error.
    pub fn message(&self) -> (message: String)
        ensures
            message@ == self@.message(),
    {
        match self {
            AttestorError::BlockNotFinalized => String::from_str("Block is not finalized"),
            AttestorError::InvalidCommitment { reason } => text::prefixed(
                "Packet commitment found but invalid due to: ",
                reason.as_str(),
            ),
            AttestorError::CommitmentNotFound { client_id, sequence, height } => {
                let mut message = text::prefixed(
                    "Commitment not found client_id=",
                    client_id.as_str(),
                );
                message.append(", sequence=");
                message.append(text::decimal_string(*sequence).as_str());
                message.append(" at height=");
                message.append(text::decimal_string(*height).as_str());
                message
            },
            AttestorError::SignerError(detail) => text::prefixed(
                "Failed to sign attestation due to: ",
                detail.as_str(),
            ),
            AttestorError::SignerInitError(error) => text::prefixed(
                "Signer initialization failed: ",
                error.message().as_str(),
            ),
            AttestorError::AbiError(detail) => text::prefixed("AbiError: ", detail.as_str()),
            AttestorError::AdapterError(error) => text::prefixed(
                "AdapterError: ",
                error.message().as_str(),
            ),
        }
    }

    /// The class of the error: an unfinalized height is a failed
    /// precondition, a missing commitment is not found, a commitment that
    /// breaks the policy is an invalid argument, and everything else is
    /// internal.
    pub fn status_code(&self) -> (code: StatusCode)
        ensures
            code == self@.status_code(),
    {
        match self {
            AttestorError::BlockNotFinalized => StatusCode::FailedPrecondition,
            AttestorError::CommitmentNotFound { .. } => StatusCode::NotFound,
            AttestorError::InvalidCommitment { .. } => StatusCode::InvalidArgument,
            _ => StatusCode::Internal,
        }
    }
}

impl From<SignerError> for AttestorError {
    fn from(error: SignerError) -> (out: Self) {
        AttestorError::SignerInitError(error)
    }
}

impl vstd::std_specs::convert::FromSpecImpl<SignerError> for AttestorError {
    open spec fn obeys_from_spec() -> bool {
        true
    }

    open spec fn from_spec(error: SignerError) -> Self {
        AttestorError::SignerInitError(error)
    }
}

impl From<AttestationAdapterError> for AttestorError {
    fn from(error: AttestationAdapterError) -> (out: Self) {
        AttestorError::AdapterError(error)
    }
}

impl vstd::std_specs::convert::FromSpecImpl<AttestationAdapterError> for AttestorError {
    open spec fn obeys_from_spec() -> bool {
        true
    }

    open spec fn from_spec(error: AttestationAdapterError) -> Self {
        AttestorError::AdapterError(error)
    }
}

} // verus!
