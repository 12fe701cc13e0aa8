//! The signer collaborator: what it is asked, what it may answer, and how its
//! failures read.

use crate::text;
use vstd::prelude::*;

pub mod remote;

verus! {

/// A 65-byte recoverable ECDSA signature: 32 bytes of `r`, 32 bytes of `s`,
/// and one byte of recovery id.
#[derive(Debug, Clone, Copy, PartialEq, Eq)]
pub struct Signature {
    bytes: [u8; 65],
}

impl View for Signature {
    type V = Seq<u8>;

    closed spec fn view(&self) -> Seq<u8> {
        self.bytes@
    }
}

impl Signature {
    /// A signature is always 65 bytes long.
    pub proof fn lemma_len(&self)
        ensures
            self@.len() == 65,
    {
    }

    /// Wraps the 65 bytes of a signature.
    pub fn from_bytes(bytes: [u8; 65]) -> (signature: Self)
        ensures
            signature@ == bytes@,
    {
        Self { bytes }
    }

    /// The 65 bytes of the signature.
    pub fn as_bytes(&self) -> (bytes: [u8; 65])
        ensures
            bytes@ == self@,
    {
        self.bytes
    }

    /// The 65 bytes of the signature, as an owned vector.
    pub fn to_vec(&self) -> (bytes: Vec<u8>)
        ensures
            bytes@ == self@,
    {
        let mut bytes: Vec<u8> = Vec::with_capacity(65);
        let mut i: usize = 0;
        while i < 65
            invariant
                i <= 65,
                bytes@ == self.bytes@.subrange(0, i as int),
            decreases 65 - i,
        {
            bytes.push(self.bytes[i]);
            i = i + 1;
        }
        bytes
    }
}

/// Errors that can occur during signing operations.
#[derive(Debug, Clone, PartialEq, Eq)]
pub enum SignerError {
    /// Error with local signer.
    LocalError(String),
    /// Error with remote signer.
    RemoteError(String),
    /// Unable to connect to remote signer.
    ConnectionError(String),
    /// Bad signature.
    InvalidSignature(String),
    /// Bad or missing config.
    ConfigError(String),
}

/// What a [`SignerError`] holds.
pub enum SignerErrorView {
    LocalError(Seq<char>),
    RemoteError(Seq<char>),
    ConnectionError(Seq<char>),
    InvalidSignature(Seq<char>),
    ConfigError(Seq<char>),
}

impl SignerErrorView {
    /// The text of the error.
    pub open spec fn message(self) -> Seq<char> {
        match self {
            SignerErrorView::LocalError(detail) => "Local signing error: "@ + detail,
            SignerErrorView::RemoteError(detail) => "Remote signing error: "@ + detail,
            SignerErrorView::ConnectionError(detail) => "Connection failed: "@ + detail,
            SignerErrorView::InvalidSignature(detail) => "Invalid signature format: "@ + detail,
            SignerErrorView::ConfigError(detail) => "Failed to build signer due to: "@ + detail,
        }
    }
}

impl View for SignerError {
    type V = SignerErrorView;

    open spec fn view(&self) -> SignerErrorView {
        match self {
            SignerError::LocalError(detail) => SignerErrorView::LocalError(detail@),
            SignerError::RemoteError(detail) => SignerErrorView::RemoteError(detail@),
            SignerError::ConnectionError(detail) => SignerErrorView::ConnectionError(detail@),
            SignerError::InvalidSignature(detail) => SignerErrorView::InvalidSignature(detail@),
            SignerError::ConfigError(detail) => SignerErrorView::ConfigError(detail@),
        }
    }
}

impl SignerError {
    /// The text of the error.
    pub fn message(&self) -> (message: String)
        ensures
            message@ == self@.message(),
    {
        match self {
            SignerError::LocalError(detail) => text::prefixed(
                "Local signing error: ",
                detail.as_str(),
            ),
            SignerError::RemoteError(detail) => text::prefixed(
                "Remote signing error: ",
                detail.as_str(),
            ),
            SignerError::ConnectionError(detail) => text::prefixed(
                "Connection failed: ",
                detail.as_str(),
            ),
            SignerError::InvalidSignature(detail) => text::prefixed(
                "Invalid signature format: ",
                detail.as_str(),
            ),
            SignerError::ConfigError(detail) => text::prefixed(
                "Failed to build signer due to: ",
                detail.as_str(),
            ),
        }
    }
}

/// What a signing request came to: the signature, or the signer's error.
pub open spec fn outcome_view(outcome: Result<Signature, SignerError>) -> Result<
    Seq<u8>,
    SignerErrorView,
> {
    match outcome {
        Ok(signature) => Ok(signature@),
        Err(error) => Err(error@),
    }
}

/// Signs attestation messages. A local keystore and a remote signing service
/// are the two kinds in use.
pub trait Signer: Send + Sync + 'static {
    /// Whether signing `message` may come to `outcome`.
    ///
    /// It is for each signer to say. One that does not say is taken to be
    /// capable of every outcome. The attestor uses the relation only to state
    /// which message it asked to have signed.
    open spec fn may_sign(
        &self,
        message: Seq<u8>,
        outcome: Result<Seq<u8>, SignerErrorView>,
    ) -> bool {
        true
    }

    /// Signs a message and returns the signature.
    ///
    /// The message is the 33-byte tagged signing input. The signer hashes it
    /// with SHA-256 once more before applying its signature scheme.
    fn sign(&self, message: &[u8]) -> (outcome: Result<Signature, SignerError>)
        ensures
            self.may_sign(message@, outcome_view(outcome)),
    ;
}

/// A signer that answers one message in one way only.
pub open spec fn is_deterministic<S: Signer>(signer: &S) -> bool {
    forall|
        message: Seq<u8>,
        first: Result<Seq<u8>, SignerErrorView>,
        second: Result<Seq<u8>, SignerErrorView>,
    |
        #![trigger signer.may_sign(message, first), signer.may_sign(message, second)]
        signer.may_sign(message, first) && signer.may_sign(message, second) ==> first == second
}

/// Builds a signer from its configuration.
pub trait SignerBuilder {
    /// Configuration needed for the signer.
    type Config: Clone + Send + 'static;

    /// The signer that is built.
    type Signer: Signer;

    /// Returns the name of the signer for logging and observability purposes.
    fn signer_name() -> &'static str;

    /// Builds the signer.
    fn build(config: Self::Config) -> Result<Self::Signer, SignerError>;
}

/// Whether a recovery byte is one of the known encodings: bare (0 or 1),
/// shifted by 27, or with a chain id folded in (35 and above).
pub open spec fn is_recovery_byte(byte: u8) -> bool {
    byte == 0 || byte == 1 || byte == 27 || byte == 28 || byte >= 35
}

/// The recovery byte in the encoding shifted by 27, which is the one a
/// [`Signature`] carries.
pub open spec fn normal_recovery_byte(byte: u8) -> u8 {
    if byte <= 1 {
        (27 + byte % 2) as u8
    } else {
        (28 - byte % 2) as u8
    }
}

/// Calls `alloy_primitives::Signature::try_from` on a raw signature, and
/// `as_bytes` on what it gives. Trusted: a signature is given exactly when the
/// last byte is a known recovery byte; it keeps `r` and `s` and carries the
/// recovery byte shifted by 27. Otherwise the error reads `invalid parity: `
/// and the byte in decimal.
#[verifier::external_body]
pub(crate) fn parse_raw_signature(raw: &[u8]) -> (out: Result<Signature, String>)
    requires
        raw@.len() == 65,
    ensures
        match out {
            Ok(signature) => is_recovery_byte(raw@[64]) && signature@ == raw@.subrange(0, 64).push(
                normal_recovery_byte(raw@[64]),
            ),
            Err(detail) => !is_recovery_byte(raw@[64]) && detail@ == "invalid parity: "@
                + text::decimal(raw@[64] as nat),
        },
{
    match alloy_primitives::Signature::try_from(raw) {
        Ok(signature) => Ok(Signature { bytes: signature.as_bytes() }),
        Err(error) => Err(error.to_string()),
    }
}

} // verus!
